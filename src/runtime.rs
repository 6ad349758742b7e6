pub mod pacing;
pub mod step;
