pub mod motion;
pub mod state;
pub mod types;

pub use motion::{CurveKind, TickPlan};
pub use state::{AppState, DirectionSet, InputState, Mode};
pub use types::Direction;
