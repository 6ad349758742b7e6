//! Keyboard-driven cursor motion: the discrete side of the pipeline.
//!
//! Held directional keys, speed modes and the activation latch are modelled
//! here as plain values with proved transitions; the numeric motion itself
//! (velocities and positions) is carried through as an opaque vector type.
pub mod config;
pub mod error;
pub mod model;
pub mod platform;
pub mod runtime;
mod text;

pub use error::Error;
