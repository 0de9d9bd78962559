//! Simulation core of a two-paddle ball game.
//!
//! Positions and velocities are fixed-point numbers in hundredths of a pixel,
//! so every value the game reaches is exact and the per-tick arithmetic is
//! proved free of overflow.
use vstd::prelude::*;

pub mod fixed;
pub mod state;
pub mod physics;
pub mod control;
pub mod render;
pub mod game;

pub use game::{init, update};
pub use render::draw;
