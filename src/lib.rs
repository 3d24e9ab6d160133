//! A fixed-timestep breakout simulation: paddle motion, ball integration,
//! box collisions with walls, paddle and bricks, and score keeping.
//!
//! Coordinates are integers in sub-pixel units and time is counted in
//! ticks, so every step of the simulation is exact.
use vstd::prelude::*;

pub mod geometry;
pub mod collision;
pub mod motion;
pub mod arena;
pub mod world;
pub mod setup;

verus! {

} // verus!
