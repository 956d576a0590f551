//! A small, engine-agnostic movement core for a 2D game: logical input
//! actions with edge detection, a velocity resolver that turns directional
//! actions into a normalized velocity, a fixed-timestep position integrator,
//! and a minimal component world holding the single player entity.
//!
//! All speeds are integer world units per second. To keep the arithmetic
//! exact, a coordinate is carried as two integer coefficients
//! `(units, diag_units)` standing for the value
//! `units + diag_units * sqrt(2)/2`: a normalized diagonal direction has
//! components of exactly `sqrt(2)/2`, so every velocity and every integrated
//! position this library produces lives in that lattice.

use vstd::prelude::*;

pub mod action;
pub mod position;
pub mod timestep;
pub mod velocity;
pub mod world;

verus! {

/// Default number of fixed simulation ticks per second.
pub const FRAME_RATE: u32 = 60;

} // verus!
