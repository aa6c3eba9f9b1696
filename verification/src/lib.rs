//! Deterministic core of a side-scrolling gap-dodging game.
//!
//! All simulation state lives in fixed-point integers so that a recorded
//! input sequence replays to a bit-identical trajectory.  Rendering, input
//! polling and timing are left to the surrounding program; this crate owns
//! the physics step, obstacle generation, collision test, replay handling
//! and score bookkeeping.

pub mod field;
pub mod laws;
pub mod objects;
pub mod session;
pub mod fxpt;
pub mod geom;
pub mod rng;
