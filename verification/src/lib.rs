//! Rules of a small third-person walking game: the player's state machine, its
//! collider and animation bookkeeping, the camera and cursor decisions, and the
//! layout of the desert town. Lengths are whole millimetres, speeds millimetres
//! per second and durations milliseconds; the engine side turns them into floats.
use vstd::prelude::*;

pub mod tuning;
pub mod state;
pub mod camera;
pub mod movement;
pub mod posture;
pub mod animation;
pub mod cursor;
pub mod world;

verus! {

} // verus!
