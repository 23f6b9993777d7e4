//! A two-dimensional asteroid arena: geometry, intersection tests, entity
//! pools and collision physics, all in integer fixed-point units.
use vstd::prelude::*;

pub mod fixed;
pub mod shapes;
pub mod intersect;
pub mod game_objects;
pub mod physics;

verus! {

} // verus!
