//! The integer-valued rules of an SDF fly-through game: the kinds of
//! signed-distance primitives and how a random roll picks one, the shader
//! effects, the input handling of a running level, the scene state of the
//! game, and the search for a primitive that may be spawned again.
use vstd::prelude::*;

pub mod camera;
pub mod controller;
pub mod game;
pub mod level;
pub mod primitives;
pub mod rng;
