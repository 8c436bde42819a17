//! The screen-space effects that the camera uniform hands to the shader, and
//! the keys that move the camera.
use vstd::prelude::*;

verus! {

/// A post effect of the renderer; the shader knows it by its position in
/// this list.
#[derive(Debug, Clone, Copy, PartialEq, Eq, Structural)]
pub enum Effect {
    NoEffect,
    GlassyOnion,
    GlowOff,
    CleanFromWater,
    BlackBody,
    WhiteBody,
}

impl Effect {
    /// The number by which the shader knows this effect.
    pub open spec fn code(self) -> u32 {
        match self {
            Effect::NoEffect => 0,
            Effect::GlassyOnion => 1,
            Effect::GlowOff => 2,
            Effect::CleanFromWater => 3,
            Effect::BlackBody => 4,
            Effect::WhiteBody => 5,
        }
    }
}

impl Default for Effect {
    /// The camera starts without an effect.
    fn default() -> (r: Effect)
        ensures
            r == Effect::NoEffect,
            r.code() == 0,
    {
        Effect::NoEffect
    }
}

/// A key as the camera controller sees it: the keys that move the camera,
/// and any other.
#[derive(Debug, Clone, Copy, PartialEq, Eq, Structural)]
pub enum MoveKey {
    W,
    Up,
    S,
    Down,
    A,
    Left,
    D,
    Right,
    Other,
}

/// A direction in which a held key moves the camera.
#[derive(Debug, Clone, Copy, PartialEq, Eq, Structural)]
pub enum Movement {
    Up,
    Down,
    Left,
    Right,
}

/// The direction that a key moves the camera in: `W` and the up arrow move
/// it up, `S` and the down arrow down, `A` and the left arrow left, `D` and
/// the right arrow right; other keys do not move it.
pub open spec fn movement_of(key: MoveKey) -> Option<Movement> {
    match key {
        MoveKey::W | MoveKey::Up => Some(Movement::Up),
        MoveKey::S | MoveKey::Down => Some(Movement::Down),
        MoveKey::A | MoveKey::Left => Some(Movement::Left),
        MoveKey::D | MoveKey::Right => Some(Movement::Right),
        MoveKey::Other => None,
    }
}

/// The direction that a key moves the camera in, if any; the controller
/// handles exactly the keys that have one.
pub fn movement_for_key(key: MoveKey) -> (r: Option<Movement>)
    ensures
        r == movement_of(key),
{
    match key {
        MoveKey::W | MoveKey::Up => Some(Movement::Up),
        MoveKey::S | MoveKey::Down => Some(Movement::Down),
        MoveKey::A | MoveKey::Left => Some(Movement::Left),
        MoveKey::D | MoveKey::Right => Some(Movement::Right),
        MoveKey::Other => None,
    }
}

} // verus!
