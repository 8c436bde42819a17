//! Primitive kinds and the choice of a kind from a random roll.
use vstd::prelude::*;

use crate::rng::rng_u32_up_to;

verus! {

/// The kind of signed-distance primitive that the shader draws.
/// Its number on the GPU is its position in this list, from `MIN_VALUE`
/// to `MAX_VALUE`.
#[derive(Debug, Clone, Copy, PartialEq, Eq, Structural)]
pub enum Typus {
    BoxFrame,
    Ellipsoid,
}

impl Typus {
    /// The smallest number that stands for a kind.
    pub const MIN_VALUE: u32 = 0;

    /// The largest number that stands for a kind.
    pub const MAX_VALUE: u32 = 1;

    /// The number by which the shader knows this kind.
    pub open spec fn code(self) -> u32 {
        match self {
            Typus::BoxFrame => 0,
            Typus::Ellipsoid => 1,
        }
    }
}

impl Default for Typus {
    /// A fresh primitive is a box frame, the kind with the smallest number.
    fn default() -> (r: Typus)
        ensures
            r == Typus::BoxFrame,
            r.code() == Typus::MIN_VALUE,
    {
        Typus::BoxFrame
    }
}

/// The kind that a respawned primitive takes for a roll of the generator.
/// A roll of 0 makes it an ellipsoid and a roll of 1 a box frame (these
/// rolls need not equal the kinds' own numbers); any other roll leaves the
/// kind as it was, which `None` stands for.
pub open spec fn typus_for_roll_spec(roll: u32) -> Option<Typus> {
    if roll == 0 {
        Some(Typus::Ellipsoid)
    } else if roll == 1 {
        Some(Typus::BoxFrame)
    } else {
        None
    }
}

/// Maps a roll of the generator to the kind that a respawned primitive takes.
pub fn typus_for_roll(roll: u32) -> (r: Option<Typus>)
    ensures
        r == typus_for_roll_spec(roll),
{
    match roll {
        0 => Some(Typus::Ellipsoid),
        1 => Some(Typus::BoxFrame),
        _ => None,
    }
}

/// Draws a roll in `0..=Typus::MAX_VALUE` from `rng` and maps it to a kind.
/// Whatever the generator yields, the roll lies in that range, so a kind is
/// always chosen.
pub fn roll_typus(rng: &fastrand::Rng) -> (r: Option<Typus>)
    ensures
        r is Some,
        exists|roll: u32| roll <= Typus::MAX_VALUE && r == typus_for_roll_spec(roll),
{
    let roll = rng_u32_up_to(rng, Typus::MAX_VALUE);
    typus_for_roll(roll)
}

/// Every kind has a number in `MIN_VALUE..=MAX_VALUE`, and every number in
/// that range is the number of exactly one kind.
pub proof fn lemma_typus_codes_contiguous(t: Typus, u: Typus, v: u32)
    ensures
        Typus::MIN_VALUE <= t.code() <= Typus::MAX_VALUE,
        t.code() == u.code() ==> t == u,
        Typus::MIN_VALUE <= v <= Typus::MAX_VALUE ==> exists|w: Typus| w.code() == v,
{
    if v == 0 {
        assert(Typus::BoxFrame.code() == v);
    } else if v == 1 {
        assert(Typus::Ellipsoid.code() == v);
    }
}

/// Every roll that the generator may give for the range
/// `0..=Typus::MAX_VALUE` chooses a kind.
pub proof fn lemma_every_roll_chooses(roll: u32)
    requires
        roll <= Typus::MAX_VALUE,
    ensures
        typus_for_roll_spec(roll) is Some,
{
}

/// Between the rolls `0..=Typus::MAX_VALUE` and the kinds the map is one to
/// one: each kind is chosen by exactly one roll, and different rolls choose
/// different kinds.
pub proof fn lemma_rolls_and_kinds_correspond(roll: u32, other: u32, t: Typus)
    ensures
        roll <= Typus::MAX_VALUE && other <= Typus::MAX_VALUE && roll != other
            ==> typus_for_roll_spec(roll) != typus_for_roll_spec(other),
        exists|r: u32| r <= Typus::MAX_VALUE && #[trigger] typus_for_roll_spec(r) == Some(t),
{
    match t {
        Typus::Ellipsoid => assert(typus_for_roll_spec(0) == Some(t)),
        Typus::BoxFrame => assert(typus_for_roll_spec(1) == Some(t)),
    }
}

/// The first index whose primitive has passed the despawn line, if any.
/// `past_line[i]` tells whether primitive `i` has gone beyond it.
pub fn first_spawnable_index(past_line: &Vec<bool>) -> (r: Option<usize>)
    ensures
        match r {
            Some(i) => i < past_line@.len() && past_line@[i as int] && forall|j: int|
                0 <= j < i ==> !past_line@[j],
            None => forall|j: int| 0 <= j < past_line@.len() ==> !past_line@[j],
        },
{
    let mut i: usize = 0;
    while i < past_line.len()
        invariant
            i <= past_line@.len(),
            forall|j: int| 0 <= j < i ==> !past_line@[j],
        decreases past_line@.len() - i,
    {
        if past_line[i] {
            return Some(i);
        }
        i = i + 1;
    }
    None
}

} // verus!
