//! The kind of star system that the game takes place in.
use rand::rngs::ThreadRng;
use vstd::prelude::*;

verus! {

/// The thread-local random number generator of `rand`.
#[verifier::external_type_specification]
#[verifier::external_body]
pub struct ExThreadRng(ThreadRng);

/// Calls `rand::Rng::gen_range` with the bounds `low` and `high`. Its source
/// in `rand` samples uniformly from `low` up to but not including `high`,
/// and panics unless `low < high`; which value comes out is left to chance.
#[verifier::external_body]
fn gen_range(rng: &mut ThreadRng, low: u32, high: u32) -> (value: u32)
    requires
        low < high,
    ensures
        low <= value < high,
{
    rand::Rng::gen_range(rng, low, high)
}

/// What a star system mostly holds.
#[derive(Debug, Copy, Clone, PartialEq, Eq, Structural)]
pub enum SystemType {
    Asteroids,
    Planetoid,
    Nebula,
    BlackHole,
}

/// The kind of system that a roll of a hundred-sided die (0 to 100) gives.
pub open spec fn system_type_for_roll(roll: u32) -> SystemType {
    if roll <= 29 {
        SystemType::Asteroids
    } else if roll <= 59 {
        SystemType::Planetoid
    } else if roll <= 89 {
        SystemType::Nebula
    } else {
        SystemType::BlackHole
    }
}

impl SystemType {
    /// The kind of system for a roll from 0 to 100: 30 in 100 asteroid
    /// fields, 30 planetoids, 30 nebulae and 10 black holes.
    pub fn from_roll(roll: u32) -> (system_type: Self)
        requires
            roll <= 100,
        ensures
            system_type == system_type_for_roll(roll),
    {
        if roll <= 29 {
            SystemType::Asteroids
        } else if roll <= 59 {
            SystemType::Planetoid
        } else if roll <= 89 {
            SystemType::Nebula
        } else {
            SystemType::BlackHole
        }
    }

    /// A kind of system chosen at random: a roll from 0 to 99, as `from_roll` reads it.
    pub fn random(rng: &mut ThreadRng) -> (system_type: Self)
        ensures
            exists|roll: u32| roll < 100 && system_type == system_type_for_roll(roll),
    {
        let roll = gen_range(rng, 0, 100);
        Self::from_roll(roll)
    }
}

/// How many asteroids a new star system gets: at least five and fewer than ten,
/// the number left to chance.
pub fn asteroid_count(rng: &mut ThreadRng) -> (count: u32)
    ensures
        5 <= count < 10,
{
    gen_range(rng, 5, 10)
}

} // verus!
