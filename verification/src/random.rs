//! The source of chance of the simulation: a generator that its owner
//! starts from chance or from a seed, and that is handed to whatever draws.

use rand::rngs::StdRng;
use rand::{Rng, SeedableRng};
use vstd::prelude::*;

verus! {

/// `rand::rngs::StdRng`, the standard generator of the `rand` crate. Nothing
/// is known of what it holds.
#[verifier::external_type_specification]
#[verifier::external_body]
pub struct ExStdRng(StdRng);

/// A source of random numbers.
pub struct Generator {
    rng: StdRng,
}

impl Generator {
    /// A generator that starts where chance has it.
    pub fn new() -> Self {
        Generator { rng: rng_from_chance() }
    }

    /// A generator that starts from `seed`.
    pub fn seeded(seed: u64) -> Self {
        Generator { rng: rng_from_seed(seed) }
    }

    /// Draws a number from `low` to `high`, both included.
    pub fn between(&mut self, low: u64, high: u64) -> (drawn: u64)
        requires
            low <= high,
        ensures
            low <= drawn <= high,
    {
        draw_between(&mut self.rng, low, high)
    }
}

/// Makes a generator by `SeedableRng::from_rng` on the thread-local
/// generator `rand::rng()`. Trusted; nothing is claimed of the generator
/// made.
#[verifier::external_body]
fn rng_from_chance() -> StdRng {
    StdRng::from_rng(&mut rand::rng())
}

/// Makes a generator by `SeedableRng::seed_from_u64`. Trusted; nothing is
/// claimed of the generator made.
#[verifier::external_body]
fn rng_from_seed(seed: u64) -> StdRng {
    StdRng::seed_from_u64(seed)
}

/// Draws a number by `Rng::random_range` on the closed range from `low` to
/// `high`.
///
/// Trusted, not proved: the number drawn lies in that range. `random_range`
/// panics on an empty range, so the range must hold at least one number.
/// Nothing is claimed of how the draws are distributed, nor of the state
/// in which the generator is left.
#[verifier::external_body]
fn draw_between(rng: &mut StdRng, low: u64, high: u64) -> (drawn: u64)
    requires
        low <= high,
    ensures
        low <= drawn <= high,
{
    rng.random_range(low..=high)
}

} // verus!
