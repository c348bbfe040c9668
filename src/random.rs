use vstd::prelude::*;
use rand::rngs::StdRng;
use rand::{Rng, RngCore, SeedableRng};

verus! {

#[verifier::external_type_specification]
#[verifier::external_body]
pub struct ExStdRng(StdRng);

/// Relies on rand's `SeedableRng::seed_from_u64` for `StdRng`: a generator
/// fixed by the seed.
#[verifier::external_body]
fn seeded(seed: u64) -> (r: StdRng) {
    StdRng::seed_from_u64(seed)
}

/// Relies on rand's `Rng::gen_range`: a value of the half-open range, which
/// must not be empty.
#[verifier::external_body]
fn draw_below(rng: &mut StdRng, bound: u64) -> (r: u64)
    requires
        bound > 0,
    ensures
        r < bound,
{
    rng.gen_range(0..bound)
}

/// Relies on rand's `RngCore::next_u64`: any 64-bit value.
#[verifier::external_body]
fn draw_u64(rng: &mut StdRng) -> (r: u64) {
    rng.next_u64()
}

/// A seedable pseudo-random source. The library draws every random choice
/// (which attack to play, which sound to pick, whether a critical hit lands)
/// from one of these, so that a run can be reproduced from its seed.
pub struct RandomSource {
    rng: StdRng,
}

impl RandomSource {
    pub fn new(seed: u64) -> (r: RandomSource) {
        RandomSource { rng: seeded(seed) }
    }

    /// The next 64-bit output of the generator.
    pub fn next_u64(&mut self) -> u64 {
        draw_u64(&mut self.rng)
    }

    /// A number drawn uniformly from `0..bound`.
    pub fn next_below(&mut self, bound: u64) -> (r: u64)
        requires
            bound > 0,
        ensures
            r < bound,
    {
        draw_below(&mut self.rng, bound)
    }
}

} // verus!
