//! Trusted boundary to the pseudo-random number generator.
//!
//! The estimators draw from rand_pcg's `Pcg64`, seeded from a caller-given
//! 64-bit seed, so one seed always replays the same stream. Nothing can be
//! promised of a single random value beyond its range, so the contracts
//! here state ranges only; the callers say what holds of every outcome.

use vstd::prelude::*;

verus! {

#[verifier::external_type_specification]
#[verifier::external_body]
pub struct ExLcg128Xsl64(rand_pcg::Lcg128Xsl64);

/// Relies on rand's SeedableRng::seed_from_u64 for rand_pcg's Pcg64: a
/// generator whose stream is a function of `seed` alone.
#[verifier::external_body]
pub fn rng_from_seed(seed: u64) -> (rng: rand_pcg::Pcg64) {
    <rand_pcg::Pcg64 as rand::SeedableRng>::seed_from_u64(seed)
}

/// Relies on rand's Rng::random for bool under the StandardUniform
/// distribution: one fair coin flip, true or false.
#[verifier::external_body]
pub fn coin_flip(rng: &mut rand_pcg::Pcg64) -> (heads: bool) {
    rand::Rng::random::<bool>(rng)
}

/// Relies on rand's Rng::random_range on `0..bound`: a value below `bound`.
/// random_range panics on an empty range, hence the lower bound on `bound`.
#[verifier::external_body]
pub fn rand_below(rng: &mut rand_pcg::Pcg64, bound: u64) -> (r: u64)
    requires
        bound >= 1,
    ensures
        r < bound,
{
    rand::Rng::random_range(rng, 0..bound)
}

} // verus!
