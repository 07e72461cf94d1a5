//! The deterministic pseudo-random stream behind all generation logic.
//!
//! Every draw the game makes comes from one seeded ChaCha stream, so a whole
//! run can be replayed from its seed. The two functions here are the only
//! places where the crate leans on the random-number crates; everything that
//! interprets a draw is verified against the bounds stated here.

use vstd::prelude::*;
use rand::Rng;
use rand::SeedableRng;
use rand_chacha::ChaCha8Rng;

verus! {

#[verifier::external_type_specification]
#[verifier::external_body]
pub struct ExChaCha8Rng(ChaCha8Rng);

/// Relies on rand_core's SeedableRng::seed_from_u64 for rand_chacha's
/// ChaCha8Rng: builds a generator whose stream depends only on the seed.
#[verifier::external_body]
pub(crate) fn rng_from_seed(seed: u64) -> (rng: ChaCha8Rng) {
    ChaCha8Rng::seed_from_u64(seed)
}

/// Relies on rand's Rng::random_range: a draw from the non-empty range
/// `0..n` lies below `n`.
#[verifier::external_body]
pub(crate) fn rng_below(rng: &mut ChaCha8Rng, n: u32) -> (r: u32)
    requires
        n >= 1,
    ensures
        r < n,
{
    rng.random_range(0..n)
}

} // verus!
