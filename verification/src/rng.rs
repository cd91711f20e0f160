//! Trusted boundary to the `rand` crate: the seeded pseudo-random generator
//! that pattern randomization draws from.
//!
//! `SmallRng` is deterministic in its seed within one build, but its
//! documentation leaves the algorithm platform-dependent, so these contracts
//! state only the range of each drawn value, never the value itself.  The
//! verified code that consumes the draws takes them as arguments and is
//! proved for every value they could have.

use vstd::prelude::*;

use rand::Rng;
use rand::RngCore;
use rand::SeedableRng;

verus! {

#[verifier::external_type_specification]
#[verifier::external_body]
pub struct ExSmallRng(rand::rngs::SmallRng);

/// Relies on rand::rngs::SmallRng::seed_from_u64 (via rand::SeedableRng):
/// builds a generator from a 64-bit seed.
#[verifier::external_body]
pub(crate) fn rng_from_seed(seed: u64) -> (rng: rand::rngs::SmallRng) {
    rand::rngs::SmallRng::seed_from_u64(seed)
}

/// Relies on rand::RngCore::next_u64: draws the generator's next 64-bit
/// value; nothing is promised of it.
#[verifier::external_body]
pub(crate) fn rng_next_u64(rng: &mut rand::rngs::SmallRng) -> (r: u64) {
    rng.next_u64()
}

/// Relies on rand::Rng::gen with the Standard distribution on bool: draws
/// a flag; nothing is promised of it.
#[verifier::external_body]
pub(crate) fn rng_gen_flag(rng: &mut rand::rngs::SmallRng) -> (r: bool) {
    rng.gen()
}

/// Relies on rand::Rng::gen_range: draws a value from `0..12`, so the
/// result is below 12 (the range is not empty, so the call cannot panic).
#[verifier::external_body]
pub(crate) fn rng_note_index(rng: &mut rand::rngs::SmallRng) -> (r: u8)
    ensures
        r < 12,
{
    rng.gen_range(0..12)
}

} // verus!
