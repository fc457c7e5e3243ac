//! Trusted boundary to the `rand` crate: the small pseudo-random generator
//! that task-id generation draws from.

use rand::rngs::SmallRng;
use vstd::prelude::*;

verus! {

/// Declaration of rand's small generator type; its values are opaque here.
#[verifier::external_type_specification]
#[verifier::external_body]
pub struct ExSmallRng(SmallRng);

/// Relies on `rand::SeedableRng::seed_from_u64` for `SmallRng`: builds a
/// deterministic generator from the seed.
#[verifier::external_body]
pub(crate) fn rng_from_seed(seed: u64) -> SmallRng {
    <SmallRng as rand::SeedableRng>::seed_from_u64(seed)
}

/// Relies on `rand::SeedableRng::from_entropy` for `SmallRng`: builds a
/// generator seeded from operating-system entropy. Like an allocation,
/// the call aborts the process if the operating system's entropy source
/// fails; no input of ours can rule that out.
#[verifier::external_body]
pub(crate) fn rng_from_entropy() -> SmallRng {
    <SmallRng as rand::SeedableRng>::from_entropy()
}

/// Relies on `rand::RngCore::next_u64` for `SmallRng`: draws the
/// generator's next value. Nothing is promised of the value.
#[verifier::external_body]
pub(crate) fn rng_next_u64(rng: &mut SmallRng) -> u64 {
    rand::RngCore::next_u64(rng)
}

} // verus!
