//! Declarations for the outside types the simulation stores, and the
//! small trusted wrappers through which it draws randomness and fresh
//! identities.

use vstd::prelude::*;
use rand::rngs::StdRng;
use rand::RngExt;
use rand::SeedableRng;
use uuid::Uuid;

verus! {

/// Declares rand::rngs::StdRng so a generator can sit in a field; its
/// state stays opaque.
#[verifier::external_type_specification]
#[verifier::external_body]
pub struct ExStdRng(StdRng);

/// Declares uuid::Uuid so an identity can sit in a field; its value
/// stays opaque.
#[verifier::external_type_specification]
#[verifier::external_body]
pub struct ExUuid(Uuid);

/// Relies on uuid::Uuid::new_v4: draws a fresh random identifier.
/// The value is random, so nothing is promised of it.
#[verifier::external_body]
pub(crate) fn fresh_id() -> Uuid {
    Uuid::new_v4()
}

/// Relies on rand_core::SeedableRng::seed_from_u64: builds a generator
/// deterministically from the given seed. The generator's state is
/// opaque, so nothing is promised of it.
#[verifier::external_body]
pub(crate) fn rng_from_seed(seed: u64) -> StdRng {
    StdRng::seed_from_u64(seed)
}

/// Relies on rand::RngExt::random_range on the non-empty range
/// `1..=100`: the roll is uniform in that inclusive range, whatever the
/// state of the thread-local generator.
#[verifier::external_body]
pub(crate) fn roll_percent() -> (r: u32)
    ensures
        1 <= r <= 100,
{
    rand::rng().random_range(1..=100u32)
}

} // verus!
