//! The pseudo-random generator that places the player and the food.
//!
//! The generator is `rand`'s `SmallRng`. Its algorithm depends on the
//! platform, so nothing is claimed about the numbers it returns: every
//! caller is verified for all of them.

use rand::rngs::SmallRng;
use rand::{RngCore, SeedableRng};
use vstd::prelude::*;

verus! {

/// `rand::rngs::SmallRng`, carried as an opaque value.
#[verifier::external_type_specification]
#[verifier::external_body]
pub struct ExSmallRng(SmallRng);

/// Calls `SmallRng::seed_from_u64`, which builds a generator from `state`.
/// Nothing is claimed about the generator returned.
#[verifier::external_body]
pub(crate) fn seeded(state: u64) -> (rng: SmallRng) {
    SmallRng::seed_from_u64(state)
}

/// Calls `SmallRng::next_u32`, which advances the generator and returns its
/// next 32-bit output. Nothing is claimed about the number returned.
#[verifier::external_body]
pub(crate) fn draw_u32(rng: &mut SmallRng) -> (drawn: u32) {
    rng.next_u32()
}

/// Calls `SmallRng::next_u64`, which advances the generator and returns its
/// next 64-bit output. Nothing is claimed about the number returned.
#[verifier::external_body]
pub(crate) fn draw_u64(rng: &mut SmallRng) -> (drawn: u64) {
    rng.next_u64()
}

} // verus!
