//! Seeding of the shared pseudo-random generator, and draws from it.
//!
//! The generator itself is macroquad's process-wide one. What the library
//! keeps is the seed it last gave that generator, so that a session can show
//! the seed and hand it out.

use crate::timestamp::{Timestamp, NANOS_PER_SEC};
use std::hash::DefaultHasher;
use std::hash::Hasher;
use vstd::bytes::{spec_u64_to_le_bytes, u64_to_le_bytes};
use vstd::prelude::*;
use vstd::std_specs::hash::DefaultHasherAdditionalSpecFns;

verus! {

/// The seed that the generator was last given through this library.
#[derive(Clone, Copy, Debug)]
pub struct RandState {
    last_set_seed: u64,
}

impl RandState {
    /// The seed last given to the generator; 0 before any was.
    pub closed spec fn last_set_seed(&self) -> u64 {
        self.last_set_seed
    }

    /// A record that no seed has been set yet.
    pub fn new() -> (state: RandState)
        ensures
            state.last_set_seed() == 0,
    {
        RandState { last_set_seed: 0 }
    }
}

/// The seed derived from a clock sample: the hash of its whole seconds,
/// written as eight bytes with the low byte first.
///
/// Hashing makes successive seeds look unrelated when they are displayed; it
/// adds nothing to the quality of the numbers drawn.
pub open spec fn time_seed(now: Timestamp) -> u64 {
    DefaultHasher::spec_finish(seq![spec_u64_to_le_bytes((now.nanos / NANOS_PER_SEC) as u64)])
}

/// Calls `macroquad::rand::srand`, which resets the process-wide generator from
/// `seed`. Nothing is claimed: the generator's state is not visible here.
#[verifier::external_body]
fn seed_generator(seed: u64) {
    macroquad::rand::srand(seed)
}

/// Calls `macroquad::rand::gen_range` with the bounds 0 and `high`. The claim is
/// that the number drawn is below `high`: the generator scales a 32-bit draw
/// to a fraction strictly below 1 and multiplies `high` by it, rounding down.
/// With `high` at 0 it gives 0, which is below nothing, so that is left out.
/// Which number comes is not said: it depends on what was drawn before.
#[verifier::external_body]
pub(crate) fn random_index(high: usize) -> (index: usize)
    requires
        0 < high,
    ensures
        index < high,
{
    macroquad::rand::gen_range(0, high)
}

/// Seeds the generator with a seed derived from the clock sample `now`, for
/// when any new seed will do.
pub fn randomize_rand_seed(state: &mut RandState, now: Timestamp)
    ensures
        final(state).last_set_seed() == time_seed(now),
{
    let bytes = u64_to_le_bytes(now.as_secs());
    let mut hasher = DefaultHasher::new();
    hasher.write(bytes.as_slice());
    let seed = hasher.finish();
    set_rand_seed(state, seed);
}

/// Seeds the generator with `seed` and records it.
pub fn set_rand_seed(state: &mut RandState, seed: u64)
    ensures
        final(state).last_set_seed() == seed,
{
    state.last_set_seed = seed;
    seed_generator(seed);
}

pub fn get_last_set_rand_seed(state: &RandState) -> (seed: u64)
    ensures
        seed == state.last_set_seed(),
{
    state.last_set_seed
}

} // verus!
