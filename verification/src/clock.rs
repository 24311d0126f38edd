//! The wall clock and per-process randomness that make identifiers unique.
use std::collections::hash_map::RandomState;
use std::hash::BuildHasher;

use vstd::prelude::*;

verus! {

/// Reads `std::time::SystemTime::now()` as milliseconds since the Unix epoch
/// (0 for a clock set before it). Nothing is claimed of the value: it is the time.
#[verifier::external_body]
pub(crate) fn unix_millis_now() -> u64 {
    match std::time::SystemTime::now().duration_since(std::time::SystemTime::UNIX_EPOCH) {
        Ok(d) => d.as_millis() as u64,
        Err(_) => 0,
    }
}

/// Calls `RandomState::new`, whose hashing keys std documents as random and
/// different for each new value. Nothing is claimed of the result.
#[verifier::external_body]
pub(crate) fn new_random_state() -> RandomState {
    RandomState::new()
}

/// Calls `BuildHasher::hash_one` on `state` with a fixed input. Nothing is
/// claimed of the number: it depends on the state's random keys.
#[verifier::external_body]
pub(crate) fn random_state_token(state: &RandomState) -> u64 {
    state.hash_one(0u8)
}

} // verus!
