//! Stream identifiers.

use vstd::prelude::*;

verus! {

/// Relies on rusty_ulid::Ulid::generate: a fresh 128-bit identifier drawn
/// from the clock and randomness. Nothing is promised of its value.
#[verifier::external_body]
pub fn generate_request_id() -> u128 {
    u128::from(rusty_ulid::Ulid::generate())
}

} // verus!
