//! Randomness for spawn jitter.
//!
//! One trusted call hands out raw entropy; everything derived from it is
//! verified, and no contract in the library depends on which values come out.

use vstd::prelude::*;

verus! {

/// Relies on rand::random: a fresh 64-bit value from the thread-local
/// generator. Nothing is assumed of the value.
#[verifier::external_body]
fn random_u64() -> u64 {
    rand::random::<u64>()
}

/// A random fixed-point value in `[-bound, bound]`.
pub fn jitter(bound: i64) -> (r: i64)
    requires
        0 <= bound <= 1_000_000_000_000_000,
    ensures
        -bound <= r <= bound,
{
    let span: u64 = 2 * (bound as u64) + 1;
    let x: u64 = random_u64() % span;
    (x as i64) - bound
}

} // verus!
