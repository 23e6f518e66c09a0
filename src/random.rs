//! The source of random placement.
use rand::Rng;
use vstd::prelude::*;

verus! {

/// Relies on `rand::rng` and `Rng::random_range` (rand 0.9): a value from the
/// thread-local generator, drawn uniformly from the half-open range `lo..hi`.
/// `random_range` panics on an empty range, which `requires` leaves out.
#[verifier::external_body]
pub(crate) fn random_between(lo: i32, hi: i32) -> (r: i32)
    requires
        lo < hi,
    ensures
        lo <= r < hi,
{
    rand::rng().random_range(lo..hi)
}

} // verus!
