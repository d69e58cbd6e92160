//! The library's single source of randomness, behind a trusted wrapper.

use vstd::prelude::*;

verus! {

/// Relies on `rand::random_range`: a draw from the thread-local generator,
/// uniform over the half-open range `lo..hi`.  Nothing more than membership
/// in the range can be promised of a random value.  `random_range` panics
/// on an empty range, which the precondition rules out.
#[verifier::external_body]
pub(crate) fn random_in_range(lo: i64, hi: i64) -> (r: i64)
    requires
        lo < hi,
    ensures
        lo <= r < hi,
{
    rand::random_range(lo..hi)
}

} // verus!
