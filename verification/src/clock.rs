//! The wall clock, behind a trusted wrapper.

use vstd::prelude::*;

verus! {

/// Relies on `chrono::Utc::now` and `DateTime::format` with the pattern
/// `"%Y-%m-%d %H:%M"`: a timestamp of the current UTC time.  The result
/// depends on the clock, so nothing is promised beyond its shape: the
/// five zero-padded fields and their separators fill at least 16
/// characters.
#[verifier::external_body]
pub(crate) fn now_stamp() -> (r: String)
    ensures
        r@.len() >= 16,
{
    chrono::Utc::now().format("%Y-%m-%d %H:%M").to_string()
}

} // verus!
