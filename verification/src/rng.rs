//! The one randomness source the games draw from.

use vstd::prelude::*;

verus! {

/// Relies on `rand::random_range`: a uniform sample from the half-open
/// range `lo..hi`, which always lies inside it. The range is non-empty
/// here, so the call does not panic. Nothing beyond membership in the
/// range is assumed: every outcome is possible.
#[verifier::external_body]
pub(crate) fn random_in_range(lo: u64, hi: u64) -> (r: u64)
    requires
        lo < hi,
    ensures
        lo <= r < hi,
{
    rand::random_range(lo..hi)
}

} // verus!
