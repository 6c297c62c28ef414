//! Randomness for spawn positions and parameters, drawn from the process
//! RNG. Every consumer of a drawn value is verified for all values the
//! stated range admits, so nothing downstream depends on the draw being
//! anything more than in range.

use vstd::prelude::*;

verus! {

/// Relies on rand::random_range over a half-open `i64` range: the result
/// lies in `[lo, hi)`. An empty range would panic, so it is excluded.
#[verifier::external_body]
pub(crate) fn random_in_range(lo: i64, hi: i64) -> (r: i64)
    requires
        lo < hi,
    ensures
        lo <= r < hi,
{
    rand::random_range(lo..hi)
}

} // verus!
