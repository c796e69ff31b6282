//! The one source of randomness: snack spawn positions and fall speeds.

use vstd::prelude::*;
use rand::Rng;

verus! {

/// Relies on rand's `Rng::gen_range` on the half-open range `lo..hi`: the
/// sample is uniform over `[lo, hi)`, and the call panics only on an empty
/// range, which the precondition rules out. Nothing more is promised: two
/// calls on the same range may differ.
#[verifier::external_body]
pub(crate) fn random_in_range(lo: i64, hi: i64) -> (r: i64)
    requires
        lo < hi,
    ensures
        lo <= r < hi,
{
    rand::thread_rng().gen_range(lo..hi)
}

} // verus!
