//! The uniform random-range collaborator.
use vstd::prelude::*;

verus! {

/// Relies on `rand::Rng::gen_range` on a thread-local generator: for a
/// non-empty half-open range `lo..hi` it returns a value inside the range
/// (and panics only on an empty range, which the precondition rules out).
/// Nothing more is promised of a random draw.
#[verifier::external_body]
pub fn rand_range(lo: i64, hi: i64) -> (r: i64)
    requires
        lo < hi,
    ensures
        lo <= r < hi,
{
    rand::Rng::gen_range(&mut rand::thread_rng(), lo..hi)
}

} // verus!
