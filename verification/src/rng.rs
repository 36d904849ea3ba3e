//! The single entry point for randomness: every jitter, drift and spawn
//! draw of the simulation goes through `random_in`, and all logic downstream
//! of a draw takes the drawn value as an argument, so it is verified for
//! every outcome.

use vstd::prelude::*;

use rand::Rng;

verus! {

/// Relies on rand's `Rng::gen_range` over an integer range `lo..hi`: it
/// returns a value in the half-open range and panics only when the range is
/// empty, which the precondition rules out.  Nothing more is assumed of the
/// outcome.
#[verifier::external_body]
pub(crate) fn random_in(lo: i64, hi: i64) -> (r: i64)
    requires
        lo < hi,
    ensures
        lo <= r < hi,
{
    rand::thread_rng().gen_range(lo..hi)
}

} // verus!
