//! Pseudo-random draws for the battle machine: the enemy's action choice and
//! the critical-hit rolls. This is the crate's only trusted boundary around
//! the `rand` crate; everything downstream of a draw is verified for every
//! value the draw can take.

use vstd::prelude::*;

verus! {

/// Relies on `rand::thread_rng` and `rand::Rng::gen_range` over the
/// inclusive range `lo..=hi`: `gen_range` panics only on an empty range
/// (ruled out by the precondition) and returns a value within the range.
/// The draw depends on the generator's hidden state, so nothing beyond
/// membership in the range is stated of the result, and two calls with the
/// same arguments may differ.
#[verifier::external_body]
pub(crate) fn roll_between(lo: i64, hi: i64) -> (r: i64)
    requires
        lo <= hi,
    ensures
        lo <= r <= hi,
{
    rand::Rng::gen_range(&mut rand::thread_rng(), lo..=hi)
}

} // verus!
