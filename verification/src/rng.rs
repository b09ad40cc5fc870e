//! Randomness for the simulation: per-turn wind, the per-match terrain
//! shape scalar, and the scatter velocities of cluster submunitions.
//! Every random draw goes through one trusted wrapper; callers state only
//! what holds of every outcome (the range bounds).

use vstd::prelude::*;

verus! {

/// Relies on rand::random_range: returns a uniformly drawn value of the
/// inclusive range `lo..=hi`, which panics only on an empty range.
#[verifier::external_body]
pub(crate) fn random_in_range(lo: i32, hi: i32) -> (r: i32)
    requires
        lo <= hi,
    ensures
        lo <= r <= hi,
{
    rand::random_range(lo..=hi)
}

} // verus!
