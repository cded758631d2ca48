//! Random integers, for choosing among discrete options during scene setup.
//!
//! The draw itself comes from the thread-local generator of the `fastrand`
//! crate; nothing is assumed of it beyond the range of its result.

use vstd::prelude::*;

verus! {

/// Relies on fastrand::i32 with the half-open range `min..max`: the result is
/// drawn from the thread-local generator and lies in `[min, max)`; the call
/// panics only on an empty range, which the precondition rules out.
#[verifier::external_body]
fn sample_i32(min: i32, max: i32) -> (r: i32)
    requires
        min < max,
    ensures
        min <= r < max,
{
    fastrand::i32(min..max)
}

/// A random integer in `[min, max)`, or `min` itself when the range has no
/// room.  Which integer comes back is up to the generator; only the range is
/// promised.
pub fn random_int(min: i32, max: i32) -> (r: i32)
    requires
        min <= max,
    ensures
        min <= r,
        min < max ==> r < max,
        min == max ==> r == min,
{
    if min == max {
        min
    } else {
        sample_i32(min, max)
    }
}

} // verus!
