//! The one source of chance: the process-wide generator of `macroquad::rand`.
use vstd::prelude::*;

verus! {

/// Calls `macroquad::rand::gen_range` on two `i32` bounds.
///
/// That function scales the next 32-bit output of its generator, a fraction
/// in [0, 1), onto the span from `low` to `high` in double precision and cuts
/// the result to a whole number toward zero. Nothing is claimed of which
/// number comes, only where it lies: never outside the two bounds, and below
/// `high` where both bounds are small enough for the scaling to be exact and
/// the range is not negative, so that the cut is a rounding down.
#[verifier::external_body]
pub(crate) fn random_between(low: i32, high: i32) -> (r: i32)
    requires
        low <= high,
    ensures
        low <= r <= high,
        0 <= low < high <= 0x10000 ==> r < high,
{
    macroquad::rand::gen_range(low, high)
}

} // verus!
