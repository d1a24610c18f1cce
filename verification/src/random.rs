//! Calls into `rand`: every outcome is drawn from the operating system's
//! generator, so the contracts below state only what holds of every draw
//! (not how the draws are distributed). `OsRng` panics where the operating
//! system cannot provide random bytes; no input rules that out.

use core::ops::RangeInclusive;
use rand::rngs::OsRng;
use rand::Rng;
use vstd::prelude::*;

verus! {

/// `RangeInclusive::start` hands back the lower bound the range was built with.
pub assume_specification<Idx>[ RangeInclusive::<Idx>::start ](r: &RangeInclusive<Idx>) -> (res: &Idx)
    ensures
        !r@.exhausted ==> *res == r@.start,
;

/// `RangeInclusive::end` hands back the upper bound the range was built with.
pub assume_specification<Idx>[ RangeInclusive::<Idx>::end ](r: &RangeInclusive<Idx>) -> (res: &Idx)
    ensures
        !r@.exhausted ==> *res == r@.end,
;

/// `Rng::gen_range` on `OsRng` with an inclusive `i32` range: the value lies
/// within the bounds (the range must not be empty, or `gen_range` panics).
#[verifier::external_body]
pub(crate) fn os_gen_range_inclusive(range: &RangeInclusive<i32>) -> (res: i32)
    requires
        !range@.exhausted,
        range@.start <= range@.end,
    ensures
        range@.start <= res <= range@.end,
{
    OsRng.gen_range(range.clone())
}

} // verus!

verus! {

/// `Rng::gen_ratio` on `OsRng`: `true` with the probability
/// `numerator / denominator`; never for a zero numerator, always when the
/// numerator equals the denominator (and a panic for a zero denominator or a
/// numerator above it, which `requires` rules out).
#[verifier::external_body]
pub(crate) fn os_gen_ratio(numerator: u32, denominator: u32) -> (res: bool)
    requires
        0 < denominator,
        numerator <= denominator,
    ensures
        numerator == 0 ==> !res,
        numerator == denominator ==> res,
{
    OsRng.gen_ratio(numerator, denominator)
}

/// `Rng::gen_range` on `OsRng` with a half-open `i64` range: the value lies
/// at or above `low` and below `high` (the range must not be empty, or
/// `gen_range` panics).
#[verifier::external_body]
pub(crate) fn os_gen_range_below(low: i64, high: i64) -> (res: i64)
    requires
        low < high,
    ensures
        low <= res < high,
{
    OsRng.gen_range(low..high)
}

} // verus!
