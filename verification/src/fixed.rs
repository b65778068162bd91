//! Fixed-point scalars: the units of length and time, and the few integer
//! operations that the rest of the crate builds on.

use vstd::prelude::*;

verus! {

/// Number of world units in one pixel. Lengths and coordinates are counted
/// in world units.
pub const UNITS_PER_PIXEL: i64 = 65536;

/// Number of time units (microseconds) in one second.
pub const MICROS_PER_SECOND: i64 = 1_000_000;

/// The absolute value of `v`.
pub open spec fn magnitude(v: int) -> int {
    if v < 0 {
        -v
    } else {
        v
    }
}

/// The smaller of two integers.
pub open spec fn lesser(a: int, b: int) -> int {
    if a < b {
        a
    } else {
        b
    }
}

/// The larger of two integers.
pub open spec fn greater(a: int, b: int) -> int {
    if a > b {
        a
    } else {
        b
    }
}

/// The value of `v` brought into the range of `i64`: a value beyond either
/// end is replaced by that end.
pub open spec fn clamp_to_i64(v: int) -> int {
    if v < i64::MIN {
        i64::MIN as int
    } else if v > i64::MAX {
        i64::MAX as int
    } else {
        v
    }
}

/// The quotient of `a` by a positive `d`, rounded towards zero.
pub open spec fn quotient_toward_zero(a: int, d: int) -> int
    recommends
        d > 0,
{
    if a >= 0 {
        a / d
    } else {
        -((-a) / d)
    }
}

/// Whether two intervals on one axis meet: the interval around `center1`
/// that extends `reach1` to either side, and the one around `center2` that
/// extends `reach2`. This holds when the centers are no further apart than
/// the two reaches together; intervals that only touch do meet.
pub open spec fn axis_overlap(center1: int, reach1: int, center2: int, reach2: int) -> bool {
    magnitude(center1 - center2) <= reach1 + reach2
}

/// The smaller of `x1` and `x2`.
pub fn min(x1: i64, x2: i64) -> (m: i64)
    ensures
        m == lesser(x1 as int, x2 as int),
{
    if x1 < x2 {
        x1
    } else {
        x2
    }
}

/// The larger of `x1` and `x2`.
pub fn max(x1: i64, x2: i64) -> (m: i64)
    ensures
        m == greater(x1 as int, x2 as int),
{
    if x1 > x2 {
        x1
    } else {
        x2
    }
}

/// Narrows a wide intermediate result to a coordinate, saturating at the
/// ends of the range.
pub fn saturate(v: i128) -> (r: i64)
    ensures
        r == clamp_to_i64(v as int),
{
    if v < i64::MIN as i128 {
        i64::MIN
    } else if v > i64::MAX as i128 {
        i64::MAX
    } else {
        v as i64
    }
}

/// Tests whether two intervals on one axis meet.
pub fn intervals_meet(center1: i64, reach1: i64, center2: i64, reach2: i64) -> (b: bool)
    ensures
        b == axis_overlap(center1 as int, reach1 as int, center2 as int, reach2 as int),
{
    let distance: i128 = center1 as i128 - center2 as i128;
    let abs_distance: i128 = if distance < 0 {
        -distance
    } else {
        distance
    };
    abs_distance <= reach1 as i128 + reach2 as i128
}

} // verus!
