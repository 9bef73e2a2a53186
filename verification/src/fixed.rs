//! Saturating fixed-point arithmetic in millionths.

use vstd::prelude::*;

verus! {

/// The fixed-point value of 1.0.
pub const ONE: i64 = 1_000_000;

/// `x` brought into the range of `i64`.
pub open spec fn saturate(x: int) -> int {
    if x < i64::MIN {
        i64::MIN as int
    } else if x > i64::MAX {
        i64::MAX as int
    } else {
        x
    }
}

/// The absolute value of `x`.
pub open spec fn magnitude(x: int) -> int {
    if x < 0 {
        -x
    } else {
        x
    }
}

/// The product of the fixed-point values `x` and `factor`: the exact product
/// divided by `ONE`, rounded toward zero, then saturated.
pub open spec fn scaled(x: int, factor: int) -> int {
    let m = magnitude(x) * magnitude(factor) / (ONE as int);
    saturate(
        if (x < 0) != (factor < 0) {
            -m
        } else {
            m
        },
    )
}

/// The saturated sum of `a` and `b`.
pub open spec fn summed(a: int, b: int) -> int {
    saturate(a + b)
}

/// `x` brought into `[lo, hi]`; a value under `lo` gives `lo`, one over `hi` gives `hi`.
pub open spec fn limited(x: int, lo: int, hi: int) -> int {
    if x < lo {
        lo
    } else if x > hi {
        hi
    } else {
        x
    }
}

fn magnitude_of(x: i64) -> (m: u128)
    ensures
        m == magnitude(x as int),
        m <= 0x8000_0000_0000_0000,
{
    if x >= 0 {
        x as u128
    } else {
        let wide: i128 = -(x as i128);
        wide as u128
    }
}

/// Multiplies two fixed-point values.
pub fn scale(x: i64, factor: i64) -> (r: i64)
    ensures
        r == scaled(x as int, factor as int),
{
    let mx: u128 = magnitude_of(x);
    let mf: u128 = magnitude_of(factor);
    assert(mx * mf <= 0x8000_0000_0000_0000 * 0x8000_0000_0000_0000) by (nonlinear_arith)
        requires
            mx <= 0x8000_0000_0000_0000,
            mf <= 0x8000_0000_0000_0000,
    ;
    let m: u128 = mx * mf / 1_000_000u128;
    if (x < 0) != (factor < 0) {
        if m > 0x8000_0000_0000_0000u128 {
            i64::MIN
        } else {
            let wide: i128 = -(m as i128);
            wide as i64
        }
    } else {
        if m > 0x7fff_ffff_ffff_ffffu128 {
            i64::MAX
        } else {
            m as i64
        }
    }
}

/// Adds two fixed-point values, saturating at the ends of `i64`.
pub fn plus(a: i64, b: i64) -> (r: i64)
    ensures
        r == summed(a as int, b as int),
{
    let wide: i128 = a as i128 + b as i128;
    if wide < -0x8000_0000_0000_0000i128 {
        i64::MIN
    } else if wide > 0x7fff_ffff_ffff_ffffi128 {
        i64::MAX
    } else {
        wide as i64
    }
}

/// Brings `x` into `[lo, hi]`.
pub fn limit(x: i64, lo: i64, hi: i64) -> (r: i64)
    requires
        lo <= hi,
    ensures
        r == limited(x as int, lo as int, hi as int),
        lo <= r <= hi,
{
    if x < lo {
        lo
    } else if x > hi {
        hi
    } else {
        x
    }
}

} // verus!
