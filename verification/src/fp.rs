//! Saturating fixed-point scalar arithmetic.
//!
//! A scalar is an `i64` counting thousandths of a world unit: the value `v`
//! stands for the real quantity `v / SCALE`. Sums and products are computed
//! exactly in `i128` and then clipped to the `i64` range, so no operation
//! wraps or panics. A product of two fixed-point scalars is rescaled by a
//! truncating division (rounding toward zero), which is exact whenever the
//! true product is a whole number of thousandths.

use vstd::prelude::*;

verus! {

/// Number of fixed-point steps per world unit.
pub const SCALE: i64 = 1000;

/// Saturate an unbounded integer at the `i64` range.
pub open spec fn clip(x: int) -> int {
    if x > i64::MAX as int {
        i64::MAX as int
    } else if x < i64::MIN as int {
        i64::MIN as int
    } else {
        x
    }
}

/// Quotient of `a` by a positive divisor `d`, rounded toward zero.
pub open spec fn div_trunc(a: int, d: int) -> int
    recommends
        d > 0,
{
    if a >= 0 {
        a / d
    } else {
        -((-a) / d)
    }
}

/// The product of two fixed-point scalars, rescaled and saturated.
pub open spec fn fp_mul_spec(a: int, b: int) -> int {
    clip(div_trunc(a * b, SCALE as int))
}

/// A product of two `i64`-range factors stays well inside the `i128` range.
proof fn lemma_i64_product_bounds(a: int, b: int)
    requires
        i64::MIN <= a <= i64::MAX,
        i64::MIN <= b <= i64::MAX,
    ensures
        -0x4000_0000_0000_0000_0000_0000_0000_0000 <= a * b
            <= 0x4000_0000_0000_0000_0000_0000_0000_0000,
{
    assert(-0x4000_0000_0000_0000_0000_0000_0000_0000 <= a * b
        <= 0x4000_0000_0000_0000_0000_0000_0000_0000) by (nonlinear_arith)
        requires
            -0x8000_0000_0000_0000 <= a <= 0x7fff_ffff_ffff_ffff,
            -0x8000_0000_0000_0000 <= b <= 0x7fff_ffff_ffff_ffff,
    ;
}

/// Saturate an exact `i128` intermediate result back to an `i64`.
pub(crate) fn clamp_to_i64(s: i128) -> (r: i64)
    ensures
        r as int == clip(s as int),
{
    if s > i64::MAX as i128 {
        i64::MAX
    } else if s < i64::MIN as i128 {
        i64::MIN
    } else {
        s as i64
    }
}

/// Saturating sum of two fixed-point scalars.
pub fn sat_add(a: i64, b: i64) -> (r: i64)
    ensures
        r as int == clip(a + b),
{
    let s: i128 = (a as i128) + (b as i128);
    clamp_to_i64(s)
}

/// Saturating difference of two fixed-point scalars.
pub fn sat_sub(a: i64, b: i64) -> (r: i64)
    ensures
        r as int == clip(a - b),
{
    let s: i128 = (a as i128) - (b as i128);
    clamp_to_i64(s)
}

/// Saturating product of a fixed-point scalar and a plain integer factor.
pub fn sat_mul(a: i64, b: i64) -> (r: i64)
    ensures
        r as int == clip(a * b),
{
    proof {
        lemma_i64_product_bounds(a as int, b as int);
    }
    let p: i128 = (a as i128) * (b as i128);
    clamp_to_i64(p)
}

/// Truncating division of an `i128` by a positive divisor.
pub(crate) fn div_trunc_i128(p: i128, d: i128) -> (q: i128)
    requires
        d > 0,
        p > i128::MIN,
    ensures
        q as int == div_trunc(p as int, d as int),
{
    let r: Option<i128> = p.checked_div(d);
    match r {
        Some(q) => q,
        None => 0,
    }
}

/// Saturating product of two fixed-point scalars, rescaled to fixed point.
pub fn mul_fp(a: i64, b: i64) -> (r: i64)
    ensures
        r as int == fp_mul_spec(a as int, b as int),
{
    proof {
        lemma_i64_product_bounds(a as int, b as int);
    }
    let p: i128 = (a as i128) * (b as i128);
    let q: i128 = div_trunc_i128(p, SCALE as i128);
    clamp_to_i64(q)
}

} // verus!
