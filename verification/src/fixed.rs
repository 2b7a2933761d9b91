//! Fixed-point numbers: a world quantity is an `i64` counted in thousandths
//! of a world unit. Arithmetic that leaves the range of `i64` stops at the
//! range's nearest end.

use vstd::prelude::*;

verus! {

/// One world unit.
pub const UNIT: i64 = 1000;

/// The `i64` nearest to `v`.
pub open spec fn clamp(v: int) -> i64 {
    if v < i64::MIN {
        i64::MIN
    } else if v > i64::MAX {
        i64::MAX
    } else {
        v as i64
    }
}

/// The quotient of `a` by a positive `b`, rounded towards zero.
pub open spec fn trunc_div(a: int, b: int) -> int {
    if a >= 0 {
        a / b
    } else {
        -((-a) / b)
    }
}

/// `units` whole world units as a fixed-point number.
pub open spec fn units(units: int) -> int {
    units * UNIT
}

/// Brings a wide intermediate result back into the range of `i64`.
pub fn saturate(wide: i128) -> (r: i64)
    ensures
        r == clamp(wide as int),
{
    if wide < i64::MIN as i128 {
        i64::MIN
    } else if wide > i64::MAX as i128 {
        i64::MAX
    } else {
        wide as i64
    }
}

/// Saturating sum.
pub fn sat_add(a: i64, b: i64) -> (r: i64)
    ensures
        r == clamp(a + b),
{
    saturate(a as i128 + b as i128)
}

/// Saturating difference.
pub fn sat_sub(a: i64, b: i64) -> (r: i64)
    ensures
        r == clamp(a - b),
{
    saturate(a as i128 - b as i128)
}

/// Saturating negation: only the least `i64` has no exact negative.
pub fn sat_neg(a: i64) -> (r: i64)
    ensures
        r == clamp(-a),
{
    saturate(0 - a as i128)
}

/// The product of `a` and the fraction `num / den`, rounded towards zero
/// and saturated.
pub fn sat_mul_div(a: i64, num: i64, den: i64) -> (r: i64)
    requires
        den > 0,
    ensures
        r == clamp(trunc_div(a * num, den as int)),
{
    let product: i128 = wide_product(a, num);
    let quotient: i128 = wide_trunc_div(product, den);
    saturate(quotient)
}

/// `base` plus the product of `a` and the fraction `num / den`; the product
/// is rounded towards zero, the sum saturated.
pub fn sat_add_mul_div(base: i64, a: i64, num: i64, den: i64) -> (r: i64)
    requires
        den > 0,
    ensures
        r == clamp(base + trunc_div(a * num, den as int)),
{
    let product: i128 = wide_product(a, num);
    let quotient: i128 = wide_trunc_div(product, den);
    saturate(base as i128 + quotient)
}

/// The exact product of two `i64` values.
pub fn wide_product(a: i64, b: i64) -> (r: i128)
    ensures
        r == a * b,
        -0x4000_0000_0000_0000_0000_0000_0000_0000 <= r <= 0x4000_0000_0000_0000_0000_0000_0000_0000,
{
    proof {
        assert(-0x4000_0000_0000_0000_0000_0000_0000_0000 <= a * b
            <= 0x4000_0000_0000_0000_0000_0000_0000_0000) by (nonlinear_arith)
            requires
                -0x8000_0000_0000_0000 <= a <= 0x7fff_ffff_ffff_ffff,
                -0x8000_0000_0000_0000 <= b <= 0x7fff_ffff_ffff_ffff,
        ;
    }
    a as i128 * b as i128
}

/// Division rounded towards zero, on a dividend that has an exact negative.
pub fn wide_trunc_div(a: i128, den: i64) -> (r: i128)
    requires
        den > 0,
        a > i128::MIN,
    ensures
        r == trunc_div(a as int, den as int),
        a >= 0 ==> 0 <= r <= a,
        a <= 0 ==> a <= r <= 0,
{
    let d: i128 = den as i128;
    if a >= 0 {
        proof {
            assert(0 <= a / d <= a) by (nonlinear_arith)
                requires
                    a >= 0,
                    d > 0,
            ;
        }
        a / d
    } else {
        let magnitude: i128 = 0 - a;
        proof {
            assert(0 <= magnitude / d <= magnitude) by (nonlinear_arith)
                requires
                    magnitude >= 0,
                    d > 0,
            ;
        }
        0 - magnitude / d
    }
}

/// `n` whole world units as a fixed-point number.
pub fn from_units(n: i32) -> (r: i64)
    ensures
        r == units(n as int),
{
    n as i64 * UNIT
}

} // verus!
