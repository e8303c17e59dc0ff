//! Fixed-point numbers with six decimal places.
//!
//! A [`Fixed`] counts millionths: the value 2.5 is stored as `2_500_000`.
//! Products and quotients are computed exactly on wide integers, rounded
//! toward zero, and saturated to the range of the result type.
use vstd::prelude::*;

verus! {

/// A real quantity in millionths of its unit.
pub type Fixed = i64;

/// Counts per unit.
pub const SCALE: i64 = 1_000_000;

/// `SCALE` squared: counts per unit of a product of two fixed-point numbers.
pub const SCALE2: i64 = 1_000_000_000_000;

/// Absolute value.
pub open spec fn abs(x: int) -> int {
    if x < 0 {
        -x
    } else {
        x
    }
}

/// Quotient rounded toward zero. Meaningful for `b != 0`.
pub open spec fn trunc_div(a: int, b: int) -> int {
    if (a < 0) == (b < 0) {
        abs(a) / abs(b)
    } else {
        -(abs(a) / abs(b))
    }
}

/// `x` limited to the interval from `lo` to `hi`.
pub open spec fn clamp(x: int, lo: int, hi: int) -> int {
    if x < lo {
        lo
    } else if x > hi {
        hi
    } else {
        x
    }
}

/// `a * b / d`, rounded toward zero and saturated to 64 bits.
pub open spec fn spec_mul_div(a: int, b: int, d: int) -> int {
    clamp(trunc_div(a * b, d), i64::MIN as int, i64::MAX as int)
}

/// Product of two fixed-point numbers.
pub open spec fn spec_mul_fixed(a: int, b: int) -> int {
    spec_mul_div(a, b, SCALE as int)
}

/// Quotient of two fixed-point numbers. Meaningful for `b != 0`.
pub open spec fn spec_div_fixed(a: int, b: int) -> int {
    spec_mul_div(a, SCALE as int, b)
}

/// Whole part of the product of two fixed-point numbers, saturated to 32 bits.
pub open spec fn spec_mul_to_int(a: int, b: int) -> int {
    clamp(trunc_div(a * b, SCALE2 as int), i32::MIN as int, i32::MAX as int)
}

/// The whole number `n` divided by the fixed-point number `d`, as a
/// fixed-point number. Meaningful for `d != 0`.
pub open spec fn spec_int_div_fixed(n: int, d: int) -> int {
    spec_mul_div(n, SCALE2 as int, d)
}

pub proof fn lemma_abs_mul(a: int, b: int)
    ensures
        abs(a * b) == abs(a) * abs(b),
        (a * b < 0) == (a != 0 && b != 0 && ((a < 0) != (b < 0))),
{
    assert(abs(a * b) == abs(a) * abs(b) && ((a * b < 0) == (a != 0 && b != 0 && ((a < 0) != (b
        < 0))))) by (nonlinear_arith);
}

/// Magnitude of `x`.
pub fn magnitude(x: i64) -> (m: u64)
    ensures
        m == abs(x as int),
{
    if x >= 0 {
        x as u64
    } else {
        (-(x as i128)) as u64
    }
}

/// `a * b / d`, rounded toward zero and saturated to 64 bits.
pub fn mul_div(a: i64, b: i64, d: i64) -> (r: i64)
    requires
        d != 0,
    ensures
        r == spec_mul_div(a as int, b as int, d as int),
{
    let ma: u128 = magnitude(a) as u128;
    let mb: u128 = magnitude(b) as u128;
    let md: u128 = magnitude(d) as u128;
    proof {
        lemma_abs_mul(a as int, b as int);
        assert(ma * mb <= 0x8000_0000_0000_0000 * 0x8000_0000_0000_0000) by (nonlinear_arith)
            requires
                ma <= 0x8000_0000_0000_0000,
                mb <= 0x8000_0000_0000_0000,
        ;
    }
    let prod: u128 = ma * mb;
    let q: u128 = prod / md;
    let negative: bool = (a != 0 && b != 0 && ((a < 0) != (b < 0))) != (d < 0);
    proof {
        assert(q == abs(a * b) / abs(d as int));
        if a == 0 || b == 0 {
            assert(a * b == 0) by (nonlinear_arith)
                requires
                    a == 0 || b == 0,
            ;
            assert(q == 0);
        }
    }
    if negative {
        if q > 0x8000_0000_0000_0000 {
            i64::MIN
        } else {
            (-(q as i128)) as i64
        }
    } else {
        if q > 0x7fff_ffff_ffff_ffff {
            i64::MAX
        } else {
            q as i64
        }
    }
}

/// Product of two fixed-point numbers.
pub fn mul_fixed(a: Fixed, b: Fixed) -> (r: Fixed)
    ensures
        r == spec_mul_fixed(a as int, b as int),
{
    mul_div(a, b, SCALE)
}

/// Quotient of two fixed-point numbers.
pub fn div_fixed(a: Fixed, b: Fixed) -> (r: Fixed)
    requires
        b != 0,
    ensures
        r == spec_div_fixed(a as int, b as int),
{
    mul_div(a, SCALE, b)
}

/// Whole part of the product of two fixed-point numbers, saturated to 32 bits.
pub fn mul_to_int(a: Fixed, b: Fixed) -> (r: i32)
    ensures
        r == spec_mul_to_int(a as int, b as int),
{
    let wide: i64 = mul_div(a, b, SCALE2);
    if wide < -0x8000_0000 {
        i32::MIN
    } else if wide > 0x7fff_ffff {
        i32::MAX
    } else {
        wide as i32
    }
}

/// The whole number `n` divided by the fixed-point number `d`.
pub fn int_div_fixed(n: i32, d: Fixed) -> (r: Fixed)
    requires
        d != 0,
    ensures
        r == spec_int_div_fixed(n as int, d as int),
{
    mul_div(n as i64, SCALE2, d)
}

/// The fixed-point number that stands for the whole number `n`.
pub fn from_int(n: i32) -> (r: Fixed)
    ensures
        r == n * SCALE,
{
    (n as i64) * SCALE
}

} // verus!
