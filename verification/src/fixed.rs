//! The number format and its arithmetic.

use vstd::prelude::*;

verus! {

/// The value one: 2^32 units.
pub const ONE: i64 = 0x1_0000_0000;

/// `x` held between `lo` and `hi`.
pub open spec fn clamp(x: int, lo: int, hi: int) -> int {
    if x < lo {
        lo
    } else if x > hi {
        hi
    } else {
        x
    }
}

/// `x` held within the range of an `i64`.
pub open spec fn saturate(x: int) -> int {
    clamp(x, i64::MIN as int, i64::MAX as int)
}

/// The quotient `n / d` rounded up, for `n >= 0` and `d > 0`.
pub open spec fn div_ceil(n: int, d: int) -> int {
    (n + d - 1) / d
}

/// The quotient `n / d` rounded to the nearest integer, halves away from zero,
/// for `d > 0`.
pub open spec fn div_round(n: int, d: int) -> int {
    if n >= 0 {
        (2 * n + d) / (2 * d)
    } else {
        -((2 * (-n) + d) / (2 * d))
    }
}

/// The product of two fixed-point numbers, rounded down to a whole unit.
pub open spec fn product(a: int, b: int) -> int {
    (a * b) / (ONE as int)
}

/// The product of two 64-bit factors fits in 128 bits.
pub proof fn lemma_product_fits(a: int, b: int)
    requires
        0 <= a <= u64::MAX,
        0 <= b <= u64::MAX,
    ensures
        0 <= a * b <= 0xFFFF_FFFF_FFFF_FFFE_0000_0000_0000_0001,
{
    assert(0 <= a * b <= 0xFFFF_FFFF_FFFF_FFFF * 0xFFFF_FFFF_FFFF_FFFF) by (nonlinear_arith)
        requires
            0 <= a <= 0xFFFF_FFFF_FFFF_FFFF,
            0 <= b <= 0xFFFF_FFFF_FFFF_FFFF,
    ;
}

/// `a * b / d`, rounded down, without overflow in between.
pub fn mul_div_floor(a: u64, b: u64, d: u64) -> (q: u128)
    requires
        d > 0,
    ensures
        q == (a * b) / (d as int),
{
    proof {
        lemma_product_fits(a as int, b as int);
    }
    let p: u128 = (a as u128) * (b as u128);
    p / (d as u128)
}

/// `a * b / d`, rounded up, without overflow in between.
pub fn mul_div_ceil(a: u64, b: u64, d: u64) -> (q: u128)
    requires
        d > 0,
    ensures
        q == div_ceil(a * b, d as int),
{
    proof {
        lemma_product_fits(a as int, b as int);
    }
    let p: u128 = (a as u128) * (b as u128);
    (p + ((d - 1) as u128)) / (d as u128)
}

/// The product of two fixed-point numbers, rounded down and held within the
/// range of an `i64`.
pub fn fixed_mul(a: i64, b: i64) -> (r: i64)
    ensures
        r == saturate(product(a as int, b as int)),
{
    proof {
        assert(-0x8000_0000_0000_0000 * 0x8000_0000_0000_0000 <= a * b
            <= 0x8000_0000_0000_0000 * 0x8000_0000_0000_0000) by (nonlinear_arith)
            requires
                -0x8000_0000_0000_0000 <= a < 0x8000_0000_0000_0000,
                -0x8000_0000_0000_0000 <= b < 0x8000_0000_0000_0000,
        ;
    }
    let p: i128 = (a as i128) * (b as i128);
    let q: i128 = if p >= 0 {
        p / (ONE as i128)
    } else {
        -((-p + (ONE as i128 - 1)) / (ONE as i128))
    };
    if q > i64::MAX as i128 {
        i64::MAX
    } else if q < i64::MIN as i128 {
        i64::MIN
    } else {
        q as i64
    }
}

/// The sum of two fixed-point numbers, held within the range of an `i64`.
pub fn fixed_add(a: i64, b: i64) -> (r: i64)
    ensures
        r == saturate(a + b),
{
    let sum: i128 = (a as i128) + (b as i128);
    if sum > i64::MAX as i128 {
        i64::MAX
    } else if sum < i64::MIN as i128 {
        i64::MIN
    } else {
        sum as i64
    }
}

} // verus!
