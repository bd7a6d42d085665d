//! Saturating fixed-point arithmetic.
//!
//! Lengths are whole numbers of a layout unit. Ratios, such as the linear
//! part of an affine map, are fixed-point numbers with sixteen fractional
//! bits: the ratio one is [`ONE`]. Every operation is total: a result that
//! does not fit into sixty-four bits is replaced by the nearest bound.

use vstd::prelude::*;

verus! {

/// The fixed-point representation of the ratio one.
pub const ONE: i64 = 65536;

/// The nearest value to `v` that an `i64` can hold.
pub open spec fn clamp(v: int) -> int {
    if v < i64::MIN {
        i64::MIN as int
    } else if v > i64::MAX {
        i64::MAX as int
    } else {
        v
    }
}

/// The length `v` scaled by the ratio `ratio`, rounded down.
pub open spec fn scaled(ratio: int, v: int) -> int {
    (ratio * v) / (ONE as int)
}

/// One coordinate of the image of `(x, y)` under an affine map whose row has
/// the ratios `a` and `b` and the offset `c`.
pub open spec fn affine(a: int, b: int, c: int, x: int, y: int) -> int {
    clamp(scaled(a, x) + scaled(b, y) + c)
}

/// The magnitude of a length, saturating for the least length.
pub open spec fn magnitude(v: int) -> int {
    clamp(if v < 0 { -v } else { v })
}

/// The smaller of two integers.
pub open spec fn min_of(a: int, b: int) -> int {
    if a <= b { a } else { b }
}

/// The larger of two integers.
pub open spec fn max_of(a: int, b: int) -> int {
    if a >= b { a } else { b }
}

/// The product of two sixty-four bit integers stays within 2^126 in magnitude.
pub proof fn lemma_product_bound(a: int, b: int)
    requires
        i64::MIN <= a <= i64::MAX,
        i64::MIN <= b <= i64::MAX,
    ensures
        -0x4000_0000_0000_0000_0000_0000_0000_0000 <= a * b
            <= 0x4000_0000_0000_0000_0000_0000_0000_0000,
{
    let m: int = 0x8000_0000_0000_0000;
    assert(-m <= a <= m && -m <= b <= m);
    assert(a * b <= m * m && a * b >= -(m * m)) by (nonlinear_arith)
        requires
            -m <= a <= m,
            -m <= b <= m,
            m >= 0,
    ;
    assert(m * m == 0x4000_0000_0000_0000_0000_0000_0000_0000) by (nonlinear_arith)
        requires
            m == 0x8000_0000_0000_0000,
    ;
}

/// Scaling by the ratio one changes nothing, and scaling by or of zero gives zero.
pub proof fn lemma_scaled_unit(v: int)
    ensures
        scaled(ONE as int, v) == v,
        scaled(v, ONE as int) == v,
        scaled(0, v) == 0,
        scaled(v, 0) == 0,
{
    assert((65536 * v) / 65536 == v) by (nonlinear_arith);
    assert((v * 65536) / 65536 == v) by (nonlinear_arith);
    assert(0 * v == 0 && v * 0 == 0) by (nonlinear_arith);
}

/// Narrows a wide integer to sixty-four bits, saturating at the bounds.
pub fn saturate(v: i128) -> (r: i64)
    ensures
        r == clamp(v as int),
{
    if v < -9223372036854775808i128 {
        i64::MIN
    } else if v > 9223372036854775807i128 {
        i64::MAX
    } else {
        v as i64
    }
}

/// Scales a length by a ratio, rounding down. The result is exact: it is not
/// yet narrowed.
pub fn scale_wide(ratio: i64, v: i64) -> (r: i128)
    ensures
        r == scaled(ratio as int, v as int),
        -0x4000_0000_0000_0000_0000_0000_0000 <= r <= 0x4000_0000_0000_0000_0000_0000_0000,
{
    proof {
        lemma_product_bound(ratio as int, v as int);
    }
    let wide: i128 = (ratio as i128) * (v as i128);
    let quotient: i128 = wide / 65536;
    let rest: i128 = wide % 65536;
    if rest < 0 {
        quotient - 1
    } else {
        quotient
    }
}

/// Computes one coordinate of an affine image, see [`affine`].
pub fn affine_of(a: i64, b: i64, c: i64, x: i64, y: i64) -> (r: i64)
    ensures
        r == affine(a as int, b as int, c as int, x as int, y as int),
{
    let first: i128 = scale_wide(a, x);
    let second: i128 = scale_wide(b, y);
    saturate(first + second + (c as i128))
}

/// The magnitude of a length, see [`magnitude`].
pub fn magnitude_of(v: i64) -> (r: i64)
    ensures
        r == magnitude(v as int),
        r >= 0,
{
    if v == i64::MIN {
        i64::MAX
    } else if v < 0 {
        -v
    } else {
        v
    }
}

/// The smaller of two lengths.
pub fn min_len(a: i64, b: i64) -> (r: i64)
    ensures
        r == min_of(a as int, b as int),
{
    if a <= b { a } else { b }
}

/// The larger of two lengths.
pub fn max_len(a: i64, b: i64) -> (r: i64)
    ensures
        r == max_of(a as int, b as int),
{
    if a >= b { a } else { b }
}

} // verus!
