//! Fixed-point helpers for quantities held in millionths of their unit.
use vstd::prelude::*;

verus! {

/// Millionths in a unit.
pub const MICRO: i64 = 1_000_000;

/// `v` saturated to the range of `i64`.
pub open spec fn clamp_i64(v: int) -> i64 {
    if v < i64::MIN {
        i64::MIN
    } else if v > i64::MAX {
        i64::MAX
    } else {
        v as i64
    }
}

/// The product of `a` and `b` where `b` is in millionths, rounded down.
pub open spec fn mul_micro_spec(a: int, b: int) -> int {
    (a * b) / (MICRO as int)
}

/// The product of `a` and `b` where `b` is in millionths, rounded down.
pub fn mul_micro(a: i64, b: i64) -> (r: i128)
    ensures
        r == mul_micro_spec(a as int, b as int),
        -0x4000_0000_0000_0000_0000_0000_0000_0000 <= r <= 0x4000_0000_0000_0000_0000_0000_0000_0000,
{
    assert(-0x4000_0000_0000_0000_0000_0000_0000_0000 <= a as int * b as int
        <= 0x4000_0000_0000_0000_0000_0000_0000_0000) by (nonlinear_arith)
        requires
            i64::MIN <= a <= i64::MAX,
            i64::MIN <= b <= i64::MAX,
    ;
    let product: i128 = a as i128 * b as i128;
    assert(-0x4000_0000_0000_0000_0000_0000_0000_0000 <= product / 1_000_000
        <= 0x4000_0000_0000_0000_0000_0000_0000_0000) by (nonlinear_arith)
        requires
            -0x4000_0000_0000_0000_0000_0000_0000_0000 <= product
                <= 0x4000_0000_0000_0000_0000_0000_0000_0000,
    ;
    match product.checked_div_euclid(1_000_000i128) {
        Some(q) => q,
        None => 0,
    }
}

/// `v` saturated to the range of `i64`.
pub fn saturate_i64(v: i128) -> (r: i64)
    ensures
        r == clamp_i64(v as int),
{
    if v < i64::MIN as i128 {
        i64::MIN
    } else if v > i64::MAX as i128 {
        i64::MAX
    } else {
        v as i64
    }
}

} // verus!
