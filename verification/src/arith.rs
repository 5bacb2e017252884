//! Saturating and overflow-free arithmetic helpers shared by the modules.
use vstd::prelude::*;

verus! {

/// `x` clamped into the range of `u64`.
pub open spec fn clamp_u64(x: int) -> int {
    if x > u64::MAX { u64::MAX as int } else if x < 0 { 0 } else { x }
}

/// `x` clamped into the range of `u128`.
pub open spec fn clamp_u128(x: int) -> int {
    if x > u128::MAX { u128::MAX as int } else if x < 0 { 0 } else { x }
}

/// `x` clamped into the range of `i128`.
pub open spec fn clamp_i128(x: int) -> int {
    if x > i128::MAX { i128::MAX as int } else if x < i128::MIN { i128::MIN as int } else { x }
}

/// `x / d` rounded toward zero, as Rust divides signed integers.
pub open spec fn div_toward_zero(x: int, d: int) -> int {
    if x >= 0 { x / d } else { -((-x) / d) }
}

/// Saturating multiplication of two `u64` values.
pub fn sat_mul_u64(a: u64, b: u64) -> (r: u64)
    ensures
        r == clamp_u64(a * b),
{
    match a.checked_mul(b) {
        Some(v) => v,
        None => u64::MAX,
    }
}

/// Saturating multiplication of two `u128` values.
pub fn sat_mul_u128(a: u128, b: u128) -> (r: u128)
    ensures
        r == clamp_u128(a * b),
{
    match a.checked_mul(b) {
        Some(v) => v,
        None => u128::MAX,
    }
}

/// Saturating addition of two `i128` values.
pub fn sat_add_i128(a: i128, b: i128) -> (r: i128)
    ensures
        r == clamp_i128(a + b),
{
    match a.checked_add(b) {
        Some(v) => v,
        None => if b > 0 { i128::MAX } else { i128::MIN },
    }
}

/// Saturating subtraction of two `i128` values.
pub fn sat_sub_i128(a: i128, b: i128) -> (r: i128)
    ensures
        r == clamp_i128(a - b),
{
    match a.checked_sub(b) {
        Some(v) => v,
        None => if b < 0 { i128::MAX } else { i128::MIN },
    }
}

/// Saturating multiplication of two `i128` values.
pub fn sat_mul_i128(a: i128, b: i128) -> (r: i128)
    ensures
        r == clamp_i128(a * b),
{
    match a.checked_mul(b) {
        Some(v) => v,
        None => {
            proof {
                if (a > 0) == (b > 0) {
                    assert(a * b >= 0) by (nonlinear_arith) requires (a > 0) == (b > 0);
                } else {
                    assert(a * b <= 0) by (nonlinear_arith) requires (a > 0) != (b > 0);
                }
            }
            if (a > 0) == (b > 0) { i128::MAX } else { i128::MIN }
        },
    }
}

} // verus!
