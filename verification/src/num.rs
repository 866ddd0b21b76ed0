//! Saturating and rounding arithmetic on signed 128-bit amounts.

use vstd::prelude::*;

verus! {

/// Clamp a mathematical integer into the `i128` range.
pub open spec fn clamp_i128(x: int) -> i128 {
    if x > i128::MAX {
        i128::MAX
    } else if x < i128::MIN {
        i128::MIN
    } else {
        x as i128
    }
}

/// `a + b`, saturating at the bounds of `i128`.
pub fn saturating_add_i128(a: i128, b: i128) -> (r: i128)
    ensures
        r == clamp_i128(a + b),
{
    match a.checked_add(b) {
        Some(s) => s,
        None => if b > 0 {
            i128::MAX
        } else {
            i128::MIN
        },
    }
}

/// `a - b`, saturating at the bounds of `i128`.
pub fn saturating_sub_i128(a: i128, b: i128) -> (r: i128)
    ensures
        r == clamp_i128(a - b),
{
    if b >= 0 {
        if a >= i128::MIN + b {
            a - b
        } else {
            i128::MIN
        }
    } else {
        if a <= i128::MAX + b {
            a - b
        } else {
            i128::MAX
        }
    }
}

/// Division by a positive divisor rounding toward zero, as Rust divides
/// signed integers.
pub open spec fn div_toward_zero(a: int, b: int) -> int {
    if a >= 0 {
        a / b
    } else {
        -((-a) / b)
    }
}

} // verus!
