//! Saturating arithmetic on fixed-width integers, with its meaning over `int`.
use vstd::prelude::*;

verus! {

/// `x` clamped into the range of `u64`.
pub open spec fn clamp_u64(x: int) -> int {
    if x > u64::MAX {
        u64::MAX as int
    } else if x < 0 {
        0
    } else {
        x
    }
}

/// `x` clamped into the range of `i128`.
pub open spec fn clamp_i128(x: int) -> int {
    if x > i128::MAX {
        i128::MAX as int
    } else if x < i128::MIN {
        i128::MIN as int
    } else {
        x
    }
}

/// The product of two `u64` values, saturating at `u64::MAX`.
pub fn saturating_mul_u64(a: u64, b: u64) -> (r: u64)
    ensures
        r == clamp_u64(a * b),
{
    proof {
        assert(a * b >= 0) by (nonlinear_arith);
    }
    match a.checked_mul(b) {
        Some(v) => v,
        None => u64::MAX,
    }
}

/// The sum of two `i128` values, saturating at the bounds of `i128`.
pub fn saturating_add_i128(a: i128, b: i128) -> (r: i128)
    ensures
        r == clamp_i128(a + b),
{
    match a.checked_add(b) {
        Some(v) => v,
        None => if b > 0 {
            i128::MAX
        } else {
            i128::MIN
        },
    }
}

/// The difference of two `i128` values, saturating at the bounds of `i128`.
pub fn saturating_sub_i128(a: i128, b: i128) -> (r: i128)
    ensures
        r == clamp_i128(a - b),
{
    match a.checked_sub(b) {
        Some(v) => v,
        None => if b < 0 {
            i128::MAX
        } else {
            i128::MIN
        },
    }
}

/// The product of two `i128` values, saturating at the bounds of `i128`.
pub fn saturating_mul_i128(a: i128, b: i128) -> (r: i128)
    ensures
        r == clamp_i128(a * b),
{
    match a.checked_mul(b) {
        Some(v) => v,
        None => {
            if (a < 0) == (b < 0) {
                proof {
                    assert((a < 0) == (b < 0) ==> a * b >= 0) by (nonlinear_arith);
                }
                i128::MAX
            } else {
                proof {
                    assert((a < 0) != (b < 0) ==> a * b <= 0) by (nonlinear_arith);
                }
                i128::MIN
            }
        },
    }
}

} // verus!
