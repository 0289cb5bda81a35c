use vstd::prelude::*;

use crate::error::ArithmeticError;

verus! {

/// `a * b / d` over the integers, floored, with the failures of a 64-bit
/// result: a zero divisor, or a quotient that does not fit in `u64`.
pub open spec fn mul_div_spec(a: int, b: int, d: int) -> Result<u64, ArithmeticError> {
    if d == 0 {
        Err(ArithmeticError::DivisionByZero)
    } else if a * b / d > u64::MAX {
        Err(ArithmeticError::NarrowingFailure)
    } else {
        Ok((a * b / d) as u64)
    }
}

/// `x / d` rounded up, for `d > 0`.
pub open spec fn ceil_div(x: int, d: int) -> int {
    (x + d - 1) / d
}

pub proof fn lemma_product_fits_u128(a: u64, b: u64)
    ensures
        a * b <= u64::MAX * u64::MAX,
        a * b <= u128::MAX,
        0 <= a * b,
{
    assert(a * b <= u64::MAX * u64::MAX) by (nonlinear_arith)
        requires
            a <= u64::MAX,
            b <= u64::MAX,
    ;
    assert(0 <= a * b) by (nonlinear_arith)
        requires
            0 <= a,
            0 <= b,
    ;
}

/// Rounding up brackets the exact quotient: `ceil_div(x, d) * d` is at least
/// `x` and exceeds it by less than `d`.
pub proof fn lemma_ceil_div_bounds(x: int, d: int)
    requires
        0 <= x,
        0 < d,
    ensures
        ceil_div(x, d) * d >= x,
        ceil_div(x, d) * d <= x + d - 1,
        ceil_div(x, d) >= 0,
{
    let q = (x + d - 1) / d;
    let r = (x + d - 1) % d;
    vstd::arithmetic::div_mod::lemma_fundamental_div_mod(x + d - 1, d);
    vstd::arithmetic::div_mod::lemma_mod_bound(x + d - 1, d);
    vstd::arithmetic::div_mod::lemma_div_pos_is_pos(x + d - 1, d);
    assert(d * q == q * d) by (nonlinear_arith);
}

/// Computes `a * b / d` (floored) in 128 bits and narrows it back to 64 bits.
pub fn mul_div(a: u64, b: u64, d: u64) -> (r: Result<u64, ArithmeticError>)
    ensures
        r == mul_div_spec(a as int, b as int, d as int),
{
    if d == 0 {
        return Err(ArithmeticError::DivisionByZero);
    }
    proof {
        lemma_product_fits_u128(a, b);
    }
    let product: u128 = (a as u128) * (b as u128);
    let quotient: u128 = product / (d as u128);
    if quotient > u64::MAX as u128 {
        Err(ArithmeticError::NarrowingFailure)
    } else {
        Ok(quotient as u64)
    }
}

} // verus!
