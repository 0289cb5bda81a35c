use vstd::prelude::*;

use crate::arith::{
    ceil_div, lemma_ceil_div_bounds, lemma_product_fits_u128, mul_div, mul_div_spec,
};
use crate::error::ArithmeticError;

verus! {

/// The LP share credited for `contribution` against one side of the pool:
/// `floor(contribution * lp_supply / reserve)`.
pub open spec fn lp_share(contribution: int, lp_supply: int, reserve: int) -> int {
    contribution * lp_supply / reserve
}

/// What `calculate_lp_amount` returns: the smaller of the two shares, once
/// both reserves are non-zero, both shares fit in 64 bits and neither share
/// rounds to zero.
pub open spec fn calculate_lp_amount_spec(
    token0_amount: u64,
    token1_amount: u64,
    lp_supply: u64,
    pool_amount0: u64,
    pool_amount1: u64,
) -> Result<u64, ArithmeticError> {
    let share0 = lp_share(token0_amount as int, lp_supply as int, pool_amount0 as int);
    let share1 = lp_share(token1_amount as int, lp_supply as int, pool_amount1 as int);
    if pool_amount0 == 0 || pool_amount1 == 0 {
        Err(ArithmeticError::DivisionByZero)
    } else if share0 > u64::MAX || share1 > u64::MAX {
        Err(ArithmeticError::NarrowingFailure)
    } else if share0 == 0 || share1 == 0 {
        Err(ArithmeticError::ZeroResult)
    } else if share0 <= share1 {
        Ok(share0 as u64)
    } else {
        Ok(share1 as u64)
    }
}

/// What `lp_amount_to_mint` returns: the same computation, named by the
/// side of the pool each contribution goes to.
pub open spec fn lp_amount_to_mint_spec(
    contribution_a: u64,
    contribution_b: u64,
    lp_supply: u64,
    reserve_a: u64,
    reserve_b: u64,
) -> Result<u64, ArithmeticError> {
    calculate_lp_amount_spec(contribution_a, contribution_b, lp_supply, reserve_a, reserve_b)
}

/// What `lp_amount_to_burn` returns:
/// `ceil(target_amount_a * lp_supply / (2 * reserve_a))`.
pub open spec fn lp_amount_to_burn_spec(target_amount_a: u64, lp_supply: u64, reserve_a: u64) -> Result<
    u64,
    ArithmeticError,
> {
    let v = ceil_div(target_amount_a * lp_supply, 2 * reserve_a);
    if reserve_a == 0 {
        Err(ArithmeticError::DivisionByZero)
    } else if v > u64::MAX {
        Err(ArithmeticError::NarrowingFailure)
    } else {
        Ok(v as u64)
    }
}

/// The LP tokens that contributing `token0_amount` and `token1_amount` to the
/// pool earns: `min(token0_amount * lp_supply / pool_amount0,
/// token1_amount * lp_supply / pool_amount1)`, each share floored and
/// formed in 128 bits. The smaller share never over-credits either side.
/// Fails with `ZeroResult` when either share rounds to zero.
pub fn calculate_lp_amount(
    token0_amount: u64,
    token1_amount: u64,
    lp_supply: u64,
    pool_amount0: u64,
    pool_amount1: u64,
) -> (r: Result<u64, ArithmeticError>)
    ensures
        r == calculate_lp_amount_spec(
            token0_amount,
            token1_amount,
            lp_supply,
            pool_amount0,
            pool_amount1,
        ),
{
    if pool_amount0 == 0 || pool_amount1 == 0 {
        return Err(ArithmeticError::DivisionByZero);
    }
    let share0 = mul_div(token0_amount, lp_supply, pool_amount0);
    let share1 = mul_div(token1_amount, lp_supply, pool_amount1);
    match (share0, share1) {
        (Ok(s0), Ok(s1)) => if s0 == 0 || s1 == 0 {
            Err(ArithmeticError::ZeroResult)
        } else if s0 <= s1 {
            Ok(s0)
        } else {
            Ok(s1)
        },
        _ => Err(ArithmeticError::NarrowingFailure),
    }
}

/// The LP tokens to mint for a two-sided contribution; fails with
/// `ZeroResult` when the amount rounds to zero.
pub fn lp_amount_to_mint(
    contribution_a: u64,
    contribution_b: u64,
    lp_supply: u64,
    reserve_a: u64,
    reserve_b: u64,
) -> (r: Result<u64, ArithmeticError>)
    ensures
        r == lp_amount_to_mint_spec(contribution_a, contribution_b, lp_supply, reserve_a, reserve_b),
{
    calculate_lp_amount(contribution_a, contribution_b, lp_supply, reserve_a, reserve_b)
}

/// The LP tokens to burn so that side a pays out at least `target_amount_a`.
///
/// Burning returns a proportional share of both reserves, so only half of
/// the target is attributed to side a: the amount is
/// `ceil(target_amount_a * lp_supply / (2 * reserve_a))`, by exact ceiling
/// division so that the burn is never under-sized.
pub fn lp_amount_to_burn(target_amount_a: u64, lp_supply: u64, reserve_a: u64) -> (r: Result<
    u64,
    ArithmeticError,
>)
    ensures
        r == lp_amount_to_burn_spec(target_amount_a, lp_supply, reserve_a),
{
    if reserve_a == 0 {
        return Err(ArithmeticError::DivisionByZero);
    }
    proof {
        lemma_product_fits_u128(target_amount_a, lp_supply);
    }
    let numerator: u128 = (target_amount_a as u128) * (lp_supply as u128);
    let denominator: u128 = 2 * (reserve_a as u128);
    let burn: u128 = (numerator + (denominator - 1)) / denominator;
    if burn > u64::MAX as u128 {
        Err(ArithmeticError::NarrowingFailure)
    } else {
        Ok(burn as u64)
    }
}

/// Exchanging the two sides (contribution and reserve together) does not
/// change the LP amount to mint, nor the error.
pub proof fn lemma_mint_symmetric(
    contribution_a: u64,
    contribution_b: u64,
    lp_supply: u64,
    reserve_a: u64,
    reserve_b: u64,
)
    ensures
        lp_amount_to_mint_spec(contribution_a, contribution_b, lp_supply, reserve_a, reserve_b)
            == lp_amount_to_mint_spec(contribution_b, contribution_a, lp_supply, reserve_b, reserve_a),
{
}

/// The burn amount is a true ceiling: burning it covers the target, and it
/// exceeds the exact quotient by less than one unit, i.e.
/// `target * supply <= burn * 2 * reserve <= target * supply + 2 * reserve - 1`.
pub proof fn lemma_burn_is_ceiling(target_amount_a: u64, lp_supply: u64, reserve_a: u64)
    ensures
        lp_amount_to_burn_spec(target_amount_a, lp_supply, reserve_a) matches Ok(burn) ==> {
            &&& burn * reserve_a * 2 >= target_amount_a * lp_supply
            &&& burn * reserve_a * 2 <= target_amount_a * lp_supply + 2 * reserve_a - 1
        },
{
    if reserve_a > 0 {
        let x = target_amount_a * lp_supply;
        let d = 2 * reserve_a;
        assert(target_amount_a * lp_supply >= 0) by (nonlinear_arith)
            requires
                target_amount_a >= 0,
                lp_supply >= 0,
        ;
        lemma_ceil_div_bounds(x, d);
        let c = ceil_div(x, d);
        assert(c * d == c * reserve_a * 2) by (nonlinear_arith)
            requires
                d == 2 * reserve_a,
        ;
    }
}

} // verus!
