use vstd::prelude::*;

use crate::arith::{lemma_product_fits_u128, mul_div, mul_div_spec};
use crate::error::ArithmeticError;
use crate::pool::{PoolReserves, SwapDirection};

verus! {

/// The percentage of an estimate accepted as the minimum output, used by the
/// rebalancing flows.
pub const DEFAULT_TOLERANCE: u64 = 95;

/// How the output of a swap is estimated from the pool's reserves.
///
/// Both models stay available because they disagree at non-trivial trade
/// sizes and the intended AMM semantics is not settled. The rebalancing
/// flows quote with `Ratio`.
#[derive(Clone, Copy, Debug, PartialEq, Eq, Structural)]
pub enum PricingModel {
    /// `amount_in * reserve_out / reserve_in`: the pool's current price,
    /// ignoring the trade's own price impact.
    Ratio,
    /// `amount_in * reserve_out / (reserve_in + amount_in)`: the
    /// constant-product output without fees.
    ConstantProduct,
}

/// A swap estimate and its slippage-bounded minimum output.
#[derive(Clone, Copy, Debug, PartialEq, Eq, Structural)]
pub struct Quote {
    pub amount_in: u64,
    pub amount_out_estimated: u64,
    pub amount_out_minimum: u64,
}

/// A quoted swap, ready to submit.
#[derive(Clone, Copy, Debug, PartialEq, Eq, Structural)]
pub struct SwapOrder {
    pub direction: SwapDirection,
    pub quote: Quote,
}

/// The exact (unnarrowed) output estimate of a model.
pub open spec fn estimate_spec(
    model: PricingModel,
    reserve_in: int,
    reserve_out: int,
    amount_in: int,
) -> int {
    match model {
        PricingModel::Ratio => amount_in * reserve_out / reserve_in,
        PricingModel::ConstantProduct => amount_in * reserve_out / (reserve_in + amount_in),
    }
}

/// `floor(estimate * tolerance / 100)`.
pub open spec fn minimum_spec(estimate: int, tolerance: int) -> int {
    estimate * tolerance / 100
}

/// What `quote` returns.
pub open spec fn quote_spec(
    reserve_in: u64,
    reserve_out: u64,
    amount_in: u64,
    tolerance: u64,
    model: PricingModel,
) -> Result<Quote, ArithmeticError> {
    let est = estimate_spec(model, reserve_in as int, reserve_out as int, amount_in as int);
    if reserve_in == 0 || reserve_out == 0 {
        Err(ArithmeticError::DivisionByZero)
    } else if est > u64::MAX {
        Err(ArithmeticError::NarrowingFailure)
    } else if minimum_spec(est, tolerance as int) > u64::MAX {
        Err(ArithmeticError::NarrowingFailure)
    } else if minimum_spec(est, tolerance as int) == 0 {
        Err(ArithmeticError::ZeroOutput)
    } else {
        Ok(
            Quote {
                amount_in,
                amount_out_estimated: est as u64,
                amount_out_minimum: minimum_spec(est, tolerance as int) as u64,
            },
        )
    }
}

/// What `quote_swap` returns.
pub open spec fn quote_swap_spec(
    pool: PoolReserves,
    direction: SwapDirection,
    amount_in: u64,
    tolerance: u64,
    model: PricingModel,
) -> Result<SwapOrder, ArithmeticError> {
    match quote_spec(
        pool.spec_reserve_in(direction),
        pool.spec_reserve_out(direction),
        amount_in,
        tolerance,
        model,
    ) {
        Ok(q) => Ok(SwapOrder { direction, quote: q }),
        Err(e) => Err(e),
    }
}

/// `floor(amount * tolerance / 100)`, the least output accepted for an
/// expected `amount`.
pub fn apply_tolerance(amount: u64, tolerance: u64) -> (r: Result<u64, ArithmeticError>)
    ensures
        r == mul_div_spec(amount as int, tolerance as int, 100),
{
    mul_div(amount, tolerance, 100)
}

/// Estimates a swap of `amount_in` against the reserves under `model`, and
/// bounds its output below at `tolerance` percent of the estimate.
///
/// Fails with `DivisionByZero` when a reserve is zero, `NarrowingFailure`
/// when the estimate or the minimum does not fit in 64 bits, and
/// `ZeroOutput` when the minimum rounds to zero: a zero-output trade is
/// never submitted.
pub fn quote(
    reserve_in: u64,
    reserve_out: u64,
    amount_in: u64,
    tolerance: u64,
    model: PricingModel,
) -> (r: Result<Quote, ArithmeticError>)
    ensures
        r == quote_spec(reserve_in, reserve_out, amount_in, tolerance, model),
{
    if reserve_in == 0 || reserve_out == 0 {
        return Err(ArithmeticError::DivisionByZero);
    }
    let estimated: u64 = match model {
        PricingModel::Ratio => match mul_div(amount_in, reserve_out, reserve_in) {
            Ok(v) => v,
            Err(e) => return Err(e),
        },
        PricingModel::ConstantProduct => {
            proof {
                lemma_product_fits_u128(amount_in, reserve_out);
            }
            let product: u128 = (amount_in as u128) * (reserve_out as u128);
            let denominator: u128 = (reserve_in as u128) + (amount_in as u128);
            let out: u128 = product / denominator;
            if out > u64::MAX as u128 {
                return Err(ArithmeticError::NarrowingFailure);
            }
            out as u64
        },
    };
    let minimum = match apply_tolerance(estimated, tolerance) {
        Ok(v) => v,
        Err(e) => return Err(e),
    };
    if minimum == 0 {
        return Err(ArithmeticError::ZeroOutput);
    }
    Ok(Quote { amount_in, amount_out_estimated: estimated, amount_out_minimum: minimum })
}

/// Quotes a swap of `amount_in` through `pool` in `direction`.
pub fn quote_swap(
    pool: &PoolReserves,
    direction: SwapDirection,
    amount_in: u64,
    tolerance: u64,
    model: PricingModel,
) -> (r: Result<SwapOrder, ArithmeticError>)
    ensures
        r == quote_swap_spec(*pool, direction, amount_in, tolerance, model),
{
    let (reserve_in, reserve_out) = pool.reserves_for(direction);
    match quote(reserve_in, reserve_out, amount_in, tolerance, model) {
        Ok(q) => Ok(SwapOrder { direction, quote: q }),
        Err(e) => Err(e),
    }
}

/// With a tolerance of at most 100 percent, a quote never promises a minimum
/// above its own estimate.
pub proof fn lemma_quote_minimum_at_most_estimate(
    reserve_in: u64,
    reserve_out: u64,
    amount_in: u64,
    tolerance: u64,
    model: PricingModel,
)
    requires
        reserve_in > 0,
        reserve_out > 0,
        amount_in > 0,
        0 < tolerance <= 100,
    ensures
        quote_spec(reserve_in, reserve_out, amount_in, tolerance, model) matches Ok(q)
            ==> q.amount_out_minimum <= q.amount_out_estimated,
{
    let est = estimate_spec(model, reserve_in as int, reserve_out as int, amount_in as int);
    if est >= 0 {
        lemma_minimum_at_most(est, tolerance as int);
    }
}

pub proof fn lemma_minimum_at_most(estimate: int, tolerance: int)
    requires
        0 <= estimate,
        0 <= tolerance <= 100,
    ensures
        0 <= minimum_spec(estimate, tolerance) <= estimate,
{
    assert(estimate * tolerance <= estimate * 100 && 0 <= estimate * tolerance) by (nonlinear_arith)
        requires
            0 <= estimate,
            0 <= tolerance <= 100,
    ;
}

} // verus!
