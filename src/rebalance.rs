use vstd::prelude::*;

use crate::arith::{mul_div, mul_div_spec};
use crate::error::ArithmeticError;
use crate::lp::{
    lemma_burn_is_ceiling, lp_amount_to_burn, lp_amount_to_burn_spec, lp_amount_to_mint,
    lp_amount_to_mint_spec,
};
use crate::pool::{PoolReserves, SwapDirection};
use crate::redemption::Vault;
use crate::quote::{
    apply_tolerance, quote_swap, quote_swap_spec, PricingModel, SwapOrder, DEFAULT_TOLERANCE,
};

verus! {

/// The amount of idle reserve a cycle without pending requests moves into
/// the LP position.
pub const IDLE_DEPOSIT_AMOUNT: u64 = 1_000_000;

/// What a polling cycle does.
#[derive(Clone, Copy, Debug, PartialEq, Eq, Structural)]
pub enum CycleAction {
    /// Settle the pending requests.
    SettleBatch,
    /// Nothing is pending and idle reserve is available: deposit `amount`.
    DepositIdle { amount: u64 },
    /// Nothing to do until the next cycle.
    Sleep,
}

/// A deposit amount split into the half that is swapped and the rest that is
/// contributed as it is.
#[derive(Clone, Copy, Debug, PartialEq, Eq, Structural)]
pub struct DepositSplit {
    pub half: u64,
    pub remainder: u64,
}

/// LP tokens to mint or burn, with a bound on each side of the pool: the
/// most to pay in for a deposit, the least to accept for a withdrawal.
#[derive(Clone, Copy, Debug, PartialEq, Eq, Structural)]
pub struct LpAdjustment {
    pub lp_amount: u64,
    pub asset_a_bound: u64,
    pub asset_b_bound: u64,
}

/// How much of the LP position a withdrawal burns.
#[derive(Clone, Copy, Debug, PartialEq, Eq, Structural)]
pub enum WithdrawPolicy {
    /// The whole LP balance.
    All,
    /// Enough to pay out `amount` of the base asset, at most the balance.
    TargetBase { amount: u64 },
}

/// Where a rebalancing flow stands. A deposit goes
/// `DepositIdle -> DepositSwapped -> Deposited`, a withdrawal
/// `WithdrawIdle -> WithdrawBurned -> WithdrawSwapped`.
#[derive(Clone, Copy, Debug, PartialEq, Eq, Structural)]
pub enum FlowState {
    DepositIdle { deposit_amount: u64 },
    /// Half was swapped; `swap_output` is the least it brought in.
    DepositSwapped { remainder: u64, swap_output: u64 },
    Deposited { lp_amount: u64 },
    WithdrawIdle { policy: WithdrawPolicy },
    WithdrawBurned { lp_burned: u64 },
    /// The other asset's balance, `swapped_in`, went back into the base.
    WithdrawSwapped { lp_burned: u64, swapped_in: u64 },
}

/// What was read from the chain just before a step: the pool, and a token
/// balance of the vault. The balance is the LP balance when a withdrawal
/// starts and the other asset's balance after the burn; the deposit steps
/// do not read it.
#[derive(Clone, Copy, Debug, PartialEq, Eq, Structural)]
pub struct Observation {
    pub pool: PoolReserves,
    pub balance: u64,
}

/// The transaction a step asks to submit.
#[derive(Clone, Copy, Debug, PartialEq, Eq, Structural)]
pub enum FlowAction {
    Swap(SwapOrder),
    LpDeposit(LpAdjustment),
    LpWithdraw(LpAdjustment),
}

/// The state a flow moves to once the step's action went through.
#[derive(Clone, Copy, Debug, PartialEq, Eq, Structural)]
pub struct FlowStep {
    pub next: FlowState,
    pub action: FlowAction,
}

/// Why a flow stops.
#[derive(Clone, Copy, Debug, PartialEq, Eq, Structural)]
pub enum FlowError {
    Arithmetic(ArithmeticError),
    /// A withdrawal found no LP tokens to burn.
    NoLpPosition,
    /// Paying out the withdrawal's target takes `needed` LP tokens, more
    /// than the `held` balance.
    InsufficientLp { needed: u64, held: u64 },
    /// The flow already took both of its steps.
    Finished,
}

pub open spec fn split_deposit_spec(deposit_amount: u64) -> DepositSplit {
    DepositSplit {
        half: deposit_amount / 2,
        remainder: (deposit_amount - deposit_amount / 2) as u64,
    }
}

/// What `burn_amount` returns.
pub open spec fn burn_amount_spec(policy: WithdrawPolicy, lp_balance: u64, pool: PoolReserves) -> Result<
    u64,
    FlowError,
> {
    match policy {
        WithdrawPolicy::All => Ok(lp_balance),
        WithdrawPolicy::TargetBase { amount } => match lp_amount_to_burn_spec(
            amount,
            pool.lp_supply,
            pool.reserve_a,
        ) {
            Ok(b) => if b == 0 {
                Err(FlowError::Arithmetic(ArithmeticError::ZeroResult))
            } else if b <= lp_balance {
                Ok(b)
            } else {
                Err(FlowError::InsufficientLp { needed: b, held: lp_balance })
            },
            Err(e) => Err(FlowError::Arithmetic(e)),
        },
    }
}

/// The least of one side to accept when burning `lp_amount`: the
/// proportional share `lp_amount * reserve / lp_supply`, at the default
/// tolerance.
pub open spec fn withdraw_bound_spec(lp_amount: u64, reserve: u64, lp_supply: u64) -> Result<
    u64,
    ArithmeticError,
> {
    match mul_div_spec(lp_amount as int, reserve as int, lp_supply as int) {
        Ok(expected) => mul_div_spec(expected as int, DEFAULT_TOLERANCE as int, 100),
        Err(e) => Err(e),
    }
}

/// What `withdraw_adjustment` returns.
pub open spec fn withdraw_adjustment_spec(lp_amount: u64, pool: PoolReserves) -> Result<
    LpAdjustment,
    ArithmeticError,
> {
    match withdraw_bound_spec(lp_amount, pool.reserve_a, pool.lp_supply) {
        Ok(a) => match withdraw_bound_spec(lp_amount, pool.reserve_b, pool.lp_supply) {
            Ok(b) => Ok(LpAdjustment { lp_amount, asset_a_bound: a, asset_b_bound: b }),
            Err(e) => Err(e),
        },
        Err(e) => Err(e),
    }
}

/// What `advance` returns.
pub open spec fn advance_spec(state: FlowState, obs: Observation) -> Result<FlowStep, FlowError> {
    match state {
        FlowState::DepositIdle { deposit_amount } => {
            let split = split_deposit_spec(deposit_amount);
            match quote_swap_spec(
                obs.pool,
                SwapDirection::BaseToOther,
                split.half,
                DEFAULT_TOLERANCE,
                PricingModel::Ratio,
            ) {
                Ok(order) => Ok(
                    FlowStep {
                        next: FlowState::DepositSwapped {
                            remainder: split.remainder,
                            swap_output: order.quote.amount_out_minimum,
                        },
                        action: FlowAction::Swap(order),
                    },
                ),
                Err(e) => Err(FlowError::Arithmetic(e)),
            }
        },
        FlowState::DepositSwapped { remainder, swap_output } => match lp_amount_to_mint_spec(
            remainder,
            swap_output,
            obs.pool.lp_supply,
            obs.pool.reserve_a,
            obs.pool.reserve_b,
        ) {
            Ok(lp) => Ok(
                FlowStep {
                    next: FlowState::Deposited { lp_amount: lp },
                    action: FlowAction::LpDeposit(
                        LpAdjustment { lp_amount: lp, asset_a_bound: remainder, asset_b_bound: swap_output },
                    ),
                },
            ),
            Err(e) => Err(FlowError::Arithmetic(e)),
        },
        FlowState::WithdrawIdle { policy } => if obs.balance == 0 {
            Err(FlowError::NoLpPosition)
        } else {
            match burn_amount_spec(policy, obs.balance, obs.pool) {
                Ok(burn) => match withdraw_adjustment_spec(burn, obs.pool) {
                    Ok(adj) => Ok(
                        FlowStep {
                            next: FlowState::WithdrawBurned { lp_burned: burn },
                            action: FlowAction::LpWithdraw(adj),
                        },
                    ),
                    Err(e) => Err(FlowError::Arithmetic(e)),
                },
                Err(e) => Err(e),
            }
        },
        FlowState::WithdrawBurned { lp_burned } => match quote_swap_spec(
            obs.pool,
            SwapDirection::OtherToBase,
            obs.balance,
            DEFAULT_TOLERANCE,
            PricingModel::Ratio,
        ) {
            Ok(order) => Ok(
                FlowStep {
                    next: FlowState::WithdrawSwapped { lp_burned, swapped_in: obs.balance },
                    action: FlowAction::Swap(order),
                },
            ),
            Err(e) => Err(FlowError::Arithmetic(e)),
        },
        FlowState::Deposited { .. } => Err(FlowError::Finished),
        FlowState::WithdrawSwapped { .. } => Err(FlowError::Finished),
    }
}

/// Splits a deposit: `half = deposit_amount / 2` is swapped, the
/// `remainder = deposit_amount - half` is contributed as base asset.
pub fn split_deposit(deposit_amount: u64) -> (r: DepositSplit)
    ensures
        r == split_deposit_spec(deposit_amount),
        r.half + r.remainder == deposit_amount,
{
    let half = deposit_amount / 2;
    DepositSplit { half, remainder: deposit_amount - half }
}

/// The LP tokens a withdrawal burns under `policy`, out of `lp_balance`.
/// A target is met in full or not at all: one that needs no LP token is
/// refused with `ZeroResult`, one that needs more than the balance with
/// `InsufficientLp`.
pub fn burn_amount(policy: WithdrawPolicy, lp_balance: u64, pool: &PoolReserves) -> (r: Result<
    u64,
    FlowError,
>)
    ensures
        r == burn_amount_spec(policy, lp_balance, *pool),
        r matches Ok(b) ==> b <= lp_balance,
{
    match policy {
        WithdrawPolicy::All => Ok(lp_balance),
        WithdrawPolicy::TargetBase { amount } => match lp_amount_to_burn(
            amount,
            pool.lp_supply,
            pool.reserve_a,
        ) {
            Ok(b) => if b == 0 {
                Err(FlowError::Arithmetic(ArithmeticError::ZeroResult))
            } else if b <= lp_balance {
                Ok(b)
            } else {
                Err(FlowError::InsufficientLp { needed: b, held: lp_balance })
            },
            Err(e) => Err(FlowError::Arithmetic(e)),
        },
    }
}

/// Burning `lp_amount` with each side bounded below by
/// `floor(expected_side * 95 / 100)`, the expected side being
/// `lp_amount * reserve / lp_supply`.
pub fn withdraw_adjustment(lp_amount: u64, pool: &PoolReserves) -> (r: Result<
    LpAdjustment,
    ArithmeticError,
>)
    ensures
        r == withdraw_adjustment_spec(lp_amount, *pool),
{
    let expected_a = match mul_div(lp_amount, pool.reserve_a, pool.lp_supply) {
        Ok(v) => v,
        Err(e) => return Err(e),
    };
    let bound_a = match apply_tolerance(expected_a, DEFAULT_TOLERANCE) {
        Ok(v) => v,
        Err(e) => return Err(e),
    };
    let expected_b = match mul_div(lp_amount, pool.reserve_b, pool.lp_supply) {
        Ok(v) => v,
        Err(e) => return Err(e),
    };
    let bound_b = match apply_tolerance(expected_b, DEFAULT_TOLERANCE) {
        Ok(v) => v,
        Err(e) => return Err(e),
    };
    Ok(LpAdjustment { lp_amount, asset_a_bound: bound_a, asset_b_bound: bound_b })
}

/// Takes one step of a rebalancing flow against state read just before it.
///
/// Deposit: swap half of the amount into the other asset at 95% tolerance,
/// then, on the pool as it stands after the swap, mint LP for the remainder
/// and the swap's minimum output, bounding each side at those amounts.
/// Withdrawal: burn LP (refused with `NoLpPosition` when the vault holds
/// none) with each side bounded at 95% of its proportional share, then swap
/// the whole other-asset balance back into the base at 95% tolerance.
///
/// Any failure stops the flow; an action already submitted stands.
pub fn advance(state: FlowState, obs: &Observation) -> (r: Result<FlowStep, FlowError>)
    ensures
        r == advance_spec(state, *obs),
{
    match state {
        FlowState::DepositIdle { deposit_amount } => {
            let split = split_deposit(deposit_amount);
            match quote_swap(
                &obs.pool,
                SwapDirection::BaseToOther,
                split.half,
                DEFAULT_TOLERANCE,
                PricingModel::Ratio,
            ) {
                Ok(order) => Ok(
                    FlowStep {
                        next: FlowState::DepositSwapped {
                            remainder: split.remainder,
                            swap_output: order.quote.amount_out_minimum,
                        },
                        action: FlowAction::Swap(order),
                    },
                ),
                Err(e) => Err(FlowError::Arithmetic(e)),
            }
        },
        FlowState::DepositSwapped { remainder, swap_output } => match lp_amount_to_mint(
            remainder,
            swap_output,
            obs.pool.lp_supply,
            obs.pool.reserve_a,
            obs.pool.reserve_b,
        ) {
            Ok(lp) => Ok(
                FlowStep {
                    next: FlowState::Deposited { lp_amount: lp },
                    action: FlowAction::LpDeposit(
                        LpAdjustment { lp_amount: lp, asset_a_bound: remainder, asset_b_bound: swap_output },
                    ),
                },
            ),
            Err(e) => Err(FlowError::Arithmetic(e)),
        },
        FlowState::WithdrawIdle { policy } => {
            if obs.balance == 0 {
                return Err(FlowError::NoLpPosition);
            }
            match burn_amount(policy, obs.balance, &obs.pool) {
                Ok(burn) => match withdraw_adjustment(burn, &obs.pool) {
                    Ok(adj) => Ok(
                        FlowStep {
                            next: FlowState::WithdrawBurned { lp_burned: burn },
                            action: FlowAction::LpWithdraw(adj),
                        },
                    ),
                    Err(e) => Err(FlowError::Arithmetic(e)),
                },
                Err(e) => Err(e),
            }
        },
        FlowState::WithdrawBurned { lp_burned } => match quote_swap(
            &obs.pool,
            SwapDirection::OtherToBase,
            obs.balance,
            DEFAULT_TOLERANCE,
            PricingModel::Ratio,
        ) {
            Ok(order) => Ok(
                FlowStep {
                    next: FlowState::WithdrawSwapped { lp_burned, swapped_in: obs.balance },
                    action: FlowAction::Swap(order),
                },
            ),
            Err(e) => Err(FlowError::Arithmetic(e)),
        },
        FlowState::Deposited { .. } => Err(FlowError::Finished),
        FlowState::WithdrawSwapped { .. } => Err(FlowError::Finished),
    }
}

/// What `plan_cycle` returns.
pub open spec fn plan_cycle_spec(pending: nat, vault: Vault) -> CycleAction {
    if pending > 0 {
        CycleAction::SettleBatch
    } else if vault.available_reserve >= IDLE_DEPOSIT_AMOUNT {
        CycleAction::DepositIdle { amount: IDLE_DEPOSIT_AMOUNT }
    } else {
        CycleAction::Sleep
    }
}

/// Chooses a cycle's work: pending requests come first; without any, idle
/// reserve of at least `IDLE_DEPOSIT_AMOUNT` is deposited into the pool.
pub fn plan_cycle(pending: usize, vault: &Vault) -> (r: CycleAction)
    ensures
        r == plan_cycle_spec(pending as nat, *vault),
{
    if pending > 0 {
        CycleAction::SettleBatch
    } else if vault.available_reserve >= IDLE_DEPOSIT_AMOUNT {
        CycleAction::DepositIdle { amount: IDLE_DEPOSIT_AMOUNT }
    } else {
        CycleAction::Sleep
    }
}

/// A withdrawal aimed at a base-asset target never burns too little: when
/// its first step succeeds, the LP amount it burns covers the target, i.e.
/// `lp_amount * reserve_a * 2 >= target * lp_supply` on the pool it read.
pub proof fn lemma_target_withdrawal_covers_target(amount: u64, obs: Observation)
    ensures
        advance_spec(FlowState::WithdrawIdle { policy: WithdrawPolicy::TargetBase { amount } }, obs)
            matches Ok(step) ==> (step.action matches FlowAction::LpWithdraw(adj)
            && adj.lp_amount * obs.pool.reserve_a * 2 >= amount * obs.pool.lp_supply),
{
    lemma_burn_is_ceiling(amount, obs.pool.lp_supply, obs.pool.reserve_a);
}

} // verus!
