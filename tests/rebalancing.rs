use vault_aggregator::pool::{PoolReserves, SwapDirection};
use vault_aggregator::quote::{Quote, SwapOrder};
use vault_aggregator::rebalance::{
    advance, burn_amount, plan_cycle, split_deposit, withdraw_adjustment, CycleAction, FlowAction,
    FlowError, FlowState, FlowStep, LpAdjustment, Observation, WithdrawPolicy, IDLE_DEPOSIT_AMOUNT,
};
use vault_aggregator::redemption::Vault;
use vault_aggregator::ArithmeticError;

fn observe(a: u64, b: u64, supply: u64, balance: u64) -> Observation {
    Observation { pool: PoolReserves::new(a, b, supply), balance }
}

#[test]
fn deposit_split_halves() {
    let s = split_deposit(1000);
    assert_eq!(s.half, 500);
    assert_eq!(s.remainder, 500);
    let odd = split_deposit(1001);
    assert_eq!((odd.half, odd.remainder), (500, 501));
    let max = split_deposit(u64::MAX);
    assert_eq!(max.half + max.remainder, u64::MAX);
}

#[test]
fn deposit_flow_two_steps() {
    let step = advance(FlowState::DepositIdle { deposit_amount: 1000 }, &observe(1000, 2000, 500, 0)).unwrap();
    // half = 500, estimate 500 * 2000 / 1000 = 1000, minimum 950
    assert_eq!(
        step,
        FlowStep {
            next: FlowState::DepositSwapped { remainder: 500, swap_output: 950 },
            action: FlowAction::Swap(SwapOrder {
                direction: SwapDirection::BaseToOther,
                quote: Quote { amount_in: 500, amount_out_estimated: 1000, amount_out_minimum: 950 },
            }),
        }
    );
    // the pool after the swap: 1500 base, 1050 other, supply 500
    let step2 = advance(step.next, &observe(1500, 1050, 500, 0)).unwrap();
    // shares: 500 * 500 / 1500 = 166, 950 * 500 / 1050 = 452
    assert_eq!(
        step2,
        FlowStep {
            next: FlowState::Deposited { lp_amount: 166 },
            action: FlowAction::LpDeposit(LpAdjustment { lp_amount: 166, asset_a_bound: 500, asset_b_bound: 950 }),
        }
    );
    assert_eq!(advance(step2.next, &observe(1500, 1050, 500, 0)), Err(FlowError::Finished));
}

#[test]
fn deposit_flow_stops_on_zero_quote() {
    assert_eq!(
        advance(FlowState::DepositIdle { deposit_amount: 1 }, &observe(1000, 2000, 500, 0)),
        Err(FlowError::Arithmetic(ArithmeticError::ZeroOutput))
    );
    assert_eq!(
        advance(FlowState::DepositSwapped { remainder: 1, swap_output: 1 }, &observe(1000, 2000, 500, 0)),
        Err(FlowError::Arithmetic(ArithmeticError::ZeroResult))
    );
}

#[test]
fn withdraw_flow_two_steps() {
    let step = advance(FlowState::WithdrawIdle { policy: WithdrawPolicy::All }, &observe(1000, 4000, 200, 20)).unwrap();
    // expected sides: 20 * 1000 / 200 = 100 and 20 * 4000 / 200 = 400
    assert_eq!(
        step,
        FlowStep {
            next: FlowState::WithdrawBurned { lp_burned: 20 },
            action: FlowAction::LpWithdraw(LpAdjustment { lp_amount: 20, asset_a_bound: 95, asset_b_bound: 380 }),
        }
    );
    let step2 = advance(step.next, &observe(900, 3600, 180, 400)).unwrap();
    // 400 * 900 / 3600 = 100, minimum 95
    assert_eq!(
        step2,
        FlowStep {
            next: FlowState::WithdrawSwapped { lp_burned: 20, swapped_in: 400 },
            action: FlowAction::Swap(SwapOrder {
                direction: SwapDirection::OtherToBase,
                quote: Quote { amount_in: 400, amount_out_estimated: 100, amount_out_minimum: 95 },
            }),
        }
    );
    assert_eq!(advance(step2.next, &observe(900, 3600, 180, 0)), Err(FlowError::Finished));
}

#[test]
fn withdraw_without_lp_position() {
    assert_eq!(
        advance(FlowState::WithdrawIdle { policy: WithdrawPolicy::All }, &observe(1000, 4000, 200, 0)),
        Err(FlowError::NoLpPosition)
    );
}

#[test]
fn withdraw_swap_of_nothing_is_refused() {
    assert_eq!(
        advance(FlowState::WithdrawBurned { lp_burned: 5 }, &observe(900, 3600, 180, 0)),
        Err(FlowError::Arithmetic(ArithmeticError::ZeroOutput))
    );
}

#[test]
fn burn_amount_policies() {
    let pool = PoolReserves::new(100, 400, 1000);
    assert_eq!(burn_amount(WithdrawPolicy::All, 77, &pool), Ok(77));
    // ceil(50 * 1000 / 200) = 250
    assert_eq!(burn_amount(WithdrawPolicy::TargetBase { amount: 50 }, 300, &pool), Ok(250));
    assert_eq!(burn_amount(WithdrawPolicy::TargetBase { amount: 50 }, 250, &pool), Ok(250));
    assert_eq!(
        burn_amount(WithdrawPolicy::TargetBase { amount: 50 }, 120, &pool),
        Err(FlowError::InsufficientLp { needed: 250, held: 120 })
    );
    assert_eq!(
        burn_amount(WithdrawPolicy::TargetBase { amount: 0 }, 120, &pool),
        Err(FlowError::Arithmetic(ArithmeticError::ZeroResult))
    );
    let empty = PoolReserves::new(0, 400, 1000);
    assert_eq!(
        burn_amount(WithdrawPolicy::TargetBase { amount: 5 }, 120, &empty),
        Err(FlowError::Arithmetic(ArithmeticError::DivisionByZero))
    );
}

#[test]
fn target_withdrawal_burns_enough() {
    let policy = WithdrawPolicy::TargetBase { amount: 50 };
    let step = advance(FlowState::WithdrawIdle { policy }, &observe(100, 400, 1000, 300)).unwrap();
    // burn 250; sides 250 * 100 / 1000 = 25 and 250 * 400 / 1000 = 100, at 95%
    assert_eq!(
        step,
        FlowStep {
            next: FlowState::WithdrawBurned { lp_burned: 250 },
            action: FlowAction::LpWithdraw(LpAdjustment { lp_amount: 250, asset_a_bound: 23, asset_b_bound: 95 }),
        }
    );
    assert!(250u128 * 100 * 2 >= 50u128 * 1000);
}

#[test]
fn target_withdrawal_larger_than_position_is_refused() {
    let policy = WithdrawPolicy::TargetBase { amount: 50 };
    assert_eq!(
        advance(FlowState::WithdrawIdle { policy }, &observe(100, 400, 1000, 1)),
        Err(FlowError::InsufficientLp { needed: 250, held: 1 })
    );
}

#[test]
fn cycle_plan() {
    let idle = Vault::new(5_000_000, IDLE_DEPOSIT_AMOUNT);
    let short = Vault::new(5_000_000, IDLE_DEPOSIT_AMOUNT - 1);
    assert_eq!(plan_cycle(3, &idle), CycleAction::SettleBatch);
    assert_eq!(plan_cycle(1, &short), CycleAction::SettleBatch);
    assert_eq!(plan_cycle(0, &idle), CycleAction::DepositIdle { amount: 1_000_000 });
    assert_eq!(plan_cycle(0, &short), CycleAction::Sleep);
}

#[test]
fn withdraw_adjustment_bounds() {
    let pool = PoolReserves::new(1000, 4000, 200);
    assert_eq!(
        withdraw_adjustment(20, &pool),
        Ok(LpAdjustment { lp_amount: 20, asset_a_bound: 95, asset_b_bound: 380 })
    );
    let no_supply = PoolReserves::new(1000, 4000, 0);
    assert_eq!(withdraw_adjustment(20, &no_supply), Err(ArithmeticError::DivisionByZero));
}
