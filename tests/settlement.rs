use vault_aggregator::batch::{
    count_outcomes, evaluate_request, BatchPass, record_outcome, settle_batch, BatchItem, CycleSnapshot,
    RedemptionRequest, RequestError, RequestStatus,
};
use vault_aggregator::redemption::{decide, required_reserve, Decision, Vault};
use vault_aggregator::ArithmeticError;

fn request(n: u8, claim: u64) -> RedemptionRequest {
    RedemptionRequest::new([n; 32], [n.wrapping_add(100); 32], claim)
}

fn snapshot(total: u64, available: u64, supply: u64, lp: u64) -> CycleSnapshot {
    CycleSnapshot { vault: Vault::new(total, available), claim_total_supply: supply, lp_balance: lp }
}

#[test]
fn required_reserve_proportional_share() {
    let vault = Vault::new(1000, 1000);
    assert_eq!(required_reserve(10, &vault, 100), Ok(100));
}

#[test]
fn required_reserve_floors_and_fails() {
    let vault = Vault::new(1000, 0);
    assert_eq!(required_reserve(1, &vault, 3), Ok(333));
    assert_eq!(required_reserve(1, &vault, 0), Err(ArithmeticError::DivisionByZero));
    let big = Vault::new(u64::MAX, 0);
    assert_eq!(required_reserve(u64::MAX, &big, 1), Err(ArithmeticError::NarrowingFailure));
    assert_eq!(required_reserve(u64::MAX, &big, u64::MAX), Ok(u64::MAX));
}

#[test]
fn required_reserve_is_monotonic() {
    let supply = 977;
    for total in [0u64, 1, 500, 1000, 123_456] {
        let vault = Vault::new(total, 0);
        let richer = Vault::new(total + 17, 0);
        let mut previous = 0;
        for claim in 0..200u64 {
            let r = required_reserve(claim, &vault, supply).unwrap();
            assert!(r >= previous);
            assert!(required_reserve(claim, &richer, supply).unwrap() >= r);
            previous = r;
        }
    }
}

#[test]
fn decide_rebalance_on_shortfall() {
    let vault = Vault::new(1000, 50);
    assert_eq!(decide(100, &vault, true), Decision::RebalanceRequired { deficit: 50 });
    let mut req = request(1, 10);
    let outcome = Ok(decide(100, &vault, true));
    record_outcome(&mut req, &outcome, true);
    assert_eq!(req.status, RequestStatus::Pending);
}

#[test]
fn decide_settles_from_idle_reserve() {
    let vault = Vault::new(1000, 100);
    assert_eq!(decide(100, &vault, true), Decision::Settle { amount: 100 });
    assert_eq!(decide(40, &vault, false), Decision::Settle { amount: 40 });
}

#[test]
fn decide_partial_fill_without_lp_position() {
    let vault = Vault::new(1000, 50);
    assert_eq!(decide(100, &vault, false), Decision::SettlePartial { amount: 50 });
}

#[test]
fn evaluate_request_outcomes() {
    let snap = snapshot(1000, 50, 100, 7);
    assert_eq!(
        evaluate_request(&request(1, 10), &snap),
        Ok(Decision::RebalanceRequired { deficit: 50 })
    );
    assert_eq!(evaluate_request(&request(2, 5), &snap), Ok(Decision::Settle { amount: 50 }));
    let no_lp = snapshot(1000, 50, 100, 0);
    assert_eq!(evaluate_request(&request(3, 10), &no_lp), Ok(Decision::SettlePartial { amount: 50 }));
    let no_supply = snapshot(1000, 50, 0, 7);
    assert_eq!(
        evaluate_request(&request(4, 10), &no_supply),
        Err(RequestError::Arithmetic(ArithmeticError::DivisionByZero))
    );
    let mut done = request(5, 10);
    done.status = RequestStatus::Settled;
    assert_eq!(evaluate_request(&done, &snap), Err(RequestError::NotPending));
}

#[test]
fn batch_keeps_order_and_isolates_failures() {
    let items = vec![
        BatchItem { request: request(1, 5), snapshot: snapshot(1000, 500, 100, 0) },
        BatchItem { request: request(2, 5), snapshot: snapshot(1000, 500, 0, 0) },
        BatchItem { request: request(3, 20), snapshot: snapshot(1000, 100, 100, 3) },
        BatchItem { request: request(4, 8), snapshot: snapshot(1000, 500, 100, 0) },
    ];
    let results = settle_batch(&items);
    assert_eq!(
        results,
        vec![
            Ok(Decision::Settle { amount: 50 }),
            Err(RequestError::Arithmetic(ArithmeticError::DivisionByZero)),
            Ok(Decision::RebalanceRequired { deficit: 100 }),
            Ok(Decision::Settle { amount: 80 }),
        ]
    );
    assert_eq!(count_outcomes(&results), (2, 2));
}

#[test]
fn empty_batch() {
    let results = settle_batch(&Vec::new());
    assert!(results.is_empty());
    assert_eq!(count_outcomes(&results), (0, 0));
}

#[test]
fn rerun_after_idle_cycle_gives_same_decisions() {
    let mut items = vec![
        BatchItem { request: request(1, 5), snapshot: snapshot(1000, 20, 100, 0) },
        BatchItem { request: request(2, 30), snapshot: snapshot(1000, 100, 100, 9) },
        BatchItem { request: request(3, 1), snapshot: snapshot(1000, 100, 0, 9) },
    ];
    let first = settle_batch(&items);
    for (item, outcome) in items.iter_mut().zip(first.iter()) {
        record_outcome(&mut item.request, outcome, false);
    }
    assert_eq!(settle_batch(&items), first);
}

#[test]
fn record_outcome_settles_only_after_fill() {
    let mut req = request(1, 10);
    record_outcome(&mut req, &Ok(Decision::Settle { amount: 100 }), false);
    assert_eq!(req.status, RequestStatus::Pending);
    record_outcome(&mut req, &Err(RequestError::NotPending), true);
    assert_eq!(req.status, RequestStatus::Pending);
    record_outcome(&mut req, &Ok(Decision::SettlePartial { amount: 5 }), true);
    assert_eq!(req.status, RequestStatus::Settled);
    assert_eq!(req.claim_amount, 10);
    assert_eq!(req.id, [1; 32]);
}

#[test]
fn batch_pass_matches_settle_batch() {
    let items = vec![
        BatchItem { request: request(1, 5), snapshot: snapshot(1000, 500, 100, 0) },
        BatchItem { request: request(2, 5), snapshot: snapshot(1000, 500, 0, 0) },
        BatchItem { request: request(3, 20), snapshot: snapshot(1000, 100, 100, 3) },
    ];
    let mut pass = BatchPass::new();
    let first = pass.evaluate_next(items[0]);
    assert_eq!(first, Ok(Decision::Settle { amount: 50 }));
    pass.evaluate_next(items[1]);
    pass.evaluate_next(items[2]);
    assert_eq!(pass.outcomes, settle_batch(&items));
    assert_eq!(pass.items.len(), 3);
}
