use vstd::prelude::*;

use crate::error::ArithmeticError;
use crate::redemption::{
    decide, decide_spec, required_reserve, required_reserve_spec, Decision, Vault,
};

verus! {

/// Where a redemption request stands.
#[derive(Clone, Copy, Debug, PartialEq, Eq, Structural)]
pub enum RequestStatus {
    Pending,
    Settled,
}

/// A holder's request to redeem `claim_amount` claim units for reserve.
/// `id` is the request account's address and `requester` the holder's.
#[derive(Clone, Copy, Debug, PartialEq, Eq)]
pub struct RedemptionRequest {
    pub id: [u8; 32],
    pub requester: [u8; 32],
    pub claim_amount: u64,
    pub status: RequestStatus,
}

/// The state read from the chain just before a request is evaluated.
#[derive(Clone, Copy, Debug, PartialEq, Eq, Structural)]
pub struct CycleSnapshot {
    pub vault: Vault,
    pub claim_total_supply: u64,
    /// LP tokens the vault holds; zero means no LP position.
    pub lp_balance: u64,
}

/// One request of a batch, with the state it is evaluated against.
#[derive(Clone, Copy, Debug)]
pub struct BatchItem {
    pub request: RedemptionRequest,
    pub snapshot: CycleSnapshot,
}

/// Why a request was not settled on this pass.
#[derive(Clone, Copy, Debug, PartialEq, Eq, Structural)]
pub enum RequestError {
    /// The request is no longer pending.
    NotPending,
    /// Its entitlement could not be computed.
    Arithmetic(ArithmeticError),
}

/// The outcome of evaluating one request: a decision, or why none was made.
pub open spec fn evaluate_spec(request: RedemptionRequest, snapshot: CycleSnapshot) -> Result<
    Decision,
    RequestError,
> {
    if request.status != RequestStatus::Pending {
        Err(RequestError::NotPending)
    } else {
        match required_reserve_spec(
            request.claim_amount,
            snapshot.vault,
            snapshot.claim_total_supply,
        ) {
            Ok(required) => Ok(decide_spec(required, snapshot.vault, snapshot.lp_balance > 0)),
            Err(e) => Err(RequestError::Arithmetic(e)),
        }
    }
}

/// The outcomes of a batch: each request evaluated on its own, in order.
pub open spec fn settle_batch_spec(items: Seq<BatchItem>) -> Seq<Result<Decision, RequestError>> {
    items.map_values(|it: BatchItem| evaluate_spec(it.request, it.snapshot))
}

/// The request once the outcome of its pass is known: it becomes `Settled`
/// only when it was decided for a fill and that fill went through.
pub open spec fn recorded(
    request: RedemptionRequest,
    outcome: Result<Decision, RequestError>,
    filled: bool,
) -> RedemptionRequest {
    if filled && (outcome matches Ok(d) && d.is_fill()) {
        RedemptionRequest { status: RequestStatus::Settled, ..request }
    } else {
        request
    }
}

impl RedemptionRequest {
    pub fn new(id: [u8; 32], requester: [u8; 32], claim_amount: u64) -> (r: RedemptionRequest)
        ensures
            r.id == id,
            r.requester == requester,
            r.claim_amount == claim_amount,
            r.status == RequestStatus::Pending,
    {
        RedemptionRequest { id, requester, claim_amount, status: RequestStatus::Pending }
    }

    pub fn is_pending(&self) -> (r: bool)
        ensures
            r == (self.status == RequestStatus::Pending),
    {
        match self.status {
            RequestStatus::Pending => true,
            RequestStatus::Settled => false,
        }
    }
}

/// Evaluates one pending request against the state read for it: its
/// entitlement, then the decision between settling and rebalancing.
pub fn evaluate_request(request: &RedemptionRequest, snapshot: &CycleSnapshot) -> (r: Result<
    Decision,
    RequestError,
>)
    ensures
        r == evaluate_spec(*request, *snapshot),
{
    if !request.is_pending() {
        return Err(RequestError::NotPending);
    }
    match required_reserve(request.claim_amount, &snapshot.vault, snapshot.claim_total_supply) {
        Ok(required) => Ok(decide(required, &snapshot.vault, snapshot.lp_balance > 0)),
        Err(e) => Err(RequestError::Arithmetic(e)),
    }
}

/// Evaluates every request of the batch, in order, one outcome each. A
/// request that fails does not stop the ones after it.
pub fn settle_batch(items: &Vec<BatchItem>) -> (r: Vec<Result<Decision, RequestError>>)
    ensures
        r@ == settle_batch_spec(items@),
{
    let mut results: Vec<Result<Decision, RequestError>> = Vec::new();
    let mut i: usize = 0;
    while i < items.len()
        invariant
            i <= items@.len(),
            results@ == settle_batch_spec(items@.subrange(0, i as int)),
        decreases items@.len() - i,
    {
        let outcome = evaluate_request(&items[i].request, &items[i].snapshot);
        results.push(outcome);
        assert(items@.subrange(0, i + 1) == items@.subrange(0, i as int).push(items@[i as int]));
        i = i + 1;
    }
    assert(items@.subrange(0, items@.len() as int) == items@);
    results
}

/// A batch evaluated one request at a time, each against the state read
/// just before it. What it has evaluated so far is always exactly what
/// `settle_batch` gives on the same items.
pub struct BatchPass {
    pub items: Vec<BatchItem>,
    pub outcomes: Vec<Result<Decision, RequestError>>,
}

impl BatchPass {
    pub open spec fn wf(&self) -> bool {
        self.outcomes@ == settle_batch_spec(self.items@)
    }

    pub fn new() -> (r: BatchPass)
        ensures
            r.wf(),
            r.items@.len() == 0,
    {
        let r = BatchPass { items: Vec::new(), outcomes: Vec::new() };
        assert(settle_batch_spec(r.items@) =~= r.outcomes@);
        r
    }

    /// Evaluates the next request of the batch and keeps it with its outcome.
    pub fn evaluate_next(&mut self, item: BatchItem) -> (r: Result<Decision, RequestError>)
        requires
            old(self).wf(),
        ensures
            final(self).wf(),
            r == evaluate_spec(item.request, item.snapshot),
            final(self).items@ == old(self).items@.push(item),
            final(self).outcomes@ == old(self).outcomes@.push(r),
    {
        let r = evaluate_request(&item.request, &item.snapshot);
        self.items.push(item);
        self.outcomes.push(r);
        assert(settle_batch_spec(self.items@) =~= self.outcomes@);
        r
    }
}

/// Records the outcome of a pass on the request: `Settled` after a fill that
/// went through, unchanged otherwise.
pub fn record_outcome(
    request: &mut RedemptionRequest,
    outcome: &Result<Decision, RequestError>,
    filled: bool,
)
    ensures
        *final(request) == recorded(*old(request), *outcome, filled),
{
    if filled {
        match outcome {
            Ok(d) => if d.settles_now() {
                request.status = RequestStatus::Settled;
            },
            Err(_) => {},
        }
    }
}

/// The outcome is a fill: the request is paid on this pass.
pub open spec fn is_fill_outcome(o: Result<Decision, RequestError>) -> bool {
    o matches Ok(d) && d.is_fill()
}

/// How many outcomes of `s` are fills.
pub open spec fn count_fills(s: Seq<Result<Decision, RequestError>>) -> nat
    decreases s.len(),
{
    if s.len() == 0 {
        0
    } else {
        count_fills(s.drop_last()) + if is_fill_outcome(s.last()) {
            1nat
        } else {
            0nat
        }
    }
}

/// Counts the outcomes that settled a request and those that did not.
pub fn count_outcomes(results: &Vec<Result<Decision, RequestError>>) -> (r: (usize, usize))
    ensures
        r.0 + r.1 == results@.len(),
        r.0 == count_fills(results@),
{
    let mut settled: usize = 0;
    let mut other: usize = 0;
    let mut i: usize = 0;
    while i < results.len()
        invariant
            i <= results@.len(),
            settled + other == i,
            settled == count_fills(results@.subrange(0, i as int)),
        decreases results@.len() - i,
    {
        assert(results@.subrange(0, i + 1).drop_last() == results@.subrange(0, i as int));
        assert(results@.subrange(0, i + 1).last() == results@[i as int]);
        let fill = match &results[i] {
            Ok(d) => d.settles_now(),
            Err(_) => false,
        };
        assert(fill == is_fill_outcome(results@[i as int]));
        if fill {
            settled = settled + 1;
        } else {
            other = other + 1;
        }
        i = i + 1;
    }
    assert(results@.subrange(0, results@.len() as int) == results@);
    (settled, other)
}

/// Re-running a batch after a cycle in which nothing was filled, so that no
/// request and no on-chain state changed, gives the same decisions.
pub proof fn lemma_rerun_after_idle_cycle(items: Seq<BatchItem>)
    ensures
        ({
            let first = settle_batch_spec(items);
            let again = items.map(
                |i: int, it: BatchItem|
                    BatchItem { request: recorded(it.request, first[i], false), ..it },
            );
            settle_batch_spec(again) == first
        }),
{
    let first = settle_batch_spec(items);
    let again = items.map(
        |i: int, it: BatchItem| BatchItem { request: recorded(it.request, first[i], false), ..it },
    );
    assert(settle_batch_spec(again) =~= first);
}

/// One request's failure leaves every other request's outcome as if it had
/// been evaluated alone: a request that can be settled is settled whatever
/// arithmetic error another request of the batch meets.
pub proof fn lemma_batch_isolation(items: Seq<BatchItem>, i: int, j: int)
    requires
        0 <= i < items.len(),
        0 <= j < items.len(),
        i != j,
        settle_batch_spec(items)[i] matches Err(RequestError::Arithmetic(_)),
    ensures
        settle_batch_spec(items)[j] == evaluate_spec(items[j].request, items[j].snapshot),
{
}

} // verus!
