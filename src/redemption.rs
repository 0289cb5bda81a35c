use vstd::prelude::*;

use crate::arith::{mul_div, mul_div_spec};
use crate::error::ArithmeticError;

verus! {

/// The vault's reserve: everything that backs outstanding claims, and the
/// idle part of it that is not deployed into the LP position.
#[derive(Clone, Copy, Debug, PartialEq, Eq, Structural)]
pub struct Vault {
    pub total_reserve: u64,
    pub available_reserve: u64,
}

/// What to do with one redemption request.
#[derive(Clone, Copy, Debug, PartialEq, Eq, Structural)]
pub enum Decision {
    /// Pay the full entitlement from idle reserve.
    Settle { amount: u64 },
    /// Pay out all idle reserve: the entitlement is larger, and no LP
    /// position is left to raise more.
    SettlePartial { amount: u64 },
    /// Leave the request pending and withdraw liquidity to cover `deficit`;
    /// the request is evaluated afresh on a later cycle.
    RebalanceRequired { deficit: u64 },
}

impl Vault {
    /// Idle reserve never exceeds the total.
    pub open spec fn wf(self) -> bool {
        self.available_reserve <= self.total_reserve
    }

    pub fn new(total_reserve: u64, available_reserve: u64) -> (r: Vault)
        requires
            available_reserve <= total_reserve,
        ensures
            r.total_reserve == total_reserve,
            r.available_reserve == available_reserve,
            r.wf(),
    {
        Vault { total_reserve, available_reserve }
    }
}

impl Decision {
    /// The request is paid now (fully or partially).
    pub open spec fn is_fill(self) -> bool {
        !(self is RebalanceRequired)
    }

    pub fn settles_now(&self) -> (r: bool)
        ensures
            r == self.is_fill(),
    {
        match self {
            Decision::RebalanceRequired { .. } => false,
            _ => true,
        }
    }
}

/// The entitlement of a claim as an integer: its proportion of all
/// outstanding claims, applied to the vault's total reserve, floored.
pub open spec fn entitlement(claim_amount: int, total_reserve: int, claim_total_supply: int) -> int {
    claim_amount * total_reserve / claim_total_supply
}

/// What `required_reserve` returns.
pub open spec fn required_reserve_spec(claim_amount: u64, vault: Vault, claim_total_supply: u64) -> Result<
    u64,
    ArithmeticError,
> {
    mul_div_spec(claim_amount as int, vault.total_reserve as int, claim_total_supply as int)
}

/// What `decide` returns.
pub open spec fn decide_spec(required: u64, vault: Vault, has_lp_position: bool) -> Decision {
    if required <= vault.available_reserve {
        Decision::Settle { amount: required }
    } else if !has_lp_position {
        Decision::SettlePartial { amount: vault.available_reserve }
    } else {
        Decision::RebalanceRequired { deficit: (required - vault.available_reserve) as u64 }
    }
}

/// The reserve owed to a claim of `claim_amount` units:
/// `claim_amount * vault.total_reserve / claim_total_supply`, formed in 128
/// bits and floored. Fails with `DivisionByZero` when no claims are
/// outstanding and `NarrowingFailure` when the result exceeds 64 bits.
pub fn required_reserve(claim_amount: u64, vault: &Vault, claim_total_supply: u64) -> (r: Result<
    u64,
    ArithmeticError,
>)
    ensures
        r == required_reserve_spec(claim_amount, *vault, claim_total_supply),
        r matches Ok(v) ==> v == entitlement(
            claim_amount as int,
            vault.total_reserve as int,
            claim_total_supply as int,
        ),
{
    mul_div(claim_amount, vault.total_reserve, claim_total_supply)
}

/// Settles from idle reserve when it covers `required`; otherwise pays what
/// is idle when no LP position is left, and asks for a rebalance of the
/// shortfall when there is one.
pub fn decide(required: u64, vault: &Vault, has_lp_position: bool) -> (r: Decision)
    ensures
        r == decide_spec(required, *vault, has_lp_position),
{
    if required <= vault.available_reserve {
        Decision::Settle { amount: required }
    } else if !has_lp_position {
        Decision::SettlePartial { amount: vault.available_reserve }
    } else {
        Decision::RebalanceRequired { deficit: required - vault.available_reserve }
    }
}

/// A larger claim, or a larger total reserve, is never entitled to less:
/// the entitlement is non-decreasing in both, and where the larger one fits
/// in 64 bits, so does the smaller.
pub proof fn lemma_required_reserve_monotonic(
    claim_lo: u64,
    claim_hi: u64,
    vault_lo: Vault,
    vault_hi: Vault,
    claim_total_supply: u64,
)
    requires
        claim_lo <= claim_hi,
        vault_lo.total_reserve <= vault_hi.total_reserve,
    ensures
        required_reserve_spec(claim_hi, vault_hi, claim_total_supply) matches Ok(hi) ==> (
        required_reserve_spec(claim_lo, vault_lo, claim_total_supply) matches Ok(lo) && lo <= hi),
{
    if claim_total_supply > 0 {
        let lo = claim_lo * vault_lo.total_reserve;
        let hi = claim_hi * vault_hi.total_reserve;
        assert(0 <= claim_lo * vault_lo.total_reserve <= claim_hi * vault_hi.total_reserve)
            by (nonlinear_arith)
            requires
                0 <= claim_lo <= claim_hi,
                0 <= vault_lo.total_reserve <= vault_hi.total_reserve,
        ;
        vstd::arithmetic::div_mod::lemma_div_is_ordered(lo, hi, claim_total_supply as int);
    }
}

} // verus!
