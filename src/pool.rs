use vstd::prelude::*;

verus! {

/// A snapshot of the pool: its two token reserves and the LP supply.
/// `reserve_a` is the base asset, the one the vault's reserve is held in.
#[derive(Clone, Copy, Debug, PartialEq, Eq, Structural)]
pub struct PoolReserves {
    pub reserve_a: u64,
    pub reserve_b: u64,
    pub lp_supply: u64,
}

/// Which way a swap goes through the pool.
#[derive(Clone, Copy, Debug, PartialEq, Eq, Structural)]
pub enum SwapDirection {
    /// Base asset (side a) in, other asset (side b) out.
    BaseToOther,
    /// Other asset (side b) in, base asset (side a) out.
    OtherToBase,
}

impl PoolReserves {
    pub fn new(reserve_a: u64, reserve_b: u64, lp_supply: u64) -> (r: PoolReserves)
        ensures
            r.reserve_a == reserve_a,
            r.reserve_b == reserve_b,
            r.lp_supply == lp_supply,
    {
        PoolReserves { reserve_a, reserve_b, lp_supply }
    }

    /// The reserve that a swap in `direction` draws its input into.
    pub open spec fn spec_reserve_in(self, direction: SwapDirection) -> u64 {
        match direction {
            SwapDirection::BaseToOther => self.reserve_a,
            SwapDirection::OtherToBase => self.reserve_b,
        }
    }

    /// The reserve that a swap in `direction` pays its output from.
    pub open spec fn spec_reserve_out(self, direction: SwapDirection) -> u64 {
        match direction {
            SwapDirection::BaseToOther => self.reserve_b,
            SwapDirection::OtherToBase => self.reserve_a,
        }
    }

    pub fn reserves_for(&self, direction: SwapDirection) -> (r: (u64, u64))
        ensures
            r.0 == self.spec_reserve_in(direction),
            r.1 == self.spec_reserve_out(direction),
    {
        match direction {
            SwapDirection::BaseToOther => (self.reserve_a, self.reserve_b),
            SwapDirection::OtherToBase => (self.reserve_b, self.reserve_a),
        }
    }
}

} // verus!
