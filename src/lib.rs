//! Settlement and liquidity-rebalancing arithmetic for a pooled-asset vault
//! that holds a position in a two-sided AMM pool.
//!
//! All amounts are unsigned 64-bit integers. Every product is formed in 128
//! bits and narrowed back with an explicit failure, never a wrap.
pub mod arith;
pub mod batch;
pub mod error;
pub mod lp;
pub mod pool;
pub mod quote;
pub mod rebalance;
pub mod redemption;

pub use error::ArithmeticError;
pub use lp::calculate_lp_amount;
