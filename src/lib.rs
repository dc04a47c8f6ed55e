//! Checkpointed proportional-ownership accounting for a delta-hedged liquidity vault.
//!
//! Many participants share one concentrated-liquidity market position and one hedging
//! loan. Every rebalance closes an epoch and records its diff (`whirlpool_position`,
//! `hedge_position`, `rebalance`, `operations`); participants catch up by walking the
//! epochs they have not yet seen, in order (`sync`, `hedge_sync`). Fixed-point growth
//! accounting lives in `fixed_point` and `wide`, range math in `liquidity_math`,
//! `tick_range` and `orca`, and the laws the accounting obeys in `laws`.

pub mod constraints;
pub mod errors;
pub mod fixed_point;
pub mod hedge_ops;
pub mod hedge_position;
pub mod hedge_sync;
pub mod interest;
pub mod key;
pub mod laws;
pub mod liquidity_math;
pub mod operations;
pub mod orca;
pub mod rebalance;
pub mod swap;
pub mod sync;
pub mod tick_math;
pub mod tick_range;
pub mod user_position;
pub mod vault_state;
pub mod whirlpool_position;
pub mod wide;
