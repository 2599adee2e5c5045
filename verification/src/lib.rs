//! Custody-and-settlement engine for bilateral option contracts whose
//! collateral sits in per-owner escrow sub-accounts on a shared ledger.
//!
//! The engine models the contract lifecycle (Active -> Exercised -> Settled),
//! the margin and payoff arithmetic under checked operations, and the escrow
//! balance movements. The ledger substrate itself (account storage, signature
//! verification, the atomic transfer primitive, the clock) is an external
//! collaborator: callers hand the engine plain balances and timestamps and
//! apply the balance changes the engine decides.

pub mod calculator;
pub mod engine;
pub mod errors;
pub mod laws;
pub mod math;
pub mod pda;
pub mod registry;
pub mod types;
