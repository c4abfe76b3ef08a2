//! Privacy-preserving withdrawal routing for a name-service-linked custody vault.
//!
//! Funds that arrive at a vault leave it through a randomized multi-split
//! withdrawal plan. This crate holds the plan generator, the plan executor,
//! the private configuration store and the read-only queries over them,
//! together with the records of the on-ledger program and what each of its
//! instructions decides. Every function works on plain values and carries a
//! machine-checked contract; accounts, clocks, transfers and the boundary of
//! the secure computation are left to the caller.

pub mod constants;
pub mod errors;
pub mod events;
pub mod execute_split;
pub mod generate_plan;
pub mod hydentity;
pub mod instructions;
pub mod query_balance;
pub mod split_amounts;
pub mod state;
pub mod store_config;
pub mod types;
pub mod update_config;
