//! What each instruction of the program decides, on plain values.
//!
//! The program reads accounts and the clock, calls the function of the
//! instruction, and carries out what comes back: it stores the changed
//! records, makes the transfer, announces the event.

pub mod add_delegate;
pub mod authorization;
pub mod claim_vault;
pub mod close_vault;
pub mod deposit_to_umbra;
pub mod funds;
pub mod initialize_vault;
pub mod mark_domain_transferred;
pub mod reclaim_domain;
pub mod store_private_config;
pub mod update_policy;
pub mod withdraw_direct;
