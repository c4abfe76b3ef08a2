//! What the program announces when the state of a vault changes.

use vstd::prelude::*;
use crate::constants::Pubkey;

verus! {

/// A vault was created.
#[derive(Clone, Copy, Debug, PartialEq, Eq)]
pub struct VaultInitialized {
    pub vault: Pubkey,
    pub owner: Pubkey,
    pub sns_name: Pubkey,
    pub timestamp: i64,
}

/// A private configuration was stored.
#[derive(Clone, Copy, Debug, PartialEq, Eq)]
pub struct ConfigStored {
    pub vault: Pubkey,
    pub config_hash: [u8; 32],
    pub timestamp: i64,
}

/// A withdrawal was requested.
#[derive(Clone, Copy, Debug, PartialEq, Eq)]
pub struct WithdrawalRequested {
    pub vault: Pubkey,
    pub amount: u64,
    pub computation_offset: u64,
    pub timestamp: i64,
}

/// A withdrawal plan was generated.
#[derive(Clone, Copy, Debug, PartialEq, Eq)]
pub struct WithdrawalPlanGenerated {
    pub vault: Pubkey,
    pub plan_id: [u8; 16],
    pub total_splits: u8,
    pub timestamp: i64,
}

/// Every split of a withdrawal has run.
#[derive(Clone, Copy, Debug, PartialEq, Eq)]
pub struct WithdrawalCompleted {
    pub vault: Pubkey,
    pub total_amount: u64,
    pub split_count: u8,
    pub timestamp: i64,
}

/// A withdrawal was cancelled.
#[derive(Clone, Copy, Debug, PartialEq, Eq)]
pub struct WithdrawalCancelled {
    pub vault: Pubkey,
    pub refunded_amount: u64,
    pub completed_splits: u8,
    pub timestamp: i64,
}

/// A vault was closed by its owner.
#[derive(Clone, Copy, Debug, PartialEq, Eq)]
pub struct VaultClosed {
    pub vault: Pubkey,
    pub owner: Pubkey,
    pub timestamp: i64,
}

/// A vault was taken over by the new owner of its domain.
#[derive(Clone, Copy, Debug, PartialEq, Eq)]
pub struct VaultClaimed {
    pub vault: Pubkey,
    pub previous_owner: Pubkey,
    pub new_owner: Pubkey,
    pub timestamp: i64,
}

} // verus!
