//! The public record of a withdrawal in flight.
//!
//! The plan itself stays encrypted. What everybody can see is how many of
//! its splits have run and how much has left the vault.

use vstd::prelude::*;
use crate::constants::Pubkey;
use crate::types::zero_bytes;

verus! {

/// Seed prefix of a pending withdrawal's address: the bytes of
/// `pending_withdrawal`.
pub const PENDING_WITHDRAWAL_SEED: [u8; 18] = [
    112, 101, 110, 100, 105, 110, 103, 95, 119, 105, 116, 104, 100, 114, 97, 119, 97, 108,
];

/// Seed prefix of a withdrawal request's address: the bytes of
/// `withdrawal_request`.
pub const WITHDRAWAL_REQUEST_SEED: [u8; 18] = [
    119, 105, 116, 104, 100, 114, 97, 119, 97, 108, 95, 114, 101, 113, 117, 101, 115, 116,
];

/// Where a withdrawal in flight stands.
#[derive(Clone, Copy, Debug, PartialEq, Eq, Structural)]
pub enum WithdrawalStatus {
    /// The plan exists and no split has run.
    Pending,
    /// Some splits have run.
    InProgress,
    /// Every split has run.
    Completed,
    /// The owner cancelled the plan.
    Cancelled,
    /// The execution of the plan failed.
    Failed,
    /// The plan expired before it was completed.
    Expired,
}

impl Default for WithdrawalStatus {
    fn default() -> (status: WithdrawalStatus)
        ensures
            status is Pending,
    {
        WithdrawalStatus::Pending
    }
}

/// A withdrawal in flight: the encrypted plan and its visible progress.
#[derive(Clone, Copy, Debug, PartialEq, Eq)]
pub struct PendingWithdrawal {
    /// The vault that the withdrawal is from.
    pub vault: Pubkey,
    /// The plan, encrypted.
    pub encrypted_plan: [u8; 1024],
    /// The nonce of the encryption.
    pub nonce: [u8; 16],
    pub plan_id: [u8; 16],
    pub total_splits: u8,
    /// Number of splits that have run.
    pub completed_splits: u8,
    pub status: WithdrawalStatus,
    /// The amount of the whole withdrawal.
    pub total_amount: u64,
    /// What has left the vault so far.
    pub withdrawn_amount: u64,
    pub created_at: i64,
    pub expires_at: i64,
    /// Time of the last split that ran, zero before the first.
    pub last_execution_at: i64,
    /// Ties the record to the secure computation that made the plan.
    pub computation_offset: u64,
    pub bump: u8,
    pub _reserved: [u8; 64],
}

/// A counter raised by one, stopping at the largest value it can hold.
pub open spec fn saturating_next(count: u8) -> u8 {
    if count < u8::MAX {
        (count + 1) as u8
    } else {
        u8::MAX
    }
}

/// The sum of two amounts, stopping at the largest amount that can be told.
pub open spec fn saturating_sum(a: u64, b: u64) -> u64 {
    if a + b > u64::MAX {
        u64::MAX
    } else {
        (a + b) as u64
    }
}

impl PendingWithdrawal {
    /// Size of the stored record, its eight-byte tag included.
    pub const SPACE: usize = 8 + 32 + 1024 + 16 + 16 + 1 + 1 + 1 + 8 + 8 + 8 + 8 + 8 + 8 + 1 + 64;

    /// The withdrawal is pending or in progress.
    pub open spec fn active(&self) -> bool {
        self.status is Pending || self.status is InProgress
    }

    /// Sets the record up for a new plan: nothing has run, nothing has left.
    pub fn initialize(
        &mut self,
        vault: Pubkey,
        encrypted_plan: [u8; 1024],
        nonce: [u8; 16],
        plan_id: [u8; 16],
        total_splits: u8,
        total_amount: u64,
        created_at: i64,
        expires_at: i64,
        computation_offset: u64,
        bump: u8,
    )
        ensures
            *final(self) == (PendingWithdrawal {
                vault,
                encrypted_plan,
                nonce,
                plan_id,
                total_splits,
                completed_splits: 0,
                status: WithdrawalStatus::Pending,
                total_amount,
                withdrawn_amount: 0,
                created_at,
                expires_at,
                last_execution_at: 0,
                computation_offset,
                bump,
                _reserved: old(self)._reserved,
            }),
    {
        self.vault = vault;
        self.encrypted_plan = encrypted_plan;
        self.nonce = nonce;
        self.plan_id = plan_id;
        self.total_splits = total_splits;
        self.completed_splits = 0;
        self.status = WithdrawalStatus::Pending;
        self.total_amount = total_amount;
        self.withdrawn_amount = 0;
        self.created_at = created_at;
        self.expires_at = expires_at;
        self.last_execution_at = 0;
        self.computation_offset = computation_offset;
        self.bump = bump;
    }

    /// Records that a split of `amount` ran at the time `executed_at`.
    ///
    /// The withdrawal is completed once as many splits have run as the plan
    /// has, and in progress before. Both counters stop at the largest value
    /// they can hold.
    pub fn record_split_execution(&mut self, amount: u64, executed_at: i64)
        ensures
            *final(self) == (PendingWithdrawal {
                completed_splits: saturating_next(old(self).completed_splits),
                withdrawn_amount: saturating_sum(old(self).withdrawn_amount, amount),
                last_execution_at: executed_at,
                status: if saturating_next(old(self).completed_splits) >= old(self).total_splits {
                    WithdrawalStatus::Completed
                } else {
                    WithdrawalStatus::InProgress
                },
                ..*old(self)
            }),
    {
        self.completed_splits = self.completed_splits.saturating_add(1);
        self.withdrawn_amount = self.withdrawn_amount.saturating_add(amount);
        self.last_execution_at = executed_at;
        if self.completed_splits >= self.total_splits {
            self.status = WithdrawalStatus::Completed;
        } else {
            self.status = WithdrawalStatus::InProgress;
        }
    }

    /// Marks the withdrawal as cancelled.
    pub fn cancel(&mut self)
        ensures
            *final(self) == (PendingWithdrawal { status: WithdrawalStatus::Cancelled, ..*old(self) }),
    {
        self.status = WithdrawalStatus::Cancelled;
    }

    /// Marks the withdrawal as failed.
    pub fn fail(&mut self)
        ensures
            *final(self) == (PendingWithdrawal { status: WithdrawalStatus::Failed, ..*old(self) }),
    {
        self.status = WithdrawalStatus::Failed;
    }

    /// Tells whether the plan has expired at the time `current_timestamp`.
    pub fn is_expired(&self, current_timestamp: i64) -> (expired: bool)
        ensures
            expired == (current_timestamp > self.expires_at),
    {
        current_timestamp > self.expires_at
    }

    /// Tells whether the withdrawal is pending or in progress.
    pub fn is_active(&self) -> (active: bool)
        ensures
            active == self.active(),
    {
        match self.status {
            WithdrawalStatus::Pending | WithdrawalStatus::InProgress => true,
            _ => false,
        }
    }

    /// What is still to leave the vault: the total less what has left, and
    /// nothing once that reaches the total.
    pub fn remaining_amount(&self) -> (remaining: u64)
        ensures
            remaining == if self.total_amount >= self.withdrawn_amount {
                self.total_amount - self.withdrawn_amount
            } else {
                0
            },
    {
        self.total_amount.saturating_sub(self.withdrawn_amount)
    }
}

impl Default for PendingWithdrawal {
    fn default() -> (withdrawal: PendingWithdrawal)
        ensures
            withdrawal.vault@ == zero_bytes(32),
            withdrawal.encrypted_plan@ == zero_bytes(1024),
            withdrawal.nonce@ == zero_bytes(16),
            withdrawal.plan_id@ == zero_bytes(16),
            withdrawal.total_splits == 0,
            withdrawal.completed_splits == 0,
            withdrawal.status is Pending,
            withdrawal.total_amount == 0,
            withdrawal.withdrawn_amount == 0,
            withdrawal.created_at == 0,
            withdrawal.expires_at == 0,
            withdrawal.last_execution_at == 0,
            withdrawal.computation_offset == 0,
            withdrawal.bump == 0,
            withdrawal._reserved@ == zero_bytes(64),
    {
        let withdrawal = PendingWithdrawal {
            vault: [0u8; 32],
            encrypted_plan: [0u8; 1024],
            nonce: [0u8; 16],
            plan_id: [0u8; 16],
            total_splits: 0,
            completed_splits: 0,
            status: WithdrawalStatus::Pending,
            total_amount: 0,
            withdrawn_amount: 0,
            created_at: 0,
            expires_at: 0,
            last_execution_at: 0,
            computation_offset: 0,
            bump: 0,
            _reserved: [0u8; 64],
        };
        proof {
            assert(withdrawal.vault@ =~= zero_bytes(32));
            assert(withdrawal.encrypted_plan@ =~= zero_bytes(1024));
            assert(withdrawal.nonce@ =~= zero_bytes(16));
            assert(withdrawal.plan_id@ =~= zero_bytes(16));
            assert(withdrawal._reserved@ =~= zero_bytes(64));
        }
        withdrawal
    }
}

/// A request for a withdrawal, waiting for its plan to be generated.
#[derive(Clone, Copy, Debug, PartialEq, Eq)]
pub struct WithdrawalRequest {
    /// The vault that asks for the withdrawal.
    pub vault: Pubkey,
    pub amount: u64,
    /// Entropy that the user adds to the randomness of the plan.
    pub user_entropy: [u8; 32],
    pub entropy_timestamp: i64,
    /// The user's signature over the entropy.
    pub entropy_signature: [u8; 64],
    pub requested_at: i64,
    pub computation_offset: u64,
    pub plan_generated: bool,
    pub bump: u8,
}

impl WithdrawalRequest {
    /// Size of the stored record, its eight-byte tag included.
    pub const SPACE: usize = 8 + 32 + 8 + 32 + 8 + 64 + 8 + 8 + 1 + 1;
}

impl Default for WithdrawalRequest {
    fn default() -> (request: WithdrawalRequest)
        ensures
            request.vault@ == zero_bytes(32),
            request.amount == 0,
            request.user_entropy@ == zero_bytes(32),
            request.entropy_timestamp == 0,
            request.entropy_signature@ == zero_bytes(64),
            request.requested_at == 0,
            request.computation_offset == 0,
            !request.plan_generated,
            request.bump == 0,
    {
        let request = WithdrawalRequest {
            vault: [0u8; 32],
            amount: 0,
            user_entropy: [0u8; 32],
            entropy_timestamp: 0,
            entropy_signature: [0u8; 64],
            requested_at: 0,
            computation_offset: 0,
            plan_generated: false,
            bump: 0,
        };
        proof {
            assert(request.vault@ =~= zero_bytes(32));
            assert(request.user_entropy@ =~= zero_bytes(32));
            assert(request.entropy_signature@ =~= zero_bytes(64));
        }
        request
    }
}

} // verus!
