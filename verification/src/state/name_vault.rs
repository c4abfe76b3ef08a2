//! The vault that receives what is sent to a name.

use vstd::prelude::*;
use crate::constants::Pubkey;
use crate::errors::HydentityError;
use crate::types::{keys_match, zero_bytes};

verus! {

/// Holds the funds received for a name. The vault is controlled by the
/// program and accessed by its owner or by delegates of the owner.
#[derive(Clone, Copy, Debug, PartialEq, Eq)]
pub struct NameVault {
    /// The owner of the vault: the owner of the name when the vault was
    /// created or last claimed.
    pub owner: Pubkey,
    /// The name account that the vault belongs to.
    pub sns_name: Pubkey,
    /// Everything received so far.
    pub total_sol_received: u64,
    /// Number of deposits received so far.
    pub deposit_count: u64,
    pub created_at: i64,
    /// Time of the last deposit, zero before the first.
    pub last_deposit_at: i64,
    pub bump: u8,
    /// Whether the name itself is held by the vault's authority.
    pub domain_transferred: bool,
    pub _reserved1: [u8; 31],
    pub _reserved2: [u8; 32],
}

impl NameVault {
    /// Size of the stored record, its eight-byte tag included.
    pub const LEN: usize = 8 + 32 + 32 + 8 + 8 + 8 + 8 + 1 + 1 + 31 + 32;

    /// The vault right after its creation for `owner` and `sns_name`.
    pub open spec fn fresh(&self, owner: Pubkey, sns_name: Pubkey, bump: u8, now: i64) -> bool {
        &&& self.owner == owner
        &&& self.sns_name == sns_name
        &&& self.total_sol_received == 0
        &&& self.deposit_count == 0
        &&& self.created_at == now
        &&& self.last_deposit_at == 0
        &&& self.bump == bump
        &&& !self.domain_transferred
        &&& self._reserved1@ == zero_bytes(31)
        &&& self._reserved2@ == zero_bytes(32)
    }

    /// Sets the vault up for `owner` and `sns_name`.
    pub fn initialize(&mut self, owner: Pubkey, sns_name: Pubkey, bump: u8, now: i64)
        ensures
            final(self).fresh(owner, sns_name, bump, now),
    {
        self.owner = owner;
        self.sns_name = sns_name;
        self.total_sol_received = 0;
        self.deposit_count = 0;
        self.created_at = now;
        self.last_deposit_at = 0;
        self.bump = bump;
        self.domain_transferred = false;
        self._reserved1 = [0u8; 31];
        self._reserved2 = [0u8; 32];
        proof {
            assert(self._reserved1@ =~= zero_bytes(31));
            assert(self._reserved2@ =~= zero_bytes(32));
        }
    }

    /// Records a deposit of `amount` at the time `now`.
    ///
    /// The deposit is refused, and the vault left as it was, if the total or
    /// the number of deposits would leave the range of its type.
    pub fn record_deposit(&mut self, amount: u64, now: i64) -> (result: Result<(), HydentityError>)
        ensures
            old(self).total_sol_received + amount <= u64::MAX && old(self).deposit_count < u64::MAX
                ==> result is Ok && *final(self) == (NameVault {
                total_sol_received: (old(self).total_sol_received + amount) as u64,
                deposit_count: (old(self).deposit_count + 1) as u64,
                last_deposit_at: now,
                ..*old(self)
            }),
            old(self).total_sol_received + amount > u64::MAX || old(self).deposit_count == u64::MAX
                ==> result == Err::<(), HydentityError>(HydentityError::ArithmeticOverflow)
                && *final(self) == *old(self),
    {
        let total = match self.total_sol_received.checked_add(amount) {
            Some(total) => total,
            None => {
                return Err(HydentityError::ArithmeticOverflow);
            },
        };
        let count = match self.deposit_count.checked_add(1) {
            Some(count) => count,
            None => {
                return Err(HydentityError::ArithmeticOverflow);
            },
        };
        self.total_sol_received = total;
        self.deposit_count = count;
        self.last_deposit_at = now;
        Ok(())
    }

    /// Tells whether `caller` is the owner of the vault.
    pub fn is_owner(&self, caller: &Pubkey) -> (owner: bool)
        ensures
            owner == (self.owner@ == caller@),
    {
        keys_match(&self.owner, caller)
    }

    /// Records whether the name is held by the vault's authority.
    pub fn set_domain_transferred(&mut self, transferred: bool)
        ensures
            *final(self) == (NameVault { domain_transferred: transferred, ..*old(self) }),
    {
        self.domain_transferred = transferred;
    }
}

impl Default for NameVault {
    fn default() -> (vault: NameVault)
        ensures
            vault.fresh(vault.owner, vault.sns_name, 0, 0),
            vault.owner@ == zero_bytes(32),
            vault.sns_name@ == zero_bytes(32),
    {
        let vault = NameVault {
            owner: [0u8; 32],
            sns_name: [0u8; 32],
            total_sol_received: 0,
            deposit_count: 0,
            created_at: 0,
            last_deposit_at: 0,
            bump: 0,
            domain_transferred: false,
            _reserved1: [0u8; 31],
            _reserved2: [0u8; 32],
        };
        proof {
            assert(vault.owner@ =~= zero_bytes(32));
            assert(vault.sns_name@ =~= zero_bytes(32));
            assert(vault._reserved1@ =~= zero_bytes(31));
            assert(vault._reserved2@ =~= zero_bytes(32));
        }
        vault
    }
}

} // verus!
