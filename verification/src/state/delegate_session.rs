//! Time-bounded permissions that an owner grants to a delegate.

use vstd::prelude::*;
use crate::constants::{Pubkey, PERMISSION_DEPOSIT_UMBRA, PERMISSION_UPDATE_POLICY};
use crate::errors::HydentityError;
use crate::types::zero_bytes;

verus! {

/// A delegation: until it expires, the delegate may do on behalf of the
/// owner what the permission flags allow.
#[derive(Clone, Copy, Debug, PartialEq, Eq)]
pub struct DelegateSession {
    /// The vault that the delegation is for.
    pub vault: Pubkey,
    /// The name account of that vault.
    pub sns_name: Pubkey,
    pub delegate: Pubkey,
    /// The owner who granted the delegation.
    pub granted_by: Pubkey,
    /// The delegation is valid before this time.
    pub expires_at: i64,
    /// Permission flags, one bit each.
    pub permissions: u8,
    pub created_at: i64,
    pub bump: u8,
    pub _reserved: [u8; 32],
}

/// The flags in `permissions` and those in `wanted` have a bit in common.
pub open spec fn permits(permissions: u8, wanted: u8) -> bool {
    permissions & wanted != 0
}

impl DelegateSession {
    /// Size of the stored record, its eight-byte tag included.
    pub const LEN: usize = 8 + 32 + 32 + 32 + 32 + 8 + 1 + 8 + 1 + 32;

    /// The delegation has not expired at the time `now`.
    pub open spec fn valid_at(&self, now: i64) -> bool {
        now < self.expires_at
    }

    /// What the check for `permission` at the time `now` finds: the
    /// delegation must not have expired, and it must hold the permission.
    pub open spec fn permission_check(&self, permission: u8, now: i64) -> Result<
        (),
        HydentityError,
    > {
        if !self.valid_at(now) {
            Err(HydentityError::DelegateExpired)
        } else if !permits(self.permissions, permission) {
            Err(HydentityError::InsufficientPermissions)
        } else {
            Ok(())
        }
    }

    /// Sets the delegation up.
    pub fn initialize(
        &mut self,
        vault: Pubkey,
        sns_name: Pubkey,
        delegate: Pubkey,
        granted_by: Pubkey,
        expires_at: i64,
        permissions: u8,
        bump: u8,
        now: i64,
    )
        ensures
            final(self).vault == vault,
            final(self).sns_name == sns_name,
            final(self).delegate == delegate,
            final(self).granted_by == granted_by,
            final(self).expires_at == expires_at,
            final(self).permissions == permissions,
            final(self).created_at == now,
            final(self).bump == bump,
            final(self)._reserved@ == zero_bytes(32),
    {
        self.vault = vault;
        self.sns_name = sns_name;
        self.delegate = delegate;
        self.granted_by = granted_by;
        self.expires_at = expires_at;
        self.permissions = permissions;
        self.created_at = now;
        self.bump = bump;
        self._reserved = [0u8; 32];
        proof {
            assert(self._reserved@ =~= zero_bytes(32));
        }
    }

    /// Tells whether the delegation is still valid at the time `now`.
    pub fn is_valid(&self, now: i64) -> (valid: bool)
        ensures
            valid == self.valid_at(now),
    {
        now < self.expires_at
    }

    /// Tells whether the delegate may update the privacy policy.
    pub fn can_update_policy(&self) -> (allowed: bool)
        ensures
            allowed == permits(self.permissions, PERMISSION_UPDATE_POLICY),
    {
        self.permissions & PERMISSION_UPDATE_POLICY != 0
    }

    /// Tells whether the delegate may deposit into the mixer.
    pub fn can_deposit_umbra(&self) -> (allowed: bool)
        ensures
            allowed == permits(self.permissions, PERMISSION_DEPOSIT_UMBRA),
    {
        self.permissions & PERMISSION_DEPOSIT_UMBRA != 0
    }

    /// Checks the delegation for one permission at the time `now`: first
    /// that it has not expired, then that it holds the permission.
    pub fn validate_permission(&self, permission: u8, now: i64) -> (result: Result<
        (),
        HydentityError,
    >)
        ensures
            result == self.permission_check(permission, now),
    {
        if !self.is_valid(now) {
            return Err(HydentityError::DelegateExpired);
        }
        if self.permissions & permission == 0 {
            return Err(HydentityError::InsufficientPermissions);
        }
        Ok(())
    }
}

impl Default for DelegateSession {
    fn default() -> (session: DelegateSession)
        ensures
            session.vault@ == zero_bytes(32),
            session.sns_name@ == zero_bytes(32),
            session.delegate@ == zero_bytes(32),
            session.granted_by@ == zero_bytes(32),
            session.expires_at == 0,
            session.permissions == 0,
            session.created_at == 0,
            session.bump == 0,
            session._reserved@ == zero_bytes(32),
    {
        let session = DelegateSession {
            vault: [0u8; 32],
            sns_name: [0u8; 32],
            delegate: [0u8; 32],
            granted_by: [0u8; 32],
            expires_at: 0,
            permissions: 0,
            created_at: 0,
            bump: 0,
            _reserved: [0u8; 32],
        };
        proof {
            assert(session.vault@ =~= zero_bytes(32));
            assert(session.sns_name@ =~= zero_bytes(32));
            assert(session.delegate@ =~= zero_bytes(32));
            assert(session.granted_by@ =~= zero_bytes(32));
            assert(session._reserved@ =~= zero_bytes(32));
        }
        session
    }
}

} // verus!
