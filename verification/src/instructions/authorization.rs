//! Who may act on a vault: its owner, or a delegate of the owner.

use vstd::prelude::*;
use crate::constants::Pubkey;
use crate::errors::HydentityError;
use crate::state::delegate_session::DelegateSession;
use crate::state::name_vault::NameVault;

verus! {

/// What the check of a caller finds. The owner of the vault may do
/// everything. Another caller needs a delegate session that has not expired
/// and holds the permission; without a session the caller is a stranger.
pub open spec fn authorization(
    vault: NameVault,
    authority: Pubkey,
    delegate_session: Option<DelegateSession>,
    permission: u8,
    now: i64,
) -> Result<(), HydentityError> {
    if vault.owner@ == authority@ {
        Ok(())
    } else {
        match delegate_session {
            Some(session) => session.permission_check(permission, now),
            None => Err(HydentityError::Unauthorized),
        }
    }
}

/// Checks that `authority` may do on the vault what `permission` names.
pub fn authorize(
    vault: &NameVault,
    authority: &Pubkey,
    delegate_session: Option<&DelegateSession>,
    permission: u8,
    now: i64,
) -> (result: Result<(), HydentityError>)
    ensures
        result == authorization(
            *vault,
            *authority,
            match delegate_session {
                Some(session) => Some(*session),
                None => None,
            },
            permission,
            now,
        ),
{
    if vault.is_owner(authority) {
        Ok(())
    } else if let Some(session) = delegate_session {
        session.validate_permission(permission, now)
    } else {
        Err(HydentityError::Unauthorized)
    }
}

} // verus!
