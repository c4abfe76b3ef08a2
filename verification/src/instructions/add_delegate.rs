//! Granting a delegation.

use vstd::prelude::*;
use crate::constants::Pubkey;
use crate::errors::HydentityError;
use crate::state::delegate_session::DelegateSession;

verus! {

/// Grants `delegate` the given permissions on the vault until `expires_at`.
///
/// A delegation that would already have expired is refused and the session
/// left as it was.
pub fn handler(
    delegate_session: &mut DelegateSession,
    vault_key: Pubkey,
    sns_name: Pubkey,
    delegate: Pubkey,
    owner: Pubkey,
    expires_at: i64,
    permissions: u8,
    bump: u8,
    now: i64,
) -> (result: Result<(), HydentityError>)
    ensures
        expires_at <= now ==> result == Err::<(), HydentityError>(HydentityError::DelegateExpired)
            && *final(delegate_session) == *old(delegate_session),
        expires_at > now ==> {
            &&& result is Ok
            &&& final(delegate_session).vault == vault_key
            &&& final(delegate_session).sns_name == sns_name
            &&& final(delegate_session).delegate == delegate
            &&& final(delegate_session).granted_by == owner
            &&& final(delegate_session).expires_at == expires_at
            &&& final(delegate_session).permissions == permissions
            &&& final(delegate_session).created_at == now
            &&& final(delegate_session).bump == bump
            &&& final(delegate_session).valid_at(now)
        },
{
    if expires_at <= now {
        return Err(HydentityError::DelegateExpired);
    }
    delegate_session.initialize(
        vault_key,
        sns_name,
        delegate,
        owner,
        expires_at,
        permissions,
        bump,
        now,
    );
    Ok(())
}

} // verus!
