//! Moving funds of a vault into the mixer.

use vstd::prelude::*;
use crate::constants::{Pubkey, DUST_THRESHOLD_LAMPORTS, PERMISSION_DEPOSIT_UMBRA};
use crate::errors::HydentityError;
use crate::instructions::authorization::{authorization, authorize};
use crate::instructions::funds::{funds_transfer, plan_transfer, FundsTransfer, VaultFunds};
use crate::state::delegate_session::DelegateSession;
use crate::state::name_vault::NameVault;
use crate::state::privacy_policy::{PrivacyMode, PrivacyPolicy};

verus! {

/// The deposit of `amount` into the mixer, or why it is refused.
///
/// The checks run in this order: the policy must be enabled and must not
/// ask for direct transfers; the caller must be the owner or a delegate
/// with the permission to deposit; the amount must reach the dust
/// threshold; the vault must be able to pay.
pub open spec fn deposit(
    vault: NameVault,
    policy: PrivacyPolicy,
    authority: Pubkey,
    delegate_session: Option<DelegateSession>,
    funds: VaultFunds,
    amount: u64,
    now: i64,
) -> Result<FundsTransfer, HydentityError> {
    if !policy.enabled || policy.privacy_mode is Direct {
        Err(HydentityError::PolicyDisabled)
    } else {
        match authorization(vault, authority, delegate_session, PERMISSION_DEPOSIT_UMBRA, now) {
            Err(error) => Err(error),
            Ok(()) => if amount < DUST_THRESHOLD_LAMPORTS {
                Err(HydentityError::AmountBelowDust)
            } else {
                funds_transfer(funds, amount)
            },
        }
    }
}

/// Decides the deposit of `amount` from the vault into the mixer.
pub fn handler(
    vault: &NameVault,
    policy: &PrivacyPolicy,
    authority: Pubkey,
    delegate_session: Option<&DelegateSession>,
    funds: &VaultFunds,
    amount: u64,
    now: i64,
) -> (result: Result<FundsTransfer, HydentityError>)
    ensures
        result == deposit(
            *vault,
            *policy,
            authority,
            match delegate_session {
                Some(session) => Some(*session),
                None => None,
            },
            *funds,
            amount,
            now,
        ),
{
    if !policy.enabled {
        return Err(HydentityError::PolicyDisabled);
    }
    let direct = match policy.privacy_mode {
        PrivacyMode::Direct => true,
        _ => false,
    };
    if direct {
        return Err(HydentityError::PolicyDisabled);
    }
    match authorize(vault, &authority, delegate_session, PERMISSION_DEPOSIT_UMBRA, now) {
        Err(error) => {
            return Err(error);
        },
        Ok(()) => {},
    }
    if amount < DUST_THRESHOLD_LAMPORTS {
        return Err(HydentityError::AmountBelowDust);
    }
    plan_transfer(funds, amount)
}

} // verus!
