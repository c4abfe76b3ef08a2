//! Taking over the vault of a name that has changed hands.

use vstd::prelude::*;
use crate::constants::Pubkey;
use crate::errors::HydentityError;
use crate::events::VaultClaimed;
use crate::instructions::initialize_vault::{sns_ownership, verify_sns_ownership};
use crate::state::name_vault::NameVault;
use crate::state::privacy_policy::PrivacyPolicy;

verus! {

/// What a claim finds: the claimant must own the name, and the policy's
/// counter of updates must have room for one more.
pub open spec fn claim_check(data: Seq<u8>, new_owner: Pubkey, policy: PrivacyPolicy) -> Result<
    (),
    HydentityError,
> {
    match sns_ownership(data, new_owner) {
        Err(error) => Err(error),
        Ok(()) => if policy.policy_nonce == u64::MAX {
            Err(HydentityError::ArithmeticOverflow)
        } else {
            Ok(())
        },
    }
}

/// Hands the vault to `new_owner`, the current owner of the name.
///
/// The new owner becomes the only destination of the policy, and the change
/// counts as an update of the policy. A refused claim leaves vault and
/// policy as they were.
pub fn handler(
    vault: &mut NameVault,
    policy: &mut PrivacyPolicy,
    sns_account_data: &[u8],
    new_owner: Pubkey,
    vault_key: Pubkey,
    now: i64,
) -> (result: Result<VaultClaimed, HydentityError>)
    ensures
        match result {
            Ok(event) => {
                &&& claim_check(sns_account_data@, new_owner, *old(policy)) is Ok
                &&& event == (VaultClaimed {
                    vault: vault_key,
                    previous_owner: old(vault).owner,
                    new_owner,
                    timestamp: now,
                })
                &&& *final(vault) == (NameVault { owner: new_owner, ..*old(vault) })
                &&& final(policy).destinations@ == seq![new_owner]
                &&& *final(policy) == (PrivacyPolicy {
                    destinations: final(policy).destinations,
                    policy_nonce: (old(policy).policy_nonce + 1) as u64,
                    updated_at: now,
                    ..*old(policy)
                })
            },
            Err(error) => {
                &&& claim_check(sns_account_data@, new_owner, *old(policy)) == Err::<
                    (),
                    HydentityError,
                >(error)
                &&& *final(vault) == *old(vault)
                &&& *final(policy) == *old(policy)
            },
        },
{
    match verify_sns_ownership(sns_account_data, &new_owner) {
        Err(error) => {
            return Err(error);
        },
        Ok(()) => {},
    }
    let nonce = match policy.policy_nonce.checked_add(1) {
        Some(nonce) => nonce,
        None => {
            return Err(HydentityError::ArithmeticOverflow);
        },
    };
    let previous_owner = vault.owner;
    vault.owner = new_owner;
    policy.destinations = vec![new_owner];
    policy.policy_nonce = nonce;
    policy.updated_at = now;
    Ok(VaultClaimed { vault: vault_key, previous_owner, new_owner, timestamp: now })
}

} // verus!
