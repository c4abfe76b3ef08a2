//! Creating the vault of a name.

use vstd::prelude::*;
use crate::constants::{Pubkey, SNS_OWNER_END, SNS_OWNER_OFFSET};
use crate::errors::HydentityError;
use crate::state::name_vault::NameVault;
use crate::state::privacy_policy::PrivacyPolicy;
use crate::state::vault_authority::VaultAuthority;

verus! {

/// The data of a name account is long enough to hold the key of its owner.
pub open spec fn holds_sns_owner(data: Seq<u8>) -> bool {
    data.len() >= SNS_OWNER_END
}

/// The key of the owner in the data of a name account: the 32 bytes behind
/// the key of the parent name.
pub open spec fn sns_owner(data: Seq<u8>) -> Seq<u8> {
    data.subrange(SNS_OWNER_OFFSET as int, SNS_OWNER_END as int)
}

/// What the check of a name's ownership finds: the data must hold an owner,
/// and the owner must be the expected one.
pub open spec fn sns_ownership(data: Seq<u8>, expected_owner: Pubkey) -> Result<
    (),
    HydentityError,
> {
    if !holds_sns_owner(data) {
        Err(HydentityError::InvalidSnsName)
    } else if sns_owner(data) != expected_owner@ {
        Err(HydentityError::SnsOwnershipVerificationFailed)
    } else {
        Ok(())
    }
}

/// Tells whether the owner recorded in the data of a name account is `key`.
pub(crate) fn sns_owner_is(sns_account_data: &[u8], key: &Pubkey) -> (same: bool)
    requires
        holds_sns_owner(sns_account_data@),
    ensures
        same == (sns_owner(sns_account_data@) == key@),
{
    let mut same = true;
    let mut i: usize = 0;
    while i < 32
        invariant
            0 <= i <= 32,
            holds_sns_owner(sns_account_data@),
            same == (forall|k: int|
                0 <= k < i ==> sns_account_data@[SNS_OWNER_OFFSET + k] == key@[k]),
        decreases 32 - i,
    {
        if sns_account_data[SNS_OWNER_OFFSET + i] != key[i] {
            same = false;
        }
        i += 1;
    }
    proof {
        if same {
            assert(sns_owner(sns_account_data@) =~= key@);
        } else {
            let k = choose|k: int|
                0 <= k < 32 && sns_account_data@[SNS_OWNER_OFFSET + k] != key@[k];
            assert(sns_owner(sns_account_data@)[k] != key@[k]);
        }
    }
    same
}

/// Verifies that `expected_owner` owns the name whose account holds
/// `sns_account_data`.
pub fn verify_sns_ownership(sns_account_data: &[u8], expected_owner: &Pubkey) -> (result: Result<
    (),
    HydentityError,
>)
    ensures
        result == sns_ownership(sns_account_data@, *expected_owner),
{
    if sns_account_data.len() < SNS_OWNER_END {
        return Err(HydentityError::InvalidSnsName);
    }
    if !sns_owner_is(sns_account_data, expected_owner) {
        return Err(HydentityError::SnsOwnershipVerificationFailed);
    }
    Ok(())
}

/// Creates the vault of a name for its owner, together with the vault's
/// authority and its privacy policy.
///
/// Nothing is set up unless `owner` owns the name.
pub fn handler(
    vault: &mut NameVault,
    vault_authority: &mut VaultAuthority,
    policy: &mut PrivacyPolicy,
    sns_account_data: &[u8],
    owner: Pubkey,
    sns_name: Pubkey,
    vault_key: Pubkey,
    vault_bump: u8,
    vault_authority_bump: u8,
    policy_bump: u8,
    now: i64,
) -> (result: Result<(), HydentityError>)
    ensures
        result == sns_ownership(sns_account_data@, owner),
        result is Err ==> {
            &&& *final(vault) == *old(vault)
            &&& *final(vault_authority) == *old(vault_authority)
            &&& *final(policy) == *old(policy)
        },
        result is Ok ==> {
            &&& final(vault).fresh(owner, sns_name, vault_bump, now)
            &&& final(vault_authority).vault == vault_key
            &&& final(vault_authority).sns_name == sns_name
            &&& final(vault_authority).bump == vault_authority_bump
            &&& final(policy).vault == vault_key
            &&& final(policy).sns_name == sns_name
            &&& final(policy).has_default_settings()
            &&& final(policy).destinations@ == seq![owner]
            &&& final(policy).updated_at == now
            &&& final(policy).bump == policy_bump
        },
{
    match verify_sns_ownership(sns_account_data, &owner) {
        Err(error) => {
            return Err(error);
        },
        Ok(()) => {},
    }
    vault.initialize(owner, sns_name, vault_bump, now);
    vault_authority.initialize(vault_key, sns_name, vault_authority_bump);
    policy.initialize(vault_key, sns_name, owner, policy_bump, now);
    Ok(())
}

} // verus!
