//! The instructions that the program offers, by the names under which it
//! offers them.

use vstd::prelude::*;
use crate::constants::Pubkey;
use crate::errors::HydentityError;
use crate::events::{VaultClaimed, VaultClosed};
use crate::instructions::claim_vault::claim_check;
use crate::instructions::initialize_vault::sns_ownership;
use crate::instructions::reclaim_domain::{reclaim_check, sns_transfer_data, SnsTransferInstruction};
use crate::state::name_vault::NameVault;
use crate::state::privacy_policy::PrivacyPolicy;
use crate::state::vault_authority::VaultAuthority;

verus! {

/// Initializes a new vault for the name that `owner` owns.
pub fn initialize_vault(
    vault: &mut NameVault,
    vault_authority: &mut VaultAuthority,
    policy: &mut PrivacyPolicy,
    sns_account_data: &[u8],
    owner: Pubkey,
    sns_name: Pubkey,
    vault_key: Pubkey,
    vault_bump: u8,
    vault_authority_bump: u8,
    policy_bump: u8,
    now: i64,
) -> (result: Result<(), HydentityError>)
    ensures
        result == sns_ownership(sns_account_data@, owner),
        result is Err ==> {
            &&& *final(vault) == *old(vault)
            &&& *final(vault_authority) == *old(vault_authority)
            &&& *final(policy) == *old(policy)
        },
        result is Ok ==> {
            &&& final(vault).fresh(owner, sns_name, vault_bump, now)
            &&& final(vault_authority).vault == vault_key
            &&& final(vault_authority).sns_name == sns_name
            &&& final(vault_authority).bump == vault_authority_bump
            &&& final(policy).vault == vault_key
            &&& final(policy).sns_name == sns_name
            &&& final(policy).has_default_settings()
            &&& final(policy).destinations@ == seq![owner]
            &&& final(policy).updated_at == now
            &&& final(policy).bump == policy_bump
        },
{
    crate::instructions::initialize_vault::handler(
        vault,
        vault_authority,
        policy,
        sns_account_data,
        owner,
        sns_name,
        vault_key,
        vault_bump,
        vault_authority_bump,
        policy_bump,
        now,
    )
}

/// Marks a name as transferred to the vault's authority, after its
/// ownership has been handed over.
pub fn mark_domain_transferred(
    vault: &mut NameVault,
    sns_account_data: &[u8],
    vault_authority_key: Pubkey,
) -> (result: Result<(), HydentityError>)
    ensures
        result == sns_ownership(sns_account_data@, vault_authority_key),
        result is Err ==> *final(vault) == *old(vault),
        result is Ok ==> *final(vault) == (NameVault { domain_transferred: true, ..*old(vault) }),
{
    crate::instructions::mark_domain_transferred::handler(
        vault,
        sns_account_data,
        vault_authority_key,
    )
}

/// Starts reclaiming a name from the vault: checks that the vault's
/// authority holds it and builds the transfer to `destination`. The outcome
/// of the transfer is recorded with
/// `instructions::reclaim_domain::complete`.
pub fn reclaim_domain(
    sns_account_data: &[u8],
    sns_name_account: Pubkey,
    vault_authority_key: Pubkey,
    destination: Pubkey,
) -> (result: Result<SnsTransferInstruction, HydentityError>)
    ensures
        match result {
            Ok(instruction) => {
                &&& reclaim_check(sns_account_data@, vault_authority_key) is Ok
                &&& instruction.name_account == sns_name_account
                &&& instruction.current_owner == vault_authority_key
                &&& instruction.data@ == sns_transfer_data(destination)
            },
            Err(error) => reclaim_check(sns_account_data@, vault_authority_key) == Err::<
                (),
                HydentityError,
            >(error),
        },
{
    crate::instructions::reclaim_domain::handler(
        sns_account_data,
        sns_name_account,
        vault_authority_key,
        destination,
    )
}

/// Closes a vault for its owner.
pub fn close_vault(vault_key: Pubkey, owner: Pubkey, now: i64) -> (event: VaultClosed)
    ensures
        event == (VaultClosed { vault: vault_key, owner, timestamp: now }),
{
    crate::instructions::close_vault::handler(vault_key, owner, now)
}

/// Hands an existing vault to the new owner of its name.
pub fn claim_vault(
    vault: &mut NameVault,
    policy: &mut PrivacyPolicy,
    sns_account_data: &[u8],
    new_owner: Pubkey,
    vault_key: Pubkey,
    now: i64,
) -> (result: Result<VaultClaimed, HydentityError>)
    ensures
        match result {
            Ok(event) => {
                &&& claim_check(sns_account_data@, new_owner, *old(policy)) is Ok
                &&& event == (VaultClaimed {
                    vault: vault_key,
                    previous_owner: old(vault).owner,
                    new_owner,
                    timestamp: now,
                })
                &&& *final(vault) == (NameVault { owner: new_owner, ..*old(vault) })
                &&& final(policy).destinations@ == seq![new_owner]
                &&& *final(policy) == (PrivacyPolicy {
                    destinations: final(policy).destinations,
                    policy_nonce: (old(policy).policy_nonce + 1) as u64,
                    updated_at: now,
                    ..*old(policy)
                })
            },
            Err(error) => {
                &&& claim_check(sns_account_data@, new_owner, *old(policy)) == Err::<
                    (),
                    HydentityError,
                >(error)
                &&& *final(vault) == *old(vault)
                &&& *final(policy) == *old(policy)
            },
        },
{
    crate::instructions::claim_vault::handler(
        vault,
        policy,
        sns_account_data,
        new_owner,
        vault_key,
        now,
    )
}

/// The balances of both sides after a direct withdrawal.
#[derive(Clone, Copy, Debug, PartialEq, Eq)]
pub struct DirectWithdrawal {
    /// What the vault's authority holds afterwards.
    pub vault_lamports: u64,
    /// What the destination holds afterwards.
    pub destination_lamports: u64,
}

/// Withdraws `amount` lamports from the vault's authority straight to the
/// destination, bypassing privacy.
///
/// The withdrawal is refused if the authority holds less than the amount,
/// or if the destination's balance would leave the range of its type.
pub fn withdraw_direct(vault_lamports: u64, destination_lamports: u64, amount: u64) -> (result:
    Result<DirectWithdrawal, HydentityError>)
    ensures
        result == if vault_lamports < amount {
            Err::<DirectWithdrawal, HydentityError>(HydentityError::InsufficientBalance)
        } else if destination_lamports + amount > u64::MAX {
            Err::<DirectWithdrawal, HydentityError>(HydentityError::ArithmeticOverflow)
        } else {
            Ok::<DirectWithdrawal, HydentityError>(
                (DirectWithdrawal {
                    vault_lamports: (vault_lamports - amount) as u64,
                    destination_lamports: (destination_lamports + amount) as u64,
                }),
            )
        },
{
    if vault_lamports < amount {
        return Err(HydentityError::InsufficientBalance);
    }
    let destination_after = match destination_lamports.checked_add(amount) {
        Some(total) => total,
        None => {
            return Err(HydentityError::ArithmeticOverflow);
        },
    };
    Ok(
        DirectWithdrawal {
            vault_lamports: vault_lamports - amount,
            destination_lamports: destination_after,
        },
    )
}

} // verus!
