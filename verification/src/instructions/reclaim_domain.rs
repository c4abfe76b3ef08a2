//! Taking a name back from the vault's authority.
//!
//! Reclaiming has two steps around the transfer that the name service makes:
//! the first checks that the authority holds the name and says which
//! transfer to ask for, the second records the outcome.

use vstd::prelude::*;
use crate::constants::{Pubkey, SNS_OWNER_END, SNS_TRANSFER_TAG};
use crate::errors::HydentityError;
use crate::instructions::initialize_vault::{holds_sns_owner, sns_owner, sns_owner_is};
use crate::state::name_vault::NameVault;

verus! {

/// A transfer to ask of the name service: the name account, writable; its
/// current owner, who signs; and the instruction data.
#[derive(Clone, Debug, PartialEq, Eq)]
pub struct SnsTransferInstruction {
    pub name_account: Pubkey,
    pub current_owner: Pubkey,
    pub data: Vec<u8>,
}

/// The data of a transfer to `new_owner`: the tag of the instruction, then
/// the 32 bytes of the new owner's key.
pub open spec fn sns_transfer_data(new_owner: Pubkey) -> Seq<u8> {
    seq![SNS_TRANSFER_TAG] + new_owner@
}

/// Builds the instruction that transfers a name to `new_owner`. The new
/// owner is named in the data, not among the accounts.
pub fn build_sns_transfer_instruction(
    name_account: Pubkey,
    current_owner: Pubkey,
    new_owner: Pubkey,
) -> (instruction: SnsTransferInstruction)
    ensures
        instruction.name_account == name_account,
        instruction.current_owner == current_owner,
        instruction.data@ == sns_transfer_data(new_owner),
{
    let mut data: Vec<u8> = Vec::with_capacity(33);
    data.push(SNS_TRANSFER_TAG);
    let mut i: usize = 0;
    while i < 32
        invariant
            0 <= i <= 32,
            data@ == seq![SNS_TRANSFER_TAG] + new_owner@.take(i as int),
        decreases 32 - i,
    {
        data.push(new_owner[i]);
        proof {
            assert(data@ =~= seq![SNS_TRANSFER_TAG] + new_owner@.take(i as int + 1));
        }
        i += 1;
    }
    proof {
        assert(new_owner@.take(32) =~= new_owner@);
    }
    SnsTransferInstruction { name_account, current_owner, data }
}

/// What the first step of reclaiming finds: the name account must hold an
/// owner, and that owner must be the vault's authority.
pub open spec fn reclaim_check(data: Seq<u8>, vault_authority_key: Pubkey) -> Result<
    (),
    HydentityError,
> {
    if !holds_sns_owner(data) {
        Err(HydentityError::InvalidSnsName)
    } else if sns_owner(data) != vault_authority_key@ {
        Err(HydentityError::DomainNotTransferred)
    } else {
        Ok(())
    }
}

/// First step of reclaiming a name: checks that the vault's authority holds
/// it and builds the transfer to `destination`.
pub fn handler(
    sns_account_data: &[u8],
    sns_name_account: Pubkey,
    vault_authority_key: Pubkey,
    destination: Pubkey,
) -> (result: Result<SnsTransferInstruction, HydentityError>)
    ensures
        match result {
            Ok(instruction) => {
                &&& reclaim_check(sns_account_data@, vault_authority_key) is Ok
                &&& instruction.name_account == sns_name_account
                &&& instruction.current_owner == vault_authority_key
                &&& instruction.data@ == sns_transfer_data(destination)
            },
            Err(error) => reclaim_check(sns_account_data@, vault_authority_key) == Err::<
                (),
                HydentityError,
            >(error),
        },
{
    if sns_account_data.len() < SNS_OWNER_END {
        return Err(HydentityError::InvalidSnsName);
    }
    if !sns_owner_is(sns_account_data, &vault_authority_key) {
        return Err(HydentityError::DomainNotTransferred);
    }
    Ok(build_sns_transfer_instruction(sns_name_account, vault_authority_key, destination))
}

/// Second step of reclaiming a name: records the outcome of the transfer.
/// After a transfer that went through, the vault no longer holds the name;
/// after one that failed, the vault is left as it was.
pub fn complete(vault: &mut NameVault, transfer_succeeded: bool) -> (result: Result<
    (),
    HydentityError,
>)
    ensures
        transfer_succeeded ==> result is Ok && *final(vault) == (NameVault {
            domain_transferred: false,
            ..*old(vault)
        }),
        !transfer_succeeded ==> result == Err::<(), HydentityError>(
            HydentityError::SnsTransferFailed,
        ) && *final(vault) == *old(vault),
{
    if !transfer_succeeded {
        return Err(HydentityError::SnsTransferFailed);
    }
    vault.set_domain_transferred(false);
    Ok(())
}

} // verus!
