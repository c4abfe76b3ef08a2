//! Recording that a name has been handed to the vault's authority.

use vstd::prelude::*;
use crate::constants::Pubkey;
use crate::errors::HydentityError;
use crate::instructions::initialize_vault::{sns_ownership, verify_sns_ownership};
use crate::state::name_vault::NameVault;

verus! {

/// Marks the name as transferred to the vault, once the name account shows
/// the vault's authority as its owner. Otherwise the vault is left as it
/// was.
pub fn handler(vault: &mut NameVault, sns_account_data: &[u8], vault_authority_key: Pubkey) -> (result:
    Result<(), HydentityError>)
    ensures
        result == sns_ownership(sns_account_data@, vault_authority_key),
        result is Err ==> *final(vault) == *old(vault),
        result is Ok ==> *final(vault) == (NameVault { domain_transferred: true, ..*old(vault) }),
{
    match verify_sns_ownership(sns_account_data, &vault_authority_key) {
        Err(error) => {
            return Err(error);
        },
        Ok(()) => {},
    }
    vault.set_domain_transferred(true);
    Ok(())
}

} // verus!
