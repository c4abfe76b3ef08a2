//! Storing the encrypted configuration of a vault and asking the secure
//! computation to validate it.

use vstd::prelude::*;
use crate::constants::Pubkey;
use crate::errors::HydentityError;
use crate::events::ConfigStored;
use crate::state::encrypted_config::EncryptedVaultConfig;
use crate::state::name_vault::NameVault;
use crate::types::{keys_match, zero_bytes};

verus! {

/// Offset of the encrypted data in the stored record: behind the tag and
/// the key of the vault.
pub const ENCRYPTED_CONFIG_DATA_OFFSET: u32 = 40;

/// Size of the encrypted data in the stored record.
pub const ENCRYPTED_CONFIG_DATA_SIZE: u32 = 512;

/// What to hand to the secure computation that validates a configuration:
/// where the ciphertext lies in the stored record, the vault, and the slot.
#[derive(Clone, Copy, Debug, PartialEq, Eq)]
pub struct StoreConfigComputation {
    pub data_offset: u32,
    pub data_size: u32,
    pub vault: Pubkey,
    pub current_slot: u64,
}

/// What storing a configuration finds. The checks run in this order: the
/// caller must own the vault; the vault must belong to the name account; a
/// record that is already in use must belong to the vault.
pub open spec fn store_check(
    vault: NameVault,
    config_account: EncryptedVaultConfig,
    owner: Pubkey,
    sns_name_account: Pubkey,
    vault_key: Pubkey,
) -> Result<(), HydentityError> {
    if vault.owner@ != owner@ {
        Err(HydentityError::Unauthorized)
    } else if vault.sns_name@ != sns_name_account@ {
        Err(HydentityError::InvalidSnsName)
    } else if config_account.is_initialized && config_account.vault@ != vault_key@ {
        Err(HydentityError::InvalidVault)
    } else {
        Ok(())
    }
}

/// Stores the ciphertext of a configuration in the record of the vault and
/// says what to queue for its validation.
///
/// A record that was not in use is set up for the vault, at version one and
/// with a blank fingerprint: the fingerprint comes with the result of the
/// validation. A record in use keeps its version and its fingerprint. A
/// refused request leaves the record as it was.
pub fn handler(
    vault: &NameVault,
    config_account: &mut EncryptedVaultConfig,
    owner: Pubkey,
    sns_name_account: Pubkey,
    vault_key: Pubkey,
    encrypted_data: [u8; 512],
    nonce: [u8; 16],
    current_slot: u64,
    now: i64,
    bump: u8,
) -> (result: Result<StoreConfigComputation, HydentityError>)
    ensures
        match result {
            Ok(computation) => {
                &&& store_check(*vault, *old(config_account), owner, sns_name_account, vault_key)
                    is Ok
                &&& computation == (StoreConfigComputation {
                    data_offset: ENCRYPTED_CONFIG_DATA_OFFSET,
                    data_size: ENCRYPTED_CONFIG_DATA_SIZE,
                    vault: vault_key,
                    current_slot,
                })
                &&& final(config_account).encrypted_data == encrypted_data
                &&& final(config_account).nonce == nonce
                &&& final(config_account).last_updated_slot == current_slot
                &&& final(config_account).last_updated_at == now
                &&& final(config_account).is_initialized
                &&& final(config_account)._reserved == old(config_account)._reserved
                &&& old(config_account).is_initialized ==> {
                    &&& final(config_account).vault == old(config_account).vault
                    &&& final(config_account).version == old(config_account).version
                    &&& final(config_account).config_hash == old(config_account).config_hash
                    &&& final(config_account).bump == old(config_account).bump
                }
                &&& !old(config_account).is_initialized ==> {
                    &&& final(config_account).vault == vault_key
                    &&& final(config_account).version == 1
                    &&& final(config_account).config_hash@ == zero_bytes(32)
                    &&& final(config_account).bump == bump
                }
            },
            Err(error) => {
                &&& store_check(*vault, *old(config_account), owner, sns_name_account, vault_key)
                    == Err::<(), HydentityError>(error)
                &&& *final(config_account) == *old(config_account)
            },
        },
{
    if !keys_match(&vault.owner, &owner) {
        return Err(HydentityError::Unauthorized);
    }
    if !keys_match(&vault.sns_name, &sns_name_account) {
        return Err(HydentityError::InvalidSnsName);
    }
    if !config_account.is_initialized {
        let blank = [0u8; 32];
        proof {
            assert(blank@ =~= zero_bytes(32));
        }
        config_account.initialize(vault_key, encrypted_data, nonce, blank, current_slot, now, bump);
    } else if !keys_match(&config_account.vault, &vault_key) {
        return Err(HydentityError::InvalidVault);
    }
    config_account.encrypted_data = encrypted_data;
    config_account.nonce = nonce;
    config_account.last_updated_slot = current_slot;
    config_account.last_updated_at = now;
    Ok(
        StoreConfigComputation {
            data_offset: ENCRYPTED_CONFIG_DATA_OFFSET,
            data_size: ENCRYPTED_CONFIG_DATA_SIZE,
            vault: vault_key,
            current_slot,
        },
    )
}

/// Takes the result of the validation: says what to announce once the
/// output of the secure computation has been verified, and refuses an
/// output that does not verify.
pub fn store_private_config_callback(
    config_account: &EncryptedVaultConfig,
    output_verified: bool,
    now: i64,
) -> (result: Result<ConfigStored, HydentityError>)
    ensures
        output_verified ==> result == Ok::<ConfigStored, HydentityError>(
            (ConfigStored {
                vault: config_account.vault,
                config_hash: config_account.config_hash,
                timestamp: now,
            }),
        ),
        !output_verified ==> result == Err::<ConfigStored, HydentityError>(
            HydentityError::InvalidMpcResult,
        ),
{
    if !output_verified {
        return Err(HydentityError::InvalidMpcResult);
    }
    Ok(
        ConfigStored {
            vault: config_account.vault,
            config_hash: config_account.config_hash,
            timestamp: now,
        },
    )
}

} // verus!
