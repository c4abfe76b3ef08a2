//! The stored form of a private configuration: ciphertext and fingerprint.

use vstd::prelude::*;
use crate::constants::Pubkey;
use crate::types::zero_bytes;

verus! {

/// Seed prefix of an encrypted configuration's address: the bytes of
/// `encrypted_config`.
pub const ENCRYPTED_CONFIG_SEED: [u8; 16] = [
    101, 110, 99, 114, 121, 112, 116, 101, 100, 95, 99, 111, 110, 102, 105, 103,
];

/// The private configuration of a vault as it is stored: encrypted, with
/// the fingerprint of its plaintext beside it.
#[derive(Clone, Copy, Debug, PartialEq, Eq)]
pub struct EncryptedVaultConfig {
    /// The vault that the configuration belongs to.
    pub vault: Pubkey,
    /// The configuration, encrypted and padded to a fixed size.
    pub encrypted_data: [u8; 512],
    /// The nonce of the encryption.
    pub nonce: [u8; 16],
    /// Counts the updates; one after the first storing.
    pub version: u8,
    /// Fingerprint of the plaintext configuration.
    pub config_hash: [u8; 32],
    pub last_updated_slot: u64,
    pub last_updated_at: i64,
    pub is_initialized: bool,
    pub bump: u8,
    pub _reserved: [u8; 64],
}

impl EncryptedVaultConfig {
    /// Size of the stored record, its eight-byte tag included.
    pub const SPACE: usize = 8 + 32 + 512 + 16 + 1 + 32 + 8 + 8 + 1 + 1 + 64;

    /// Stores the first configuration of `vault`.
    pub fn initialize(
        &mut self,
        vault: Pubkey,
        encrypted_data: [u8; 512],
        nonce: [u8; 16],
        config_hash: [u8; 32],
        current_slot: u64,
        current_timestamp: i64,
        bump: u8,
    )
        ensures
            *final(self) == (EncryptedVaultConfig {
                vault,
                encrypted_data,
                nonce,
                version: 1,
                config_hash,
                last_updated_slot: current_slot,
                last_updated_at: current_timestamp,
                is_initialized: true,
                bump,
                _reserved: old(self)._reserved,
            }),
    {
        self.vault = vault;
        self.encrypted_data = encrypted_data;
        self.nonce = nonce;
        self.version = 1;
        self.config_hash = config_hash;
        self.last_updated_slot = current_slot;
        self.last_updated_at = current_timestamp;
        self.is_initialized = true;
        self.bump = bump;
    }

    /// Replaces the stored configuration and counts the update. The counter
    /// stops at the largest value it can hold.
    pub fn update(
        &mut self,
        encrypted_data: [u8; 512],
        nonce: [u8; 16],
        config_hash: [u8; 32],
        current_slot: u64,
        current_timestamp: i64,
    )
        ensures
            *final(self) == (EncryptedVaultConfig {
                encrypted_data,
                nonce,
                config_hash,
                version: if old(self).version < u8::MAX {
                    (old(self).version + 1) as u8
                } else {
                    u8::MAX
                },
                last_updated_slot: current_slot,
                last_updated_at: current_timestamp,
                ..*old(self)
            }),
    {
        self.encrypted_data = encrypted_data;
        self.nonce = nonce;
        self.config_hash = config_hash;
        self.version = self.version.saturating_add(1);
        self.last_updated_slot = current_slot;
        self.last_updated_at = current_timestamp;
    }
}

impl Default for EncryptedVaultConfig {
    fn default() -> (config: EncryptedVaultConfig)
        ensures
            config.vault@ == zero_bytes(32),
            config.encrypted_data@ == zero_bytes(512),
            config.nonce@ == zero_bytes(16),
            config.version == 0,
            config.config_hash@ == zero_bytes(32),
            config.last_updated_slot == 0,
            config.last_updated_at == 0,
            !config.is_initialized,
            config.bump == 0,
            config._reserved@ == zero_bytes(64),
    {
        let config = EncryptedVaultConfig {
            vault: [0u8; 32],
            encrypted_data: [0u8; 512],
            nonce: [0u8; 16],
            version: 0,
            config_hash: [0u8; 32],
            last_updated_slot: 0,
            last_updated_at: 0,
            is_initialized: false,
            bump: 0,
            _reserved: [0u8; 64],
        };
        proof {
            assert(config.vault@ =~= zero_bytes(32));
            assert(config.encrypted_data@ =~= zero_bytes(512));
            assert(config.nonce@ =~= zero_bytes(16));
            assert(config.config_hash@ =~= zero_bytes(32));
            assert(config._reserved@ =~= zero_bytes(64));
        }
        config
    }
}

} // verus!
