//! Storing a private configuration: validation and its fingerprint.
//!
//! The fingerprint is a fixed projection of the configuration onto 32 bytes.
//! It helps to notice that a stored configuration has changed; it mixes only
//! a few bytes of each field and is no cryptographic commitment.

use vstd::prelude::*;
use crate::constants::MAX_DESTINATIONS;
use crate::types::{keys_match, ConfigStorageResult, PrivateVaultConfig};

verus! {

/// Byte `k` of the little-endian encoding of a non-negative number: the
/// digit of weight `256^k`. Defined for the eight bytes of a 64-bit word.
pub open spec fn le_byte(x: int, k: int) -> int {
    if k == 0 {
        x % 0x100
    } else if k == 1 {
        (x / 0x100) % 0x100
    } else if k == 2 {
        (x / 0x1_0000) % 0x100
    } else if k == 3 {
        (x / 0x100_0000) % 0x100
    } else if k == 4 {
        (x / 0x1_0000_0000) % 0x100
    } else if k == 5 {
        (x / 0x100_0000_0000) % 0x100
    } else if k == 6 {
        (x / 0x1_0000_0000_0000) % 0x100
    } else {
        (x / 0x100_0000_0000_0000) % 0x100
    }
}

/// Number of destinations whose first byte enters the fingerprint.
pub open spec fn fingerprinted_destinations(config: PrivateVaultConfig) -> int {
    if config.destination_count <= MAX_DESTINATIONS {
        config.destination_count as int
    } else {
        MAX_DESTINATIONS as int
    }
}

/// Byte `k` of the fingerprint of a configuration.
///
/// Bytes 0 to 3 hold the version, the destination count and the split
/// bounds; 4 to 11 the two delay bounds, little-endian; 12 the auto-withdraw
/// flag; from 13 on the first byte of each destination in use; 24 to 31 the
/// first eight bytes of the owner's key. What is left is zero.
pub open spec fn config_hash_byte(config: PrivateVaultConfig, k: int) -> int {
    if k == 0 {
        config.version as int
    } else if k == 1 {
        config.destination_count as int
    } else if k == 2 {
        config.min_splits as int
    } else if k == 3 {
        config.max_splits as int
    } else if 4 <= k < 8 {
        le_byte(config.min_delay_seconds as int, k - 4)
    } else if 8 <= k < 12 {
        le_byte(config.max_delay_seconds as int, k - 8)
    } else if k == 12 {
        if config.auto_withdraw_enabled {
            1
        } else {
            0
        }
    } else if 13 <= k < 13 + fingerprinted_destinations(config) {
        config.destinations@[k - 13]@[0] as int
    } else if 24 <= k < 32 {
        config.owner_pubkey@[k - 24] as int
    } else {
        0
    }
}

/// The fingerprint of a configuration, as 32 bytes.
pub open spec fn config_hash(config: PrivateVaultConfig) -> Seq<u8> {
    Seq::new(32, |k: int| config_hash_byte(config, k) as u8)
}

/// Computes the fingerprint of a configuration.
pub fn compute_config_hash(config: &PrivateVaultConfig) -> (hash: [u8; 32])
    ensures
        hash@ == config_hash(*config),
{
    let mut hash = [0u8; 32];
    hash[0] = config.version;
    hash[1] = config.destination_count;
    hash[2] = config.min_splits;
    hash[3] = config.max_splits;

    let min_delay = config.min_delay_seconds;
    hash[4] = (min_delay % 0x100) as u8;
    hash[5] = ((min_delay / 0x100) % 0x100) as u8;
    hash[6] = ((min_delay / 0x1_0000) % 0x100) as u8;
    hash[7] = ((min_delay / 0x100_0000) % 0x100) as u8;

    let max_delay = config.max_delay_seconds;
    hash[8] = (max_delay % 0x100) as u8;
    hash[9] = ((max_delay / 0x100) % 0x100) as u8;
    hash[10] = ((max_delay / 0x1_0000) % 0x100) as u8;
    hash[11] = ((max_delay / 0x100_0000) % 0x100) as u8;

    hash[12] = if config.auto_withdraw_enabled {
        1
    } else {
        0
    };

    let count: usize = if config.destination_count as usize <= MAX_DESTINATIONS {
        config.destination_count as usize
    } else {
        MAX_DESTINATIONS
    };
    let mut i: usize = 0;
    while i < count
        invariant
            0 <= i <= count <= MAX_DESTINATIONS,
            count == fingerprinted_destinations(*config),
            forall|k: int| 0 <= k < 13 ==> hash@[k] == config_hash_byte(*config, k) as u8,
            forall|k: int| 13 <= k < 13 + i ==> hash@[k] == config_hash_byte(*config, k) as u8,
            forall|k: int| 13 + i <= k < 32 ==> hash@[k] == 0,
        decreases count - i,
    {
        hash[i + 13] = config.destinations[i][0];
        i += 1;
    }

    let mut j: usize = 0;
    while j < 8
        invariant
            0 <= j <= 8,
            count == fingerprinted_destinations(*config),
            count <= MAX_DESTINATIONS,
            forall|k: int| 0 <= k < 24 ==> hash@[k] == config_hash_byte(*config, k) as u8,
            forall|k: int| 24 <= k < 24 + j ==> hash@[k] == config_hash_byte(*config, k) as u8,
        decreases 8 - j,
    {
        hash[j + 24] = config.owner_pubkey[j];
        j += 1;
    }
    proof {
        assert(hash@ =~= config_hash(*config));
    }
    hash
}

/// Validates a configuration that is about to be stored and fingerprints it.
///
/// `success` tells whether the configuration meets every range rule. The
/// fingerprint and the slot are reported either way.
pub fn store_private_config(
    config: PrivateVaultConfig,
    vault_pubkey: [u8; 32],
    current_slot: u64,
) -> (result: ConfigStorageResult)
    ensures
        result.success == config.valid(),
        result.config_hash@ == config_hash(config),
        result.stored_at_slot == current_slot,
{
    let is_valid = config.is_valid();
    let config_hash = compute_config_hash(&config);
    ConfigStorageResult { success: is_valid, config_hash, stored_at_slot: current_slot }
}

/// Tells whether `expected_hash` is the fingerprint of `config`. All 32 bytes
/// are compared whatever the earlier ones were.
pub fn verify_config_hash(config: &PrivateVaultConfig, expected_hash: [u8; 32]) -> (matches: bool)
    ensures
        matches == (config_hash(*config) == expected_hash@),
{
    let actual_hash = compute_config_hash(config);
    keys_match(&actual_hash, &expected_hash)
}

} // verus!
