//! Updates of a stored private configuration.
//!
//! Every operation first checks that the caller is the owner of the
//! configuration, applies its change only if the result stays within the
//! range rules, and on success counts the mutation in `version` and stamps
//! `updated_at`. A refused operation hands the configuration back untouched
//! together with the code of the first check that failed.

use vstd::prelude::*;
use crate::constants::{
    MAX_DELAY_CEILING_SECONDS, MAX_DESTINATIONS, MAX_SPLITS, MIN_DELAY_FLOOR_SECONDS,
};
use crate::types::{keys_match, zero_bytes, ConfigUpdates, PrivateVaultConfig};

verus! {

/// The update was applied.
pub const UPDATE_OK: u8 = 0;

/// The caller is not the owner of the configuration.
pub const UPDATE_UNAUTHORIZED: u8 = 1;

/// The configuration holds as many destinations as fit.
pub const UPDATE_MAX_DESTINATIONS_REACHED: u8 = 2;

/// No destination is in use at the given index.
pub const UPDATE_INVALID_INDEX: u8 = 3;

/// The only destination left cannot be removed.
pub const UPDATE_CANNOT_REMOVE_LAST: u8 = 4;

/// The new destination count is zero or more than fit.
pub const UPDATE_INVALID_DESTINATION_COUNT: u8 = 5;

/// The version counter is at its maximum and cannot count a further mutation.
pub const UPDATE_VERSION_OVERFLOW: u8 = 6;

/// Result of a configuration update.
#[derive(Clone, Copy, Debug, PartialEq, Eq)]
pub struct UpdateConfigResult {
    pub success: bool,
    pub new_config: PrivateVaultConfig,
    pub error_code: u8,
}

impl UpdateConfigResult {
    /// The update was refused with `code` and `config` came back untouched.
    pub open spec fn refused(&self, config: PrivateVaultConfig, code: u8) -> bool {
        &&& !self.success
        &&& self.error_code == code
        &&& self.new_config == config
    }

    /// The update was applied and `config` is the outcome.
    pub open spec fn applied(&self, config: PrivateVaultConfig) -> bool {
        &&& self.success
        &&& self.error_code == UPDATE_OK
        &&& self.new_config == config
    }
}

/// The split range after a patch: each bound is replaced only if the pair
/// stays ordered and within the limits, the lower bound first.
pub open spec fn patched_splits(config: PrivateVaultConfig, updates: ConfigUpdates) -> (u8, u8) {
    let min = match updates.new_min_splits {
        Some(m) if m > 0 && m <= config.max_splits => m,
        _ => config.min_splits,
    };
    let max = match updates.new_max_splits {
        Some(m) if m >= min && m <= MAX_SPLITS => m,
        _ => config.max_splits,
    };
    (min, max)
}

/// The delay range after a patch: each bound is replaced only if the pair
/// stays ordered and within the floor and the ceiling, the lower bound first.
pub open spec fn patched_delays(config: PrivateVaultConfig, updates: ConfigUpdates) -> (u32, u32) {
    let min = match updates.new_min_delay_seconds {
        Some(d) if d >= MIN_DELAY_FLOOR_SECONDS && d <= config.max_delay_seconds => d,
        _ => config.min_delay_seconds,
    };
    let max = match updates.new_max_delay_seconds {
        Some(d) if d >= min && d <= MAX_DELAY_CEILING_SECONDS => d,
        _ => config.max_delay_seconds,
    };
    (min, max)
}

/// The configuration that a patch by its owner leaves behind. A field whose
/// new value is out of range keeps its old value; the others are replaced.
pub open spec fn patched_config(
    config: PrivateVaultConfig,
    updates: ConfigUpdates,
    now: i64,
) -> PrivateVaultConfig {
    PrivateVaultConfig {
        owner_pubkey: config.owner_pubkey,
        destinations: match updates.new_destinations {
            Some(d) => d,
            None => config.destinations,
        },
        destination_count: match updates.new_destination_count {
            Some(c) if c > 0 && c <= MAX_DESTINATIONS => c,
            _ => config.destination_count,
        },
        min_splits: patched_splits(config, updates).0,
        max_splits: patched_splits(config, updates).1,
        min_delay_seconds: patched_delays(config, updates).0,
        max_delay_seconds: patched_delays(config, updates).1,
        auto_withdraw_enabled: match updates.new_auto_withdraw_enabled {
            Some(e) => e,
            None => config.auto_withdraw_enabled,
        },
        auto_withdraw_threshold: match updates.new_auto_withdraw_threshold {
            Some(t) => t,
            None => config.auto_withdraw_threshold,
        },
        version: (config.version + 1) as u8,
        updated_at: now,
    }
}

/// Applies a patch to a configuration on behalf of `owner_pubkey`.
///
/// Fields are judged one by one: a new value that would break a range rule
/// is dropped and the rest of the patch still applies.
pub fn update_private_config(
    current_config: PrivateVaultConfig,
    updates: ConfigUpdates,
    owner_pubkey: [u8; 32],
    current_timestamp: i64,
) -> (result: UpdateConfigResult)
    ensures
        current_config.owner_pubkey@ != owner_pubkey@ ==> result.refused(
            current_config,
            UPDATE_UNAUTHORIZED,
        ),
        current_config.owner_pubkey@ == owner_pubkey@ && current_config.version == u8::MAX
            ==> result.refused(current_config, UPDATE_VERSION_OVERFLOW),
        current_config.owner_pubkey@ == owner_pubkey@ && current_config.version < u8::MAX
            ==> result.applied(patched_config(current_config, updates, current_timestamp)),
        current_config.valid() ==> result.new_config.valid(),
{
    let mut config = current_config;
    if !keys_match(&config.owner_pubkey, &owner_pubkey) {
        return UpdateConfigResult {
            success: false,
            new_config: config,
            error_code: UPDATE_UNAUTHORIZED,
        };
    }
    if config.version == u8::MAX {
        return UpdateConfigResult {
            success: false,
            new_config: config,
            error_code: UPDATE_VERSION_OVERFLOW,
        };
    }
    if let Some(new_dests) = updates.new_destinations {
        config.destinations = new_dests;
    }
    if let Some(count) = updates.new_destination_count {
        if count > 0 && count as usize <= MAX_DESTINATIONS {
            config.destination_count = count;
        }
    }
    if let Some(min) = updates.new_min_splits {
        if min > 0 && min <= config.max_splits {
            config.min_splits = min;
        }
    }
    if let Some(max) = updates.new_max_splits {
        if max >= config.min_splits && max as usize <= MAX_SPLITS {
            config.max_splits = max;
        }
    }
    if let Some(min_delay) = updates.new_min_delay_seconds {
        if min_delay >= MIN_DELAY_FLOOR_SECONDS && min_delay <= config.max_delay_seconds {
            config.min_delay_seconds = min_delay;
        }
    }
    if let Some(max_delay) = updates.new_max_delay_seconds {
        if max_delay >= config.min_delay_seconds && max_delay <= MAX_DELAY_CEILING_SECONDS {
            config.max_delay_seconds = max_delay;
        }
    }
    if let Some(auto_enabled) = updates.new_auto_withdraw_enabled {
        config.auto_withdraw_enabled = auto_enabled;
    }
    if let Some(threshold) = updates.new_auto_withdraw_threshold {
        config.auto_withdraw_threshold = threshold;
    }
    config.updated_at = current_timestamp;
    config.version = config.version + 1;
    UpdateConfigResult { success: true, new_config: config, error_code: UPDATE_OK }
}

/// Appends one destination to the destinations in use.
pub fn add_destination(
    current_config: PrivateVaultConfig,
    new_destination: [u8; 32],
    owner_pubkey: [u8; 32],
    current_timestamp: i64,
) -> (result: UpdateConfigResult)
    ensures
        current_config.owner_pubkey@ != owner_pubkey@ ==> result.refused(
            current_config,
            UPDATE_UNAUTHORIZED,
        ),
        current_config.owner_pubkey@ == owner_pubkey@ && current_config.destination_count
            >= MAX_DESTINATIONS ==> result.refused(
            current_config,
            UPDATE_MAX_DESTINATIONS_REACHED,
        ),
        current_config.owner_pubkey@ == owner_pubkey@ && current_config.destination_count
            < MAX_DESTINATIONS && current_config.version == u8::MAX ==> result.refused(
            current_config,
            UPDATE_VERSION_OVERFLOW,
        ),
        current_config.owner_pubkey@ == owner_pubkey@ && current_config.destination_count
            < MAX_DESTINATIONS && current_config.version < u8::MAX ==> {
            &&& result.applied(
                (PrivateVaultConfig {
                    destinations: result.new_config.destinations,
                    destination_count: (current_config.destination_count + 1) as u8,
                    version: (current_config.version + 1) as u8,
                    updated_at: current_timestamp,
                    ..current_config
                }),
            )
            &&& result.new_config.destinations@ == current_config.destinations@.update(
                current_config.destination_count as int,
                new_destination,
            )
            &&& result.new_config.active_destinations() == current_config.active_destinations().push(
                new_destination,
            )
        },
        current_config.valid() ==> result.new_config.valid(),
{
    let mut config = current_config;
    if !keys_match(&config.owner_pubkey, &owner_pubkey) {
        return UpdateConfigResult {
            success: false,
            new_config: config,
            error_code: UPDATE_UNAUTHORIZED,
        };
    }
    if config.destination_count as usize >= MAX_DESTINATIONS {
        return UpdateConfigResult {
            success: false,
            new_config: config,
            error_code: UPDATE_MAX_DESTINATIONS_REACHED,
        };
    }
    if config.version == u8::MAX {
        return UpdateConfigResult {
            success: false,
            new_config: config,
            error_code: UPDATE_VERSION_OVERFLOW,
        };
    }
    let idx = config.destination_count as usize;
    config.destinations[idx] = new_destination;
    config.destination_count = config.destination_count + 1;
    config.updated_at = current_timestamp;
    config.version = config.version + 1;
    proof {
        assert(config.active_destinations() =~= current_config.active_destinations().push(
            new_destination,
        ));
    }
    UpdateConfigResult { success: true, new_config: config, error_code: UPDATE_OK }
}

/// Removes the destination at `destination_index`. Those behind it move up
/// by one place and the slot that falls free at the end is zeroed.
pub fn remove_destination(
    current_config: PrivateVaultConfig,
    destination_index: u8,
    owner_pubkey: [u8; 32],
    current_timestamp: i64,
) -> (result: UpdateConfigResult)
    ensures
        current_config.owner_pubkey@ != owner_pubkey@ ==> result.refused(
            current_config,
            UPDATE_UNAUTHORIZED,
        ),
        current_config.owner_pubkey@ == owner_pubkey@ && (destination_index
            >= current_config.destination_count || destination_index >= MAX_DESTINATIONS)
            ==> result.refused(current_config, UPDATE_INVALID_INDEX),
        current_config.owner_pubkey@ == owner_pubkey@ && destination_index
            < current_config.destination_count && destination_index < MAX_DESTINATIONS
            && current_config.destination_count <= 1 ==> result.refused(
            current_config,
            UPDATE_CANNOT_REMOVE_LAST,
        ),
        current_config.owner_pubkey@ == owner_pubkey@ && destination_index
            < current_config.destination_count && destination_index < MAX_DESTINATIONS
            && current_config.destination_count > 1 && current_config.version == u8::MAX
            ==> result.refused(current_config, UPDATE_VERSION_OVERFLOW),
        current_config.owner_pubkey@ == owner_pubkey@ && destination_index
            < current_config.destination_count && destination_index < MAX_DESTINATIONS
            && current_config.destination_count > 1 && current_config.version < u8::MAX ==> {
            &&& result.applied(
                (PrivateVaultConfig {
                    destinations: result.new_config.destinations,
                    destination_count: (current_config.destination_count - 1) as u8,
                    version: (current_config.version + 1) as u8,
                    updated_at: current_timestamp,
                    ..current_config
                }),
            )
            &&& forall|k: int|
                0 <= k < destination_index ==> result.new_config.destinations@[k]
                    == current_config.destinations@[k]
            &&& forall|k: int|
                destination_index <= k < MAX_DESTINATIONS - 1
                    ==> result.new_config.destinations@[k] == current_config.destinations@[k + 1]
            &&& result.new_config.destinations@.take(MAX_DESTINATIONS - 1)
                == current_config.destinations@.remove(destination_index as int)
            &&& result.new_config.destinations@[MAX_DESTINATIONS - 1]@ == zero_bytes(32)
            &&& current_config.destination_count <= MAX_DESTINATIONS
                ==> result.new_config.active_destinations()
                == current_config.active_destinations().remove(destination_index as int)
        },
        current_config.valid() ==> result.new_config.valid(),
{
    let mut config = current_config;
    if !keys_match(&config.owner_pubkey, &owner_pubkey) {
        return UpdateConfigResult {
            success: false,
            new_config: config,
            error_code: UPDATE_UNAUTHORIZED,
        };
    }
    let idx = destination_index as usize;
    if destination_index >= config.destination_count || idx >= MAX_DESTINATIONS {
        return UpdateConfigResult {
            success: false,
            new_config: config,
            error_code: UPDATE_INVALID_INDEX,
        };
    }
    if config.destination_count <= 1 {
        return UpdateConfigResult {
            success: false,
            new_config: config,
            error_code: UPDATE_CANNOT_REMOVE_LAST,
        };
    }
    if config.version == u8::MAX {
        return UpdateConfigResult {
            success: false,
            new_config: config,
            error_code: UPDATE_VERSION_OVERFLOW,
        };
    }
    let mut i: usize = idx;
    while i < MAX_DESTINATIONS - 1
        invariant
            idx <= i <= MAX_DESTINATIONS - 1,
            config.destinations@.len() == MAX_DESTINATIONS,
            forall|k: int| 0 <= k < idx ==> config.destinations@[k] == current_config.destinations@[k],
            forall|k: int|
                idx <= k < i ==> config.destinations@[k] == current_config.destinations@[k + 1],
            forall|k: int|
                i <= k < MAX_DESTINATIONS ==> config.destinations@[k]
                    == current_config.destinations@[k],
            config == (PrivateVaultConfig { destinations: config.destinations, ..current_config }),
        decreases MAX_DESTINATIONS - 1 - i,
    {
        let next = config.destinations[i + 1];
        config.destinations[i] = next;
        i += 1;
    }
    config.destinations[MAX_DESTINATIONS - 1] = [0u8; 32];
    config.destination_count = config.destination_count - 1;
    config.updated_at = current_timestamp;
    config.version = config.version + 1;
    proof {
        assert(config.destinations@[MAX_DESTINATIONS - 1]@ =~= zero_bytes(32));
        assert(config.destinations@.take(MAX_DESTINATIONS - 1)
            =~= current_config.destinations@.remove(destination_index as int));
        if current_config.destination_count <= MAX_DESTINATIONS {
            assert(config.active_destinations() =~= current_config.active_destinations().remove(
                destination_index as int,
            ));
        }
    }
    UpdateConfigResult { success: true, new_config: config, error_code: UPDATE_OK }
}

/// Replaces the whole destination set in one step.
pub fn rotate_destinations(
    current_config: PrivateVaultConfig,
    new_destinations: [[u8; 32]; MAX_DESTINATIONS],
    new_count: u8,
    owner_pubkey: [u8; 32],
    current_timestamp: i64,
) -> (result: UpdateConfigResult)
    ensures
        current_config.owner_pubkey@ != owner_pubkey@ ==> result.refused(
            current_config,
            UPDATE_UNAUTHORIZED,
        ),
        current_config.owner_pubkey@ == owner_pubkey@ && (new_count == 0 || new_count
            > MAX_DESTINATIONS) ==> result.refused(
            current_config,
            UPDATE_INVALID_DESTINATION_COUNT,
        ),
        current_config.owner_pubkey@ == owner_pubkey@ && 1 <= new_count <= MAX_DESTINATIONS
            && current_config.version == u8::MAX ==> result.refused(
            current_config,
            UPDATE_VERSION_OVERFLOW,
        ),
        current_config.owner_pubkey@ == owner_pubkey@ && 1 <= new_count <= MAX_DESTINATIONS
            && current_config.version < u8::MAX ==> result.applied(
            (PrivateVaultConfig {
                destinations: new_destinations,
                destination_count: new_count,
                version: (current_config.version + 1) as u8,
                updated_at: current_timestamp,
                ..current_config
            }),
        ),
        current_config.valid() ==> result.new_config.valid(),
{
    let mut config = current_config;
    if !keys_match(&config.owner_pubkey, &owner_pubkey) {
        return UpdateConfigResult {
            success: false,
            new_config: config,
            error_code: UPDATE_UNAUTHORIZED,
        };
    }
    if new_count == 0 || new_count as usize > MAX_DESTINATIONS {
        return UpdateConfigResult {
            success: false,
            new_config: config,
            error_code: UPDATE_INVALID_DESTINATION_COUNT,
        };
    }
    if config.version == u8::MAX {
        return UpdateConfigResult {
            success: false,
            new_config: config,
            error_code: UPDATE_VERSION_OVERFLOW,
        };
    }
    config.destinations = new_destinations;
    config.destination_count = new_count;
    config.updated_at = current_timestamp;
    config.version = config.version + 1;
    UpdateConfigResult { success: true, new_config: config, error_code: UPDATE_OK }
}

} // verus!
