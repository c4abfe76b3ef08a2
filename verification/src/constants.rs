//! Limits, defaults and permission flags shared by the whole crate.

use vstd::prelude::*;

verus! {

/// A 32-byte public key: the address of an account or of a wallet.
pub type Pubkey = [u8; 32];

/// Seed prefix of a vault's address: the bytes of `vault`.
pub const VAULT_SEED: [u8; 5] = [118, 97, 117, 108, 116];

/// Seed prefix of a vault authority's address: the bytes of `vault_auth`.
pub const VAULT_AUTH_SEED: [u8; 10] = [118, 97, 117, 108, 116, 95, 97, 117, 116, 104];

/// Seed prefix of a privacy policy's address: the bytes of `policy`.
pub const POLICY_SEED: [u8; 6] = [112, 111, 108, 105, 99, 121];

/// Seed prefix of a delegate session's address: the bytes of `delegate`.
pub const DELEGATE_SEED: [u8; 8] = [100, 101, 108, 101, 103, 97, 116, 101];

/// Most destination addresses a policy or a configuration can hold.
pub const MAX_DESTINATIONS: usize = 10;

/// Most splits a withdrawal plan can hold.
pub const MAX_SPLITS: usize = 5;

/// Default number of splits, lower bound.
pub const DEFAULT_MIN_SPLITS: u8 = 2;

/// Default number of splits, upper bound.
pub const DEFAULT_MAX_SPLITS: u8 = 5;

/// Default delay between two splits, lower bound: five minutes.
pub const DEFAULT_MIN_DELAY_SECONDS: u32 = 300;

/// Default delay between two splits, upper bound: thirty minutes.
pub const DEFAULT_MAX_DELAY_SECONDS: u32 = 1800;

/// Shortest delay between two splits that a configuration may ask for.
pub const MIN_DELAY_FLOOR_SECONDS: u32 = 60;

/// Longest delay between two splits that a configuration may ask for.
pub const MAX_DELAY_CEILING_SECONDS: u32 = 86_400;

/// A delegate with this flag may update the privacy policy.
pub const PERMISSION_UPDATE_POLICY: u8 = 1;

/// A delegate with this flag may deposit into the mixer.
pub const PERMISSION_DEPOSIT_UMBRA: u8 = 2;

/// Every permission a delegate can hold.
pub const PERMISSION_ALL: u8 = 3;

/// Smallest amount a transfer should carry, to keep spam-sized splits out.
pub const DUST_THRESHOLD_LAMPORTS: u64 = 10_000;

/// What the generator keeps back for every split that is still to be sized.
pub const SPLIT_HEADROOM_LAMPORTS: u64 = 1_000;

/// Lifetime of a plan, from its creation to its expiry: seven days.
pub const PLAN_EXPIRY_SECONDS: i64 = 604_800;

/// How long before its scheduled time a split may already run.
pub const EXECUTION_GRACE_SECONDS: i64 = 60;

/// Number of plans a history query looks at, and of entries it hands back.
pub const MAX_HISTORY_ENTRIES: usize = 10;

/// Offset of the owner's key in the data of a name-service account, behind
/// the key of the parent name.
pub const SNS_OWNER_OFFSET: usize = 32;

/// Length of the part of a name-service account that holds the keys of the
/// parent name and of the owner.
pub const SNS_OWNER_END: usize = 64;

/// Tag of the transfer instruction of the name service.
pub const SNS_TRANSFER_TAG: u8 = 2;

} // verus!
