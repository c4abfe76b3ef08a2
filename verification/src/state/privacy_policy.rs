//! The owner's public privacy policy for claims.

use vstd::prelude::*;
use crate::constants::{
    Pubkey, DEFAULT_MAX_DELAY_SECONDS, DEFAULT_MAX_SPLITS, DEFAULT_MIN_DELAY_SECONDS,
    DEFAULT_MIN_SPLITS, MAX_DESTINATIONS,
};
use crate::errors::HydentityError;
use crate::types::zero_bytes;

verus! {

/// How the amount of a claim is spread over its splits.
#[derive(Clone, Copy, Debug, PartialEq, Eq, Structural)]
pub enum Distribution {
    /// Equal shares.
    Uniform,
    /// Random shares with more variance.
    Weighted,
    /// Shares that get smaller from split to split.
    ExponentialDecay,
}

impl Default for Distribution {
    fn default() -> (distribution: Distribution)
        ensures
            distribution is Uniform,
    {
        Distribution::Uniform
    }
}

/// How private a claim is.
#[derive(Clone, Copy, Debug, PartialEq, Eq, Structural)]
pub enum PrivacyMode {
    /// Everything goes through the mixer.
    FullPrivacy,
    /// Some splits may go directly.
    PartialPrivacy,
    /// Direct transfers, without privacy.
    Direct,
}

impl Default for PrivacyMode {
    fn default() -> (mode: PrivacyMode)
        ensures
            mode is FullPrivacy,
    {
        PrivacyMode::FullPrivacy
    }
}

/// How the destination of a split is chosen.
#[derive(Clone, Copy, Debug, PartialEq, Eq, Structural)]
pub enum DestinationMode {
    /// Always the same destination.
    Single,
    /// The destinations in turn.
    Rotating,
    /// A destination picked at random.
    Random,
}

impl Default for DestinationMode {
    fn default() -> (mode: DestinationMode)
        ensures
            mode is Single,
    {
        DestinationMode::Single
    }
}

/// The privacy settings of a vault. They govern how funds are claimed from
/// the mixer into the owner's private wallets.
#[derive(Clone, Debug, PartialEq, Eq)]
pub struct PrivacyPolicy {
    /// The vault that the policy belongs to.
    pub vault: Pubkey,
    /// The name account of that vault.
    pub sns_name: Pubkey,
    /// Whether privacy routing is switched on.
    pub enabled: bool,
    pub min_splits: u8,
    pub max_splits: u8,
    pub min_delay_seconds: u32,
    pub max_delay_seconds: u32,
    pub distribution: Distribution,
    pub privacy_mode: PrivacyMode,
    pub destination_mode: DestinationMode,
    /// Where claims may go.
    pub destinations: Vec<Pubkey>,
    /// Counts the updates of the policy.
    pub policy_nonce: u64,
    pub updated_at: i64,
    pub bump: u8,
    pub _reserved: [u8; 64],
}

impl PrivacyPolicy {
    /// Size of the stored record with as many destinations as fit, its
    /// eight-byte tag included.
    pub const LEN: usize = 8 + 32 + 32 + 1 + 1 + 1 + 4 + 4 + 1 + 1 + 1 + 4 + (32 * MAX_DESTINATIONS)
        + 8 + 8 + 1 + 64;

    /// The settings of a policy that nobody has changed yet.
    pub open spec fn has_default_settings(&self) -> bool {
        &&& self.enabled
        &&& self.min_splits == DEFAULT_MIN_SPLITS
        &&& self.max_splits == DEFAULT_MAX_SPLITS
        &&& self.min_delay_seconds == DEFAULT_MIN_DELAY_SECONDS
        &&& self.max_delay_seconds == DEFAULT_MAX_DELAY_SECONDS
        &&& self.distribution is Uniform
        &&& self.privacy_mode is FullPrivacy
        &&& self.destination_mode is Single
        &&& self.policy_nonce == 0
        &&& self._reserved@ == zero_bytes(64)
    }

    /// The first rule that the policy breaks, if it breaks one: the split
    /// range, then the delay range, then the number of destinations.
    pub open spec fn violation(&self) -> Option<HydentityError> {
        if self.min_splits > self.max_splits {
            Some(HydentityError::InvalidSplitRange)
        } else if self.min_delay_seconds > self.max_delay_seconds {
            Some(HydentityError::InvalidDelayRange)
        } else if self.destinations@.len() > MAX_DESTINATIONS {
            Some(HydentityError::TooManyDestinations)
        } else {
            None
        }
    }

    /// Sets the policy up with the default settings and the owner as the
    /// only destination.
    pub fn initialize(&mut self, vault: Pubkey, sns_name: Pubkey, owner: Pubkey, bump: u8, now: i64)
        ensures
            final(self).vault == vault,
            final(self).sns_name == sns_name,
            final(self).has_default_settings(),
            final(self).destinations@ == seq![owner],
            final(self).updated_at == now,
            final(self).bump == bump,
            final(self).violation() is None,
    {
        self.vault = vault;
        self.sns_name = sns_name;
        self.enabled = true;
        self.min_splits = DEFAULT_MIN_SPLITS;
        self.max_splits = DEFAULT_MAX_SPLITS;
        self.min_delay_seconds = DEFAULT_MIN_DELAY_SECONDS;
        self.max_delay_seconds = DEFAULT_MAX_DELAY_SECONDS;
        self.distribution = Distribution::Uniform;
        self.privacy_mode = PrivacyMode::FullPrivacy;
        self.destination_mode = DestinationMode::Single;
        self.destinations = vec![owner];
        self.policy_nonce = 0;
        self.updated_at = now;
        self.bump = bump;
        self._reserved = [0u8; 64];
        proof {
            assert(self._reserved@ =~= zero_bytes(64));
        }
    }

    /// Checks the policy against its rules and names the first one broken.
    pub fn validate(&self) -> (result: Result<(), HydentityError>)
        ensures
            result == match self.violation() {
                Some(error) => Err::<(), HydentityError>(error),
                None => Ok::<(), HydentityError>(()),
            },
    {
        if self.min_splits > self.max_splits {
            return Err(HydentityError::InvalidSplitRange);
        }
        if self.min_delay_seconds > self.max_delay_seconds {
            return Err(HydentityError::InvalidDelayRange);
        }
        if self.destinations.len() > MAX_DESTINATIONS {
            return Err(HydentityError::TooManyDestinations);
        }
        Ok(())
    }

    /// Commits a change of the policy: validates it, counts the update and
    /// stamps the time. A policy that breaks a rule, or whose counter is at
    /// its limit, is refused and left as it was.
    pub fn update(&mut self, now: i64) -> (result: Result<(), HydentityError>)
        ensures
            result == match old(self).violation() {
                Some(error) => Err::<(), HydentityError>(error),
                None => if old(self).policy_nonce == u64::MAX {
                    Err::<(), HydentityError>(HydentityError::ArithmeticOverflow)
                } else {
                    Ok::<(), HydentityError>(())
                },
            },
            result is Err ==> *final(self) == *old(self),
            result is Ok ==> *final(self) == (PrivacyPolicy {
                policy_nonce: (old(self).policy_nonce + 1) as u64,
                updated_at: now,
                ..*old(self)
            }),
    {
        match self.validate() {
            Err(error) => {
                return Err(error);
            },
            Ok(()) => {},
        }
        let nonce = match self.policy_nonce.checked_add(1) {
            Some(nonce) => nonce,
            None => {
                return Err(HydentityError::ArithmeticOverflow);
            },
        };
        self.policy_nonce = nonce;
        self.updated_at = now;
        Ok(())
    }
}

impl Default for PrivacyPolicy {
    fn default() -> (policy: PrivacyPolicy)
        ensures
            policy.vault@ == zero_bytes(32),
            policy.sns_name@ == zero_bytes(32),
            policy.has_default_settings(),
            policy.destinations@.len() == 0,
            policy.updated_at == 0,
            policy.bump == 0,
    {
        let policy = PrivacyPolicy {
            vault: [0u8; 32],
            sns_name: [0u8; 32],
            enabled: true,
            min_splits: DEFAULT_MIN_SPLITS,
            max_splits: DEFAULT_MAX_SPLITS,
            min_delay_seconds: DEFAULT_MIN_DELAY_SECONDS,
            max_delay_seconds: DEFAULT_MAX_DELAY_SECONDS,
            distribution: Distribution::Uniform,
            privacy_mode: PrivacyMode::FullPrivacy,
            destination_mode: DestinationMode::Single,
            destinations: Vec::new(),
            policy_nonce: 0,
            updated_at: 0,
            bump: 0,
            _reserved: [0u8; 64],
        };
        proof {
            assert(policy.vault@ =~= zero_bytes(32));
            assert(policy.sns_name@ =~= zero_bytes(32));
            assert(policy._reserved@ =~= zero_bytes(64));
        }
        policy
    }
}

} // verus!
