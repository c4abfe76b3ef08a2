//! Changing the privacy policy of a vault.

use vstd::prelude::*;
use crate::constants::{Pubkey, MAX_DESTINATIONS, PERMISSION_UPDATE_POLICY};
use crate::errors::HydentityError;
use crate::instructions::authorization::{authorization, authorize};
use crate::state::delegate_session::DelegateSession;
use crate::state::name_vault::NameVault;
use crate::state::privacy_policy::{DestinationMode, Distribution, PrivacyMode, PrivacyPolicy};

verus! {

/// New values for the settings of a policy. `None` leaves a setting as it
/// is.
#[derive(Clone, Debug, PartialEq, Eq)]
pub struct UpdatePolicyParams {
    pub enabled: Option<bool>,
    pub min_splits: Option<u8>,
    pub max_splits: Option<u8>,
    pub min_delay_seconds: Option<u32>,
    pub max_delay_seconds: Option<u32>,
    pub distribution: Option<Distribution>,
    pub privacy_mode: Option<PrivacyMode>,
    pub destination_mode: Option<DestinationMode>,
    pub destinations: Option<Vec<Pubkey>>,
}

/// The new value of a setting if one is given, else the current one.
fn value_or<T: Copy>(new: Option<T>, current: T) -> (value: T)
    ensures
        value == match new {
            Some(v) => v,
            None => current,
        },
{
    match new {
        Some(v) => v,
        None => current,
    }
}

/// The policy with the new values put in place of the old ones.
pub open spec fn patched_policy(policy: PrivacyPolicy, params: UpdatePolicyParams) -> PrivacyPolicy {
    PrivacyPolicy {
        enabled: match params.enabled {
            Some(v) => v,
            None => policy.enabled,
        },
        min_splits: match params.min_splits {
            Some(v) => v,
            None => policy.min_splits,
        },
        max_splits: match params.max_splits {
            Some(v) => v,
            None => policy.max_splits,
        },
        min_delay_seconds: match params.min_delay_seconds {
            Some(v) => v,
            None => policy.min_delay_seconds,
        },
        max_delay_seconds: match params.max_delay_seconds {
            Some(v) => v,
            None => policy.max_delay_seconds,
        },
        distribution: match params.distribution {
            Some(v) => v,
            None => policy.distribution,
        },
        privacy_mode: match params.privacy_mode {
            Some(v) => v,
            None => policy.privacy_mode,
        },
        destination_mode: match params.destination_mode {
            Some(v) => v,
            None => policy.destination_mode,
        },
        destinations: match params.destinations {
            Some(v) => v,
            None => policy.destinations,
        },
        ..policy
    }
}

/// What an update of the policy finds. The checks run in this order: the
/// caller must be the owner or a delegate with the permission to update;
/// the policy with the new values must break no rule; its counter of
/// updates must have room for one more.
pub open spec fn update_check(
    vault: NameVault,
    policy: PrivacyPolicy,
    authority: Pubkey,
    delegate_session: Option<DelegateSession>,
    params: UpdatePolicyParams,
    now: i64,
) -> Result<(), HydentityError> {
    match authorization(vault, authority, delegate_session, PERMISSION_UPDATE_POLICY, now) {
        Err(error) => Err(error),
        Ok(()) => match patched_policy(policy, params).violation() {
            Some(error) => Err(error),
            None => if policy.policy_nonce == u64::MAX {
                Err(HydentityError::ArithmeticOverflow)
            } else {
                Ok(())
            },
        },
    }
}

/// Updates the privacy policy of the vault on behalf of `authority`.
///
/// The update is all or nothing: either every new value is in place, the
/// update counted and the time stamped, or the policy is as it was.
pub fn handler(
    vault: &NameVault,
    policy: &mut PrivacyPolicy,
    authority: Pubkey,
    delegate_session: Option<&DelegateSession>,
    params: UpdatePolicyParams,
    now: i64,
) -> (result: Result<(), HydentityError>)
    ensures
        result == update_check(
            *vault,
            *old(policy),
            authority,
            match delegate_session {
                Some(session) => Some(*session),
                None => None,
            },
            params,
            now,
        ),
        result is Err ==> *final(policy) == *old(policy),
        result is Ok ==> *final(policy) == (PrivacyPolicy {
            policy_nonce: (old(policy).policy_nonce + 1) as u64,
            updated_at: now,
            ..patched_policy(*old(policy), params)
        }),
{
    match authorize(vault, &authority, delegate_session, PERMISSION_UPDATE_POLICY, now) {
        Err(error) => {
            return Err(error);
        },
        Ok(()) => {},
    }
    let enabled = value_or(params.enabled, policy.enabled);
    let min_splits = value_or(params.min_splits, policy.min_splits);
    let max_splits = value_or(params.max_splits, policy.max_splits);
    let min_delay_seconds = value_or(params.min_delay_seconds, policy.min_delay_seconds);
    let max_delay_seconds = value_or(params.max_delay_seconds, policy.max_delay_seconds);
    let distribution = value_or(params.distribution, policy.distribution);
    let privacy_mode = value_or(params.privacy_mode, policy.privacy_mode);
    let destination_mode = value_or(params.destination_mode, policy.destination_mode);
    let destination_count = match &params.destinations {
        Some(v) => v.len(),
        None => policy.destinations.len(),
    };
    if min_splits > max_splits {
        return Err(HydentityError::InvalidSplitRange);
    }
    if min_delay_seconds > max_delay_seconds {
        return Err(HydentityError::InvalidDelayRange);
    }
    if destination_count > MAX_DESTINATIONS {
        return Err(HydentityError::TooManyDestinations);
    }
    let nonce = match policy.policy_nonce.checked_add(1) {
        Some(nonce) => nonce,
        None => {
            return Err(HydentityError::ArithmeticOverflow);
        },
    };
    policy.enabled = enabled;
    policy.min_splits = min_splits;
    policy.max_splits = max_splits;
    policy.min_delay_seconds = min_delay_seconds;
    policy.max_delay_seconds = max_delay_seconds;
    policy.distribution = distribution;
    policy.privacy_mode = privacy_mode;
    policy.destination_mode = destination_mode;
    if let Some(destinations) = params.destinations {
        policy.destinations = destinations;
    }
    policy.policy_nonce = nonce;
    policy.updated_at = now;
    Ok(())
}

} // verus!
