use hydentity::constants::{
    DEFAULT_MAX_DELAY_SECONDS, DEFAULT_MAX_SPLITS, DEFAULT_MIN_DELAY_SECONDS, DEFAULT_MIN_SPLITS,
    DELEGATE_SEED, PERMISSION_ALL, PERMISSION_DEPOSIT_UMBRA, PERMISSION_UPDATE_POLICY, POLICY_SEED,
    VAULT_AUTH_SEED, VAULT_SEED,
};
use hydentity::errors::HydentityError;
use hydentity::state::delegate_session::DelegateSession;
use hydentity::state::encrypted_config::{EncryptedVaultConfig, ENCRYPTED_CONFIG_SEED};
use hydentity::state::name_vault::NameVault;
use hydentity::state::pending_withdrawal::{
    PendingWithdrawal, WithdrawalRequest, WithdrawalStatus, PENDING_WITHDRAWAL_SEED,
    WITHDRAWAL_REQUEST_SEED,
};
use hydentity::state::privacy_policy::{DestinationMode, Distribution, PrivacyMode, PrivacyPolicy};
use hydentity::state::vault_authority::VaultAuthority;

#[test]
fn seeds_spell_their_names() {
    assert_eq!(&VAULT_SEED[..], b"vault");
    assert_eq!(&VAULT_AUTH_SEED[..], b"vault_auth");
    assert_eq!(&POLICY_SEED[..], b"policy");
    assert_eq!(&DELEGATE_SEED[..], b"delegate");
    assert_eq!(&ENCRYPTED_CONFIG_SEED[..], b"encrypted_config");
    assert_eq!(&PENDING_WITHDRAWAL_SEED[..], b"pending_withdrawal");
    assert_eq!(&WITHDRAWAL_REQUEST_SEED[..], b"withdrawal_request");
}

#[test]
fn permission_flags() {
    assert_eq!(PERMISSION_UPDATE_POLICY, 1 << 0);
    assert_eq!(PERMISSION_DEPOSIT_UMBRA, 1 << 1);
    assert_eq!(PERMISSION_ALL, PERMISSION_UPDATE_POLICY | PERMISSION_DEPOSIT_UMBRA);
}

#[test]
fn record_sizes() {
    assert_eq!(NameVault::LEN, 169);
    assert_eq!(VaultAuthority::LEN, 105);
    assert_eq!(DelegateSession::LEN, 186);
    assert_eq!(PrivacyPolicy::LEN, 491);
    assert_eq!(EncryptedVaultConfig::SPACE, 683);
    assert_eq!(PendingWithdrawal::SPACE, 1212);
    assert_eq!(WithdrawalRequest::SPACE, 170);
}

#[test]
fn name_vault_initialize() {
    let mut vault = NameVault::default();
    vault.total_sol_received = 9;
    vault.domain_transferred = true;
    vault._reserved1 = [1u8; 31];
    vault.initialize([1u8; 32], [2u8; 32], 254, 1000);
    let mut expected = NameVault::default();
    expected.owner = [1u8; 32];
    expected.sns_name = [2u8; 32];
    expected.bump = 254;
    expected.created_at = 1000;
    assert_eq!(vault, expected);
}

#[test]
fn name_vault_records_deposits() {
    let mut vault = NameVault::default();
    assert_eq!(vault.record_deposit(500, 10), Ok(()));
    assert_eq!(vault.record_deposit(250, 20), Ok(()));
    assert_eq!(vault.total_sol_received, 750);
    assert_eq!(vault.deposit_count, 2);
    assert_eq!(vault.last_deposit_at, 20);
}

#[test]
fn name_vault_refuses_a_deposit_that_overflows() {
    let mut vault = NameVault::default();
    vault.total_sol_received = u64::MAX - 5;
    let before = vault;
    assert_eq!(vault.record_deposit(6, 10), Err(HydentityError::ArithmeticOverflow));
    assert_eq!(vault, before);
    assert_eq!(vault.record_deposit(5, 10), Ok(()));
    assert_eq!(vault.total_sol_received, u64::MAX);

    let mut vault = NameVault::default();
    vault.deposit_count = u64::MAX;
    let before = vault;
    assert_eq!(vault.record_deposit(1, 10), Err(HydentityError::ArithmeticOverflow));
    assert_eq!(vault, before);
}

#[test]
fn name_vault_owner_and_domain_flag() {
    let mut vault = NameVault::default();
    vault.owner = [4u8; 32];
    assert!(vault.is_owner(&[4u8; 32]));
    assert!(!vault.is_owner(&[5u8; 32]));
    vault.set_domain_transferred(true);
    assert!(vault.domain_transferred);
    vault.set_domain_transferred(false);
    assert!(!vault.domain_transferred);
}

#[test]
fn vault_authority_seeds() {
    let mut authority = VaultAuthority::default();
    authority._reserved = [3u8; 32];
    authority.initialize([1u8; 32], [2u8; 32], 253);
    assert_eq!(authority.vault, [1u8; 32]);
    assert_eq!(authority.sns_name, [2u8; 32]);
    assert_eq!(authority.bump, 253);
    assert_eq!(authority._reserved, [0u8; 32]);
    let name = [2u8; 32];
    let seeds = authority.signer_seeds(&name);
    assert_eq!(seeds[0], b"vault_auth");
    assert_eq!(seeds[1], &name[..]);
    assert_eq!(seeds[2], &[253u8][..]);
}

fn session(expires_at: i64, permissions: u8) -> DelegateSession {
    let mut s = DelegateSession::default();
    s.initialize([1u8; 32], [2u8; 32], [3u8; 32], [4u8; 32], expires_at, permissions, 7, 100);
    s
}

#[test]
fn delegate_session_initialize() {
    let s = session(500, PERMISSION_ALL);
    assert_eq!(s.vault, [1u8; 32]);
    assert_eq!(s.sns_name, [2u8; 32]);
    assert_eq!(s.delegate, [3u8; 32]);
    assert_eq!(s.granted_by, [4u8; 32]);
    assert_eq!(s.expires_at, 500);
    assert_eq!(s.permissions, 3);
    assert_eq!(s.created_at, 100);
    assert_eq!(s.bump, 7);
}

#[test]
fn delegate_session_expires() {
    let s = session(500, PERMISSION_ALL);
    assert!(s.is_valid(499));
    assert!(!s.is_valid(500));
    assert!(!s.is_valid(501));
}

#[test]
fn delegate_session_permissions() {
    assert!(session(500, PERMISSION_UPDATE_POLICY).can_update_policy());
    assert!(!session(500, PERMISSION_UPDATE_POLICY).can_deposit_umbra());
    assert!(session(500, PERMISSION_DEPOSIT_UMBRA).can_deposit_umbra());
    assert!(!session(500, PERMISSION_DEPOSIT_UMBRA).can_update_policy());
    assert!(!session(500, 0).can_update_policy());
    assert!(session(500, 0xFF).can_deposit_umbra());
}

#[test]
fn delegate_session_validates_expiry_first() {
    let s = session(500, PERMISSION_UPDATE_POLICY);
    assert_eq!(s.validate_permission(PERMISSION_UPDATE_POLICY, 499), Ok(()));
    assert_eq!(
        s.validate_permission(PERMISSION_DEPOSIT_UMBRA, 499),
        Err(HydentityError::InsufficientPermissions)
    );
    assert_eq!(
        s.validate_permission(PERMISSION_DEPOSIT_UMBRA, 500),
        Err(HydentityError::DelegateExpired)
    );
    assert_eq!(
        s.validate_permission(PERMISSION_UPDATE_POLICY, 500),
        Err(HydentityError::DelegateExpired)
    );
    assert_eq!(s.validate_permission(PERMISSION_ALL, 0), Ok(()));
}

#[test]
fn encrypted_config_versions() {
    let mut c = EncryptedVaultConfig::default();
    assert!(!c.is_initialized);
    c.initialize([1u8; 32], [2u8; 512], [3u8; 16], [4u8; 32], 50, 60, 9);
    assert!(c.is_initialized);
    assert_eq!(c.version, 1);
    assert_eq!((c.vault, c.nonce, c.config_hash), ([1u8; 32], [3u8; 16], [4u8; 32]));
    assert_eq!(c.encrypted_data, [2u8; 512]);
    assert_eq!((c.last_updated_slot, c.last_updated_at, c.bump), (50, 60, 9));
    c.update([5u8; 512], [6u8; 16], [7u8; 32], 70, 80);
    assert_eq!(c.version, 2);
    assert_eq!(c.encrypted_data, [5u8; 512]);
    assert_eq!((c.nonce, c.config_hash), ([6u8; 16], [7u8; 32]));
    assert_eq!((c.last_updated_slot, c.last_updated_at), (70, 80));
    assert_eq!((c.vault, c.bump), ([1u8; 32], 9));
    c.version = u8::MAX;
    c.update([5u8; 512], [6u8; 16], [7u8; 32], 70, 80);
    assert_eq!(c.version, u8::MAX);
}

fn withdrawal(total_splits: u8, total_amount: u64) -> PendingWithdrawal {
    let mut w = PendingWithdrawal::default();
    w.completed_splits = 3;
    w.withdrawn_amount = 8;
    w.status = WithdrawalStatus::Failed;
    w.last_execution_at = 5;
    w.initialize([1u8; 32], [2u8; 1024], [3u8; 16], [4u8; 16], total_splits, total_amount, 100, 200, 77, 6);
    w
}

#[test]
fn pending_withdrawal_initialize() {
    let w = withdrawal(3, 900);
    assert_eq!(w.vault, [1u8; 32]);
    assert_eq!(w.encrypted_plan, [2u8; 1024]);
    assert_eq!((w.nonce, w.plan_id), ([3u8; 16], [4u8; 16]));
    assert_eq!((w.total_splits, w.completed_splits), (3, 0));
    assert_eq!(w.status, WithdrawalStatus::Pending);
    assert_eq!((w.total_amount, w.withdrawn_amount), (900, 0));
    assert_eq!((w.created_at, w.expires_at, w.last_execution_at), (100, 200, 0));
    assert_eq!((w.computation_offset, w.bump), (77, 6));
    assert_eq!(WithdrawalStatus::default(), WithdrawalStatus::Pending);
}

#[test]
fn pending_withdrawal_progress() {
    let mut w = withdrawal(3, 900);
    assert!(w.is_active());
    w.record_split_execution(300, 110);
    assert_eq!(w.status, WithdrawalStatus::InProgress);
    assert_eq!((w.completed_splits, w.withdrawn_amount, w.last_execution_at), (1, 300, 110));
    assert_eq!(w.remaining_amount(), 600);
    assert!(w.is_active());
    w.record_split_execution(250, 120);
    assert_eq!(w.status, WithdrawalStatus::InProgress);
    w.record_split_execution(350, 130);
    assert_eq!(w.status, WithdrawalStatus::Completed);
    assert_eq!((w.completed_splits, w.withdrawn_amount, w.last_execution_at), (3, 900, 130));
    assert_eq!(w.remaining_amount(), 0);
    assert!(!w.is_active());
}

#[test]
fn pending_withdrawal_counters_stop_at_their_limits() {
    let mut w = withdrawal(3, 900);
    w.completed_splits = u8::MAX;
    w.withdrawn_amount = u64::MAX - 1;
    w.record_split_execution(5, 1);
    assert_eq!(w.completed_splits, u8::MAX);
    assert_eq!(w.withdrawn_amount, u64::MAX);
    assert_eq!(w.remaining_amount(), 0);
    assert_eq!(w.status, WithdrawalStatus::Completed);
}

#[test]
fn pending_withdrawal_cancel_fail_expire() {
    let mut w = withdrawal(3, 900);
    w.cancel();
    assert_eq!(w.status, WithdrawalStatus::Cancelled);
    assert!(!w.is_active());
    w.fail();
    assert_eq!(w.status, WithdrawalStatus::Failed);
    assert!(!w.is_active());
    assert!(!w.is_expired(200));
    assert!(w.is_expired(201));
    for status in [WithdrawalStatus::Completed, WithdrawalStatus::Expired] {
        w.status = status;
        assert!(!w.is_active());
    }
}

#[test]
fn withdrawal_request_default() {
    let r = WithdrawalRequest::default();
    assert_eq!(r.amount, 0);
    assert_eq!(r.user_entropy, [0u8; 32]);
    assert_eq!(r.entropy_signature, [0u8; 64]);
    assert!(!r.plan_generated);
}

#[test]
fn privacy_policy_defaults() {
    let p = PrivacyPolicy::default();
    assert!(p.enabled);
    assert_eq!((p.min_splits, p.max_splits), (DEFAULT_MIN_SPLITS, DEFAULT_MAX_SPLITS));
    assert_eq!((p.min_splits, p.max_splits), (2, 5));
    assert_eq!(
        (p.min_delay_seconds, p.max_delay_seconds),
        (DEFAULT_MIN_DELAY_SECONDS, DEFAULT_MAX_DELAY_SECONDS)
    );
    assert_eq!((p.min_delay_seconds, p.max_delay_seconds), (300, 1800));
    assert_eq!(p.distribution, Distribution::Uniform);
    assert_eq!(p.privacy_mode, PrivacyMode::FullPrivacy);
    assert_eq!(p.destination_mode, DestinationMode::Single);
    assert!(p.destinations.is_empty());
    assert_eq!(p.policy_nonce, 0);
    assert_eq!(Distribution::default(), Distribution::Uniform);
    assert_eq!(PrivacyMode::default(), PrivacyMode::FullPrivacy);
    assert_eq!(DestinationMode::default(), DestinationMode::Single);
}

#[test]
fn privacy_policy_initialize() {
    let mut p = PrivacyPolicy::default();
    p.enabled = false;
    p.min_splits = 9;
    p.policy_nonce = 4;
    p.destinations = vec![[7u8; 32], [8u8; 32]];
    p.initialize([1u8; 32], [2u8; 32], [3u8; 32], 250, 999);
    let mut expected = PrivacyPolicy::default();
    expected.vault = [1u8; 32];
    expected.sns_name = [2u8; 32];
    expected.destinations = vec![[3u8; 32]];
    expected.updated_at = 999;
    expected.bump = 250;
    assert_eq!(p, expected);
    assert_eq!(p.validate(), Ok(()));
}

#[test]
fn privacy_policy_validation_names_the_first_rule_broken() {
    let mut p = PrivacyPolicy::default();
    assert_eq!(p.validate(), Ok(()));
    p.destinations = vec![[1u8; 32]; 11];
    assert_eq!(p.validate(), Err(HydentityError::TooManyDestinations));
    p.min_delay_seconds = 1801;
    assert_eq!(p.validate(), Err(HydentityError::InvalidDelayRange));
    p.min_splits = 6;
    assert_eq!(p.validate(), Err(HydentityError::InvalidSplitRange));
    let mut p = PrivacyPolicy::default();
    p.destinations = vec![[1u8; 32]; 10];
    p.min_splits = 5;
    p.min_delay_seconds = 1800;
    assert_eq!(p.validate(), Ok(()));
}

#[test]
fn privacy_policy_update_counts_and_stamps() {
    let mut p = PrivacyPolicy::default();
    assert_eq!(p.update(50), Ok(()));
    assert_eq!((p.policy_nonce, p.updated_at), (1, 50));
    p.min_splits = 6;
    let before = p.clone();
    assert_eq!(p.update(60), Err(HydentityError::InvalidSplitRange));
    assert_eq!(p, before);
    p.min_splits = 2;
    p.policy_nonce = u64::MAX;
    let before = p.clone();
    assert_eq!(p.update(60), Err(HydentityError::ArithmeticOverflow));
    assert_eq!(p, before);
}
