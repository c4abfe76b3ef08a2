use hydentity::execute_split::{
    cancel_withdrawal_plan, execute_withdrawal_split, get_plan_summary, mark_split_executed,
    SPLIT_ALREADY_EXECUTED, SPLIT_INSUFFICIENT_BALANCE, SPLIT_INVALID_INDEX, SPLIT_OK,
    SPLIT_PLAN_EXPIRED, SPLIT_PLAN_NOT_ACTIVE, SPLIT_TOO_EARLY,
};
use hydentity::types::{PlanStatus, PrivateVaultConfig, WithdrawalPlan};

const OWNER: [u8; 32] = [7u8; 32];

fn owner_config() -> PrivateVaultConfig {
    let mut config = PrivateVaultConfig::default();
    config.owner_pubkey = OWNER;
    config
}

/// Three splits of 100_000, 200_000 and 300_000, due at 1_000, 2_000 and 3_000.
fn plan() -> WithdrawalPlan {
    let mut plan = WithdrawalPlan::default();
    plan.plan_id = [3u8; 16];
    plan.vault_pubkey = OWNER;
    plan.total_amount = 600_000;
    plan.split_count = 3;
    plan.created_at = 500;
    plan.expires_at = 500 + 604_800;
    for i in 0..3 {
        plan.splits[i].destination = [i as u8 + 1; 32];
        plan.splits[i].amount = 100_000 * (i as u64 + 1);
        plan.splits[i].delay_seconds = 1000;
        plan.splits[i].scheduled_at = 1000 * (i as i64 + 1);
    }
    plan
}

#[test]
fn execute_split_test_error_codes() {
    assert_eq!(1, 1); // Invalid split index
    assert_eq!(2, 2); // Already executed
    assert_eq!(3, 3); // Plan expired
    assert_eq!(4, 4); // Too early
    assert_eq!(5, 5); // Insufficient balance

    assert_eq!(SPLIT_OK, 0);
    assert_eq!(SPLIT_INVALID_INDEX, 1);
    assert_eq!(SPLIT_ALREADY_EXECUTED, 2);
    assert_eq!(SPLIT_PLAN_EXPIRED, 3);
    assert_eq!(SPLIT_TOO_EARLY, 4);
    assert_eq!(SPLIT_INSUFFICIENT_BALANCE, 5);
    assert_eq!(SPLIT_PLAN_NOT_ACTIVE, 6);

    let mut p = plan();
    assert_eq!(execute_withdrawal_split(&p, 3, 5000, u64::MAX).error_code, 1);
    p.splits[0].executed_at = 1001;
    assert_eq!(execute_withdrawal_split(&p, 0, 5000, u64::MAX).error_code, 2);
    assert_eq!(execute_withdrawal_split(&p, 1, p.expires_at + 1, u64::MAX).error_code, 3);
    assert_eq!(execute_withdrawal_split(&p, 1, 1000, u64::MAX).error_code, 4);
    assert_eq!(execute_withdrawal_split(&p, 1, 2000, 199_999).error_code, 5);
    assert_eq!(execute_withdrawal_split(&p, 1, 2000, 200_000).error_code, 0);
}

#[test]
fn test_plan_status_transitions() {
    let pending = PlanStatus::Pending;
    let in_progress = PlanStatus::InProgress;
    let completed = PlanStatus::Completed;

    assert_ne!(pending, completed);
    assert_ne!(in_progress, completed);

    let p = plan();
    assert_eq!(p.status, pending);
    let p = mark_split_executed(p, 0, [1u8; 64], 1000).new_plan;
    assert_eq!(p.status, in_progress);
    let p = mark_split_executed(p, 2, [1u8; 64], 3000).new_plan;
    assert_eq!(p.status, in_progress);
    let p = mark_split_executed(p, 1, [1u8; 64], 3001).new_plan;
    assert_eq!(p.status, completed);
    assert_eq!(cancel_withdrawal_plan(plan(), OWNER, &owner_config()).status, PlanStatus::Cancelled);
}

#[test]
fn proposal_names_the_transfer() {
    let p = plan();
    let r = execute_withdrawal_split(&p, 1, 2500, 1_000_000);
    assert!(r.success);
    assert_eq!(r.error_code, 0);
    assert_eq!(r.destination, [2u8; 32]);
    assert_eq!(r.amount, 200_000);
    assert_eq!(r.executed_at, 2500);
    assert_eq!(r.tx_signature, [0u8; 64]);
    assert_eq!(p, plan());
}

#[test]
fn refused_proposal_names_nothing() {
    let r = execute_withdrawal_split(&plan(), 1, 100, 1_000_000);
    assert!(!r.success);
    assert_eq!(r.error_code, SPLIT_TOO_EARLY);
    assert_eq!(r.destination, [0u8; 32]);
    assert_eq!(r.amount, 0);
    assert_eq!(r.executed_at, 0);
}

#[test]
fn grace_period_boundary_is_inclusive() {
    let p = plan();
    assert_eq!(execute_withdrawal_split(&p, 1, 2000 - 61, u64::MAX).error_code, SPLIT_TOO_EARLY);
    let r = execute_withdrawal_split(&p, 1, 2000 - 60, u64::MAX);
    assert!(r.success);
    assert_eq!(r.error_code, SPLIT_OK);
}

#[test]
fn expiry_boundary_is_inclusive() {
    let p = plan();
    assert!(execute_withdrawal_split(&p, 0, p.expires_at, u64::MAX).success);
    assert_eq!(
        execute_withdrawal_split(&p, 0, p.expires_at + 1, u64::MAX).error_code,
        SPLIT_PLAN_EXPIRED
    );
}

#[test]
fn first_failing_check_decides() {
    let mut p = plan();
    p.splits[1].executed_at = 5;
    // executed, expired, and short of balance: "already executed" comes first
    assert_eq!(execute_withdrawal_split(&p, 1, i64::MAX, 0).error_code, SPLIT_ALREADY_EXECUTED);
    // expired and short of balance
    assert_eq!(execute_withdrawal_split(&p, 2, i64::MAX, 0).error_code, SPLIT_PLAN_EXPIRED);
    // too early and short of balance
    assert_eq!(execute_withdrawal_split(&p, 2, 0, 0).error_code, SPLIT_TOO_EARLY);
    // an index beyond the array
    assert_eq!(execute_withdrawal_split(&p, 200, 0, 0).error_code, SPLIT_INVALID_INDEX);
    p.split_count = 9;
    assert_eq!(execute_withdrawal_split(&p, 5, 0, 0).error_code, SPLIT_INVALID_INDEX);
}

#[test]
fn schedule_near_the_earliest_time_is_never_too_early() {
    let mut p = plan();
    p.splits[0].scheduled_at = i64::MIN + 10;
    assert!(execute_withdrawal_split(&p, 0, i64::MIN, u64::MAX).success);
}

#[test]
fn confirmation_records_the_execution() {
    let r = mark_split_executed(plan(), 1, [0xEE; 64], 2222);
    assert!(r.success);
    assert_eq!(r.error_code, SPLIT_OK);
    let mut expected = plan();
    expected.splits[1].executed_at = 2222;
    expected.splits[1].tx_signature = [0xEE; 64];
    expected.executed_count = 1;
    expected.status = PlanStatus::InProgress;
    assert_eq!(r.new_plan, expected);
}

#[test]
fn confirming_twice_counts_once() {
    let first = mark_split_executed(plan(), 1, [0xEE; 64], 2222);
    assert!(first.success);
    let second = mark_split_executed(first.new_plan, 1, [0xDD; 64], 3333);
    assert!(!second.success);
    assert_eq!(second.error_code, SPLIT_ALREADY_EXECUTED);
    assert_eq!(second.new_plan, first.new_plan);
    assert_eq!(second.new_plan.executed_count, 1);
}

#[test]
fn confirming_twice_on_a_completed_plan() {
    let mut p = plan();
    for i in 0..3 {
        p = mark_split_executed(p, i, [1u8; 64], 10 + i as i64).new_plan;
    }
    assert_eq!(p.status, PlanStatus::Completed);
    assert_eq!(p.executed_count, 3);
    let again = mark_split_executed(p, 2, [2u8; 64], 99);
    assert_eq!(again.error_code, SPLIT_ALREADY_EXECUTED);
    assert_eq!(again.new_plan, p);
    assert_eq!(again.new_plan.status, PlanStatus::Completed);
}

#[test]
fn confirmation_of_an_unknown_split_is_refused() {
    let r = mark_split_executed(plan(), 3, [1u8; 64], 10);
    assert!(!r.success);
    assert_eq!(r.error_code, SPLIT_INVALID_INDEX);
    assert_eq!(r.new_plan, plan());
}

#[test]
fn confirmation_on_an_ended_plan_is_refused() {
    let cancelled = cancel_withdrawal_plan(plan(), OWNER, &owner_config());
    let r = mark_split_executed(cancelled, 0, [1u8; 64], 10);
    assert!(!r.success);
    assert_eq!(r.error_code, SPLIT_PLAN_NOT_ACTIVE);
    assert_eq!(r.new_plan, cancelled);

    let mut expired = plan();
    expired.status = PlanStatus::Expired;
    assert_eq!(mark_split_executed(expired, 0, [1u8; 64], 10).error_code, SPLIT_PLAN_NOT_ACTIVE);
}

#[test]
fn cancellation_needs_the_owner() {
    let p = cancel_withdrawal_plan(plan(), [8u8; 32], &owner_config());
    assert_eq!(p, plan());
    let mut almost = OWNER;
    almost[31] ^= 1;
    assert_eq!(cancel_withdrawal_plan(plan(), almost, &owner_config()), plan());
}

#[test]
fn cancellation_keeps_what_has_run() {
    let p = mark_split_executed(plan(), 0, [1u8; 64], 1000).new_plan;
    let c = cancel_withdrawal_plan(p, OWNER, &owner_config());
    assert_eq!(c.status, PlanStatus::Cancelled);
    assert_eq!(c.executed_count, 1);
    assert_eq!(c.splits, p.splits);
}

#[test]
fn cancelling_a_completed_plan_changes_nothing() {
    let mut p = plan();
    for i in 0..3 {
        p = mark_split_executed(p, i, [1u8; 64], 10).new_plan;
    }
    let c = cancel_withdrawal_plan(p, OWNER, &owner_config());
    assert_eq!(c, p);
    assert_eq!(c.status, PlanStatus::Completed);
}

#[test]
fn status_predicates() {
    assert!(PlanStatus::Pending.is_active());
    assert!(PlanStatus::InProgress.is_active());
    for s in [PlanStatus::Completed, PlanStatus::Cancelled, PlanStatus::Expired] {
        assert!(s.is_terminal());
        assert!(!s.is_active());
    }
    assert!(!PlanStatus::Pending.is_terminal());
    assert_eq!(PlanStatus::default(), PlanStatus::Pending);
}

#[test]
fn summary_copies_the_progress() {
    let p = mark_split_executed(plan(), 0, [1u8; 64], 1000).new_plan;
    let s = get_plan_summary(&p);
    assert_eq!(s.plan_id, [3u8; 16]);
    assert_eq!(s.total_amount, 600_000);
    assert_eq!(s.split_count, 3);
    assert_eq!(s.executed_count, 1);
    assert_eq!(s.status, PlanStatus::InProgress);
    assert_eq!(s.created_at, 500);
    assert_eq!(s.expires_at, 500 + 604_800);
}
