use hydentity::query_balance::{
    get_completion_time, query_encrypted_balance, query_withdrawal_history, verify_ownership,
    WithdrawalHistoryEntry,
};
use hydentity::types::{PlanStatus, PrivateVaultConfig, WithdrawalPlan};

fn plan_of(amounts: &[u64], executed: &[i64], status: PlanStatus) -> WithdrawalPlan {
    let mut plan = WithdrawalPlan::default();
    plan.split_count = amounts.len() as u8;
    plan.status = status;
    for i in 0..amounts.len() {
        plan.splits[i].amount = amounts[i];
        plan.splits[i].executed_at = executed[i];
        plan.total_amount += amounts[i];
    }
    plan.executed_count = executed.iter().filter(|t| **t != 0).count() as u8;
    plan
}

#[test]
fn test_available_balance_calculation() {
    let current = 1_000_000_000u64;
    let pending = 300_000_000u64;
    let available = current - pending;
    assert_eq!(available, 700_000_000u64);

    let plan = plan_of(&[200_000_000, 100_000_000, 400_000_000], &[0, 0, 9], PlanStatus::InProgress);
    let info = query_encrypted_balance([0u8; 32], current, Some(plan), 123);
    assert_eq!(info.balance, current);
    assert_eq!(info.pending_withdrawals, pending);
    assert_eq!(info.available, 700_000_000u64);
    assert_eq!(info.pending_split_count, 2);
    assert_eq!(info.queried_at, 123);
}

#[test]
fn test_available_balance_underflow() {
    let current = 100_000_000u64;
    let pending = 300_000_000u64;
    let available = if current > pending { current - pending } else { 0 };
    assert_eq!(available, 0);

    let plan = plan_of(&[300_000_000], &[0], PlanStatus::Pending);
    let info = query_encrypted_balance([0u8; 32], current, Some(plan), 1);
    assert_eq!(info.pending_withdrawals, pending);
    assert_eq!(info.available, 0);
}

#[test]
fn balance_without_a_plan_is_all_available() {
    let info = query_encrypted_balance([0u8; 32], 55, None, 7);
    assert_eq!((info.balance, info.pending_withdrawals, info.available), (55, 0, 55));
    assert_eq!(info.pending_split_count, 0);
}

#[test]
fn ended_plans_claim_nothing() {
    for status in [PlanStatus::Completed, PlanStatus::Cancelled, PlanStatus::Expired] {
        let plan = plan_of(&[10, 20], &[0, 0], status);
        let info = query_encrypted_balance([0u8; 32], 100, Some(plan), 7);
        assert_eq!((info.pending_withdrawals, info.available, info.pending_split_count), (0, 100, 0));
    }
}

#[test]
fn pending_equal_to_the_balance_leaves_nothing() {
    let plan = plan_of(&[60, 40], &[0, 0], PlanStatus::Pending);
    let info = query_encrypted_balance([0u8; 32], 100, Some(plan), 7);
    assert_eq!((info.pending_withdrawals, info.available), (100, 0));
}

#[test]
fn pending_beyond_what_can_be_told_stops_at_the_limit() {
    let plan = plan_of(&[u64::MAX - 1, 0], &[0, 0], PlanStatus::Pending);
    let mut plan = plan;
    plan.splits[1].amount = 5;
    let info = query_encrypted_balance([0u8; 32], u64::MAX, Some(plan), 7);
    assert_eq!(info.pending_withdrawals, u64::MAX);
    assert_eq!(info.available, 0);
    assert_eq!(info.pending_split_count, 2);
}

#[test]
fn completion_time_is_the_latest_execution() {
    let plan = plan_of(&[1, 2, 3], &[50, 90, 70], PlanStatus::Completed);
    assert_eq!(get_completion_time(&plan), 90);
    let plan = plan_of(&[1, 2], &[0, 0], PlanStatus::Pending);
    assert_eq!(get_completion_time(&plan), 0);
    let plan = plan_of(&[1, 2], &[-5, -9], PlanStatus::Completed);
    assert_eq!(get_completion_time(&plan), 0);
    let mut plan = plan_of(&[1, 2, 3], &[50, 90, 70], PlanStatus::Completed);
    plan.split_count = 1;
    assert_eq!(get_completion_time(&plan), 50);
}

fn history_input() -> [Option<WithdrawalPlan>; 10] {
    let mut plans = [None; 10];
    for i in 0..10usize {
        let status = if i % 2 == 0 { PlanStatus::Completed } else { PlanStatus::Cancelled };
        let mut p = plan_of(&[100 + i as u64], &[1000 + i as i64], status);
        p.plan_id = [i as u8; 16];
        p.created_at = i as i64;
        plans[i] = Some(p);
    }
    plans[4] = None;
    plans
}

fn entry(i: u8) -> WithdrawalHistoryEntry {
    WithdrawalHistoryEntry {
        plan_id: [i; 16],
        total_amount: 100 + i as u64,
        split_count: 1,
        created_at: i as i64,
        completed_at: 1000 + i as i64,
    }
}

#[test]
fn history_lists_the_completed_plans_in_order() {
    let history = query_withdrawal_history(&history_input(), 10);
    let blank = WithdrawalHistoryEntry::default();
    assert_eq!(
        history,
        [entry(0), entry(2), entry(6), entry(8), blank, blank, blank, blank, blank, blank]
    );
}

#[test]
fn history_is_cut_at_the_limit() {
    let blank = WithdrawalHistoryEntry::default();
    let history = query_withdrawal_history(&history_input(), 2);
    assert_eq!(history[..2], [entry(0), entry(2)]);
    assert_eq!(history[2..], [blank; 8]);
    assert_eq!(query_withdrawal_history(&history_input(), 0), [blank; 10]);
    assert_eq!(
        query_withdrawal_history(&history_input(), 255),
        query_withdrawal_history(&history_input(), 4)
    );
    assert_eq!(query_withdrawal_history(&[None; 10], 10), [blank; 10]);
}

#[test]
fn ownership_is_a_full_comparison() {
    let mut config = PrivateVaultConfig::default();
    config.owner_pubkey = [6u8; 32];
    assert!(verify_ownership(&config, [6u8; 32]));
    let mut other = [6u8; 32];
    other[17] = 7;
    assert!(!verify_ownership(&config, other));
}
