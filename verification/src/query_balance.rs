//! Read-only views for the owner of a vault: the balance with what a pending
//! plan still claims of it, and the history of completed withdrawals.

use vstd::prelude::*;
use crate::constants::{MAX_HISTORY_ENTRIES, MAX_SPLITS};
use crate::types::{
    amount_sum, keys_match, unexecuted_sum, zero_bytes, BalanceInfo, PlanStatus, PrivateVaultConfig,
    SplitDetail, WithdrawalPlan,
};

verus! {

/// Entry in the history of withdrawals: one completed plan.
#[derive(Clone, Copy, Debug, PartialEq, Eq)]
pub struct WithdrawalHistoryEntry {
    pub plan_id: [u8; 16],
    pub total_amount: u64,
    pub split_count: u8,
    pub created_at: i64,
    pub completed_at: i64,
}

impl WithdrawalHistoryEntry {
    /// The all-zero entry that fills the unused slots of a history.
    pub open spec fn blank(&self) -> bool {
        &&& self.plan_id@ == zero_bytes(16)
        &&& self.total_amount == 0
        &&& self.split_count == 0
        &&& self.created_at == 0
        &&& self.completed_at == 0
    }
}

impl Default for WithdrawalHistoryEntry {
    fn default() -> (entry: WithdrawalHistoryEntry)
        ensures
            entry.blank(),
    {
        let entry = WithdrawalHistoryEntry {
            plan_id: [0u8; 16],
            total_amount: 0,
            split_count: 0,
            created_at: 0,
            completed_at: 0,
        };
        proof {
            assert(entry.plan_id@ =~= zero_bytes(16));
        }
        entry
    }
}

/// Number of splits of a plan that its array holds.
pub open spec fn held_splits(plan: WithdrawalPlan) -> int {
    if plan.split_count <= MAX_SPLITS {
        plan.split_count as int
    } else {
        MAX_SPLITS as int
    }
}

/// Number of splits among the first `n` that have not run.
pub open spec fn unexecuted_among(splits: Seq<SplitDetail>, n: int) -> int
    decreases n,
{
    if n <= 0 {
        0
    } else {
        unexecuted_among(splits, n - 1) + if splits[n - 1].executed() {
            0int
        } else {
            1int
        }
    }
}

/// What a pending plan still claims of the vault: the amounts of its splits
/// that have not run. A plan that has ended, or no plan, claims nothing.
pub open spec fn pending_amount(pending_plan: Option<WithdrawalPlan>) -> int {
    match pending_plan {
        Some(plan) if plan.status.active() => unexecuted_sum(plan.splits@, held_splits(plan)),
        _ => 0,
    }
}

/// Number of splits that a pending plan has still to run.
pub open spec fn pending_splits(pending_plan: Option<WithdrawalPlan>) -> int {
    match pending_plan {
        Some(plan) if plan.status.active() => unexecuted_among(plan.splits@, held_splits(plan)),
        _ => 0,
    }
}

/// The splits that have not run never claim more than all splits together.
pub proof fn lemma_unexecuted_sum_bounds(splits: Seq<SplitDetail>, n: int)
    requires
        0 <= n <= splits.len(),
    ensures
        0 <= unexecuted_sum(splits, n) <= amount_sum(splits, n),
        0 <= unexecuted_among(splits, n) <= n,
    decreases n,
{
    if n > 0 {
        lemma_unexecuted_sum_bounds(splits, n - 1);
    }
}

/// Reports the balance of a vault and what is free of it.
///
/// What the pending plan still claims is set against the balance; what is
/// left is available, and nothing is once the claims reach the balance. A
/// claim beyond the largest amount that can be told is reported as that
/// amount.
pub fn query_encrypted_balance(
    vault_pubkey: [u8; 32],
    current_balance: u64,
    pending_plan: Option<WithdrawalPlan>,
    current_timestamp: i64,
) -> (info: BalanceInfo)
    ensures
        info.balance == current_balance,
        info.queried_at == current_timestamp,
        info.pending_withdrawals == if pending_amount(pending_plan) > u64::MAX {
            u64::MAX as int
        } else {
            pending_amount(pending_plan)
        },
        info.pending_split_count == pending_splits(pending_plan),
        info.available == if current_balance > pending_amount(pending_plan) {
            current_balance - pending_amount(pending_plan)
        } else {
            0
        },
        info.available <= current_balance,
        info.pending_withdrawals > current_balance ==> info.available == 0,
        pending_plan matches Some(plan) && plan.well_formed() ==> info.pending_withdrawals
            == pending_amount(pending_plan),
{
    let mut pending: u64 = 0;
    let mut pending_count: u8 = 0;
    if let Some(plan) = pending_plan {
        if plan.status.is_active() {
            let mut i: usize = 0;
            while i < plan.split_count as usize && i < MAX_SPLITS
                invariant
                    0 <= i <= MAX_SPLITS,
                    i <= plan.split_count,
                    pending_count == unexecuted_among(plan.splits@, i as int),
                    pending_count <= i,
                    0 <= unexecuted_sum(plan.splits@, i as int),
                    pending == if unexecuted_sum(plan.splits@, i as int) > u64::MAX {
                        u64::MAX as int
                    } else {
                        unexecuted_sum(plan.splits@, i as int)
                    },
                decreases MAX_SPLITS - i,
            {
                let split = &plan.splits[i];
                if split.executed_at == 0 {
                    pending = pending.saturating_add(split.amount);
                    pending_count = pending_count + 1;
                }
                i += 1;
            }
            proof {
                lemma_unexecuted_sum_bounds(plan.splits@, held_splits(plan));
            }
        }
    }
    let available = if current_balance > pending {
        current_balance - pending
    } else {
        0
    };
    BalanceInfo {
        balance: current_balance,
        pending_withdrawals: pending,
        available,
        pending_split_count: pending_count,
        queried_at: current_timestamp,
    }
}

/// The latest execution time among the first `n` splits, or zero if none of
/// them has run after time zero.
pub open spec fn latest_execution(splits: Seq<SplitDetail>, n: int) -> i64
    decreases n,
{
    if n <= 0 {
        0
    } else if splits[n - 1].executed_at > latest_execution(splits, n - 1) {
        splits[n - 1].executed_at
    } else {
        latest_execution(splits, n - 1)
    }
}

/// The time at which a plan was completed: when its last split ran.
pub fn get_completion_time(plan: &WithdrawalPlan) -> (latest: i64)
    ensures
        latest == latest_execution(plan.splits@, held_splits(*plan)),
{
    let mut latest: i64 = 0;
    let mut i: usize = 0;
    while i < plan.split_count as usize && i < MAX_SPLITS
        invariant
            0 <= i <= MAX_SPLITS,
            i <= plan.split_count,
            latest == latest_execution(plan.splits@, i as int),
        decreases MAX_SPLITS - i,
    {
        let executed = plan.splits[i].executed_at;
        if executed > latest {
            latest = executed;
        }
        i += 1;
    }
    latest
}

/// The history entry of a plan.
pub open spec fn history_entry(plan: WithdrawalPlan) -> WithdrawalHistoryEntry {
    WithdrawalHistoryEntry {
        plan_id: plan.plan_id,
        total_amount: plan.total_amount,
        split_count: plan.split_count,
        created_at: plan.created_at,
        completed_at: latest_execution(plan.splits@, held_splits(plan)),
    }
}

/// The entries of the completed plans among the first `n` slots, in the
/// order of the slots. Empty slots and plans in another status are skipped.
pub open spec fn completed_entries(
    plans: Seq<Option<WithdrawalPlan>>,
    n: int,
) -> Seq<WithdrawalHistoryEntry>
    decreases n,
{
    if n <= 0 {
        Seq::empty()
    } else {
        match plans[n - 1] {
            Some(plan) if plan.status is Completed => completed_entries(plans, n - 1).push(
                history_entry(plan),
            ),
            _ => completed_entries(plans, n - 1),
        }
    }
}

/// Among `n` slots there are at most `n` completed plans.
pub proof fn lemma_completed_entries_len(plans: Seq<Option<WithdrawalPlan>>, n: int)
    requires
        0 <= n,
    ensures
        completed_entries(plans, n).len() <= n,
    decreases n,
{
    if n > 0 {
        lemma_completed_entries_len(plans, n - 1);
    }
}

/// Lists the completed withdrawals, oldest slot first, at most `limit` of
/// them. The slots behind the last entry are blank.
pub fn query_withdrawal_history(
    completed_plans: &[Option<WithdrawalPlan>; MAX_HISTORY_ENTRIES],
    limit: u8,
) -> (history: [WithdrawalHistoryEntry; MAX_HISTORY_ENTRIES])
    ensures
        forall|k: int|
            0 <= k < limit && k < completed_entries(
                completed_plans@,
                MAX_HISTORY_ENTRIES as int,
            ).len() ==> #[trigger] history@[k] == completed_entries(
                completed_plans@,
                MAX_HISTORY_ENTRIES as int,
            )[k],
        forall|k: int|
            0 <= k < MAX_HISTORY_ENTRIES && (k >= limit || k >= completed_entries(
                completed_plans@,
                MAX_HISTORY_ENTRIES as int,
            ).len()) ==> (#[trigger] history@[k]).blank(),
{
    let mut history = [WithdrawalHistoryEntry::default(); MAX_HISTORY_ENTRIES];
    let mut count: usize = 0;
    let mut i: usize = 0;
    while i < MAX_HISTORY_ENTRIES
        invariant
            0 <= i <= MAX_HISTORY_ENTRIES,
            count <= i,
            count <= limit,
            count == if completed_entries(completed_plans@, i as int).len() < limit {
                completed_entries(completed_plans@, i as int).len() as int
            } else {
                limit as int
            },
            forall|k: int|
                0 <= k < count ==> #[trigger] history@[k] == completed_entries(
                    completed_plans@,
                    i as int,
                )[k],
            forall|k: int| count <= k < MAX_HISTORY_ENTRIES ==> (#[trigger] history@[k]).blank(),
        decreases MAX_HISTORY_ENTRIES - i,
    {
        proof {
            lemma_completed_entries_len(completed_plans@, i as int);
        }
        if let Some(plan) = &completed_plans[i] {
            let completed = match plan.status {
                PlanStatus::Completed => true,
                _ => false,
            };
            if completed && count < limit as usize {
                history[count] = WithdrawalHistoryEntry {
                    plan_id: plan.plan_id,
                    total_amount: plan.total_amount,
                    split_count: plan.split_count,
                    created_at: plan.created_at,
                    completed_at: get_completion_time(plan),
                };
                count += 1;
            }
        }
        i += 1;
    }
    history
}

/// Tells whether `claimed_owner` is the owner of the configuration. All 32
/// bytes are compared whatever the earlier ones were.
pub fn verify_ownership(config: &PrivateVaultConfig, claimed_owner: [u8; 32]) -> (matches: bool)
    ensures
        matches == (config.owner_pubkey@ == claimed_owner@),
{
    keys_match(&config.owner_pubkey, &claimed_owner)
}

} // verus!
