//! The plan executor: proposing a split, confirming it, cancelling a plan.
//!
//! Execution has two phases. A proposal checks that a split is due and names
//! the transfer to make, without touching the plan. The transfer itself
//! happens elsewhere; once it is durably recorded, a confirmation commits it
//! to the plan: it stores the execution time and the signature, counts the
//! split, and moves the status on.

use vstd::prelude::*;
use crate::constants::{EXECUTION_GRACE_SECONDS, MAX_SPLITS};
use crate::types::{
    amount_sum, executed_among, keys_match, zero_bytes, PlanStatus, PrivateVaultConfig, SplitDetail,
    WithdrawalExecution, WithdrawalPlan,
};

verus! {

/// No check failed.
pub const SPLIT_OK: u8 = 0;

/// The index names no split of the plan.
pub const SPLIT_INVALID_INDEX: u8 = 1;

/// The split has already run.
pub const SPLIT_ALREADY_EXECUTED: u8 = 2;

/// The plan has expired.
pub const SPLIT_PLAN_EXPIRED: u8 = 3;

/// The split is not due yet, not even within the grace period.
pub const SPLIT_TOO_EARLY: u8 = 4;

/// The vault holds less than the split's amount.
pub const SPLIT_INSUFFICIENT_BALANCE: u8 = 5;

/// The plan has ended and takes no further confirmations.
pub const SPLIT_PLAN_NOT_ACTIVE: u8 = 6;

/// Summary of a plan's progress, as it is shared with the vault's owner.
#[derive(Clone, Copy, Debug, PartialEq, Eq)]
pub struct PlanSummary {
    pub plan_id: [u8; 16],
    pub total_amount: u64,
    pub split_count: u8,
    pub executed_count: u8,
    pub status: PlanStatus,
    pub created_at: i64,
    pub expires_at: i64,
}

/// Result of confirming a split.
#[derive(Clone, Copy, Debug, PartialEq, Eq)]
pub struct ConfirmSplitResult {
    pub success: bool,
    pub new_plan: WithdrawalPlan,
    pub error_code: u8,
}

/// The index names a split of the plan.
pub open spec fn split_index_valid(plan: WithdrawalPlan, split_index: u8) -> bool {
    split_index < plan.split_count && split_index < MAX_SPLITS
}

/// The code of the first check that a proposal fails, or `SPLIT_OK`.
///
/// The checks run in this order: the index, whether the split has run,
/// the plan's expiry, the split's schedule less the grace period, the
/// vault's balance.
pub open spec fn proposal_code(
    plan: WithdrawalPlan,
    split_index: u8,
    now: i64,
    vault_balance: u64,
) -> u8 {
    if !split_index_valid(plan, split_index) {
        SPLIT_INVALID_INDEX
    } else if plan.splits@[split_index as int].executed() {
        SPLIT_ALREADY_EXECUTED
    } else if now > plan.expires_at {
        SPLIT_PLAN_EXPIRED
    } else if now < plan.splits@[split_index as int].scheduled_at - EXECUTION_GRACE_SECONDS {
        SPLIT_TOO_EARLY
    } else if vault_balance < plan.splits@[split_index as int].amount {
        SPLIT_INSUFFICIENT_BALANCE
    } else {
        SPLIT_OK
    }
}

/// Proposes to run split `split_index` of `plan` now.
///
/// On success the result names the destination, the amount and the execution
/// time. The plan itself is not changed: `mark_split_executed` commits the
/// split once the transfer has been made.
pub fn execute_withdrawal_split(
    plan: &WithdrawalPlan,
    split_index: u8,
    current_timestamp: i64,
    vault_balance: u64,
) -> (result: WithdrawalExecution)
    ensures
        result.error_code == proposal_code(*plan, split_index, current_timestamp, vault_balance),
        result.success == (result.error_code == SPLIT_OK),
        result.tx_signature@ == zero_bytes(64),
        result.success ==> {
            &&& result.destination == plan.splits@[split_index as int].destination
            &&& result.amount == plan.splits@[split_index as int].amount
            &&& result.executed_at == current_timestamp
        },
        !result.success ==> {
            &&& result.destination@ == zero_bytes(32)
            &&& result.amount == 0
            &&& result.executed_at == 0
        },
{
    let mut result = WithdrawalExecution {
        destination: [0u8; 32],
        amount: 0,
        tx_signature: [0u8; 64],
        executed_at: 0,
        success: false,
        error_code: SPLIT_OK,
    };
    proof {
        assert(result.destination@ =~= zero_bytes(32));
        assert(result.tx_signature@ =~= zero_bytes(64));
    }
    if split_index >= plan.split_count || split_index as usize >= MAX_SPLITS {
        result.error_code = SPLIT_INVALID_INDEX;
        return result;
    }
    let split = &plan.splits[split_index as usize];
    if split.executed_at != 0 {
        result.error_code = SPLIT_ALREADY_EXECUTED;
        return result;
    }
    if current_timestamp > plan.expires_at {
        result.error_code = SPLIT_PLAN_EXPIRED;
        return result;
    }
    if split.scheduled_at >= i64::MIN + EXECUTION_GRACE_SECONDS && current_timestamp
        < split.scheduled_at - EXECUTION_GRACE_SECONDS {
        result.error_code = SPLIT_TOO_EARLY;
        return result;
    }
    if vault_balance < split.amount {
        result.error_code = SPLIT_INSUFFICIENT_BALANCE;
        return result;
    }
    result.destination = split.destination;
    result.amount = split.amount;
    result.executed_at = current_timestamp;
    result.success = true;
    result
}

/// The code of the first check that a confirmation fails, or `SPLIT_OK`.
///
/// The checks run in this order: the index, whether the split has run,
/// whether the plan has ended.
pub open spec fn confirmation_code(plan: WithdrawalPlan, split_index: u8) -> u8 {
    if !split_index_valid(plan, split_index) {
        SPLIT_INVALID_INDEX
    } else if plan.splits@[split_index as int].executed() {
        SPLIT_ALREADY_EXECUTED
    } else if plan.status.terminal() {
        SPLIT_PLAN_NOT_ACTIVE
    } else {
        SPLIT_OK
    }
}

/// The counter of executed splits after one more has run. It stops at the
/// largest value it can hold.
pub open spec fn bumped_count(executed_count: u8) -> u8 {
    if executed_count < u8::MAX {
        (executed_count + 1) as u8
    } else {
        u8::MAX
    }
}

/// The status of a plan whose counter of executed splits has just been
/// raised: `Completed` once every split has run, else `InProgress`.
pub open spec fn status_after_confirmation(plan: WithdrawalPlan) -> PlanStatus {
    if bumped_count(plan.executed_count) >= plan.split_count {
        PlanStatus::Completed
    } else {
        PlanStatus::InProgress
    }
}

/// What a confirmation does: `result` is the outcome of confirming split
/// `split_index` of `plan` with the given signature and execution time.
///
/// A refused confirmation reports the code and hands the plan back
/// untouched. An accepted one records time and signature in the split and
/// nowhere else, raises the counter and sets the status.
pub open spec fn confirmation_outcome(
    plan: WithdrawalPlan,
    split_index: u8,
    tx_signature: [u8; 64],
    executed_at: i64,
    result: ConfirmSplitResult,
) -> bool {
    &&& result.error_code == confirmation_code(plan, split_index)
    &&& result.success == (result.error_code == SPLIT_OK)
    &&& !result.success ==> result.new_plan == plan
    &&& result.success ==> {
        &&& result.new_plan == (WithdrawalPlan {
            splits: result.new_plan.splits,
            executed_count: bumped_count(plan.executed_count),
            status: status_after_confirmation(plan),
            ..plan
        })
        &&& result.new_plan.splits@ == plan.splits@.update(
            split_index as int,
            (SplitDetail { executed_at, tx_signature, ..plan.splits@[split_index as int] }),
        )
    }
}

/// Recording an execution in one split leaves the sum of the amounts as it
/// was.
pub proof fn lemma_amount_sum_after_confirmation(
    splits: Seq<SplitDetail>,
    n: int,
    k: int,
    confirmed: SplitDetail,
)
    requires
        0 <= n <= splits.len(),
        0 <= k < splits.len(),
        confirmed.amount == splits[k].amount,
    ensures
        amount_sum(splits.update(k, confirmed), n) == amount_sum(splits, n),
    decreases n,
{
    if n > 0 {
        lemma_amount_sum_after_confirmation(splits, n - 1, k, confirmed);
    }
}

/// Recording an execution in a split that had not run raises the number of
/// executed splits by one, if the split is among those counted.
pub proof fn lemma_executed_among_after_confirmation(
    splits: Seq<SplitDetail>,
    n: int,
    k: int,
    confirmed: SplitDetail,
)
    requires
        0 <= n <= splits.len(),
        0 <= k < splits.len(),
        !splits[k].executed(),
        confirmed.executed(),
    ensures
        executed_among(splits.update(k, confirmed), n) == executed_among(splits, n) + if k < n {
            1int
        } else {
            0int
        },
    decreases n,
{
    if n > 0 {
        lemma_executed_among_after_confirmation(splits, n - 1, k, confirmed);
    }
}

/// No more splits have run than there are.
pub proof fn lemma_executed_among_bounds(splits: Seq<SplitDetail>, n: int)
    requires
        0 <= n <= splits.len(),
    ensures
        0 <= executed_among(splits, n) <= n,
    decreases n,
{
    if n > 0 {
        lemma_executed_among_bounds(splits, n - 1);
    }
}

/// Commits the execution of split `split_index` to the plan.
///
/// An execution time of zero is stored as it is given and reads as "not
/// run": callers pass the time of the transfer, which is never zero.
pub fn mark_split_executed(
    plan: WithdrawalPlan,
    split_index: u8,
    tx_signature: [u8; 64],
    executed_at: i64,
) -> (result: ConfirmSplitResult)
    ensures
        confirmation_outcome(plan, split_index, tx_signature, executed_at, result),
        plan.status.may_become(result.new_plan.status),
        plan.well_formed() && executed_at != 0 ==> result.new_plan.well_formed(),
        plan.well_formed() && executed_at != 0 && result.success ==> result.new_plan.executed_count
            == plan.executed_count + 1,
{
    let mut p = plan;
    if split_index >= p.split_count || split_index as usize >= MAX_SPLITS {
        return ConfirmSplitResult {
            success: false,
            new_plan: p,
            error_code: SPLIT_INVALID_INDEX,
        };
    }
    let idx = split_index as usize;
    let split = p.splits[idx];
    if split.executed_at != 0 {
        return ConfirmSplitResult {
            success: false,
            new_plan: p,
            error_code: SPLIT_ALREADY_EXECUTED,
        };
    }
    if p.status.is_terminal() {
        return ConfirmSplitResult {
            success: false,
            new_plan: p,
            error_code: SPLIT_PLAN_NOT_ACTIVE,
        };
    }
    let confirmed = SplitDetail {
        destination: split.destination,
        amount: split.amount,
        delay_seconds: split.delay_seconds,
        scheduled_at: split.scheduled_at,
        executed_at,
        tx_signature,
    };
    p.splits[idx] = confirmed;
    p.executed_count = p.executed_count.saturating_add(1);
    if p.executed_count >= p.split_count {
        p.status = PlanStatus::Completed;
    } else {
        p.status = PlanStatus::InProgress;
    }
    proof {
        if plan.well_formed() && executed_at != 0 {
            let n = plan.split_count as int;
            lemma_amount_sum_after_confirmation(plan.splits@, n, idx as int, confirmed);
            lemma_executed_among_after_confirmation(plan.splits@, n, idx as int, confirmed);
            lemma_executed_among_bounds(p.splits@, n);
        }
    }
    ConfirmSplitResult { success: true, new_plan: p, error_code: SPLIT_OK }
}

/// Cancels a plan on behalf of `owner_pubkey`.
///
/// The plan is cancelled if the caller is the owner named in `config` and
/// the plan is not completed; otherwise it comes back as it was. Splits that
/// have run stay recorded.
pub fn cancel_withdrawal_plan(
    plan: WithdrawalPlan,
    owner_pubkey: [u8; 32],
    config: &PrivateVaultConfig,
) -> (cancelled: WithdrawalPlan)
    ensures
        owner_pubkey@ == config.owner_pubkey@ && !(plan.status is Completed) ==> cancelled == (
        WithdrawalPlan { status: PlanStatus::Cancelled, ..plan }),
        owner_pubkey@ != config.owner_pubkey@ || plan.status is Completed ==> cancelled == plan,
        plan.status.may_become(cancelled.status),
        cancelled.executed_count == plan.executed_count,
        plan.well_formed() ==> cancelled.well_formed(),
{
    let mut p = plan;
    let owner_matches = keys_match(&owner_pubkey, &config.owner_pubkey);
    let completed = match p.status {
        PlanStatus::Completed => true,
        _ => false,
    };
    if owner_matches && !completed {
        p.status = PlanStatus::Cancelled;
    }
    p
}

/// Summarises a plan for its owner.
pub fn get_plan_summary(plan: &WithdrawalPlan) -> (summary: PlanSummary)
    ensures
        summary == (PlanSummary {
            plan_id: plan.plan_id,
            total_amount: plan.total_amount,
            split_count: plan.split_count,
            executed_count: plan.executed_count,
            status: plan.status,
            created_at: plan.created_at,
            expires_at: plan.expires_at,
        }),
{
    PlanSummary {
        plan_id: plan.plan_id,
        total_amount: plan.total_amount,
        split_count: plan.split_count,
        executed_count: plan.executed_count,
        status: plan.status,
        created_at: plan.created_at,
        expires_at: plan.expires_at,
    }
}

/// Confirming the same split twice: once the first confirmation has been
/// accepted with a non-zero execution time, a second one for the same index
/// is refused as already executed and leaves the plan, and with it the
/// counter of executed splits, unchanged.
pub proof fn lemma_confirmation_is_idempotent(
    plan: WithdrawalPlan,
    split_index: u8,
    first_signature: [u8; 64],
    first_executed_at: i64,
    first: ConfirmSplitResult,
    second_signature: [u8; 64],
    second_executed_at: i64,
    second: ConfirmSplitResult,
)
    requires
        confirmation_outcome(plan, split_index, first_signature, first_executed_at, first),
        first.success,
        first_executed_at != 0,
        confirmation_outcome(
            first.new_plan,
            split_index,
            second_signature,
            second_executed_at,
            second,
        ),
    ensures
        !second.success,
        second.error_code == SPLIT_ALREADY_EXECUTED,
        second.new_plan == first.new_plan,
        second.new_plan.executed_count == first.new_plan.executed_count,
{
}

/// The order of the statuses is a partial order: every status may become
/// itself, what may follow a follower may follow, and two different statuses
/// never follow each other. So a status that has been left is never reached
/// again, whatever operations are applied in between.
pub proof fn lemma_status_order(a: PlanStatus, b: PlanStatus, c: PlanStatus)
    ensures
        a.may_become(a),
        a.may_become(b) && b.may_become(c) ==> a.may_become(c),
        a.may_become(b) && b.may_become(a) ==> a == b,
        a is Completed && a.may_become(b) ==> b is Completed,
        a is Cancelled && a.may_become(b) ==> b is Cancelled,
        a.may_become(b) && b is Pending ==> a is Pending,
        a.may_become(b) && b is InProgress ==> a.active(),
{
}

} // verus!
