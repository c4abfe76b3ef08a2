//! Shared data model: keys, the private configuration, withdrawal plans and
//! the records that the operations hand back.

use vstd::prelude::*;
use crate::constants::{
    MAX_DELAY_CEILING_SECONDS, MAX_DESTINATIONS, MAX_SPLITS, MIN_DELAY_FLOOR_SECONDS,
};

verus! {

/// A sequence of `n` zero bytes: what an unset key or signature holds.
pub open spec fn zero_bytes(n: nat) -> Seq<u8> {
    Seq::new(n, |i: int| 0u8)
}

/// Compares two 32-byte keys over their full width.
///
/// Every byte is inspected whatever the earlier bytes were, so the time taken
/// does not tell which byte differed.
pub fn keys_match(a: &[u8; 32], b: &[u8; 32]) -> (matches: bool)
    ensures
        matches == (a@ == b@),
{
    let mut matches = true;
    let mut i: usize = 0;
    while i < 32
        invariant
            0 <= i <= 32,
            matches == (forall|k: int| 0 <= k < i ==> a@[k] == b@[k]),
        decreases 32 - i,
    {
        if a[i] != b[i] {
            matches = false;
        }
        i += 1;
    }
    proof {
        if matches {
            assert(a@ =~= b@);
        }
    }
    matches
}

/// Where a withdrawal plan stands.
///
/// A plan starts `Pending`, is `InProgress` once a split has run and
/// `Completed` when all have. `Cancelled` and `Expired` end it early.
#[derive(Clone, Copy, Debug, PartialEq, Eq, Structural)]
pub enum PlanStatus {
    Pending,
    InProgress,
    Completed,
    Cancelled,
    Expired,
}

impl PlanStatus {
    /// A terminal status ends the plan.
    pub open spec fn terminal(self) -> bool {
        self is Completed || self is Cancelled || self is Expired
    }

    /// An active plan still has splits to run.
    pub open spec fn active(self) -> bool {
        self is Pending || self is InProgress
    }

    /// The order in which a plan moves through its statuses: `next` is
    /// `self` or a status that may follow it, directly or in several steps.
    pub open spec fn may_become(self, next: PlanStatus) -> bool {
        match self {
            PlanStatus::Pending => true,
            PlanStatus::InProgress => !(next is Pending),
            PlanStatus::Expired => next is Expired || next is Cancelled,
            PlanStatus::Completed => next is Completed,
            PlanStatus::Cancelled => next is Cancelled,
        }
    }

    pub fn is_terminal(self) -> (t: bool)
        ensures
            t == self.terminal(),
    {
        match self {
            PlanStatus::Pending | PlanStatus::InProgress => false,
            _ => true,
        }
    }

    pub fn is_active(self) -> (a: bool)
        ensures
            a == self.active(),
            a == !self.terminal(),
    {
        match self {
            PlanStatus::Pending | PlanStatus::InProgress => true,
            _ => false,
        }
    }
}

impl Default for PlanStatus {
    fn default() -> (s: PlanStatus)
        ensures
            s is Pending,
    {
        PlanStatus::Pending
    }
}

/// The owner's private routing configuration.
#[derive(Clone, Copy, Debug, PartialEq, Eq)]
pub struct PrivateVaultConfig {
    pub owner_pubkey: [u8; 32],
    /// Candidate destinations; the first `destination_count` are in use.
    pub destinations: [[u8; 32]; MAX_DESTINATIONS],
    pub destination_count: u8,
    pub min_splits: u8,
    pub max_splits: u8,
    pub min_delay_seconds: u32,
    pub max_delay_seconds: u32,
    pub auto_withdraw_enabled: bool,
    pub auto_withdraw_threshold: u64,
    /// Counts the mutations of this configuration.
    pub version: u8,
    pub updated_at: i64,
}

impl PrivateVaultConfig {
    /// The range rules that every stored configuration meets.
    pub open spec fn valid(&self) -> bool {
        &&& 1 <= self.destination_count <= MAX_DESTINATIONS
        &&& 1 <= self.min_splits <= self.max_splits <= MAX_SPLITS
        &&& MIN_DELAY_FLOOR_SECONDS <= self.min_delay_seconds <= self.max_delay_seconds
            <= MAX_DELAY_CEILING_SECONDS
    }

    /// The destinations in use, in order.
    pub open spec fn active_destinations(&self) -> Seq<[u8; 32]> {
        self.destinations@.take(self.destination_count as int)
    }

    pub fn is_valid(&self) -> (ok: bool)
        ensures
            ok == self.valid(),
    {
        1 <= self.destination_count && self.destination_count as usize <= MAX_DESTINATIONS && 1
            <= self.min_splits && self.min_splits <= self.max_splits && self.max_splits as usize
            <= MAX_SPLITS && MIN_DELAY_FLOOR_SECONDS <= self.min_delay_seconds
            && self.min_delay_seconds <= self.max_delay_seconds && self.max_delay_seconds
            <= MAX_DELAY_CEILING_SECONDS
    }
}

impl Default for PrivateVaultConfig {
    fn default() -> (c: PrivateVaultConfig)
        ensures
            c.owner_pubkey@ == zero_bytes(32),
            forall|i: int| 0 <= i < MAX_DESTINATIONS ==> c.destinations@[i]@ == zero_bytes(32),
            c.destination_count == 0,
            c.min_splits == 0,
            c.max_splits == 0,
            c.min_delay_seconds == 0,
            c.max_delay_seconds == 0,
            !c.auto_withdraw_enabled,
            c.auto_withdraw_threshold == 0,
            c.version == 0,
            c.updated_at == 0,
    {
        let c = PrivateVaultConfig {
            owner_pubkey: [0u8; 32],
            destinations: [[0u8; 32]; MAX_DESTINATIONS],
            destination_count: 0,
            min_splits: 0,
            max_splits: 0,
            min_delay_seconds: 0,
            max_delay_seconds: 0,
            auto_withdraw_enabled: false,
            auto_withdraw_threshold: 0,
            version: 0,
            updated_at: 0,
        };
        proof {
            assert(c.owner_pubkey@ =~= zero_bytes(32));
            assert forall|i: int| 0 <= i < MAX_DESTINATIONS implies c.destinations@[i]@
                == zero_bytes(32) by {
                assert(c.destinations@[i]@ =~= zero_bytes(32));
            }
        }
        c
    }
}

/// Optional replacements for the fields of a configuration. `None` leaves
/// the field as it is.
#[derive(Clone, Copy, Debug, PartialEq, Eq)]
pub struct ConfigUpdates {
    pub new_destinations: Option<[[u8; 32]; MAX_DESTINATIONS]>,
    pub new_destination_count: Option<u8>,
    pub new_min_splits: Option<u8>,
    pub new_max_splits: Option<u8>,
    pub new_min_delay_seconds: Option<u32>,
    pub new_max_delay_seconds: Option<u32>,
    pub new_auto_withdraw_enabled: Option<bool>,
    pub new_auto_withdraw_threshold: Option<u64>,
}

impl Default for ConfigUpdates {
    fn default() -> (u: ConfigUpdates)
        ensures
            u.new_destinations is None,
            u.new_destination_count is None,
            u.new_min_splits is None,
            u.new_max_splits is None,
            u.new_min_delay_seconds is None,
            u.new_max_delay_seconds is None,
            u.new_auto_withdraw_enabled is None,
            u.new_auto_withdraw_threshold is None,
    {
        ConfigUpdates {
            new_destinations: None,
            new_destination_count: None,
            new_min_splits: None,
            new_max_splits: None,
            new_min_delay_seconds: None,
            new_max_delay_seconds: None,
            new_auto_withdraw_enabled: None,
            new_auto_withdraw_threshold: None,
        }
    }
}

/// What storing a configuration reports.
#[derive(Clone, Copy, Debug, PartialEq, Eq)]
pub struct ConfigStorageResult {
    pub success: bool,
    pub config_hash: [u8; 32],
    pub stored_at_slot: u64,
}

/// Entropy that the user adds to a withdrawal request.
#[derive(Clone, Copy, Debug, PartialEq, Eq)]
pub struct UserEntropy {
    pub user_random: [u8; 32],
    pub timestamp: i64,
    pub signature: [u8; 64],
}

/// One scheduled sub-transfer of a withdrawal plan.
#[derive(Clone, Copy, Debug, PartialEq, Eq)]
pub struct SplitDetail {
    pub destination: [u8; 32],
    pub amount: u64,
    /// Wait after the split before it, or after the plan's creation.
    pub delay_seconds: u32,
    pub scheduled_at: i64,
    /// Zero while the split has not run; its execution time afterwards.
    pub executed_at: i64,
    pub tx_signature: [u8; 64],
}

impl SplitDetail {
    /// A split has run once an execution time is recorded for it.
    pub open spec fn executed(&self) -> bool {
        self.executed_at != 0
    }

    /// The all-zero split that fills the unused slots of a plan.
    pub open spec fn blank(&self) -> bool {
        &&& self.destination@ == zero_bytes(32)
        &&& self.amount == 0
        &&& self.delay_seconds == 0
        &&& self.scheduled_at == 0
        &&& self.executed_at == 0
        &&& self.tx_signature@ == zero_bytes(64)
    }
}

impl Default for SplitDetail {
    fn default() -> (s: SplitDetail)
        ensures
            s.blank(),
    {
        let s = SplitDetail {
            destination: [0u8; 32],
            amount: 0,
            delay_seconds: 0,
            scheduled_at: 0,
            executed_at: 0,
            tx_signature: [0u8; 64],
        };
        proof {
            assert(s.destination@ =~= zero_bytes(32));
            assert(s.tx_signature@ =~= zero_bytes(64));
        }
        s
    }
}

/// Sum of the amounts of the first `n` splits.
pub open spec fn amount_sum(splits: Seq<SplitDetail>, n: int) -> int
    decreases n,
{
    if n <= 0 {
        0
    } else {
        amount_sum(splits, n - 1) + splits[n - 1].amount
    }
}

/// Number of splits among the first `n` that have run.
pub open spec fn executed_among(splits: Seq<SplitDetail>, n: int) -> int
    decreases n,
{
    if n <= 0 {
        0
    } else {
        executed_among(splits, n - 1) + if splits[n - 1].executed() {
            1int
        } else {
            0int
        }
    }
}

/// Sum of the amounts of those of the first `n` splits that have not run.
pub open spec fn unexecuted_sum(splits: Seq<SplitDetail>, n: int) -> int
    decreases n,
{
    if n <= 0 {
        0
    } else {
        unexecuted_sum(splits, n - 1) + if splits[n - 1].executed() {
            0int
        } else {
            splits[n - 1].amount as int
        }
    }
}

/// A randomized schedule of splits for one withdrawal.
#[derive(Clone, Copy, Debug, PartialEq, Eq)]
pub struct WithdrawalPlan {
    pub plan_id: [u8; 16],
    /// The vault that the plan belongs to.
    pub vault_pubkey: [u8; 32],
    pub total_amount: u64,
    /// The first `split_count` entries of `splits` are the plan.
    pub split_count: u8,
    pub splits: [SplitDetail; MAX_SPLITS],
    pub executed_count: u8,
    pub status: PlanStatus,
    pub created_at: i64,
    pub expires_at: i64,
}

impl WithdrawalPlan {
    /// No split is scheduled before the one that precedes it.
    pub open spec fn schedule_ordered(&self) -> bool {
        forall|i: int, j: int|
            0 <= i <= j < self.split_count && j < MAX_SPLITS ==> self.splits@[i].scheduled_at
                <= self.splits@[j].scheduled_at
    }

    /// The status agrees with the number of splits that have run.
    pub open spec fn status_consistent(&self) -> bool {
        &&& self.status is Pending ==> self.executed_count == 0
        &&& self.status is InProgress ==> 0 < self.executed_count < self.split_count
        &&& self.status is Completed ==> self.executed_count == self.split_count
    }

    /// The invariant of a plan: it has at least one split and no more than
    /// fit, its amounts add up to its total, its counter is the number of
    /// splits that have run, its schedule is ordered, and its status agrees
    /// with its counter.
    pub open spec fn well_formed(&self) -> bool {
        &&& 1 <= self.split_count <= MAX_SPLITS
        &&& amount_sum(self.splits@, self.split_count as int) == self.total_amount
        &&& self.executed_count == executed_among(self.splits@, self.split_count as int)
        &&& self.schedule_ordered()
        &&& self.status_consistent()
    }
}

impl Default for WithdrawalPlan {
    fn default() -> (p: WithdrawalPlan)
        ensures
            p.plan_id@ == zero_bytes(16),
            p.vault_pubkey@ == zero_bytes(32),
            p.total_amount == 0,
            p.split_count == 0,
            forall|i: int| 0 <= i < MAX_SPLITS ==> p.splits@[i].blank(),
            p.executed_count == 0,
            p.status is Pending,
            p.created_at == 0,
            p.expires_at == 0,
    {
        let p = WithdrawalPlan {
            plan_id: [0u8; 16],
            vault_pubkey: [0u8; 32],
            total_amount: 0,
            split_count: 0,
            splits: [SplitDetail::default(); MAX_SPLITS],
            executed_count: 0,
            status: PlanStatus::Pending,
            created_at: 0,
            expires_at: 0,
        };
        proof {
            assert(p.plan_id@ =~= zero_bytes(16));
            assert(p.vault_pubkey@ =~= zero_bytes(32));
        }
        p
    }
}

/// What a proposal to run a split reports: on success the transfer to make,
/// else the reason why none is due.
#[derive(Clone, Copy, Debug, PartialEq, Eq)]
pub struct WithdrawalExecution {
    pub destination: [u8; 32],
    pub amount: u64,
    pub tx_signature: [u8; 64],
    pub executed_at: i64,
    pub success: bool,
    pub error_code: u8,
}

/// A vault's balance as its owner sees it.
#[derive(Clone, Copy, Debug, PartialEq, Eq)]
pub struct BalanceInfo {
    pub balance: u64,
    pub pending_withdrawals: u64,
    pub available: u64,
    pub pending_split_count: u8,
    pub queried_at: i64,
}

} // verus!
