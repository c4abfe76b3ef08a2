//! The plan generator.
//!
//! A plan is shaped by the owner's configuration, the amount to withdraw and
//! a set of random draws. The draws are made by the caller inside the secure
//! computation and handed in as plain numbers, so that every function here
//! is a function of its arguments and says exactly what it returns for each
//! value of them.

use vstd::prelude::*;
use crate::split_amounts::{
    amounts_total, left_before, lemma_amount_at_bounds, lemma_amounts_conserve_total,
    lemma_dust_floor, lemma_left_before, split_amounts,
};
use crate::store_config::le_byte;
use crate::constants::{
    DUST_THRESHOLD_LAMPORTS, MAX_DESTINATIONS, MAX_SPLITS, PLAN_EXPIRY_SECONDS,
    SPLIT_HEADROOM_LAMPORTS,
};
use crate::types::{
    amount_sum, executed_among, zero_bytes, PlanStatus, PrivateVaultConfig, SplitDetail,
    UserEntropy, WithdrawalPlan,
};

verus! {

/// The random draws that shape one plan.
///
/// Each draw is an integer of as many random bits as its type is wide. A
/// draw that the plan has no use for is ignored, whatever it holds.
#[derive(Clone, Copy, Debug, PartialEq, Eq)]
pub struct PlanRandomness {
    /// Picks the number of splits within the configured range.
    pub split_count_draw: u8,
    /// Entry `i` perturbs the amount of split `i`; the last split needs none.
    pub amount_draws: [u16; MAX_SPLITS],
    /// Picks the split that receives the leftover of the even division.
    pub leftover_draw: u8,
    /// Entry `i` picks the delay of split `i`.
    pub delay_draws: [u32; MAX_SPLITS],
    /// Entry `i` picks the partner with which position `i` of the
    /// destination order is swapped; position 0 needs none.
    pub shuffle_draws: [u8; MAX_DESTINATIONS],
}

/// A 64-bit signed number read as the unsigned number with the same bits.
pub open spec fn twos_complement(x: i64) -> int {
    if x >= 0 {
        x as int
    } else {
        x + 0x1_0000_0000_0000_0000
    }
}

/// The identifier of a plan: the first eight bytes of the user's entropy,
/// then the eight bytes of the timestamp, little-endian.
pub open spec fn plan_id_bytes(entropy: UserEntropy, timestamp: i64) -> Seq<u8> {
    Seq::new(
        16,
        |k: int|
            if k < 8 {
                entropy.user_random@[k]
            } else {
                le_byte(twos_complement(timestamp), k - 8) as u8
            },
    )
}

/// Derives the identifier of a plan from the user's entropy and the time.
///
/// The same inputs give the same identifier; nothing makes two plans differ
/// in theirs.
pub fn generate_plan_id(entropy: &UserEntropy, timestamp: i64) -> (id: [u8; 16])
    ensures
        id@ == plan_id_bytes(*entropy, timestamp),
{
    let mut id = [0u8; 16];
    let mut i: usize = 0;
    while i < 8
        invariant
            0 <= i <= 8,
            forall|k: int| 0 <= k < i ==> id@[k] == entropy.user_random@[k],
        decreases 8 - i,
    {
        id[i] = entropy.user_random[i];
        i += 1;
    }
    let bits: u64 = if timestamp >= 0 {
        timestamp as u64
    } else {
        ((timestamp + i64::MAX) + 1) as u64 + 0x8000_0000_0000_0000
    };
    assert(bits == twos_complement(timestamp));
    id[8] = (bits % 0x100) as u8;
    id[9] = ((bits / 0x100) % 0x100) as u8;
    id[10] = ((bits / 0x1_0000) % 0x100) as u8;
    id[11] = ((bits / 0x100_0000) % 0x100) as u8;
    id[12] = ((bits / 0x1_0000_0000) % 0x100) as u8;
    id[13] = ((bits / 0x100_0000_0000) % 0x100) as u8;
    id[14] = ((bits / 0x1_0000_0000_0000) % 0x100) as u8;
    id[15] = ((bits / 0x100_0000_0000_0000) % 0x100) as u8;
    proof {
        assert(id@ =~= plan_id_bytes(*entropy, timestamp));
    }
    id
}

/// The number of splits that a draw picks from the range `min_splits` to
/// `max_splits`: the lower bound plus the draw reduced to the width of the
/// range. Where the range is empty, or the number picked is more than a plan
/// holds, the count is zero and the plan degenerate.
pub open spec fn drawn_split_count(min_splits: u8, max_splits: u8, draw: u8) -> int {
    if min_splits <= max_splits && min_splits + (draw as int) % (max_splits - min_splits + 1)
        <= MAX_SPLITS {
        min_splits + (draw as int) % (max_splits - min_splits + 1)
    } else {
        0
    }
}

/// Picks the number of splits of a plan.
pub fn generate_random_split_count(min_splits: u8, max_splits: u8, draw: u8) -> (count: u8)
    ensures
        count == drawn_split_count(min_splits, max_splits, draw),
        count <= MAX_SPLITS,
        1 <= min_splits <= max_splits <= MAX_SPLITS ==> min_splits <= count <= max_splits,
{
    if min_splits > max_splits {
        return 0;
    }
    let range: u16 = (max_splits - min_splits) as u16 + 1;
    let offset: u16 = (draw as u16) % range;
    let count: u16 = min_splits as u16 + offset;
    if count as usize > MAX_SPLITS {
        0
    } else {
        count as u8
    }
}

/// Cuts `total` into the amounts of `split_count` splits.
///
/// `draws[i]` perturbs split `i`, and `leftover_draw` picks the split that
/// receives what the even division left over. With a count of zero, or of
/// more than a plan holds, every amount is zero.
pub fn generate_split_amounts(
    total: u64,
    split_count: u8,
    draws: &[u16; MAX_SPLITS],
    leftover_draw: u8,
) -> (amounts: [u64; MAX_SPLITS])
    ensures
        amounts@ == split_amounts(total, split_count, draws@, leftover_draw),
        1 <= split_count <= MAX_SPLITS ==> amounts_total(amounts@, split_count as int) == total,
{
    let mut amounts = [0u64; MAX_SPLITS];
    let count = split_count as usize;
    if count == 0 || count > MAX_SPLITS {
        proof {
            assert(amounts@ =~= split_amounts(total, split_count, draws@, leftover_draw));
        }
        return amounts;
    }
    let count64 = count as u64;
    let base_amount = total / count64;
    let leftover = total % count64;
    let perturbation_range = base_amount / 5;
    proof {
        lemma_left_before(total as int, count as int, draws@, 0);
    }
    let mut remaining: u64 = base_amount * count64;
    let mut i: usize = 0;
    while i < count
        invariant
            1 <= count <= MAX_SPLITS,
            count == split_count,
            count64 == count,
            0 <= i <= count,
            base_amount == total / count64,
            perturbation_range == base_amount / 5,
            remaining == left_before(total as int, count as int, draws@, i as int),
            forall|k: int|
                0 <= k < i ==> amounts@[k] == crate::split_amounts::share_at(
                    total as int,
                    count as int,
                    draws@,
                    k,
                ),
            forall|k: int| i <= k < MAX_SPLITS ==> amounts@[k] == 0,
        decreases count - i,
    {
        proof {
            lemma_left_before(total as int, count as int, draws@, i as int);
            lemma_left_before(total as int, count as int, draws@, i as int + 1);
        }
        if i == count - 1 {
            amounts[i] = remaining;
            remaining = 0;
        } else {
            assert(base_amount <= u64::MAX / 2) by (nonlinear_arith)
                requires
                    base_amount == total / count64,
                    count64 >= 2,
            ;
            let width: u64 = perturbation_range * 2 + 1;
            let wanted: u64 = base_amount - perturbation_range + (draws[i] as u64) % width;
            let reserve: u64 = ((count - i - 1) as u64) * SPLIT_HEADROOM_LAMPORTS;
            let cap: u64 = remaining.saturating_sub(reserve);
            let mut split_amount = wanted;
            if split_amount > cap {
                split_amount = cap;
            }
            if split_amount < DUST_THRESHOLD_LAMPORTS {
                split_amount = DUST_THRESHOLD_LAMPORTS;
            }
            if split_amount > remaining {
                split_amount = remaining;
            }
            amounts[i] = split_amount;
            remaining = remaining - split_amount;
        }
        i += 1;
    }
    if leftover > 0 {
        let chosen = (leftover_draw as usize) % count;
        proof {
            lemma_amount_at_bounds(
                total as int,
                count as int,
                draws@,
                leftover_draw as int,
                chosen as int,
            );
        }
        amounts[chosen] = amounts[chosen] + leftover;
    }
    proof {
        assert forall|k: int| 0 <= k < MAX_SPLITS implies amounts@[k] == split_amounts(
            total,
            split_count,
            draws@,
            leftover_draw,
        )[k] by {
            if k < count {
                lemma_amount_at_bounds(
                    total as int,
                    count as int,
                    draws@,
                    leftover_draw as int,
                    k,
                );
            }
        }
        assert(amounts@ =~= split_amounts(total, split_count, draws@, leftover_draw));
        lemma_amounts_conserve_total(total, split_count, draws@, leftover_draw);
    }
    amounts
}

/// The delay that a draw picks from the range `min_delay` to `max_delay`:
/// the lower bound plus the draw reduced to the width of the range. An
/// empty range is read as the lower bound alone.
pub open spec fn drawn_delay(min_delay: u32, max_delay: u32, draw: u32) -> int {
    let span = if max_delay >= min_delay {
        max_delay - min_delay
    } else {
        0
    };
    min_delay + (draw as int) % (span + 1)
}

/// The delays of a plan of `split_count` splits; slots behind the last
/// split stay zero.
pub open spec fn split_delays(
    split_count: u8,
    min_delay: u32,
    max_delay: u32,
    draws: Seq<u32>,
) -> Seq<u32> {
    Seq::new(
        MAX_SPLITS as nat,
        |i: int|
            if i < split_count {
                drawn_delay(min_delay, max_delay, draws[i]) as u32
            } else {
                0u32
            },
    )
}

/// Picks the delay of every split: `draws[i]` picks the wait before split
/// `i`, counted from the split before it.
pub fn generate_split_delays(
    split_count: u8,
    min_delay: u32,
    max_delay: u32,
    draws: &[u32; MAX_SPLITS],
) -> (delays: [u32; MAX_SPLITS])
    ensures
        delays@ == split_delays(split_count, min_delay, max_delay, draws@),
        min_delay <= max_delay ==> forall|i: int|
            0 <= i < split_count && i < MAX_SPLITS ==> min_delay <= #[trigger] delays@[i]
                <= max_delay,
{
    let mut delays = [0u32; MAX_SPLITS];
    let count = split_count as usize;
    let span: u64 = if max_delay >= min_delay {
        (max_delay - min_delay) as u64
    } else {
        0
    };
    let mut i: usize = 0;
    while i < count && i < MAX_SPLITS
        invariant
            0 <= i <= MAX_SPLITS,
            i <= count,
            count == split_count,
            span == if max_delay >= min_delay {
                max_delay - min_delay
            } else {
                0
            },
            forall|k: int|
                0 <= k < i ==> delays@[k] == drawn_delay(min_delay, max_delay, draws@[k]),
            forall|k: int| i <= k < MAX_SPLITS ==> delays@[k] == 0,
        decreases MAX_SPLITS - i,
    {
        let offset: u64 = (draws[i] as u64) % (span + 1);
        delays[i] = (min_delay as u64 + offset) as u32;
        i += 1;
    }
    proof {
        assert(delays@ =~= split_delays(split_count, min_delay, max_delay, draws@));
    }
    delays
}

/// The destinations in the order in which the configuration lists them.
pub open spec fn listed_order() -> Seq<usize> {
    Seq::new(MAX_DESTINATIONS as nat, |k: int| k as usize)
}

/// An order with the entries at `i` and `j` exchanged.
pub open spec fn swapped(order: Seq<usize>, i: int, j: int) -> Seq<usize> {
    order.update(i, order[j]).update(j, order[i])
}

/// The order of the first `available` destinations once the positions from
/// the last one down to `i` have been shuffled: position `p` is exchanged
/// with the position that its draw picks among `0` to `p`.
pub open spec fn shuffled_from(available: int, draws: Seq<u8>, i: int) -> Seq<usize>
    decreases available - i,
{
    if i >= available {
        listed_order()
    } else {
        swapped(shuffled_from(available, draws, i + 1), i, (draws[i] as int) % (i + 1))
    }
}

/// The shuffled order of the first `available` destinations: every position
/// from the last one down to 1 has been exchanged.
pub open spec fn shuffled_order(available: int, draws: Seq<u8>) -> Seq<usize> {
    shuffled_from(available, draws, 1)
}

/// The shuffle rearranges the destinations in use among themselves: every
/// one of them keeps exactly one position, and the unused slots stay where
/// they are.
pub proof fn lemma_shuffle_permutes(available: int, draws: Seq<u8>, i: int)
    requires
        1 <= i,
        0 <= available <= MAX_DESTINATIONS,
        draws.len() == MAX_DESTINATIONS,
    ensures
        shuffled_from(available, draws, i).len() == MAX_DESTINATIONS,
        forall|k: int| 0 <= k < available ==> shuffled_from(available, draws, i)[k] < available,
        forall|k: int|
            available <= k < MAX_DESTINATIONS ==> shuffled_from(available, draws, i)[k] == k,
        forall|a: int, b: int|
            0 <= a < b < MAX_DESTINATIONS ==> shuffled_from(available, draws, i)[a]
                != shuffled_from(available, draws, i)[b],
    decreases available - i,
{
    if i < available {
        lemma_shuffle_permutes(available, draws, i + 1);
        let before = shuffled_from(available, draws, i + 1);
        let j = (draws[i] as int) % (i + 1);
        assert(0 <= j <= i);
        let after = swapped(before, i, j);
        assert(after =~= shuffled_from(available, draws, i));
        assert forall|a: int, b: int| 0 <= a < b < MAX_DESTINATIONS implies after[a]
            != after[b] by {
            let source_a = if a == i {
                j
            } else if a == j {
                i
            } else {
                a
            };
            let source_b = if b == i {
                j
            } else if b == j {
                i
            } else {
                b
            };
            assert(after[a] == before[source_a]);
            assert(after[b] == before[source_b]);
            assert(source_a != source_b);
        }
    }
}

/// The destination of split `i`: the splits walk through the shuffled order
/// and start over when it is used up. Without a destination to choose from,
/// and behind the last split, the destination is all zero.
pub open spec fn selected_destination(
    available: Seq<[u8; 32]>,
    available_count: u8,
    needed_count: u8,
    draws: Seq<u8>,
    i: int,
) -> Seq<u8> {
    if 1 <= available_count <= MAX_DESTINATIONS && 0 <= i < needed_count {
        available[shuffled_order(available_count as int, draws)[i % (available_count as int)] as int]@
    } else {
        zero_bytes(32)
    }
}

/// `destination` is one of the first `available_count` entries of
/// `available`: one of the destinations in use.
pub open spec fn in_use(available: Seq<[u8; 32]>, available_count: u8, destination: [u8; 32]) -> bool {
    exists|k: int| 0 <= k < available_count && available[k] == destination
}

/// Assigns a destination to every split.
///
/// The first `available_count` entries of `available` are shuffled with
/// `draws` and dealt out to the splits in the shuffled order, round after
/// round if there are more splits than destinations.
pub fn select_destinations(
    available: &[[u8; 32]; MAX_DESTINATIONS],
    available_count: u8,
    needed_count: u8,
    draws: &[u8; MAX_DESTINATIONS],
) -> (destinations: [[u8; 32]; MAX_SPLITS])
    ensures
        forall|i: int|
            0 <= i < MAX_SPLITS ==> destinations@[i]@ == selected_destination(
                available@,
                available_count,
                needed_count,
                draws@,
                i,
            ),
        1 <= available_count <= MAX_DESTINATIONS ==> forall|i: int|
            0 <= i < needed_count && i < MAX_SPLITS ==> in_use(
                available@,
                available_count,
                #[trigger] destinations@[i],
            ),
{
    let mut destinations = [[0u8; 32]; MAX_SPLITS];
    let avail = available_count as usize;
    let needed = needed_count as usize;
    proof {
        assert forall|i: int| 0 <= i < MAX_SPLITS implies destinations@[i]@ == zero_bytes(32) by {
            assert(destinations@[i]@ =~= zero_bytes(32));
        }
    }
    if avail == 0 || avail > MAX_DESTINATIONS || needed == 0 {
        return destinations;
    }
    let mut indices: [usize; MAX_DESTINATIONS] = [0, 1, 2, 3, 4, 5, 6, 7, 8, 9];
    proof {
        assert(indices@ =~= listed_order());
    }
    let mut i: usize = avail;
    while i > 1
        invariant
            1 <= i <= avail <= MAX_DESTINATIONS,
            indices@ == shuffled_from(avail as int, draws@, i as int),
        decreases i,
    {
        i -= 1;
        proof {
            lemma_shuffle_permutes(avail as int, draws@, i as int + 1);
        }
        let j = (draws[i] as usize) % (i + 1);
        let temp = indices[i];
        let other = indices[j];
        indices[i] = other;
        indices[j] = temp;
        proof {
            assert(indices@ =~= shuffled_from(avail as int, draws@, i as int));
        }
    }
    proof {
        lemma_shuffle_permutes(avail as int, draws@, 1);
    }
    let mut n: usize = 0;
    while n < needed && n < MAX_SPLITS
        invariant
            0 <= n <= MAX_SPLITS,
            n <= needed,
            needed == needed_count,
            1 <= avail <= MAX_DESTINATIONS,
            avail == available_count,
            indices@ == shuffled_order(avail as int, draws@),
            forall|k: int| 0 <= k < avail ==> indices@[k] < avail,
            forall|k: int|
                0 <= k < n ==> destinations@[k] == available@[indices@[k % (avail as int)] as int],
            forall|k: int| n <= k < MAX_SPLITS ==> destinations@[k]@ == zero_bytes(32),
        decreases MAX_SPLITS - n,
    {
        let dest_idx = indices[n % avail];
        destinations[n] = available[dest_idx];
        n += 1;
    }
    proof {
        assert forall|k: int| 0 <= k < needed_count && k < MAX_SPLITS implies in_use(
            available@,
            available_count,
            #[trigger] destinations@[k],
        ) by {
            let m = indices@[k % (avail as int)] as int;
            assert(0 <= m < available_count && destinations@[k] == available@[m]);
        }
    }
    destinations
}

/// The delays of the splits up to and including split `i`, added up.
pub open spec fn cumulative_delay(delays: Seq<u32>, i: int) -> int
    decreases i + 1,
{
    if i < 0 {
        0
    } else {
        cumulative_delay(delays, i - 1) + delays[i]
    }
}

/// A point in time `offset` seconds after `now`, or the latest time that
/// can be told if that lies beyond it.
pub open spec fn time_after(now: i64, offset: int) -> i64 {
    if now + offset > i64::MAX {
        i64::MAX
    } else {
        (now + offset) as i64
    }
}

/// What the generator returns: `plan` is the plan of `amount` for `config`
/// at the time `now` under the draws `randomness`.
///
/// The count of splits, the amounts, the delays and the destinations are
/// those that the draws pick. Every split is scheduled its own delay after
/// the split before it, the first one after `now`. No split has run, the
/// slots behind the last split are blank, and the plan is pending and
/// expires a fixed time after `now`.
pub open spec fn plan_generated(
    config: PrivateVaultConfig,
    amount: u64,
    entropy: UserEntropy,
    now: i64,
    randomness: PlanRandomness,
    plan: WithdrawalPlan,
) -> bool {
    let count = drawn_split_count(config.min_splits, config.max_splits, randomness.split_count_draw);
    let delays = split_delays(
        count as u8,
        config.min_delay_seconds,
        config.max_delay_seconds,
        randomness.delay_draws@,
    );
    &&& plan.plan_id@ == plan_id_bytes(entropy, now)
    &&& plan.vault_pubkey == config.owner_pubkey
    &&& plan.total_amount == amount
    &&& plan.split_count == count
    &&& plan.executed_count == 0
    &&& plan.status is Pending
    &&& plan.created_at == now
    &&& plan.expires_at == time_after(now, PLAN_EXPIRY_SECONDS as int)
    &&& forall|i: int|
        0 <= i < count ==> {
            &&& (#[trigger] plan.splits@[i]).destination@ == selected_destination(
                config.destinations@,
                config.destination_count,
                count as u8,
                randomness.shuffle_draws@,
                i,
            )
            &&& plan.splits@[i].amount == split_amounts(
                amount,
                count as u8,
                randomness.amount_draws@,
                randomness.leftover_draw,
            )[i]
            &&& plan.splits@[i].delay_seconds == delays[i]
            &&& plan.splits@[i].scheduled_at == time_after(now, cumulative_delay(delays, i))
            &&& plan.splits@[i].executed_at == 0
            &&& plan.splits@[i].tx_signature@ == zero_bytes(64)
        }
    &&& forall|i: int| count <= i < MAX_SPLITS ==> (#[trigger] plan.splits@[i]).blank()
}

/// The sum of the amounts of the first `n` splits is the sum of the first
/// `n` amounts they were given.
proof fn lemma_amount_sum_of_splits(splits: Seq<SplitDetail>, amounts: Seq<u64>, n: int)
    requires
        0 <= n <= splits.len(),
        n <= amounts.len(),
        forall|i: int| 0 <= i < n ==> (#[trigger] splits[i]).amount == amounts[i],
    ensures
        amount_sum(splits, n) == amounts_total(amounts, n),
    decreases n,
{
    if n > 0 {
        lemma_amount_sum_of_splits(splits, amounts, n - 1);
    }
}

/// Where no split has run, none is counted.
proof fn lemma_none_executed(splits: Seq<SplitDetail>, n: int)
    requires
        0 <= n <= splits.len(),
        forall|i: int| 0 <= i < n ==> !(#[trigger] splits[i]).executed(),
    ensures
        executed_among(splits, n) == 0,
    decreases n,
{
    if n > 0 {
        lemma_none_executed(splits, n - 1);
    }
}

/// Delays add up: the sum up to a later split is at least the sum up to an
/// earlier one, and never negative.
pub proof fn lemma_cumulative_delay_grows(delays: Seq<u32>, i: int, j: int)
    requires
        -1 <= i <= j < delays.len(),
    ensures
        0 <= cumulative_delay(delays, i) <= cumulative_delay(delays, j),
    decreases j + 1,
{
    if j >= 0 {
        if i < j {
            lemma_cumulative_delay_grows(delays, i, j - 1);
        } else {
            lemma_cumulative_delay_grows(delays, i - 1, j - 1);
        }
    }
}

/// Dust floor of a generated plan: where the even share of the amount is at
/// least the dust threshold, and the last split carries at least the dust
/// threshold, every split of the plan does.
pub proof fn lemma_generated_plan_keeps_dust_floor(
    config: PrivateVaultConfig,
    amount: u64,
    entropy: UserEntropy,
    now: i64,
    randomness: PlanRandomness,
    plan: WithdrawalPlan,
    i: int,
)
    requires
        plan_generated(config, amount, entropy, now, randomness, plan),
        1 <= plan.split_count <= MAX_SPLITS,
        amount / (plan.split_count as u64) >= DUST_THRESHOLD_LAMPORTS,
        plan.splits@[plan.split_count - 1].amount >= DUST_THRESHOLD_LAMPORTS,
        0 <= i < plan.split_count,
    ensures
        plan.splits@[i].amount >= DUST_THRESHOLD_LAMPORTS,
{
    lemma_dust_floor(amount, plan.split_count, randomness.amount_draws@, randomness.leftover_draw, i);
}

/// Generates the withdrawal plan of `amount_lamports` for `config`.
///
/// The plan is a function of its inputs: the same configuration, amount,
/// entropy, time and draws give the same plan. Nothing is rejected: where
/// the configured split range yields no split the plan has none, and where
/// no destination is in use the destinations are all zero. The caller
/// treats such a plan as invalid.
pub fn generate_withdrawal_plan(
    config: &PrivateVaultConfig,
    amount_lamports: u64,
    entropy: &UserEntropy,
    current_timestamp: i64,
    randomness: &PlanRandomness,
) -> (plan: WithdrawalPlan)
    ensures
        plan_generated(*config, amount_lamports, *entropy, current_timestamp, *randomness, plan),
        plan.schedule_ordered(),
        plan.split_count >= 1 ==> plan.well_formed(),
        plan.split_count >= 1 ==> amount_sum(plan.splits@, plan.split_count as int)
            == amount_lamports,
        config.valid() ==> {
            &&& config.min_splits <= plan.split_count <= config.max_splits
            &&& forall|i: int|
                0 <= i < plan.split_count ==> {
                    &&& config.min_delay_seconds <= (#[trigger] plan.splits@[i]).delay_seconds
                        <= config.max_delay_seconds
                    &&& in_use(
                        config.destinations@,
                        config.destination_count,
                        plan.splits@[i].destination,
                    )
                }
        },
{
    let plan_id = generate_plan_id(entropy, current_timestamp);
    let split_count = generate_random_split_count(
        config.min_splits,
        config.max_splits,
        randomness.split_count_draw,
    );
    let amounts = generate_split_amounts(
        amount_lamports,
        split_count,
        &randomness.amount_draws,
        randomness.leftover_draw,
    );
    let delays = generate_split_delays(
        split_count,
        config.min_delay_seconds,
        config.max_delay_seconds,
        &randomness.delay_draws,
    );
    let destinations = select_destinations(
        &config.destinations,
        config.destination_count,
        split_count,
        &randomness.shuffle_draws,
    );
    let expires_at = match current_timestamp.checked_add(PLAN_EXPIRY_SECONDS) {
        Some(t) => t,
        None => i64::MAX,
    };
    let mut splits = [SplitDetail::default(); MAX_SPLITS];
    let count = split_count as usize;
    let mut cumulative: i64 = 0;
    let mut i: usize = 0;
    while i < count
        invariant
            0 <= i <= count <= MAX_SPLITS,
            count == split_count,
            cumulative == cumulative_delay(delays@, i as int - 1),
            0 <= cumulative <= i * u32::MAX,
            forall|k: int|
                0 <= k < i ==> {
                    &&& (#[trigger] splits@[k]).destination == destinations@[k]
                    &&& splits@[k].amount == amounts@[k]
                    &&& splits@[k].delay_seconds == delays@[k]
                    &&& splits@[k].scheduled_at == time_after(
                        current_timestamp,
                        cumulative_delay(delays@, k),
                    )
                    &&& splits@[k].executed_at == 0
                    &&& splits@[k].tx_signature@ == zero_bytes(64)
                },
            forall|k: int| i <= k < MAX_SPLITS ==> (#[trigger] splits@[k]).blank(),
        decreases count - i,
    {
        cumulative = cumulative + delays[i] as i64;
        let scheduled_at = match current_timestamp.checked_add(cumulative) {
            Some(t) => t,
            None => i64::MAX,
        };
        let tx_signature = [0u8; 64];
        proof {
            assert(tx_signature@ =~= zero_bytes(64));
        }
        splits[i] = SplitDetail {
            destination: destinations[i],
            amount: amounts[i],
            delay_seconds: delays[i],
            scheduled_at,
            executed_at: 0,
            tx_signature,
        };
        i += 1;
    }
    let plan = WithdrawalPlan {
        plan_id,
        vault_pubkey: config.owner_pubkey,
        total_amount: amount_lamports,
        split_count,
        splits,
        executed_count: 0,
        status: PlanStatus::Pending,
        created_at: current_timestamp,
        expires_at,
    };
    proof {
        assert forall|a: int, b: int| 0 <= a <= b < plan.split_count && b < MAX_SPLITS implies plan.splits@[a].scheduled_at
            <= plan.splits@[b].scheduled_at by {
            lemma_cumulative_delay_grows(delays@, a, b);
        }
        if split_count >= 1 {
            lemma_amount_sum_of_splits(plan.splits@, amounts@, count as int);
            lemma_none_executed(plan.splits@, count as int);
        }
    }
    plan
}

/// Split `i` of the plan has not run and is due at the time `now`.
pub open spec fn split_ready(plan: WithdrawalPlan, now: i64, i: int) -> bool {
    &&& 0 <= i < plan.split_count
    &&& i < MAX_SPLITS
    &&& !plan.splits@[i].executed()
    &&& plan.splits@[i].scheduled_at <= now
}

/// Split `i` of the plan is the first one that has not run.
pub open spec fn first_unexecuted(plan: WithdrawalPlan, i: int) -> bool {
    &&& 0 <= i < plan.split_count
    &&& i < MAX_SPLITS
    &&& !plan.splits@[i].executed()
    &&& forall|k: int| 0 <= k < i ==> (#[trigger] plan.splits@[k]).executed()
}

/// Looks up the split to run next.
///
/// Returns `(true, index, 0)` for the first split that has not run and is
/// due. If none is due, returns `(false, 0, wait_until)`, where `wait_until`
/// is the scheduled time of the first split that has not run, or zero if
/// all have.
pub fn get_next_split(plan: &WithdrawalPlan, current_timestamp: i64) -> (next: (bool, u8, i64))
    ensures
        next.0 ==> {
            &&& split_ready(*plan, current_timestamp, next.1 as int)
            &&& forall|k: int| 0 <= k < next.1 ==> !split_ready(*plan, current_timestamp, k)
            &&& next.2 == 0
        },
        !next.0 ==> {
            &&& next.1 == 0
            &&& forall|k: int| !split_ready(*plan, current_timestamp, k)
            &&& forall|k: int|
                first_unexecuted(*plan, k) ==> next.2 == (#[trigger] plan.splits@[k]).scheduled_at
            &&& (forall|k: int|
                0 <= k < plan.split_count && k < MAX_SPLITS ==> (#[trigger] plan.splits@[k]).executed())
                ==> next.2 == 0
        },
{
    let mut waiting = false;
    let mut wait_until: i64 = 0;
    let mut i: usize = 0;
    while i < plan.split_count as usize && i < MAX_SPLITS
        invariant
            0 <= i <= MAX_SPLITS,
            i <= plan.split_count,
            forall|k: int| 0 <= k < i ==> !split_ready(*plan, current_timestamp, k),
            !waiting ==> wait_until == 0 && forall|k: int|
                0 <= k < i ==> (#[trigger] plan.splits@[k]).executed(),
            waiting ==> exists|m: int|
                0 <= m < i && first_unexecuted(*plan, m) && wait_until
                    == (#[trigger] plan.splits@[m]).scheduled_at,
        decreases MAX_SPLITS - i,
    {
        let split = &plan.splits[i];
        if split.executed_at == 0 {
            if split.scheduled_at <= current_timestamp {
                return (true, i as u8, 0);
            } else if !waiting {
                waiting = true;
                wait_until = split.scheduled_at;
                assert(first_unexecuted(*plan, i as int));
            }
        }
        i += 1;
    }
    proof {
        assert forall|k: int| first_unexecuted(*plan, k) implies wait_until
            == (#[trigger] plan.splits@[k]).scheduled_at by {
            if waiting {
                let m = choose|m: int|
                    0 <= m < i && first_unexecuted(*plan, m) && wait_until
                        == (#[trigger] plan.splits@[m]).scheduled_at;
                if k < m {
                    assert(plan.splits@[k].executed());
                } else if m < k {
                    assert(plan.splits@[m].executed());
                }
            } else {
                assert(plan.splits@[k].executed());
            }
        }
    }
    (false, 0, wait_until)
}

} // verus!
