//! Fair division with perturbation: how a withdrawal is cut into amounts.
//!
//! The total is first divided evenly. Every split but the last then takes
//! its even share moved by a random perturbation of at most a fifth, capped
//! so that each split still to come keeps some headroom, raised to the dust
//! threshold, and never more than what is left. The last split takes what is
//! left, so the shares add up to the evenly divisible part of the total by
//! construction. What the even division left over goes to one split chosen
//! at random, and the amounts add up to the total.

use vstd::prelude::*;
use vstd::arithmetic::div_mod::lemma_fundamental_div_mod;
use crate::constants::{DUST_THRESHOLD_LAMPORTS, MAX_SPLITS, SPLIT_HEADROOM_LAMPORTS};

verus! {

/// The even share moved by a perturbation. The draw picks one of the
/// `2 * (base / 5) + 1` values from a fifth below the share to a fifth
/// above it.
pub open spec fn perturbed_share(base: int, draw: int) -> int {
    let range = base / 5;
    base - range + draw % (2 * range + 1)
}

/// The share that a split before the last takes when `left` is still to be
/// handed out and `later` splits follow it.
///
/// The wish is capped at what is left less the headroom of the later
/// splits, then raised to the dust threshold, then cut to what is left.
pub open spec fn sized_share(base: int, draw: int, left: int, later: int) -> int {
    let wanted = perturbed_share(base, draw);
    let reserve = later * SPLIT_HEADROOM_LAMPORTS;
    let cap = if left >= reserve {
        left - reserve
    } else {
        0
    };
    let capped = if wanted > cap {
        cap
    } else {
        wanted
    };
    let floored = if capped < DUST_THRESHOLD_LAMPORTS {
        DUST_THRESHOLD_LAMPORTS as int
    } else {
        capped
    };
    if floored > left {
        left
    } else {
        floored
    }
}

/// The share of split `i` of `count` when `left` is still to be handed out:
/// all of it for the last split, a sized share for the others.
pub open spec fn share_of(total: int, count: int, draw: int, left: int, i: int) -> int {
    if i == count - 1 {
        left
    } else {
        sized_share(total / count, draw, left, count - 1 - i)
    }
}

/// What is still to be handed out before split `i` takes its share. Before
/// the first split this is the evenly divisible part of the total.
pub open spec fn left_before(total: int, count: int, draws: Seq<u16>, i: int) -> int
    decreases i,
{
    if i <= 0 {
        (total / count) * count
    } else {
        let left = left_before(total, count, draws, i - 1);
        left - share_of(total, count, draws[i - 1] as int, left, i - 1)
    }
}

/// The share of split `i`, before the leftover of the division is added.
pub open spec fn share_at(total: int, count: int, draws: Seq<u16>, i: int) -> int {
    share_of(total, count, draws[i] as int, left_before(total, count, draws, i), i)
}

/// The split that receives the leftover of the even division.
pub open spec fn leftover_index(count: int, leftover_draw: int) -> int {
    leftover_draw % count
}

/// The amount of split `i`: its share, and for one split the leftover of the
/// even division on top.
pub open spec fn amount_at(
    total: int,
    count: int,
    draws: Seq<u16>,
    leftover_draw: int,
    i: int,
) -> int {
    share_at(total, count, draws, i) + if total % count > 0 && i == leftover_index(
        count,
        leftover_draw,
    ) {
        total % count
    } else {
        0
    }
}

/// The amounts of a plan of `split_count` splits over `total`. A count of
/// zero, or one beyond what a plan holds, gives no amounts at all; slots
/// behind the last split stay zero.
pub open spec fn split_amounts(
    total: u64,
    split_count: u8,
    draws: Seq<u16>,
    leftover_draw: u8,
) -> Seq<u64> {
    Seq::new(
        MAX_SPLITS as nat,
        |i: int|
            if 1 <= split_count <= MAX_SPLITS && i < split_count {
                amount_at(total as int, split_count as int, draws, leftover_draw as int, i) as u64
            } else {
                0u64
            },
    )
}

/// Sum of the first `n` amounts.
pub open spec fn amounts_total(amounts: Seq<u64>, n: int) -> int
    decreases n,
{
    if n <= 0 {
        0
    } else {
        amounts_total(amounts, n - 1) + amounts[n - 1]
    }
}

/// Sum of the shares of the first `n` splits.
pub open spec fn shares_total(total: int, count: int, draws: Seq<u16>, n: int) -> int
    decreases n,
{
    if n <= 0 {
        0
    } else {
        shares_total(total, count, draws, n - 1) + share_at(total, count, draws, n - 1)
    }
}

/// A sized share is never negative and never more than what is left.
pub proof fn lemma_sized_share_bounds(base: int, draw: int, left: int, later: int)
    requires
        0 <= base,
        0 <= draw,
        0 <= left,
        0 <= later,
    ensures
        0 <= sized_share(base, draw, left, later) <= left,
        base - base / 5 <= perturbed_share(base, draw) <= base + base / 5,
{
    let range = base / 5;
    assert(0 <= draw % (2 * range + 1) < 2 * range + 1);
}

/// What is left never grows and never turns negative, and the shares handed
/// out so far are what is missing from the evenly divisible part.
pub proof fn lemma_left_before(total: int, count: int, draws: Seq<u16>, i: int)
    requires
        0 <= total,
        1 <= count,
        0 <= i <= count,
        draws.len() >= count,
    ensures
        0 <= left_before(total, count, draws, i) <= (total / count) * count <= total,
        shares_total(total, count, draws, i) + left_before(total, count, draws, i) == (total
            / count) * count,
        i == count ==> left_before(total, count, draws, i) == 0,
        i < count ==> 0 <= share_at(total, count, draws, i) <= left_before(total, count, draws, i),
    decreases i,
{
    lemma_fundamental_div_mod(total, count);
    assert((total / count) * count == count * (total / count)) by (nonlinear_arith);
    assert(0 <= total / count) by (nonlinear_arith)
        requires
            0 <= total,
            1 <= count,
    ;
    assert(0 <= (total / count) * count) by (nonlinear_arith)
        requires
            0 <= total / count,
            1 <= count,
    ;
    if i > 0 {
        lemma_left_before(total, count, draws, i - 1);
        let left = left_before(total, count, draws, i - 1);
        lemma_sized_share_bounds(total / count, draws[i - 1] as int, left, count - i);
    }
    if i < count {
        lemma_sized_share_bounds(
            total / count,
            draws[i] as int,
            left_before(total, count, draws, i),
            count - 1 - i,
        );
    }
}

/// Every amount fits the machine word: it is at most the total.
pub proof fn lemma_amount_at_bounds(
    total: int,
    count: int,
    draws: Seq<u16>,
    leftover_draw: int,
    i: int,
)
    requires
        0 <= total,
        1 <= count,
        0 <= i < count,
        draws.len() >= count,
    ensures
        0 <= share_at(total, count, draws, i) <= amount_at(total, count, draws, leftover_draw, i)
            <= total,
{
    lemma_left_before(total, count, draws, i);
    lemma_fundamental_div_mod(total, count);
    assert((total / count) * count == count * (total / count)) by (nonlinear_arith);
}

/// Sum of the amounts of the first `n` splits, by the definition of the
/// amounts.
proof fn lemma_amounts_total_unfolds(
    total: u64,
    split_count: u8,
    draws: Seq<u16>,
    leftover_draw: u8,
    n: int,
)
    requires
        1 <= split_count <= MAX_SPLITS,
        0 <= n <= split_count,
        draws.len() >= split_count,
    ensures
        amounts_total(split_amounts(total, split_count, draws, leftover_draw), n) == shares_total(
            total as int,
            split_count as int,
            draws,
            n,
        ) + if total % (split_count as u64) > 0 && leftover_index(
            split_count as int,
            leftover_draw as int,
        ) < n {
            (total % (split_count as u64)) as int
        } else {
            0
        },
    decreases n,
{
    if n > 0 {
        lemma_amounts_total_unfolds(total, split_count, draws, leftover_draw, n - 1);
        lemma_amount_at_bounds(
            total as int,
            split_count as int,
            draws,
            leftover_draw as int,
            n - 1,
        );
    }
}

/// Conservation: for every total, every count from one to the most a plan
/// holds and every draw, the amounts of the splits add up to the total
/// exactly.
pub proof fn lemma_amounts_conserve_total(
    total: u64,
    split_count: u8,
    draws: Seq<u16>,
    leftover_draw: u8,
)
    requires
        1 <= split_count <= MAX_SPLITS,
        draws.len() >= split_count,
    ensures
        amounts_total(
            split_amounts(total, split_count, draws, leftover_draw),
            split_count as int,
        ) == total,
{
    let count = split_count as int;
    lemma_amounts_total_unfolds(total, split_count, draws, leftover_draw, count);
    lemma_left_before(total as int, count, draws, count);
    lemma_fundamental_div_mod(total as int, count);
    assert((total as int / count) * count == count * (total as int / count)) by (nonlinear_arith);
    assert(0 <= leftover_draw as int % count < count);
}

/// While the even share is at least the dust threshold, no split before
/// the last takes more than the even share and a fifth, so before split `i`
/// at least the even shares of the splits from `i` on, less a fifth of a
/// share for each split before it, are left.
pub proof fn lemma_left_before_lower_bound(total: int, count: int, draws: Seq<u16>, i: int)
    requires
        0 <= total,
        1 <= count,
        0 <= i < count,
        draws.len() >= count,
        total / count >= DUST_THRESHOLD_LAMPORTS,
    ensures
        left_before(total, count, draws, i) >= (total / count) * count - i * (total / count + (total
            / count) / 5),
    decreases i,
{
    let base = total / count;
    if i > 0 {
        lemma_left_before_lower_bound(total, count, draws, i - 1);
        let left = left_before(total, count, draws, i - 1);
        lemma_sized_share_bounds(base, draws[i - 1] as int, left, count - i);
        assert(share_of(total, count, draws[i - 1] as int, left, i - 1) <= base + base / 5);
        assert(i * (base + base / 5) == (i - 1) * (base + base / 5) + (base + base / 5))
            by (nonlinear_arith);
    } else {
        assert(0 * (base + base / 5) == 0);
    }
}

/// Dust floor, first part: while the even share is at least the dust
/// threshold, every split before the last carries at least the dust
/// threshold, whatever the draws.
pub proof fn lemma_dust_floor_before_last(
    total: u64,
    split_count: u8,
    draws: Seq<u16>,
    leftover_draw: u8,
    i: int,
)
    requires
        1 <= split_count <= MAX_SPLITS,
        draws.len() >= split_count,
        total / (split_count as u64) >= DUST_THRESHOLD_LAMPORTS,
        0 <= i < split_count - 1,
    ensures
        split_amounts(total, split_count, draws, leftover_draw)[i] >= DUST_THRESHOLD_LAMPORTS,
{
    let count = split_count as int;
    let base = total as int / count;
    lemma_left_before_lower_bound(total as int, count, draws, i);
    lemma_amount_at_bounds(total as int, count, draws, leftover_draw as int, i);
    assert(base * count - i * (base + base / 5) >= base) by (nonlinear_arith)
        requires
            0 <= i < count - 1,
            count <= 5,
            base >= 0,
    ;
}

/// Dust floor, second part: the last split takes what is left, and that is
/// at least the even share less a fifth of it for every split before. While
/// this bound is at least the dust threshold, so is the last split.
pub proof fn lemma_dust_floor_of_last(
    total: u64,
    split_count: u8,
    draws: Seq<u16>,
    leftover_draw: u8,
)
    requires
        1 <= split_count <= MAX_SPLITS,
        draws.len() >= split_count,
        total / (split_count as u64) - (split_count - 1) * ((total / (split_count as u64)) / 5)
            >= DUST_THRESHOLD_LAMPORTS,
    ensures
        split_amounts(total, split_count, draws, leftover_draw)[split_count - 1]
            >= DUST_THRESHOLD_LAMPORTS,
{
    let count = split_count as int;
    let base = total as int / count;
    assert((count - 1) * (base / 5) >= 0) by (nonlinear_arith)
        requires
            count >= 1,
            base >= 0,
    ;
    lemma_left_before_lower_bound(total as int, count, draws, count - 1);
    lemma_amount_at_bounds(total as int, count, draws, leftover_draw as int, count - 1);
    assert(base * count - (count - 1) * (base + base / 5) == base - (count - 1) * (base / 5))
        by (nonlinear_arith);
}

/// Dust floor: while the even share is at least the dust threshold, every
/// split carries at least the dust threshold, provided that the last one
/// does. The last split is the one place where the floor can fail: it takes
/// what the others left, and they may each have taken a fifth more than the
/// even share.
pub proof fn lemma_dust_floor(
    total: u64,
    split_count: u8,
    draws: Seq<u16>,
    leftover_draw: u8,
    i: int,
)
    requires
        1 <= split_count <= MAX_SPLITS,
        draws.len() >= split_count,
        total / (split_count as u64) >= DUST_THRESHOLD_LAMPORTS,
        split_amounts(total, split_count, draws, leftover_draw)[split_count - 1]
            >= DUST_THRESHOLD_LAMPORTS,
        0 <= i < split_count,
    ensures
        split_amounts(total, split_count, draws, leftover_draw)[i] >= DUST_THRESHOLD_LAMPORTS,
{
    if i < split_count - 1 {
        lemma_dust_floor_before_last(total, split_count, draws, leftover_draw, i);
    }
}

} // verus!
