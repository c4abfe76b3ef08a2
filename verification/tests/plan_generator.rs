use hydentity::generate_plan::{
    generate_plan_id, generate_random_split_count, generate_split_amounts, generate_split_delays,
    generate_withdrawal_plan, get_next_split, select_destinations, PlanRandomness,
};
use hydentity::constants::{MAX_DESTINATIONS, MAX_SPLITS};
use hydentity::types::{PlanStatus, PrivateVaultConfig, SplitDetail, UserEntropy, WithdrawalPlan};

fn entropy() -> UserEntropy {
    UserEntropy { user_random: [1u8; 32], timestamp: 12345, signature: [0u8; 64] }
}

fn config() -> PrivateVaultConfig {
    let mut config = PrivateVaultConfig::default();
    config.owner_pubkey = [9u8; 32];
    config.destination_count = 3;
    config.destinations[0] = [0xA; 32];
    config.destinations[1] = [0xB; 32];
    config.destinations[2] = [0xC; 32];
    config.min_splits = 2;
    config.max_splits = 5;
    config.min_delay_seconds = 300;
    config.max_delay_seconds = 1800;
    config
}

/// A small generator of draws, so that the scenarios run over many plans.
struct Draws(u64);

impl Draws {
    fn next(&mut self) -> u64 {
        self.0 = self.0.wrapping_mul(6364136223846793005).wrapping_add(1442695040888963407);
        self.0 >> 16
    }

    fn randomness(&mut self) -> PlanRandomness {
        let mut r = PlanRandomness {
            split_count_draw: self.next() as u8,
            amount_draws: [0; MAX_SPLITS],
            leftover_draw: self.next() as u8,
            delay_draws: [0; MAX_SPLITS],
            shuffle_draws: [0; MAX_DESTINATIONS],
        };
        for i in 0..MAX_SPLITS {
            r.amount_draws[i] = self.next() as u16;
            r.delay_draws[i] = self.next() as u32;
        }
        for i in 0..MAX_DESTINATIONS {
            r.shuffle_draws[i] = self.next() as u8;
        }
        r
    }
}

#[test]
fn test_split_amounts_sum() {
    let total = 1_000_000_000u64;
    let entropy = UserEntropy { user_random: [1u8; 32], timestamp: 12345, signature: [0u8; 64] };
    let count = 3;
    let base = total / count as u64;
    assert!(base > 0);

    let amounts = generate_split_amounts(total, count, &[0, 65535, 0, 0, 0], 7);
    assert_eq!(amounts, [266_666_667, 266_732_203, 466_601_130, 0, 0]);
    assert_eq!(amounts.iter().sum::<u64>(), total);
    assert_eq!(entropy.user_random[0], 1);
}

#[test]
fn test_delay_bounds() {
    let min = 300u32;
    let max = 1800u32;
    assert!(min < max);
    assert!(max - min > 0);

    let delays = generate_split_delays(4, min, max, &[0, 1500, 1501, u32::MAX, 77]);
    assert_eq!(delays, [300, 1800, 300, 300 + (u32::MAX % 1501), 0]);
    for d in &delays[..4] {
        assert!(min <= *d && *d <= max);
    }
}

#[test]
fn split_amounts_exact_values() {
    assert_eq!(
        generate_split_amounts(100_003, 4, &[100, 20000, 7, 0, 0], 6),
        [20_100, 29_999, 20_010, 29_894, 0]
    );
    assert_eq!(generate_split_amounts(30_000, 3, &[0; 5], 0), [10_000, 10_000, 10_000, 0, 0]);
    assert_eq!(generate_split_amounts(777, 1, &[5; 5], 200), [777, 0, 0, 0, 0]);
}

#[test]
fn split_amounts_conserve_the_total() {
    let mut draws = Draws(7);
    for total in [0u64, 1, 5, 9_999, 10_000, 49_999, 50_000, 1_000_000_000, u64::MAX] {
        for count in 1..=MAX_SPLITS as u8 {
            for _ in 0..50 {
                let r = draws.randomness();
                let amounts = generate_split_amounts(total, count, &r.amount_draws, r.leftover_draw);
                let sum: u128 = amounts.iter().map(|a| *a as u128).sum();
                assert_eq!(sum, total as u128);
                for a in &amounts[count as usize..] {
                    assert_eq!(*a, 0);
                }
            }
        }
    }
}

#[test]
fn split_amounts_of_a_tiny_total_fall_below_the_dust_floor() {
    let amounts = generate_split_amounts(5, 3, &[0; 5], 1);
    assert_eq!(amounts, [3, 2, 0, 0, 0]);
    assert_eq!(amounts.iter().sum::<u64>(), 5);
}

#[test]
fn split_amounts_keep_the_dust_floor_before_the_last_split() {
    let mut draws = Draws(11);
    for total in [50_000u64, 50_004, 123_456, 1_000_000_000] {
        for count in 1..=MAX_SPLITS as u8 {
            if total / (count as u64) < 10_000 {
                continue;
            }
            for _ in 0..100 {
                let r = draws.randomness();
                let amounts = generate_split_amounts(total, count, &r.amount_draws, r.leftover_draw);
                for a in &amounts[..count as usize - 1] {
                    assert!(*a >= 10_000);
                }
            }
        }
    }
}

#[test]
fn last_split_can_fall_below_the_dust_floor() {
    let amounts = generate_split_amounts(50_000, 5, &[4000, 4000, 4000, 4000, 0], 0);
    assert_eq!(amounts, [12_000, 12_000, 12_000, 12_000, 2_000]);
}

#[test]
fn split_amounts_of_a_degenerate_count_are_zero() {
    assert_eq!(generate_split_amounts(1_000_000, 0, &[1; 5], 1), [0; 5]);
    assert_eq!(generate_split_amounts(1_000_000, 6, &[1; 5], 1), [0; 5]);
}

#[test]
fn split_count_stays_in_the_configured_range() {
    for draw in 0..=255u8 {
        let count = generate_random_split_count(2, 5, draw);
        assert_eq!(count, 2 + draw % 4);
        assert!((2..=5).contains(&count));
    }
    assert_eq!(generate_random_split_count(3, 3, 200), 3);
}

#[test]
fn split_count_of_a_bad_range_is_zero() {
    assert_eq!(generate_random_split_count(4, 2, 9), 0);
    assert_eq!(generate_random_split_count(0, 255, 5), 5);
    assert_eq!(generate_random_split_count(0, 255, 6), 0);
    assert_eq!(generate_random_split_count(4, 8, 3), 0);
    assert_eq!(generate_random_split_count(4, 8, 0), 4);
}

#[test]
fn plan_id_is_entropy_then_timestamp() {
    let mut e = entropy();
    for i in 0..32 {
        e.user_random[i] = i as u8 + 1;
    }
    let id = generate_plan_id(&e, 0x0102_0304_0506_0708);
    assert_eq!(id, [1, 2, 3, 4, 5, 6, 7, 8, 8, 7, 6, 5, 4, 3, 2, 1]);
    let id = generate_plan_id(&e, -2);
    assert_eq!(&id[8..], &(-2i64).to_le_bytes());
    let id = generate_plan_id(&e, i64::MIN);
    assert_eq!(&id[8..], &i64::MIN.to_le_bytes());
    assert_eq!(generate_plan_id(&e, 12345), generate_plan_id(&e, 12345));
}

#[test]
fn delays_of_an_empty_range_are_the_lower_bound() {
    assert_eq!(generate_split_delays(2, 900, 600, &[5, 6, 7, 8, 9]), [900, 900, 0, 0, 0]);
    assert_eq!(generate_split_delays(9, 0, u32::MAX, &[5, 6, 7, 8, 9]), [5, 6, 7, 8, 9]);
}

#[test]
fn destinations_follow_the_shuffled_order() {
    let c = config();
    // positions 2 and 1 are each swapped with position 0: [A,B,C] -> [C,B,A] -> [B,C,A]
    let draws = [0, 0, 0, 0, 0, 0, 0, 0, 0, 0];
    let d = select_destinations(&c.destinations, 3, 5, &draws);
    assert_eq!(d, [[0xB; 32], [0xC; 32], [0xA; 32], [0xB; 32], [0xC; 32]]);
    // every position is swapped with itself: the listed order stays
    let draws = [0, 1, 2, 3, 4, 5, 6, 7, 8, 9];
    let d = select_destinations(&c.destinations, 3, 2, &draws);
    assert_eq!(d, [[0xA; 32], [0xB; 32], [0; 32], [0; 32], [0; 32]]);
}

#[test]
fn destinations_without_a_choice_are_zero() {
    let c = config();
    assert_eq!(select_destinations(&c.destinations, 0, 3, &[1; 10]), [[0u8; 32]; 5]);
    assert_eq!(select_destinations(&c.destinations, 3, 0, &[1; 10]), [[0u8; 32]; 5]);
    assert_eq!(select_destinations(&c.destinations, 11, 3, &[1; 10]), [[0u8; 32]; 5]);
}

#[test]
fn destinations_are_a_permutation_of_those_in_use() {
    let mut c = config();
    for i in 0..MAX_DESTINATIONS {
        c.destinations[i] = [i as u8 + 1; 32];
    }
    let mut draws = Draws(3);
    for avail in 1..=MAX_DESTINATIONS as u8 {
        for _ in 0..50 {
            let r = draws.randomness();
            let d = select_destinations(&c.destinations, avail, 5, &r.shuffle_draws);
            let shown = std::cmp::min(avail as usize, 5);
            for i in 0..5 {
                assert!(d[i][0] >= 1 && d[i][0] <= avail);
                assert_eq!(d[i], d[i % avail as usize]);
            }
            for i in 0..shown {
                for j in 0..i {
                    assert_ne!(d[i], d[j]);
                }
            }
        }
    }
}

#[test]
fn generated_plan_scenario() {
    let c = config();
    let mut draws = Draws(42);
    let now = 1_700_000_000i64;
    for _ in 0..500 {
        let r = draws.randomness();
        let plan = generate_withdrawal_plan(&c, 1_000_000_000, &entropy(), now, &r);
        assert!((2..=5).contains(&plan.split_count));
        let n = plan.split_count as usize;
        let mut sum = 0u64;
        let mut previous = now;
        for split in &plan.splits[..n] {
            sum += split.amount;
            assert!(split.scheduled_at > previous);
            assert!((300..=1800).contains(&split.delay_seconds));
            assert_eq!(split.scheduled_at, previous + split.delay_seconds as i64);
            assert_eq!(split.executed_at, 0);
            assert_eq!(split.tx_signature, [0u8; 64]);
            assert!(c.destinations[..3].contains(&split.destination));
            previous = split.scheduled_at;
        }
        assert_eq!(sum, 1_000_000_000);
        for split in &plan.splits[n..] {
            assert_eq!(*split, SplitDetail::default());
        }
        assert_eq!(plan.status, PlanStatus::Pending);
        assert_eq!(plan.executed_count, 0);
        assert_eq!(plan.total_amount, 1_000_000_000);
        assert_eq!(plan.vault_pubkey, c.owner_pubkey);
        assert_eq!(plan.created_at, now);
        assert_eq!(plan.expires_at, now + 7 * 86_400);
        assert_eq!(plan.plan_id, generate_plan_id(&entropy(), now));
    }
}

#[test]
fn generated_plan_exact() {
    let c = config();
    let r = PlanRandomness {
        split_count_draw: 1,
        amount_draws: [0, 65535, 0, 0, 0],
        leftover_draw: 7,
        delay_draws: [0, 1500, 1501, 9, 9],
        shuffle_draws: [0; MAX_DESTINATIONS],
    };
    let plan = generate_withdrawal_plan(&c, 1_000_000_000, &entropy(), 1000, &r);
    assert_eq!(plan.split_count, 3);
    let amounts: Vec<u64> = plan.splits.iter().map(|s| s.amount).collect();
    assert_eq!(amounts, vec![266_666_667, 266_732_203, 466_601_130, 0, 0]);
    let times: Vec<i64> = plan.splits.iter().map(|s| s.scheduled_at).collect();
    assert_eq!(times, vec![1300, 3100, 3400, 0, 0]);
    let dests: Vec<u8> = plan.splits.iter().map(|s| s.destination[0]).collect();
    assert_eq!(dests, vec![0xB, 0xC, 0xA, 0, 0]);
}

#[test]
fn generated_plan_is_a_function_of_its_inputs() {
    let c = config();
    let mut draws = Draws(5);
    let r = draws.randomness();
    let a = generate_withdrawal_plan(&c, 123_456_789, &entropy(), 77, &r);
    let b = generate_withdrawal_plan(&c, 123_456_789, &entropy(), 77, &r);
    assert_eq!(a, b);
}

#[test]
fn degenerate_plan_has_no_splits() {
    let mut c = config();
    c.min_splits = 0;
    c.max_splits = 0;
    let mut draws = Draws(1);
    let plan = generate_withdrawal_plan(&c, 1_000_000, &entropy(), 50, &draws.randomness());
    assert_eq!(plan.split_count, 0);
    assert_eq!(plan.splits, [SplitDetail::default(); MAX_SPLITS]);
    assert_eq!(plan.status, PlanStatus::Pending);

    let mut c = config();
    c.destination_count = 0;
    let plan = generate_withdrawal_plan(&c, 1_000_000, &entropy(), 50, &draws.randomness());
    assert!(plan.split_count >= 2);
    for split in plan.splits.iter() {
        assert_eq!(split.destination, [0u8; 32]);
    }
}

#[test]
fn plan_times_stop_at_the_latest_time() {
    let c = config();
    let mut draws = Draws(9);
    let plan = generate_withdrawal_plan(&c, 1_000_000, &entropy(), i64::MAX - 10, &draws.randomness());
    assert_eq!(plan.expires_at, i64::MAX);
    for split in &plan.splits[..plan.split_count as usize] {
        assert_eq!(split.scheduled_at, i64::MAX);
    }
}

fn plan_with_schedule(times: &[i64], executed: &[bool]) -> WithdrawalPlan {
    let mut plan = WithdrawalPlan::default();
    plan.split_count = times.len() as u8;
    for i in 0..times.len() {
        plan.splits[i].scheduled_at = times[i];
        plan.splits[i].amount = 10_000;
        if executed[i] {
            plan.splits[i].executed_at = 1;
        }
    }
    plan
}

#[test]
fn next_split_is_the_first_one_due() {
    let plan = plan_with_schedule(&[100, 200, 300], &[true, false, false]);
    assert_eq!(get_next_split(&plan, 250), (true, 1, 0));
    assert_eq!(get_next_split(&plan, 200), (true, 1, 0));
    assert_eq!(get_next_split(&plan, 1000), (true, 1, 0));
}

#[test]
fn next_split_waits_for_the_first_unexecuted_one() {
    let plan = plan_with_schedule(&[100, 200, 300], &[true, false, false]);
    assert_eq!(get_next_split(&plan, 199), (false, 0, 200));
    let plan = plan_with_schedule(&[500, 200, 300], &[false, false, false]);
    assert_eq!(get_next_split(&plan, 100), (false, 0, 500));
    assert_eq!(get_next_split(&plan, 250), (true, 1, 0));
}

#[test]
fn next_split_of_a_finished_plan() {
    let plan = plan_with_schedule(&[100, 200], &[true, true]);
    assert_eq!(get_next_split(&plan, 1000), (false, 0, 0));
    assert_eq!(get_next_split(&WithdrawalPlan::default(), 1000), (false, 0, 0));
}
