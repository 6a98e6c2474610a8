//! Tests of the ledger core: day math, the emission schedule, minting,
//! rollover and the lock record.

use solciety_staking_pool::days_between_timestamps;
use solciety_staking_pool::AccountId;
use solciety_staking_pool::ErrorCode;
use solciety_staking_pool::schedule::reward_schedule_total;
use solciety_staking_pool::LockedNft;
use solciety_staking_pool::Staker;
use solciety_staking_pool::State;
use solciety_staking_pool::REWARD_SCHEDULE_IN_DAYS;
use solciety_staking_pool::{
    MAX_DURATION_TO_EMIT_REWARDS_DAYS, MAX_LOCK_DURATION_DAYS, MIN_LOCK_DURATION_DAYS,
};

#[test]
pub fn test_staker_lock_duration_edge_cases() {
    let mut state: State = Default::default();
    let mut staker: Staker = Default::default();

    // Lower bound checks.

    assert!(staker
        .mint_venfts(&mut state, 0 * 24 * 60 * 60, MIN_LOCK_DURATION_DAYS - 1)
        .is_err());

    assert!(staker
        .mint_venfts(&mut state, 0 * 24 * 60 * 60, MAX_LOCK_DURATION_DAYS + 1)
        .is_err());

    assert!(staker
        .mint_venfts(
            &mut state,
            MAX_DURATION_TO_EMIT_REWARDS_DAYS as i64 * 24 * 60 * 60,
            1
        )
        .is_err());

    // Upper bound checks.

    assert!(staker
        .mint_venfts(
            &mut state,
            (MAX_DURATION_TO_EMIT_REWARDS_DAYS - MAX_LOCK_DURATION_DAYS + 1) as i64 * 24 * 60 * 60,
            MAX_LOCK_DURATION_DAYS
        )
        .is_err());
}

#[test]
pub fn test_staker_stakes_nfts() {
    let mut state: State = Default::default();
    let mut staker: Staker = Default::default();

    state.update(0 * 24 * 60 * 60);
    staker.update(&state, 0 * 24 * 60 * 60);
    staker.stake_nft(&mut state);

    staker
        .mint_venfts(&mut state, 0 * 24 * 60 * 60, MAX_LOCK_DURATION_DAYS)
        .unwrap();

    assert_eq!(
        &state.venft_supply[0..5],
        &[
            182000000000,
            181000000000,
            180000000000,
            179000000000,
            178000000000,
        ]
    );

    assert_eq!(
        &staker.venft_balance[0..5],
        &[
            182000000000,
            181000000000,
            180000000000,
            179000000000,
            178000000000,
        ]
    );

    state.update(5 * 24 * 60 * 60);
    staker.update(&state, 5 * 24 * 60 * 60);

    assert_eq!(state.last_updated_at, 5 * 24 * 60 * 60);
    assert_eq!(staker.last_updated_at, 5 * 24 * 60 * 60);

    assert_eq!(
        &state.venft_supply[0..5],
        &[
            182000000000,
            181000000000,
            180000000000,
            179000000000,
            178000000000,
        ]
    );

    assert_eq!(
        &staker.venft_balance[0..5],
        &[
            177000000000,
            176000000000,
            175000000000,
            174000000000,
            173000000000,
        ]
    );

    assert_eq!(
        staker.num_rewards_claimable,
        REWARD_SCHEDULE_IN_DAYS[0..5].iter().sum()
    );
}

#[test]
pub fn test_staker_stakes_nfts_at_end() {
    let mut state: State = Default::default();
    let mut staker: Staker = Default::default();

    state.update(1457 * 24 * 60 * 60);
    staker.update(&state, 1457 * 24 * 60 * 60);
    staker.stake_nft(&mut state);
    staker
        .mint_venfts(&mut state, 1457 * 24 * 60 * 60, 4)
        .unwrap();

    assert_eq!(
        &state.venft_supply[1457..],
        &[4000000000, 3000000000, 2000000000, 1000000000]
    );

    assert_eq!(
        &staker.venft_balance[0..4],
        &[4000000000, 3000000000, 2000000000, 1000000000]
    );

    state.update(1600 * 24 * 60 * 60);
    staker.update(&state, 1600 * 24 * 60 * 60);

    assert_eq!(state.last_updated_at, 1600 * 24 * 60 * 60);
    assert_eq!(staker.last_updated_at, 1600 * 24 * 60 * 60);

    assert_eq!(
        &state.venft_supply[1457..],
        &[4000000000, 3000000000, 2000000000, 1000000000]
    );

    assert!(staker.venft_balance.iter().all(|balance| *balance == 0));

    assert_eq!(
        staker.num_rewards_claimable,
        REWARD_SCHEDULE_IN_DAYS[REWARD_SCHEDULE_IN_DAYS.len() - 4..]
            .iter()
            .sum()
    );
}

#[test]
pub fn test_mint_duration_error_kinds() {
    let mut state: State = Default::default();
    let mut staker: Staker = Default::default();

    // Below the minimum is its own kind of rejection.
    assert_eq!(
        staker.mint_venfts(&mut state, 0, 0).unwrap_err(),
        ErrorCode::LockDurationTooSmall
    );
    // Above the cap, and past the emission horizon, exceed the maximum
    // possible lock duration.
    assert_eq!(
        staker
            .mint_venfts(&mut state, 0, MAX_LOCK_DURATION_DAYS + 1)
            .unwrap_err(),
        ErrorCode::MaxPossibleLockDurationExceeded
    );
    assert_eq!(
        staker
            .mint_venfts(&mut state, 1280 * 86400, MAX_LOCK_DURATION_DAYS)
            .unwrap_err(),
        ErrorCode::MaxPossibleLockDurationExceeded
    );
}

#[test]
pub fn test_reward_schedule_sane() {
    assert_eq!(REWARD_SCHEDULE_IN_DAYS.iter().sum::<u64>(), 700_000_000);
}

#[test]
pub fn test_reward_schedule_total_matches_table() {
    assert_eq!(reward_schedule_total(), 700_000_000);
}

#[test]
pub fn test_days_between_timestamps() {
    for days in 1..MAX_DURATION_TO_EMIT_REWARDS_DAYS as i64 {
        assert_eq!(days_between_timestamps(0, days * 24 * 60 * 60), days as u64);
    }
}

#[test]
pub fn test_days_between_timestamps_saturates() {
    // A span too wide for a signed difference clamps at i64::MAX seconds.
    assert_eq!(
        days_between_timestamps(i64::MIN, i64::MAX),
        i64::MAX as u64 / 86400
    );
    // Partial days floor.
    assert_eq!(days_between_timestamps(0, 86399), 0);
    assert_eq!(days_between_timestamps(0, 86401), 1);
    // Backwards or equal spans count zero days.
    assert_eq!(days_between_timestamps(55, 55), 0);
    assert_eq!(days_between_timestamps(100, -100), 0);
}

#[test]
pub fn test_check_locked_nft_max_num_days_may_be_extended() {
    for lock_duration_in_days in [0u64, 1, 7, 100, 180, 5000] {
        for current_time in [0u32, 1, 86400, 777777, u32::MAX] {
            let locked_nft = LockedNft {
                locked_at: current_time as i64,
                lock_duration_in_days: MIN_LOCK_DURATION_DAYS
                    + lock_duration_in_days % (MAX_LOCK_DURATION_DAYS - MIN_LOCK_DURATION_DAYS),
                ..Default::default()
            };

            let max_extendable = locked_nft.max_num_days_may_be_extended(current_time as i64);
            assert!(max_extendable <= MAX_LOCK_DURATION_DAYS);
        }
    }
}

#[test]
pub fn test_check_locked_nft_extend_lock_duration() {
    for days_locked_so_far in [0u64, 1, 50, 181] {
        for lock_duration_in_days in [0u64, 1, 90, 180] {
            for locked_at in [0u32, 1000, 86400] {
                for num_days_to_extend_by in [0u64, 1, 91, 182, 400] {
                    let lock_duration_in_days = MIN_LOCK_DURATION_DAYS
                        + lock_duration_in_days % (MAX_LOCK_DURATION_DAYS - MIN_LOCK_DURATION_DAYS);

                    let mut locked_nft = LockedNft {
                        locked_at: locked_at as i64,
                        lock_duration_in_days,
                        ..Default::default()
                    };

                    let current_time =
                        locked_at as i64 + (days_locked_so_far % lock_duration_in_days) as i64;
                    let max_num_days_extendable =
                        locked_nft.max_num_days_may_be_extended(current_time);

                    if max_num_days_extendable > 0 {
                        locked_nft.extend_lock_duration(
                            current_time,
                            num_days_to_extend_by % max_num_days_extendable,
                        );

                        assert!(
                            (MIN_LOCK_DURATION_DAYS..=MAX_LOCK_DURATION_DAYS)
                                .contains(&locked_nft.lock_duration_in_days),
                            "lock duration is {}",
                            locked_nft.lock_duration_in_days
                        );
                    }
                }
            }
        }
    }
}

#[test]
pub fn test_check_days_between_timestamps() {
    for start in [i64::MIN, -86400, -1, 0, 1, 86400, 1_000_000_000, i64::MAX] {
        for end in [i64::MIN, -86400, -1, 0, 1, 86400, 1_000_000_000, i64::MAX] {
            if end <= start {
                assert_eq!(days_between_timestamps(start, end), 0);
            } else {
                assert!(days_between_timestamps(start, end) >= 0);
            }
        }
    }
}

#[test]
pub fn test_mint_decay_reconciles_midday() {
    // A deposit of 3 days at midday: the first decay step is pro-rated to
    // the half day left, the rest are whole unit-day-rates, and the decay
    // steps sum back to exactly 3 tokens of entitlement.
    let mut state: State = Default::default();
    let mut staker: Staker = Default::default();

    let noon: i64 = 43200;
    staker.mint_venfts(&mut state, noon, 3).unwrap();

    assert_eq!(
        &staker.venft_balance[0..5],
        &[3000000000, 2500000000, 1500000000, 500000000, 0]
    );
    assert_eq!(
        &state.venft_supply[0..5],
        &[3000000000, 2500000000, 1500000000, 500000000, 0]
    );

    let mut total_decay: u64 = 0;
    for day in 0..5 {
        let here = staker.venft_balance[day];
        let next = if day + 1 < staker.venft_balance.len() {
            staker.venft_balance[day + 1]
        } else {
            0
        };
        total_decay += here - next;
    }
    assert_eq!(total_decay, 3 * 1_000_000_000);
}

#[test]
pub fn test_rollover_same_day_is_noop() {
    let mut state: State = Default::default();
    let mut staker: Staker = Default::default();
    staker
        .mint_venfts(&mut state, 0, MAX_LOCK_DURATION_DAYS)
        .unwrap();

    state.update(5 * 86400);
    staker.update(&state, 5 * 86400);

    let balance_before = staker.venft_balance.clone();
    let claimable_before = staker.num_rewards_claimable;
    let anchored_at = staker.last_updated_at;

    // A second touch later the same calendar day changes nothing.
    staker.update(&state, 5 * 86400 + 7000);

    assert_eq!(staker.venft_balance, balance_before);
    assert_eq!(staker.num_rewards_claimable, claimable_before);
    assert_eq!(staker.last_updated_at, anchored_at);
}

#[test]
pub fn test_claim_rewards_resets_and_reports() {
    let mut staker: Staker = Default::default();
    staker.num_rewards_claimable = 5534;

    let rewarded = staker.claim_rewards(98765);

    assert_eq!(rewarded, 5534);
    assert_eq!(staker.num_rewards_claimable, 0);
    assert_eq!(staker.last_claimed_at, 98765);

    // A second claim straight after reports nothing.
    assert_eq!(staker.claim_rewards(98766), 0);
}

#[test]
pub fn test_may_be_unlocked_requires_expiry_and_identity() {
    let lock = LockedNft {
        staker_id: AccountId(7),
        mint_id: AccountId(9),
        locked_at: 0,
        lock_duration_in_days: 2,
    };
    // Exactly at expiry is still locked; one second past is not.
    assert!(!lock.may_be_unlocked(AccountId(7), AccountId(9), 2 * 86400));
    assert!(lock.may_be_unlocked(AccountId(7), AccountId(9), 2 * 86400 + 1));
    // The wrong owner or the wrong collateral cannot unlock.
    assert!(!lock.may_be_unlocked(AccountId(8), AccountId(9), 2 * 86400 + 1));
    assert!(!lock.may_be_unlocked(AccountId(7), AccountId(1), 2 * 86400 + 1));
}

#[test]
pub fn test_rollover_skips_days_with_no_supply() {
    // A staker whose window holds entitlement against an empty pool
    // accrues nothing: a zero-supply day is skipped, not divided by.
    let mut state: State = Default::default();
    let mut staker: Staker = Default::default();
    staker.venft_balance[0] = 1_000_000_000;
    staker.venft_balance[1] = 500_000_000;

    staker.update(&state, 3 * 86400);

    assert_eq!(staker.num_rewards_claimable, 0);
    assert!(staker.venft_balance[0] == 0 && staker.venft_balance[1] == 0);
}

#[test]
pub fn test_rollover_splits_budget_between_stakers() {
    // Two stakers with equal entitlement split each day's budget evenly.
    let mut state: State = Default::default();
    let mut first: Staker = Default::default();
    let mut second: Staker = Default::default();

    first.mint_venfts(&mut state, 0, 10).unwrap();
    second.mint_venfts(&mut state, 0, 10).unwrap();

    first.update(&state, 86400);
    second.update(&state, 86400);

    assert_eq!(first.num_rewards_claimable, REWARD_SCHEDULE_IN_DAYS[0] / 2);
    assert_eq!(first.num_rewards_claimable, second.num_rewards_claimable);
}
