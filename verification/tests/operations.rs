//! Tests of the orchestrated operations: initialize, stake, claim,
//! extend and unstake, including every reachable rejection.

use solciety_staking_pool::ops::{
    claim_rewards, extend, initialize, reward_transfer_subunits, stake, unstake,
    AccountLoaderStatus,
};
use solciety_staking_pool::AccountId;
use solciety_staking_pool::Creator;
use solciety_staking_pool::ErrorCode;
use solciety_staking_pool::NftMetadata;
use solciety_staking_pool::Staker;
use solciety_staking_pool::State;
use solciety_staking_pool::{
    assert_lockable_nft, MAX_LOCK_DURATION_DAYS, REWARD_SCHEDULE_IN_DAYS, REWARD_TOKEN_DECIMALS,
};

const ADMIN: AccountId = AccountId(1);
const REWARD_MINT: AccountId = AccountId(2);
const USER: AccountId = AccountId(3);
const NFT_MINT: AccountId = AccountId(4);
const CREATOR: AccountId = AccountId(5);

fn fresh_pool(now: i64) -> State {
    initialize(ADMIN, REWARD_MINT, REWARD_TOKEN_DECIMALS, now).unwrap()
}

fn good_metadata() -> NftMetadata {
    NftMetadata {
        mint: NFT_MINT,
        creators: Some(vec![Creator { address: CREATOR, verified: true }]),
    }
}

#[test]
fn test_initialize_checks_decimals() {
    let state = fresh_pool(1000);
    assert_eq!(state.admin_id, ADMIN);
    assert_eq!(state.reward_token_mint_id, REWARD_MINT);
    assert_eq!(state.deployed_at, 1000);
    assert_eq!(state.last_updated_at, 1000);
    assert_eq!(state.total_num_locked_nfts, 0);
    assert!(state.venft_supply.iter().all(|s| *s == 0));

    assert_eq!(
        initialize(ADMIN, REWARD_MINT, 6, 1000).unwrap_err(),
        ErrorCode::UnexpectedRewardTokenMintDecimals
    );
}

#[test]
fn test_lockable_nft_gate() {
    assert!(assert_lockable_nft(NFT_MINT, &good_metadata(), CREATOR).is_ok());

    let wrong_mint = NftMetadata { mint: AccountId(99), ..good_metadata() };
    assert_eq!(
        assert_lockable_nft(NFT_MINT, &wrong_mint, CREATOR).unwrap_err(),
        ErrorCode::MetadataMintMismatch
    );

    let no_creators = NftMetadata { creators: None, mint: NFT_MINT };
    assert_eq!(
        assert_lockable_nft(NFT_MINT, &no_creators, CREATOR).unwrap_err(),
        ErrorCode::MetadataHasNoCreators
    );

    let empty_creators = NftMetadata { creators: Some(vec![]), mint: NFT_MINT };
    assert_eq!(
        assert_lockable_nft(NFT_MINT, &empty_creators, CREATOR).unwrap_err(),
        ErrorCode::MetadataHasNoCreators
    );

    let wrong_creator = NftMetadata {
        mint: NFT_MINT,
        creators: Some(vec![Creator { address: AccountId(6), verified: true }]),
    };
    assert_eq!(
        assert_lockable_nft(NFT_MINT, &wrong_creator, CREATOR).unwrap_err(),
        ErrorCode::UnexpectedMetadataCreator
    );

    // An accepted creator whose issuer-verification flag is unset is
    // rejected.
    let unverified = NftMetadata {
        mint: NFT_MINT,
        creators: Some(vec![Creator { address: CREATOR, verified: false }]),
    };
    assert_eq!(
        assert_lockable_nft(NFT_MINT, &unverified, CREATOR).unwrap_err(),
        ErrorCode::MetadataCreatorUnverified
    );
}

#[test]
fn test_stake_first_touch_deposits() {
    let mut state = fresh_pool(0);

    let (staker, lock) = stake(
        &mut state,
        AccountLoaderStatus::Uninitialized,
        USER,
        NFT_MINT,
        &good_metadata(),
        CREATOR,
        0,
        MAX_LOCK_DURATION_DAYS,
    )
    .unwrap();

    assert_eq!(staker.staker_id, USER);
    assert_eq!(staker.num_locked_nfts, 1);
    assert_eq!(state.total_num_locked_nfts, 1);
    assert_eq!(lock.staker_id, USER);
    assert_eq!(lock.mint_id, NFT_MINT);
    assert_eq!(lock.locked_at, 0);
    assert_eq!(lock.lock_duration_in_days, MAX_LOCK_DURATION_DAYS);
    assert_eq!(&state.venft_supply[0..3], &[182000000000, 181000000000, 180000000000]);
    assert_eq!(&staker.venft_balance[0..3], &[182000000000, 181000000000, 180000000000]);
}

#[test]
fn test_stake_rejections_commit_nothing() {
    let mut state = fresh_pool(0);
    let supply_before = state.venft_supply.clone();

    // The authenticity gate fails before anything else is looked at.
    let wrong_mint = NftMetadata { mint: AccountId(99), ..good_metadata() };
    assert_eq!(
        stake(
            &mut state,
            AccountLoaderStatus::Uninitialized,
            USER,
            NFT_MINT,
            &wrong_mint,
            CREATOR,
            0,
            10,
        )
        .unwrap_err(),
        ErrorCode::MetadataMintMismatch
    );

    // An existing ledger owned by someone else rejects the deposit.
    let mut other: Staker = Default::default();
    other.staker_id = AccountId(77);
    assert_eq!(
        stake(
            &mut state,
            AccountLoaderStatus::Initialized(other),
            USER,
            NFT_MINT,
            &good_metadata(),
            CREATOR,
            0,
            10,
        )
        .unwrap_err(),
        ErrorCode::StakerIdMismatch
    );

    // A deposit of less than the minimum duration is its own rejection.
    assert_eq!(
        stake(
            &mut state,
            AccountLoaderStatus::Uninitialized,
            USER,
            NFT_MINT,
            &good_metadata(),
            CREATOR,
            0,
            0,
        )
        .unwrap_err(),
        ErrorCode::LockDurationTooSmall
    );

    // Durations above the cap, or past the emission horizon, reject too.
    for (now, duration) in [(0i64, 183u64), (1280 * 86400, 182), (1461 * 86400, 1)] {
        assert_eq!(
            stake(
                &mut state,
                AccountLoaderStatus::Uninitialized,
                USER,
                NFT_MINT,
                &good_metadata(),
                CREATOR,
                now,
                duration,
            )
            .unwrap_err(),
            ErrorCode::MaxPossibleLockDurationExceeded
        );
    }

    // A first creator without the verified flag cannot deposit either.
    let unverified = NftMetadata {
        mint: NFT_MINT,
        creators: Some(vec![Creator { address: CREATOR, verified: false }]),
    };
    assert_eq!(
        stake(
            &mut state,
            AccountLoaderStatus::Uninitialized,
            USER,
            NFT_MINT,
            &unverified,
            CREATOR,
            0,
            10,
        )
        .unwrap_err(),
        ErrorCode::MetadataCreatorUnverified
    );

    // A rejected deposit commits nothing.
    assert_eq!(state.venft_supply, supply_before);
    assert_eq!(state.total_num_locked_nfts, 0);
    assert_eq!(state.last_updated_at, 0);

    // The last duration that still fits before the horizon is accepted.
    assert!(stake(
        &mut state,
        AccountLoaderStatus::Uninitialized,
        USER,
        NFT_MINT,
        &good_metadata(),
        CREATOR,
        1279 * 86400,
        182,
    )
    .is_ok());
}

#[test]
fn test_claim_rewards_pays_after_rollover() {
    let mut state = fresh_pool(0);
    let (staker, _lock) = stake(
        &mut state,
        AccountLoaderStatus::Uninitialized,
        USER,
        NFT_MINT,
        &good_metadata(),
        CREATOR,
        0,
        10,
    )
    .unwrap();
    let mut staker = staker;

    let rewarded = claim_rewards(&mut state, &mut staker, USER, REWARD_MINT, 5 * 86400).unwrap();

    let expected: u64 = REWARD_SCHEDULE_IN_DAYS[0..5].iter().sum();
    assert_eq!(rewarded, expected);
    assert_eq!(staker.num_rewards_claimable, 0);
    assert_eq!(staker.last_claimed_at, 5 * 86400);
    assert_eq!(staker.last_updated_at, 5 * 86400);

    // The transfer service is handed the amount in subunits.
    assert_eq!(reward_transfer_subunits(rewarded), expected * 1_000_000_000);
    assert_eq!(reward_transfer_subunits(u64::MAX), u64::MAX);
}

#[test]
fn test_claim_rewards_rejections() {
    let mut state = fresh_pool(0);
    let mut staker: Staker = Default::default();
    staker.staker_id = USER;
    staker.num_rewards_claimable = 42;

    assert_eq!(
        claim_rewards(&mut state, &mut staker, USER, AccountId(88), 100).unwrap_err(),
        ErrorCode::UnexpectedRewardTokenMintId
    );
    assert_eq!(
        claim_rewards(&mut state, &mut staker, AccountId(88), REWARD_MINT, 100).unwrap_err(),
        ErrorCode::StakerIdMismatch
    );
    // Nothing was paid out or stamped by the rejections.
    assert_eq!(staker.num_rewards_claimable, 42);
    assert_eq!(staker.last_claimed_at, 0);
}

#[test]
fn test_extend_mints_and_reanchors() {
    let mut state = fresh_pool(0);
    let (staker, lock) = stake(
        &mut state,
        AccountLoaderStatus::Uninitialized,
        USER,
        NFT_MINT,
        &good_metadata(),
        CREATOR,
        0,
        10,
    )
    .unwrap();
    let mut staker = staker;
    let mut lock = lock;

    // Five days in, five of the ten committed days are left; the lock may
    // be extended by up to the cap less those five days.
    let now = 5 * 86400;
    assert_eq!(lock.max_num_days_may_be_extended(now), MAX_LOCK_DURATION_DAYS - 5);

    extend(&mut state, &mut staker, &mut lock, USER, now, 20).unwrap();

    assert_eq!(lock.locked_at, now);
    assert_eq!(lock.lock_duration_in_days, 25);
    // The extension minted twenty days of fresh entitlement on top of the
    // rolled-over remainder of the first deposit.
    assert_eq!(staker.venft_balance[0], 5000000000 + 20000000000);
    assert_eq!(state.venft_supply[5], 5000000000 + 20000000000);
}

#[test]
fn test_extend_rejections() {
    let mut state = fresh_pool(0);
    let (staker, lock) = stake(
        &mut state,
        AccountLoaderStatus::Uninitialized,
        USER,
        NFT_MINT,
        &good_metadata(),
        CREATOR,
        0,
        10,
    )
    .unwrap();
    let mut staker = staker;
    let mut lock = lock;
    let lock_before = lock;

    assert_eq!(
        extend(&mut state, &mut staker, &mut lock, AccountId(88), 86400, 10).unwrap_err(),
        ErrorCode::StakerIdMismatch
    );
    assert_eq!(
        extend(&mut state, &mut staker, &mut lock, USER, 86400, 0).unwrap_err(),
        ErrorCode::LockDurationTooSmall
    );
    // Nine committed days are left after one day, so at most 173 more fit.
    assert_eq!(
        extend(&mut state, &mut staker, &mut lock, USER, 86400, 174).unwrap_err(),
        ErrorCode::MaxPossibleLockDurationExceeded
    );
    assert_eq!(lock, lock_before);
}

#[test]
fn test_unstake_releases_after_expiry() {
    let mut state = fresh_pool(0);
    let (staker, lock) = stake(
        &mut state,
        AccountLoaderStatus::Uninitialized,
        USER,
        NFT_MINT,
        &good_metadata(),
        CREATOR,
        0,
        2,
    )
    .unwrap();
    let mut staker = staker;

    // Before the committed period has elapsed, release is rejected.
    assert_eq!(
        unstake(&mut state, &mut staker, &lock, USER, NFT_MINT, 2 * 86400).unwrap_err(),
        ErrorCode::NotYetUnlockable
    );
    // The wrong owner is rejected before eligibility is looked at.
    assert_eq!(
        unstake(&mut state, &mut staker, &lock, AccountId(88), NFT_MINT, 3 * 86400).unwrap_err(),
        ErrorCode::StakerIdMismatch
    );
    // The wrong collateral cannot release this record.
    assert_eq!(
        unstake(&mut state, &mut staker, &lock, USER, AccountId(66), 3 * 86400).unwrap_err(),
        ErrorCode::NotYetUnlockable
    );
    assert_eq!(state.total_num_locked_nfts, 1);
    assert_eq!(staker.num_locked_nfts, 1);

    unstake(&mut state, &mut staker, &lock, USER, NFT_MINT, 2 * 86400 + 1).unwrap();

    assert_eq!(state.total_num_locked_nfts, 0);
    assert_eq!(staker.num_locked_nfts, 0);
    // The expired entitlement had already decayed to zero on its own.
    assert!(staker.venft_balance.iter().all(|b| *b == 0));
}
