//! The orchestration layer: the observable operations of the pool —
//! initialize, stake (deposit), claim, extend and unstake (release) —
//! sequenced over explicit persisted-state handles.
//!
//! Custody of collateral, transfer of reward funds, signature checking
//! and the persistent keyed store are external collaborators: each
//! operation takes the loaded records and the current timestamp as plain
//! values and either commits a complete new state or, on any validation
//! failure, returns an error having changed nothing.

use vstd::prelude::*;
use crate::AccountId;
use crate::ErrorCode;
use crate::arith::{sat_mul_u64, sat_sub_u64, spec_sat_add_u64, spec_sat_mul_u64, spec_sat_sub_u64};
use crate::clock::{days_between_timestamps, spec_days_between};
use crate::lock::{spec_extend_lock_duration, spec_max_num_days_may_be_extended, LockedNft};
use crate::metadata::{assert_lockable_nft, spec_creators_of, spec_lockable_nft, NftMetadata};
use crate::pool::{zeroed_u64_vec, State, StateView};
use crate::staker::{
    spec_first_day_decay_rate, spec_mint_ok, spec_minted_balance, spec_minted_supply,
    spec_staker_update, Staker, StakerView,
};

verus! {

/// What the persistent store found under a staker's key: a fresh,
/// never-written record, or an existing ledger. The tag lets a deposit
/// branch on first-touch initialization explicitly.
pub enum AccountLoaderStatus {
    Uninitialized,
    Initialized(Staker),
}

/// The pool state with its last-update timestamp stamped.
pub open spec fn spec_stamped(st: StateView, now: i64) -> StateView {
    StateView { last_updated_at: now, ..st }
}

/// The ledger a first-time depositor starts from: everything zero, the
/// window anchored at the time of the deposit.
pub open spec fn spec_fresh_staker(user: AccountId, now: i64) -> StakerView {
    StakerView {
        staker_id: user,
        venft_balance: Seq::new((crate::MAX_LOCK_DURATION_DAYS + 1) as nat, |i: int| 0u64),
        num_locked_nfts: 0,
        num_rewards_claimable: 0,
        last_updated_at: now,
        last_claimed_at: 0,
    }
}

/// The ledger a deposit starts from: the existing one where the store
/// found one, a fresh one otherwise.
pub open spec fn spec_initial_staker(
    status: AccountLoaderStatus,
    user: AccountId,
    now: i64,
) -> StakerView {
    match status {
        AccountLoaderStatus::Initialized(s) => s@,
        AccountLoaderStatus::Uninitialized => spec_fresh_staker(user, now),
    }
}

/// Both ledgers after one minting call: the staker's window and the pool
/// supply gain identical amounts at identical day offsets.
pub open spec fn spec_minted(
    s: StakerView,
    st: StateView,
    now: i64,
    duration_days: int,
) -> (StakerView, StateView) {
    let day_offset = spec_days_between(st.deployed_at as int, now as int);
    let decay_rate = spec_first_day_decay_rate(now as int);
    (
        StakerView {
            venft_balance: spec_minted_balance(s.venft_balance, duration_days, decay_rate),
            ..s
        },
        StateView {
            venft_supply: spec_minted_supply(
                st.venft_supply,
                day_offset,
                duration_days,
                decay_rate,
            ),
            ..st
        },
    )
}

/// Both ledgers after a committed deposit: the pool is stamped, the
/// staker rolled forward, both locked-item counters stepped, and the new
/// lock's entitlement minted into both.
pub open spec fn spec_stake_outcome(
    st0: StateView,
    s0: StakerView,
    now: i64,
    duration_days: int,
) -> (StakerView, StateView) {
    let st1 = spec_stamped(st0, now);
    let s1 = spec_staker_update(s0, st1, now);
    let s2 = StakerView {
        num_locked_nfts: spec_sat_add_u64(s1.num_locked_nfts as int, 1) as u64,
        ..s1
    };
    let st2 = StateView {
        total_num_locked_nfts: spec_sat_add_u64(st1.total_num_locked_nfts as int, 1) as u64,
        ..st1
    };
    spec_minted(s2, st2, now, duration_days)
}

/// Both ledgers after a committed extension: the pool is stamped, the
/// staker rolled forward, and the extension's entitlement minted on top
/// of the decaying balance.
pub open spec fn spec_extend_outcome(
    st0: StateView,
    s0: StakerView,
    now: i64,
    duration_days: int,
) -> (StakerView, StateView) {
    let st1 = spec_stamped(st0, now);
    let s1 = spec_staker_update(s0, st1, now);
    spec_minted(s1, st1, now, duration_days)
}

/// Which error a deposit reports, if any: the authenticity gate's verdict
/// first, then ownership of the ledger, then the duration bounds — a
/// duration below the minimum is its own kind of rejection, distinct from
/// one that exceeds the cap or would run past the emission horizon.
pub open spec fn spec_stake_check(
    gate: Result<(), ErrorCode>,
    owner_ok: bool,
    mint_ok: bool,
    duration_days: int,
) -> Result<(), ErrorCode> {
    match gate {
        Err(e) => Err(e),
        Ok(()) => if !owner_ok {
            Err(ErrorCode::StakerIdMismatch)
        } else if mint_ok {
            Ok(())
        } else if duration_days < crate::MIN_LOCK_DURATION_DAYS as int {
            Err(ErrorCode::LockDurationTooSmall)
        } else {
            Err(ErrorCode::MaxPossibleLockDurationExceeded)
        },
    }
}

/// Creates the pool ledger at deployment time; the reward asset must
/// carry the required fractional precision.
pub fn initialize(
    admin: AccountId,
    reward_token_mint: AccountId,
    reward_token_mint_decimals: u8,
    current_time: i64,
) -> (r: Result<State, ErrorCode>)
    ensures
        r is Ok <==> reward_token_mint_decimals == crate::REWARD_TOKEN_DECIMALS,
        r matches Err(e) ==> e == ErrorCode::UnexpectedRewardTokenMintDecimals,
        r matches Ok(st) ==> st.wf() && st@ == (StateView {
            admin_id: admin,
            reward_token_mint_id: reward_token_mint,
            deployed_at: current_time,
            last_updated_at: current_time,
            total_num_locked_nfts: 0,
            venft_supply: Seq::new(crate::MAX_DURATION_TO_EMIT_REWARDS_DAYS as nat, |i: int| 0u64),
        }),
{
    if reward_token_mint_decimals != crate::REWARD_TOKEN_DECIMALS {
        return Err(ErrorCode::UnexpectedRewardTokenMintDecimals);
    }
    Ok(State {
        admin_id: admin,
        reward_token_mint_id: reward_token_mint,
        deployed_at: current_time,
        last_updated_at: current_time,
        total_num_locked_nfts: 0,
        venft_supply: zeroed_u64_vec(crate::MAX_DURATION_TO_EMIT_REWARDS_DAYS as usize),
    })
}

/// Deposits one collateral item under a lock of `lock_duration_in_days`:
/// gates authenticity, loads or creates the depositor's ledger, rolls it
/// forward, counts the new lock and mints its decaying entitlement into
/// both ledgers. On any rejection nothing is changed.
pub fn stake(
    state: &mut State,
    staker_status: AccountLoaderStatus,
    user: AccountId,
    nft_mint: AccountId,
    nft_metadata: &NftMetadata,
    accepted_creator: AccountId,
    current_time: i64,
    lock_duration_in_days: u64,
) -> (r: Result<(Staker, LockedNft), ErrorCode>)
    requires
        old(state).wf(),
        staker_status matches AccountLoaderStatus::Initialized(s) ==> s.wf(),
    ensures
        final(state).wf(),
        ({
            let gate = spec_lockable_nft(
                nft_mint,
                nft_metadata.mint,
                spec_creators_of(*nft_metadata),
                accepted_creator,
            );
            let owner_ok = match staker_status {
                AccountLoaderStatus::Initialized(s) => s.staker_id == user,
                AccountLoaderStatus::Uninitialized => true,
            };
            let mint_ok = spec_mint_ok(
                old(state)@.deployed_at as int,
                current_time as int,
                lock_duration_in_days as int,
            );
            let check = spec_stake_check(gate, owner_ok, mint_ok, lock_duration_in_days as int);
            let s0 = spec_initial_staker(staker_status, user, current_time);
            let outcome = spec_stake_outcome(
                old(state)@,
                s0,
                current_time,
                lock_duration_in_days as int,
            );
            &&& (r is Ok <==> check is Ok)
            &&& (r matches Err(e) ==> check == Err::<(), ErrorCode>(e) && final(state)@ == old(
                state,
            )@)
            &&& (r matches Ok(pair) ==> {
                &&& pair.0.wf()
                &&& pair.0@ == outcome.0
                &&& final(state)@ == outcome.1
                &&& pair.1 == (LockedNft {
                    staker_id: user,
                    mint_id: nft_mint,
                    locked_at: current_time,
                    lock_duration_in_days,
                })
            })
        }),
{
    match assert_lockable_nft(nft_mint, nft_metadata, accepted_creator) {
        Ok(()) => (),
        Err(e) => {
            return Err(e);
        },
    }

    let mut staker: Staker = match staker_status {
        AccountLoaderStatus::Initialized(s) => {
            if s.staker_id != user {
                return Err(ErrorCode::StakerIdMismatch);
            }
            s
        },
        AccountLoaderStatus::Uninitialized => {
            let fresh = Staker {
                staker_id: user,
                venft_balance: zeroed_u64_vec((crate::MAX_LOCK_DURATION_DAYS + 1) as usize),
                num_locked_nfts: 0,
                num_rewards_claimable: 0,
                last_updated_at: current_time,
                last_claimed_at: 0,
            };
            assert(fresh@ == spec_fresh_staker(user, current_time));
            fresh
        },
    };

    // Validate the duration up front, so that every mutation below is
    // certain to commit: a rejected operation must change nothing.
    let days_elapsed_since_program_deployed: u64 =
        days_between_timestamps(state.deployed_at, current_time);
    let days_left_before_reward_emissions_end: u64 = sat_sub_u64(
        crate::MAX_DURATION_TO_EMIT_REWARDS_DAYS,
        days_elapsed_since_program_deployed,
    );
    let mut max_lock_duration_allowed: u64 = crate::MAX_LOCK_DURATION_DAYS;
    if days_left_before_reward_emissions_end < max_lock_duration_allowed {
        max_lock_duration_allowed = days_left_before_reward_emissions_end;
    }
    if lock_duration_in_days < crate::MIN_LOCK_DURATION_DAYS {
        return Err(ErrorCode::LockDurationTooSmall);
    }
    if lock_duration_in_days > max_lock_duration_allowed {
        return Err(ErrorCode::MaxPossibleLockDurationExceeded);
    }

    let locked_nft = LockedNft {
        staker_id: user,
        mint_id: nft_mint,
        locked_at: current_time,
        lock_duration_in_days,
    };

    state.update(current_time);
    staker.update(state, current_time);
    staker.stake_nft(state);
    match staker.mint_venfts(state, current_time, lock_duration_in_days) {
        Ok(()) => (),
        Err(e) => {
            proof {
                assert(false);
            }
            return Err(e);
        },
    }

    Ok((staker, locked_nft))
}

/// Claims the accrued reward: rolls the ledger forward so freshly
/// elapsed days are included, then empties the claimable accumulator and
/// reports the claimed amount of whole reward tokens. The reward asset
/// presented must be the pool's, and the caller must own the ledger.
pub fn claim_rewards(
    state: &mut State,
    staker: &mut Staker,
    user: AccountId,
    reward_token_mint: AccountId,
    current_time: i64,
) -> (r: Result<u64, ErrorCode>)
    requires
        old(state).wf(),
        old(staker).wf(),
    ensures
        final(state).wf(),
        final(staker).wf(),
        r is Ok <==> (reward_token_mint == old(state)@.reward_token_mint_id
            && user == old(staker)@.staker_id),
        r matches Err(e) ==> {
            &&& final(state)@ == old(state)@
            &&& final(staker)@ == old(staker)@
            &&& e == (if reward_token_mint != old(state)@.reward_token_mint_id {
                ErrorCode::UnexpectedRewardTokenMintId
            } else {
                ErrorCode::StakerIdMismatch
            })
        },
        r matches Ok(amount) ==> {
            let st1 = spec_stamped(old(state)@, current_time);
            let s1 = spec_staker_update(old(staker)@, st1, current_time);
            &&& final(state)@ == st1
            &&& amount == s1.num_rewards_claimable
            &&& final(staker)@ == (StakerView {
                num_rewards_claimable: 0,
                last_claimed_at: current_time,
                ..s1
            })
        },
{
    if reward_token_mint != state.reward_token_mint_id {
        return Err(ErrorCode::UnexpectedRewardTokenMintId);
    }
    if user != staker.staker_id {
        return Err(ErrorCode::StakerIdMismatch);
    }

    state.update(current_time);
    staker.update(state, current_time);

    let num_tokens_rewarded = staker.claim_rewards(current_time);
    Ok(num_tokens_rewarded)
}

/// The amount the reward-asset transfer service is handed for a claim of
/// `num_tokens` whole reward tokens, in subunits.
pub fn reward_transfer_subunits(num_tokens: u64) -> (r: u64)
    ensures
        r == spec_sat_mul_u64(num_tokens as int, crate::SUBUNITS_PER_REWARD_TOKEN as int),
{
    sat_mul_u64(num_tokens, crate::SUBUNITS_PER_REWARD_TOKEN)
}

/// Extends an existing lock by `lock_duration_in_days` further days:
/// rolls the ledger forward, mints the extension's entitlement on top of
/// the existing decaying balance, and re-anchors the lock record. On any
/// rejection nothing is changed.
pub fn extend(
    state: &mut State,
    staker: &mut Staker,
    locked_nft: &mut LockedNft,
    user: AccountId,
    current_time: i64,
    lock_duration_in_days: u64,
) -> (r: Result<(), ErrorCode>)
    requires
        old(state).wf(),
        old(staker).wf(),
    ensures
        final(state).wf(),
        final(staker).wf(),
        ({
            let owner_ok = user == old(staker)@.staker_id;
            let extendable_ok = crate::MIN_LOCK_DURATION_DAYS <= lock_duration_in_days
                && lock_duration_in_days as int <= spec_max_num_days_may_be_extended(
                *old(locked_nft),
                current_time as int,
            );
            let mint_ok = spec_mint_ok(
                old(state)@.deployed_at as int,
                current_time as int,
                lock_duration_in_days as int,
            );
            &&& (r is Ok <==> owner_ok && extendable_ok && mint_ok)
            &&& (r matches Err(e) ==> {
                &&& final(state)@ == old(state)@
                &&& final(staker)@ == old(staker)@
                &&& *final(locked_nft) == *old(locked_nft)
                &&& e == (if !owner_ok {
                    ErrorCode::StakerIdMismatch
                } else if lock_duration_in_days < crate::MIN_LOCK_DURATION_DAYS {
                    ErrorCode::LockDurationTooSmall
                } else {
                    ErrorCode::MaxPossibleLockDurationExceeded
                })
            })
            &&& (r is Ok ==> {
                let outcome = spec_extend_outcome(
                    old(state)@,
                    old(staker)@,
                    current_time,
                    lock_duration_in_days as int,
                );
                &&& final(staker)@ == outcome.0
                &&& final(state)@ == outcome.1
                &&& *final(locked_nft) == spec_extend_lock_duration(
                    *old(locked_nft),
                    current_time,
                    lock_duration_in_days as int,
                )
            })
        }),
{
    if user != staker.staker_id {
        return Err(ErrorCode::StakerIdMismatch);
    }
    let max_num_days_may_be_extended = locked_nft.max_num_days_may_be_extended(current_time);
    if lock_duration_in_days < crate::MIN_LOCK_DURATION_DAYS {
        return Err(ErrorCode::LockDurationTooSmall);
    }
    if lock_duration_in_days > max_num_days_may_be_extended {
        return Err(ErrorCode::MaxPossibleLockDurationExceeded);
    }

    // Validate the mint bounds up front, so that a lock that would run
    // past the emission horizon is rejected before anything is changed.
    let days_elapsed_since_program_deployed: u64 =
        days_between_timestamps(state.deployed_at, current_time);
    let days_left_before_reward_emissions_end: u64 = sat_sub_u64(
        crate::MAX_DURATION_TO_EMIT_REWARDS_DAYS,
        days_elapsed_since_program_deployed,
    );
    let mut max_lock_duration_allowed: u64 = crate::MAX_LOCK_DURATION_DAYS;
    if days_left_before_reward_emissions_end < max_lock_duration_allowed {
        max_lock_duration_allowed = days_left_before_reward_emissions_end;
    }
    if lock_duration_in_days > max_lock_duration_allowed {
        return Err(ErrorCode::MaxPossibleLockDurationExceeded);
    }

    state.update(current_time);
    staker.update(state, current_time);

    match staker.mint_venfts(state, current_time, lock_duration_in_days) {
        Ok(()) => (),
        Err(e) => {
            proof {
                assert(false);
            }
            return Err(e);
        },
    }
    locked_nft.extend_lock_duration(current_time, lock_duration_in_days);

    Ok(())
}

/// Releases a lock whose committed duration has fully elapsed: rolls the
/// ledger forward and steps both locked-item counters back down. The
/// caller must own both the ledger and the lock record; the record
/// itself is destroyed by the store once the release commits.
/// Entitlement is not forcibly zeroed: by construction it has already
/// decayed to zero once the lock period elapsed.
pub fn unstake(
    state: &mut State,
    staker: &mut Staker,
    locked_nft: &LockedNft,
    user: AccountId,
    nft_mint: AccountId,
    current_time: i64,
) -> (r: Result<(), ErrorCode>)
    requires
        old(state).wf(),
        old(staker).wf(),
    ensures
        final(state).wf(),
        final(staker).wf(),
        ({
            let owner_ok = user == old(staker)@.staker_id;
            let unlockable = crate::lock::spec_may_be_unlocked(
                *locked_nft,
                user,
                nft_mint,
                current_time as int,
            );
            &&& (r is Ok <==> owner_ok && unlockable)
            &&& (r matches Err(e) ==> {
                &&& final(state)@ == old(state)@
                &&& final(staker)@ == old(staker)@
                &&& e == (if !owner_ok {
                    ErrorCode::StakerIdMismatch
                } else {
                    ErrorCode::NotYetUnlockable
                })
            })
            &&& (r is Ok ==> {
                let st1 = spec_stamped(old(state)@, current_time);
                let s1 = spec_staker_update(old(staker)@, st1, current_time);
                &&& final(state)@ == (StateView {
                    total_num_locked_nfts: spec_sat_sub_u64(st1.total_num_locked_nfts as int, 1) as u64,
                    ..st1
                })
                &&& final(staker)@ == (StakerView {
                    num_locked_nfts: spec_sat_sub_u64(s1.num_locked_nfts as int, 1) as u64,
                    ..s1
                })
            })
        }),
{
    if user != staker.staker_id {
        return Err(ErrorCode::StakerIdMismatch);
    }
    if !locked_nft.may_be_unlocked(user, nft_mint, current_time) {
        return Err(ErrorCode::NotYetUnlockable);
    }

    state.update(current_time);
    staker.update(state, current_time);

    state.total_num_locked_nfts = sat_sub_u64(state.total_num_locked_nfts, 1);
    staker.num_locked_nfts = sat_sub_u64(staker.num_locked_nfts, 1);

    Ok(())
}

} // verus!
