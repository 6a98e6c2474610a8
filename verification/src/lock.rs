//! The lock record: per-collateral-item lock metadata, with the
//! extension and unlock eligibility rules.

use vstd::prelude::*;
use crate::AccountId;
use crate::arith::{
    clamp_u64_to_i64, sat_add_i64, sat_add_u64, sat_mul_u64, sat_sub_u64,
    spec_clamp_u64_to_i64, spec_sat_add_i64, spec_sat_add_u64, spec_sat_mul_u64,
    spec_sat_sub_u64,
};
use crate::clock::{days_between_timestamps, spec_days_between};

verus! {

/// One locked collateral item: created on deposit, destroyed on release.
#[derive(Clone, Copy, PartialEq, Eq, Structural, Debug)]
pub struct LockedNft {
    pub staker_id: AccountId,
    pub mint_id: AccountId,
    pub locked_at: i64,
    pub lock_duration_in_days: u64,
}

/// Days of the committed lock that have not yet elapsed, floored at zero.
pub open spec fn spec_days_left_before_unlocked(lock: LockedNft, now: int) -> int {
    spec_sat_sub_u64(
        lock.lock_duration_in_days as int,
        spec_days_between(lock.locked_at as int, now),
    )
}

/// How many further days the lock may be extended by: whatever room the
/// remaining committed days leave below the duration cap.
pub open spec fn spec_max_num_days_may_be_extended(lock: LockedNft, now: int) -> int {
    spec_sat_sub_u64(
        crate::MAX_LOCK_DURATION_DAYS as int,
        spec_days_left_before_unlocked(lock, now),
    )
}

/// The lock record after an extension: re-anchored at `now`, committed for
/// the days it still had left plus the granted extension.
pub open spec fn spec_extend_lock_duration(lock: LockedNft, now: i64, extension_days: int) -> LockedNft {
    LockedNft {
        locked_at: now,
        lock_duration_in_days: spec_sat_add_u64(
            spec_days_left_before_unlocked(lock, now as int),
            extension_days,
        ) as u64,
        ..lock
    }
}

/// A lock is releasable once its committed duration has fully elapsed,
/// and only by the owner that created it, for the collateral it names.
pub open spec fn spec_may_be_unlocked(lock: LockedNft, user_id: AccountId, mint_id: AccountId, now: int) -> bool {
    &&& lock.staker_id == user_id
    &&& lock.mint_id == mint_id
    &&& now > spec_sat_add_i64(
        lock.locked_at as int,
        spec_clamp_u64_to_i64(
            spec_sat_mul_u64(
                lock.lock_duration_in_days as int,
                crate::SECONDS_PER_DAY as int,
            ),
        ),
    )
}

impl LockedNft {
    pub fn max_num_days_may_be_extended(&self, current_time: i64) -> (r: u64)
        ensures
            r == spec_max_num_days_may_be_extended(*self, current_time as int),
    {
        let days_elapsed_since_locked = days_between_timestamps(self.locked_at, current_time);
        let days_left_before_unlocked =
            sat_sub_u64(self.lock_duration_in_days, days_elapsed_since_locked);
        sat_sub_u64(crate::MAX_LOCK_DURATION_DAYS, days_left_before_unlocked)
    }

    pub fn extend_lock_duration(&mut self, current_time: i64, lock_duration_in_days: u64)
        ensures
            *final(self) == spec_extend_lock_duration(
                *old(self),
                current_time,
                lock_duration_in_days as int,
            ),
    {
        let days_elapsed_since_locked = days_between_timestamps(self.locked_at, current_time);
        let days_left_before_unlocked =
            sat_sub_u64(self.lock_duration_in_days, days_elapsed_since_locked);
        self.locked_at = current_time;
        self.lock_duration_in_days = sat_add_u64(days_left_before_unlocked, lock_duration_in_days);
    }

    pub fn may_be_unlocked(&self, user_id: AccountId, mint_id: AccountId, current_time: i64) -> (r: bool)
        ensures
            r == spec_may_be_unlocked(*self, user_id, mint_id, current_time as int),
    {
        self.staker_id == user_id && self.mint_id == mint_id
            && current_time > sat_add_i64(
                self.locked_at,
                clamp_u64_to_i64(sat_mul_u64(self.lock_duration_in_days, crate::SECONDS_PER_DAY)),
            )
    }
}

impl Default for LockedNft {
    fn default() -> (r: Self)
        ensures
            r.staker_id == AccountId(0),
            r.mint_id == AccountId(0),
            r.locked_at == 0,
            r.lock_duration_in_days == 0,
    {
        LockedNft {
            staker_id: AccountId(0),
            mint_id: AccountId(0),
            locked_at: 0,
            lock_duration_in_days: 0,
        }
    }
}

} // verus!
