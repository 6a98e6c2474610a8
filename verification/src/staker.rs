//! The staker ledger: one depositor's rolling entitlement window,
//! claimable balance, and the rollover and minting algorithms.
//!
//! `venft_balance` is a rolling window of `MAX_LOCK_DURATION_DAYS + 1`
//! days: index 0 is the day containing `last_updated_at`, and index `k`
//! is `k` days after it. The window is never indexed by absolute day,
//! only by offset from the owner's last touch; the lazy rollover
//! ([`Staker::update`]) converts elapsed days into claimable reward and
//! slides the window so index 0 denotes "today" again.

use vstd::prelude::*;
use crate::AccountId;
use crate::ErrorCode;
use crate::arith::{
    i64_to_u64_or_max, sat_add_u64, sat_mul_u64, sat_sub_u64, spec_i64_to_u64_or_max,
    spec_sat_add_u64, spec_sat_mul_u64, spec_sat_sub_u64,
};
use crate::clock::{days_between_timestamps, spec_days_between};
use crate::pool::{State, StateView, zeroed_u64_vec};
use crate::schedule::REWARD_SCHEDULE_IN_DAYS;

verus! {

/// Mathematical model of a [`Staker`].
pub ghost struct StakerView {
    pub staker_id: AccountId,
    pub venft_balance: Seq<u64>,
    pub num_locked_nfts: u64,
    pub num_rewards_claimable: u64,
    pub last_updated_at: i64,
    pub last_claimed_at: i64,
}

/// One depositor's ledger, created lazily on first deposit and never
/// destroyed.
#[derive(Debug)]
pub struct Staker {
    pub staker_id: AccountId,
    /// Index 0 starts from the day the staker was last updated.
    pub venft_balance: Vec<u64>,
    pub num_locked_nfts: u64,
    pub num_rewards_claimable: u64,
    pub last_updated_at: i64,
    pub last_claimed_at: i64,
}

impl View for Staker {
    type V = StakerView;

    open spec fn view(&self) -> StakerView {
        StakerView {
            staker_id: self.staker_id,
            venft_balance: self.venft_balance@,
            num_locked_nfts: self.num_locked_nfts,
            num_rewards_claimable: self.num_rewards_claimable,
            last_updated_at: self.last_updated_at,
            last_claimed_at: self.last_claimed_at,
        }
    }
}

/// How many of the staker's window days a rollover at `now` consumes:
/// the days elapsed since the last touch, capped by the window length and
/// by the days the emission horizon has left.
pub open spec fn spec_rollover_count(last_updated_at: int, deployed_at: int, now: int) -> int {
    let elapsed = spec_days_between(last_updated_at, now);
    let since_deployed = spec_days_between(deployed_at, last_updated_at);
    let horizon_left = spec_sat_sub_u64(
        crate::MAX_DURATION_TO_EMIT_REWARDS_DAYS as int,
        since_deployed,
    );
    let capped = if elapsed <= crate::MAX_LOCK_DURATION_DAYS as int {
        elapsed
    } else {
        crate::MAX_LOCK_DURATION_DAYS as int
    };
    if capped <= horizon_left {
        capped
    } else {
        horizon_left
    }
}

/// Reward accrued over the first `count` window days: for each day, the
/// day's emission budget split in proportion to the staker's share of that
/// day's total supply (integer division, floored); a day with zero total
/// supply accrues nothing.
pub open spec fn spec_accrued_rewards(
    claimable: int,
    balance: Seq<u64>,
    supply: Seq<u64>,
    day_offset: int,
    count: int,
) -> int
    decreases count,
{
    if count <= 0 {
        claimable
    } else {
        let day = count - 1;
        let so_far = spec_accrued_rewards(claimable, balance, supply, day_offset, day);
        let total = supply[day_offset + day] as int;
        if total == 0 {
            so_far
        } else {
            spec_sat_add_u64(
                so_far,
                spec_sat_mul_u64(
                    REWARD_SCHEDULE_IN_DAYS[day_offset + day] as int,
                    balance[day] as int,
                ) / total,
            )
        }
    }
}

/// The rolling window slid forward by `count` days: the first `count`
/// entries fall off, and `count` zeroed days enter at the far end.
pub open spec fn spec_rolled_window(balance: Seq<u64>, count: int) -> Seq<u64> {
    balance.subrange(count, balance.len() as int) + Seq::new(count as nat, |i: int| 0u64)
}

/// The staker ledger after a rollover at `now`: a same-day touch changes
/// nothing; otherwise the consumed days accrue reward, the window slides,
/// and the anchor moves to `now`.
pub open spec fn spec_staker_update(s: StakerView, st: StateView, now: i64) -> StakerView {
    let elapsed = spec_days_between(s.last_updated_at as int, now as int);
    if elapsed < 1 {
        s
    } else {
        let day_offset = spec_days_between(st.deployed_at as int, s.last_updated_at as int);
        let count = spec_rollover_count(
            s.last_updated_at as int,
            st.deployed_at as int,
            now as int,
        );
        StakerView {
            venft_balance: spec_rolled_window(s.venft_balance, count),
            num_rewards_claimable: spec_accrued_rewards(
                s.num_rewards_claimable as int,
                s.venft_balance,
                st.venft_supply,
                day_offset,
                count,
            ) as u64,
            last_updated_at: now,
            ..s
        }
    }
}

/// Seconds-in-the-day pro-ration of one whole day's decay: the share of
/// the unit rate that corresponds to the seconds left before the next
/// day boundary. Always in `[1, SUBUNITS_PER_REWARD_TOKEN]`.
pub open spec fn spec_first_day_decay_rate(now: int) -> int {
    let time_of_day = spec_i64_to_u64_or_max(now) % (crate::SECONDS_PER_DAY as int);
    let seconds_left = crate::SECONDS_PER_DAY as int - time_of_day;
    spec_sat_mul_u64(crate::SUBUNITS_PER_REWARD_TOKEN as int, seconds_left)
        / (crate::SECONDS_PER_DAY as int)
}

/// Whether a lock for `duration_days` may mint at `now`: at least the
/// minimum, at most the cap, and never past the emission horizon.
pub open spec fn spec_mint_ok(deployed_at: int, now: int, duration_days: int) -> bool {
    let since_deployed = spec_days_between(deployed_at, now);
    let horizon_left = spec_sat_sub_u64(
        crate::MAX_DURATION_TO_EMIT_REWARDS_DAYS as int,
        since_deployed,
    );
    let cap = if (crate::MAX_LOCK_DURATION_DAYS as int) <= horizon_left {
        crate::MAX_LOCK_DURATION_DAYS as int
    } else {
        horizon_left
    };
    crate::MIN_LOCK_DURATION_DAYS as int <= duration_days && duration_days <= cap
}

/// The amount a valid mint adds at window offset `k`: the full running
/// total on the day of the deposit, then one pro-rated step down, then one
/// whole unit-day-rate down per further day, floored at zero; nothing
/// beyond the lock's last day.
pub open spec fn spec_mint_amount(duration_days: int, decay_rate: int, k: int) -> int {
    let rate = duration_days * crate::SUBUNITS_PER_REWARD_TOKEN as int;
    if k == 0 {
        rate
    } else if 1 <= k && k <= duration_days {
        spec_sat_sub_u64(rate, decay_rate + (k - 1) * crate::SUBUNITS_PER_REWARD_TOKEN as int)
    } else {
        0
    }
}

/// A staker window after a valid mint: every offset gains its mint amount.
pub open spec fn spec_minted_balance(balance: Seq<u64>, duration_days: int, decay_rate: int) -> Seq<u64> {
    Seq::new(
        balance.len(),
        |k: int| spec_sat_add_u64(
            balance[k] as int,
            spec_mint_amount(duration_days, decay_rate, k),
        ) as u64,
    )
}

/// The pool supply after a valid mint: absolute day `day_offset + k`
/// gains what window offset `k` gained; days before the deposit, and any
/// offset past the horizon, are untouched.
pub open spec fn spec_minted_supply(
    supply: Seq<u64>,
    day_offset: int,
    duration_days: int,
    decay_rate: int,
) -> Seq<u64> {
    Seq::new(
        supply.len(),
        |j: int| if j >= day_offset {
            spec_sat_add_u64(
                supply[j] as int,
                spec_mint_amount(duration_days, decay_rate, j - day_offset),
            ) as u64
        } else {
            supply[j]
        },
    )
}

/// The pro-rated first-day decay step is always at least one subunit and
/// at most one whole unit-day-rate.
pub proof fn lemma_first_day_decay_rate_bounds(now: int)
    ensures
        1 <= spec_first_day_decay_rate(now) <= crate::SUBUNITS_PER_REWARD_TOKEN as int,
{
    let spd = crate::SECONDS_PER_DAY as int;
    let spt = crate::SUBUNITS_PER_REWARD_TOKEN as int;
    let time_of_day = spec_i64_to_u64_or_max(now) % spd;
    let seconds_left = spd - time_of_day;
    assert(1 <= seconds_left <= spd);
    assert(spt * 1 <= spt * seconds_left <= spt * spd) by (nonlinear_arith)
        requires
            1 <= seconds_left <= spd,
            spt == crate::SUBUNITS_PER_REWARD_TOKEN as int,
            spd == crate::SECONDS_PER_DAY as int,
    ;
    let product = spec_sat_mul_u64(spt, seconds_left);
    assert(product == spt * seconds_left);
    vstd::arithmetic::div_mod::lemma_div_is_ordered(spt, product, spd);
    vstd::arithmetic::div_mod::lemma_div_is_ordered(product, spt * spd, spd);
    assert(spt / spd == 11574) by (nonlinear_arith)
        requires
            spt == crate::SUBUNITS_PER_REWARD_TOKEN as int,
            spd == crate::SECONDS_PER_DAY as int,
    ;
    assert((spt * spd) / spd == spt) by (nonlinear_arith)
        requires
            spt == crate::SUBUNITS_PER_REWARD_TOKEN as int,
            spd == crate::SECONDS_PER_DAY as int,
    ;
}

impl Staker {
    /// The rolling window always spans one maximal lock plus the deposit
    /// day.
    pub open spec fn wf(&self) -> bool {
        self.venft_balance@.len() == crate::MAX_LOCK_DURATION_DAYS + 1
    }

    /// Rolls the ledger forward to `now`: converts each elapsed window
    /// day into claimable reward in proportion to the staker's share of
    /// that day's total supply, slides the window, and re-anchors it.
    /// Touching the ledger twice in the same day is a no-op.
    #[verifier::rlimit(100)]
    pub fn update(&mut self, state: &State, current_time: i64)
        requires
            old(self).wf(),
            state.wf(),
        ensures
            final(self).wf(),
            final(self)@ == spec_staker_update(old(self)@, state@, current_time),
    {
        let days_elapsed_since_last_updated: u64 =
            days_between_timestamps(self.last_updated_at, current_time);
        if days_elapsed_since_last_updated < 1 {
            return;
        }

        let days_elapsed_since_program_deployed: u64 =
            days_between_timestamps(state.deployed_at, self.last_updated_at);
        let days_left_before_reward_emissions_end: u64 = sat_sub_u64(
            crate::MAX_DURATION_TO_EMIT_REWARDS_DAYS,
            days_elapsed_since_program_deployed,
        );

        let mut count: u64 = days_elapsed_since_last_updated;
        if crate::MAX_LOCK_DURATION_DAYS < count {
            count = crate::MAX_LOCK_DURATION_DAYS;
        }
        if days_left_before_reward_emissions_end < count {
            count = days_left_before_reward_emissions_end;
        }
        let rollover_count: usize = count as usize;
        assert(rollover_count as int == spec_rollover_count(
            old(self)@.last_updated_at as int,
            state@.deployed_at as int,
            current_time as int,
        ));

        self.last_updated_at = current_time;

        let ghost balance0 = old(self)@.venft_balance;
        let ghost claimable0 = old(self)@.num_rewards_claimable;
        let ghost day_offset = days_elapsed_since_program_deployed as int;

        // Roll over the days that have elapsed since the staker last
        // interacted with the pool, accruing the staker's share of each
        // day's emission.
        let mut day: usize = 0;
        while day < rollover_count
            invariant
                day <= rollover_count,
                rollover_count <= crate::MAX_LOCK_DURATION_DAYS,
                rollover_count >= 1 ==> days_elapsed_since_program_deployed + rollover_count
                    <= crate::MAX_DURATION_TO_EMIT_REWARDS_DAYS,
                day_offset == days_elapsed_since_program_deployed as int,
                self.wf(),
                state.wf(),
                self.venft_balance@ == balance0,
                self.num_rewards_claimable as int == spec_accrued_rewards(
                    claimable0 as int,
                    balance0,
                    state@.venft_supply,
                    day_offset,
                    day as int,
                ),
                self.staker_id == old(self).staker_id,
                self.num_locked_nfts == old(self).num_locked_nfts,
                self.last_updated_at == current_time,
                self.last_claimed_at == old(self).last_claimed_at,
            decreases rollover_count - day,
        {
            let idx: usize = (days_elapsed_since_program_deployed as usize) + day;
            let reward_emitted: u64 = REWARD_SCHEDULE_IN_DAYS[idx];
            let staker_venft_balance: u64 = self.venft_balance[day];
            let total_venft_supply: u64 = state.venft_supply[idx];
            if total_venft_supply != 0 {
                self.num_rewards_claimable = sat_add_u64(
                    self.num_rewards_claimable,
                    sat_mul_u64(reward_emitted, staker_venft_balance) / total_venft_supply,
                );
            }
            day = day + 1;
        }

        // Slide the window left by the consumed days, zeroing the days
        // that enter at the far end.
        let window: usize = (crate::MAX_LOCK_DURATION_DAYS + 1) as usize;
        let mut k: usize = 0;
        while k < window - rollover_count
            invariant
                window == crate::MAX_LOCK_DURATION_DAYS + 1,
                rollover_count <= crate::MAX_LOCK_DURATION_DAYS,
                k <= window - rollover_count,
                self.wf(),
                self.venft_balance@.len() == window,
                balance0.len() == window,
                forall|j: int| 0 <= j < k ==> self.venft_balance@[j] == balance0[j + rollover_count],
                forall|j: int| k <= j < window ==> self.venft_balance@[j] == balance0[j],
                self.staker_id == old(self).staker_id,
                self.num_locked_nfts == old(self).num_locked_nfts,
                self.num_rewards_claimable == spec_accrued_rewards(
                    claimable0 as int,
                    balance0,
                    state@.venft_supply,
                    day_offset,
                    rollover_count as int,
                ) as u64,
                self.last_updated_at == current_time,
                self.last_claimed_at == old(self).last_claimed_at,
            decreases window - rollover_count - k,
        {
            let carried: u64 = self.venft_balance[k + rollover_count];
            self.venft_balance.set(k, carried);
            k = k + 1;
        }
        while k < window
            invariant
                window == crate::MAX_LOCK_DURATION_DAYS + 1,
                rollover_count <= crate::MAX_LOCK_DURATION_DAYS,
                window - rollover_count <= k <= window,
                self.wf(),
                self.venft_balance@.len() == window,
                balance0.len() == window,
                forall|j: int| 0 <= j < window - rollover_count
                    ==> self.venft_balance@[j] == balance0[j + rollover_count],
                forall|j: int| window - rollover_count <= j < k ==> self.venft_balance@[j] == 0u64,
                self.staker_id == old(self).staker_id,
                self.num_locked_nfts == old(self).num_locked_nfts,
                self.num_rewards_claimable == spec_accrued_rewards(
                    claimable0 as int,
                    balance0,
                    state@.venft_supply,
                    day_offset,
                    rollover_count as int,
                ) as u64,
                self.last_updated_at == current_time,
                self.last_claimed_at == old(self).last_claimed_at,
            decreases window - k,
        {
            self.venft_balance.set(k, 0);
            k = k + 1;
        }
        proof {
            assert(self.venft_balance@ =~= spec_rolled_window(balance0, rollover_count as int));
        }
    }

    /// Empties the claimable-reward accumulator, stamps the time of the
    /// claim, and returns the amount that was claimable.
    pub fn claim_rewards(&mut self, current_time: i64) -> (r: u64)
        ensures
            r == old(self)@.num_rewards_claimable,
            final(self)@ == (StakerView {
                num_rewards_claimable: 0,
                last_claimed_at: current_time,
                ..old(self)@
            }),
    {
        let num_tokens_rewarded = self.num_rewards_claimable;
        self.num_rewards_claimable = 0;
        self.last_claimed_at = current_time;
        num_tokens_rewarded
    }

    /// Counts one more locked item on both the staker and the pool.
    pub fn stake_nft(&mut self, state: &mut State)
        ensures
            final(self)@ == (StakerView {
                num_locked_nfts: spec_sat_add_u64(old(self)@.num_locked_nfts as int, 1) as u64,
                ..old(self)@
            }),
            final(state)@ == (StateView {
                total_num_locked_nfts: spec_sat_add_u64(
                    old(state)@.total_num_locked_nfts as int,
                    1,
                ) as u64,
                ..old(state)@
            }),
    {
        self.num_locked_nfts = sat_add_u64(self.num_locked_nfts, 1);
        state.total_num_locked_nfts = sat_add_u64(state.total_num_locked_nfts, 1);
    }

    /// Mints decaying entitlement for a lock of `lock_duration_in_days`
    /// starting at `current_time`, adding identical amounts at identical
    /// day offsets to the staker's window and, for offsets still inside
    /// the horizon, to the pool supply. The entitlement only counts
    /// toward each day it is scheduled for; amounts superpose on whatever
    /// the ledgers already hold.
    #[verifier::rlimit(100)]
    pub fn mint_venfts(
        &mut self,
        state: &mut State,
        current_time: i64,
        lock_duration_in_days: u64,
    ) -> (r: Result<(), ErrorCode>)
        requires
            old(self).wf(),
            old(state).wf(),
        ensures
            final(self).wf(),
            final(state).wf(),
            r is Ok <==> spec_mint_ok(
                old(state)@.deployed_at as int,
                current_time as int,
                lock_duration_in_days as int,
            ),
            r is Err ==> {
                &&& r == Err::<(), ErrorCode>(
                    if lock_duration_in_days < crate::MIN_LOCK_DURATION_DAYS {
                        ErrorCode::LockDurationTooSmall
                    } else {
                        ErrorCode::MaxPossibleLockDurationExceeded
                    },
                )
                &&& final(self)@ == old(self)@
                &&& final(state)@ == old(state)@
            },
            r is Ok ==> {
                let day_offset = spec_days_between(
                    old(state)@.deployed_at as int,
                    current_time as int,
                );
                let decay_rate = spec_first_day_decay_rate(current_time as int);
                &&& final(self)@ == (StakerView {
                    venft_balance: spec_minted_balance(
                        old(self)@.venft_balance,
                        lock_duration_in_days as int,
                        decay_rate,
                    ),
                    ..old(self)@
                })
                &&& final(state)@ == (StateView {
                    venft_supply: spec_minted_supply(
                        old(state)@.venft_supply,
                        day_offset,
                        lock_duration_in_days as int,
                        decay_rate,
                    ),
                    ..old(state)@
                })
            },
    {
        // First, assert that the lock duration in days is acceptable.
        let days_elapsed_since_program_deployed: u64 =
            days_between_timestamps(state.deployed_at, current_time);
        let days_left_before_reward_emissions_end: u64 = sat_sub_u64(
            crate::MAX_DURATION_TO_EMIT_REWARDS_DAYS,
            days_elapsed_since_program_deployed,
        );

        let mut max_lock_duration_allowed: u64 = crate::MAX_LOCK_DURATION_DAYS;
        if days_left_before_reward_emissions_end < max_lock_duration_allowed {
            max_lock_duration_allowed = days_left_before_reward_emissions_end;
        }

        if lock_duration_in_days < crate::MIN_LOCK_DURATION_DAYS {
            return Err(ErrorCode::LockDurationTooSmall);
        }
        if lock_duration_in_days > max_lock_duration_allowed {
            return Err(ErrorCode::MaxPossibleLockDurationExceeded);
        }

        // Second, mint entitlement over the lock duration. Every amount is
        // accounted for in the total supply as well, as far as the
        // emission horizon reaches.
        let day_offset: usize = days_elapsed_since_program_deployed as usize;
        let duration = lock_duration_in_days;
        proof {
            assert(duration * crate::SUBUNITS_PER_REWARD_TOKEN
                <= 182 * crate::SUBUNITS_PER_REWARD_TOKEN) by (nonlinear_arith)
                requires
                    duration <= 182,
            ;
        }
        let mut mint_amount: u64 = sat_mul_u64(duration, crate::SUBUNITS_PER_REWARD_TOKEN);

        let time_of_day: u64 = i64_to_u64_or_max(current_time) % crate::SECONDS_PER_DAY;
        let seconds_left_before_next_day: u64 = sat_sub_u64(crate::SECONDS_PER_DAY, time_of_day);
        let first_day_decay_rate: u64 =
            sat_mul_u64(crate::SUBUNITS_PER_REWARD_TOKEN, seconds_left_before_next_day)
                / crate::SECONDS_PER_DAY;
        proof {
            lemma_first_day_decay_rate_bounds(current_time as int);
            assert(first_day_decay_rate as int == spec_first_day_decay_rate(current_time as int));
        }
        let ghost decay_rate = first_day_decay_rate as int;
        let ghost balance0 = old(self)@.venft_balance;
        let ghost supply0 = old(state)@.venft_supply;
        let ghost d = duration as int;

        // The day of the deposit holds the full running total.
        if first_day_decay_rate > 0 {
            let b0 = self.venft_balance[0];
            self.venft_balance.set(0, sat_add_u64(b0, mint_amount));
            let s0 = state.venft_supply[day_offset];
            state.venft_supply.set(day_offset, sat_add_u64(s0, mint_amount));
            mint_amount = sat_sub_u64(mint_amount, first_day_decay_rate);
        }

        // Each further day of the lock holds one decay step less.
        let mut i: u64 = 0;
        while i < duration
            invariant
                i <= duration,
                1 <= duration <= crate::MAX_LOCK_DURATION_DAYS,
                d == duration as int,
                decay_rate == first_day_decay_rate as int,
                1 <= first_day_decay_rate <= crate::SUBUNITS_PER_REWARD_TOKEN,
                day_offset == days_elapsed_since_program_deployed as int,
                day_offset + duration <= crate::MAX_DURATION_TO_EMIT_REWARDS_DAYS,
                self.wf(),
                state.wf(),
                balance0.len() == crate::MAX_LOCK_DURATION_DAYS + 1,
                supply0.len() == crate::MAX_DURATION_TO_EMIT_REWARDS_DAYS,
                mint_amount as int == spec_sat_sub_u64(
                    d * crate::SUBUNITS_PER_REWARD_TOKEN as int,
                    decay_rate + i * crate::SUBUNITS_PER_REWARD_TOKEN as int,
                ),
                forall|k: int| 0 <= k <= i ==> self.venft_balance@[k] as int
                    == spec_sat_add_u64(balance0[k] as int, spec_mint_amount(d, decay_rate, k)),
                forall|k: int| i < k < balance0.len() ==> self.venft_balance@[k] == balance0[k],
                forall|j: int| day_offset <= j <= day_offset + i && j < supply0.len()
                    ==> state.venft_supply@[j] as int == spec_sat_add_u64(
                        supply0[j] as int,
                        spec_mint_amount(d, decay_rate, j - day_offset),
                    ),
                forall|j: int| 0 <= j < day_offset ==> state.venft_supply@[j] == supply0[j],
                forall|j: int| day_offset + i < j < supply0.len()
                    ==> state.venft_supply@[j] == supply0[j],
                self.staker_id == old(self).staker_id,
                self.num_locked_nfts == old(self).num_locked_nfts,
                self.num_rewards_claimable == old(self).num_rewards_claimable,
                self.last_updated_at == old(self).last_updated_at,
                self.last_claimed_at == old(self).last_claimed_at,
                state.admin_id == old(state).admin_id,
                state.reward_token_mint_id == old(state).reward_token_mint_id,
                state.deployed_at == old(state).deployed_at,
                state.last_updated_at == old(state).last_updated_at,
                state.total_num_locked_nfts == old(state).total_num_locked_nfts,
            decreases duration - i,
        {
            let k: usize = (i as usize) + 1;
            let bk = self.venft_balance[k];
            self.venft_balance.set(k, sat_add_u64(bk, mint_amount));
            let j: usize = day_offset + k;
            if j < crate::MAX_DURATION_TO_EMIT_REWARDS_DAYS as usize {
                let sj = state.venft_supply[j];
                state.venft_supply.set(j, sat_add_u64(sj, mint_amount));
            }
            mint_amount = sat_sub_u64(mint_amount, crate::SUBUNITS_PER_REWARD_TOKEN);
            i = i + 1;
        }

        // Any subunits still unaccounted for would spill into the day
        // after the lock's last day; the pro-rated first step is always
        // positive, so the running total is in fact exhausted exactly.
        assert(mint_amount == 0);
        if mint_amount > 0 {
            let k: usize = (duration as usize) + 1;
            if k < self.venft_balance.len() {
                let bk = self.venft_balance[k];
                self.venft_balance.set(k, sat_add_u64(bk, mint_amount));
            }
            let j: usize = day_offset + (duration as usize) + 1;
            if j < crate::MAX_DURATION_TO_EMIT_REWARDS_DAYS as usize {
                let sj = state.venft_supply[j];
                state.venft_supply.set(j, sat_add_u64(sj, mint_amount));
            }
        }

        proof {
            assert(self.venft_balance@ =~= spec_minted_balance(balance0, d, decay_rate));
            assert(state.venft_supply@ =~= spec_minted_supply(
                supply0,
                day_offset as int,
                d,
                decay_rate,
            ));
        }

        Ok(())
    }
}

impl Default for Staker {
    fn default() -> (r: Self)
        ensures
            r.wf(),
            r.staker_id == AccountId(0),
            r.venft_balance@ == Seq::new((crate::MAX_LOCK_DURATION_DAYS + 1) as nat, |i: int| 0u64),
            r.num_locked_nfts == 0,
            r.num_rewards_claimable == 0,
            r.last_updated_at == 0,
            r.last_claimed_at == 0,
    {
        Staker {
            staker_id: AccountId(0),
            venft_balance: zeroed_u64_vec((crate::MAX_LOCK_DURATION_DAYS + 1) as usize),
            num_locked_nfts: 0,
            num_rewards_claimable: 0,
            last_updated_at: 0,
            last_claimed_at: 0,
        }
    }
}

} // verus!
