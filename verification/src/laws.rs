//! Laws of the ledger: properties that relate several operations, stated
//! over the same spec functions the operations' contracts use, and proved
//! once and for all.

use vstd::prelude::*;
use crate::clock::spec_days_between;
use crate::lock::{
    spec_days_left_before_unlocked, spec_extend_lock_duration,
    spec_max_num_days_may_be_extended, LockedNft,
};
use crate::pool::StateView;
use crate::staker::{
    lemma_first_day_decay_rate_bounds, spec_first_day_decay_rate, spec_mint_amount,
    spec_minted_balance, spec_minted_supply, spec_rollover_count, spec_staker_update, StakerView,
};

verus! {

/// `days_between` counts zero days whenever the span does not run
/// forward, and otherwise the exact whole-day count of the span, as long
/// as the span fits a signed timestamp difference.
pub proof fn lemma_days_between_exact(start: int, end: int)
    ensures
        end <= start ==> spec_days_between(start, end) == 0,
        start < end && end - start <= i64::MAX ==> spec_days_between(start, end) == (end - start)
            / (crate::SECONDS_PER_DAY as int),
{
}

/// Rolling a staker ledger over twice at the same instant changes
/// nothing beyond what the first rollover changed.
pub proof fn lemma_rollover_idempotent(s: StakerView, st: StateView, now: i64)
    ensures
        spec_staker_update(spec_staker_update(s, st, now), st, now) == spec_staker_update(
            s,
            st,
            now,
        ),
{
    let s1 = spec_staker_update(s, st, now);
    if spec_days_between(s.last_updated_at as int, now as int) >= 1 {
        assert(s1.last_updated_at == now);
        assert(spec_days_between(now as int, now as int) == 0);
    }
}

/// Rollover is idempotent within a calendar day: once a rollover has
/// anchored the ledger at `t1`, a second touch at any `t2` of the same
/// day — no whole day later — is a no-op.
pub proof fn lemma_rollover_same_day_noop(s: StakerView, st: StateView, t1: i64, t2: i64)
    requires
        spec_days_between(s.last_updated_at as int, t1 as int) >= 1,
        spec_days_between(t1 as int, t2 as int) == 0,
    ensures
        spec_staker_update(spec_staker_update(s, st, t1), st, t2) == spec_staker_update(
            s,
            st,
            t1,
        ),
{
    let s1 = spec_staker_update(s, st, t1);
    assert(s1.last_updated_at == t1);
}

/// An accepted extension always leaves the lock's committed duration
/// within `[MIN_LOCK_DURATION_DAYS, MAX_LOCK_DURATION_DAYS]`: the days
/// already committed plus the granted extension never exceed the cap,
/// and never fall below the minimum.
pub proof fn lemma_extension_stays_within_bounds(lock: LockedNft, now: i64, extension_days: u64)
    requires
        crate::MIN_LOCK_DURATION_DAYS <= extension_days,
        extension_days as int <= spec_max_num_days_may_be_extended(lock, now as int),
    ensures
        ({
            let extended = spec_extend_lock_duration(lock, now, extension_days as int);
            crate::MIN_LOCK_DURATION_DAYS <= extended.lock_duration_in_days
                && extended.lock_duration_in_days <= crate::MAX_LOCK_DURATION_DAYS
        }),
{
    let days_left = spec_days_left_before_unlocked(lock, now as int);
    assert(days_left + extension_days as int <= crate::MAX_LOCK_DURATION_DAYS as int);
}

/// Total decay across the first `n` steps of one mint's day-by-day
/// schedule: the sum of the drops between consecutive day amounts.
pub open spec fn spec_mint_decay_total(duration_days: int, decay_rate: int, n: int) -> int
    decreases n,
{
    if n <= 0 {
        0
    } else {
        spec_mint_decay_total(duration_days, decay_rate, n - 1) + (spec_mint_amount(
            duration_days,
            decay_rate,
            n - 1,
        ) - spec_mint_amount(duration_days, decay_rate, n))
    }
}

/// The decay total telescopes: over `n` steps it is exactly the first
/// day's amount less the amount still scheduled on day `n`.
pub proof fn lemma_mint_decay_telescopes(duration_days: int, decay_rate: int, n: int)
    requires
        0 <= n,
    ensures
        spec_mint_decay_total(duration_days, decay_rate, n) == spec_mint_amount(
            duration_days,
            decay_rate,
            0,
        ) - spec_mint_amount(duration_days, decay_rate, n),
    decreases n,
{
    if n > 0 {
        lemma_mint_decay_telescopes(duration_days, decay_rate, n - 1);
    }
}

/// One minting call reconciles exactly: for any valid duration, the day
/// of the deposit holds the full rate `duration_days ×
/// SUBUNITS_PER_REWARD_TOKEN`, nothing is scheduled past the lock's last
/// day, the day amounts never increase, and the decay steps — the
/// pro-rated first step, the whole-unit daily steps and the final
/// remainder — sum to exactly the full rate: no subunit is lost to the
/// splitting.
pub proof fn lemma_mint_decay_reconciles(duration_days: int, now: int)
    requires
        crate::MIN_LOCK_DURATION_DAYS as int <= duration_days,
        duration_days <= crate::MAX_LOCK_DURATION_DAYS as int,
    ensures
        ({
            let decay_rate = spec_first_day_decay_rate(now);
            let rate = duration_days * crate::SUBUNITS_PER_REWARD_TOKEN as int;
            &&& spec_mint_amount(duration_days, decay_rate, 0) == rate
            &&& spec_mint_amount(duration_days, decay_rate, duration_days + 1) == 0
            &&& forall|k: int|
                0 <= k ==> #[trigger] spec_mint_amount(duration_days, decay_rate, k + 1)
                    <= spec_mint_amount(duration_days, decay_rate, k)
            &&& spec_mint_decay_total(duration_days, decay_rate, duration_days + 1) == rate
        }),
{
    let decay_rate = spec_first_day_decay_rate(now);
    let rate = duration_days * crate::SUBUNITS_PER_REWARD_TOKEN as int;
    lemma_first_day_decay_rate_bounds(now);
    assert(crate::SUBUNITS_PER_REWARD_TOKEN as int * 1 <= rate) by (nonlinear_arith)
        requires
            1 <= duration_days,
            rate == duration_days * crate::SUBUNITS_PER_REWARD_TOKEN as int,
    ;
    assert forall|k: int| 0 <= k implies #[trigger] spec_mint_amount(duration_days, decay_rate, k + 1)
        <= spec_mint_amount(duration_days, decay_rate, k) by {
        assert((k - 1) * crate::SUBUNITS_PER_REWARD_TOKEN as int <= k * crate::SUBUNITS_PER_REWARD_TOKEN as int)
            by (nonlinear_arith);
    }
    lemma_mint_decay_telescopes(duration_days, decay_rate, duration_days + 1);
}

/// One minting call adds to the pool's supply of absolute day `j`
/// exactly what it adds to the staker window offset aligned to `j` —
/// offset `j - day_offset` — for every day of the horizon, and touches
/// no earlier day. Deposits therefore preserve, for every day, the
/// equality between pool supply and the sum of all stakers' aligned
/// balances: each deposit moves one staker's aligned entry and the
/// pool's entry by the same amount, and increments from different
/// depositors commute. The window and supply entries involved must be
/// far enough from the numeric cap that the increments do not saturate.
pub proof fn lemma_mint_aligns_pool_and_staker(
    balance: Seq<u64>,
    supply: Seq<u64>,
    day_offset: int,
    duration_days: int,
    decay_rate: int,
)
    requires
        balance.len() == crate::MAX_LOCK_DURATION_DAYS + 1,
        supply.len() == crate::MAX_DURATION_TO_EMIT_REWARDS_DAYS,
        0 <= day_offset,
        crate::MIN_LOCK_DURATION_DAYS as int <= duration_days,
        duration_days <= crate::MAX_LOCK_DURATION_DAYS as int,
        0 <= decay_rate,
        forall|k: int|
            0 <= k < balance.len() ==> balance[k] as int <= u64::MAX as int
                - crate::MAX_LOCK_DURATION_DAYS as int * crate::SUBUNITS_PER_REWARD_TOKEN as int,
        forall|j: int|
            0 <= j < supply.len() ==> supply[j] as int <= u64::MAX as int
                - crate::MAX_LOCK_DURATION_DAYS as int * crate::SUBUNITS_PER_REWARD_TOKEN as int,
    ensures
        forall|j: int|
            day_offset <= j < supply.len() && j - day_offset < balance.len()
                ==> spec_minted_supply(supply, day_offset, duration_days, decay_rate)[j] as int
                    - supply[j] as int == spec_minted_balance(
                    balance,
                    duration_days,
                    decay_rate,
                )[j - day_offset] as int - balance[j - day_offset] as int,
        forall|j: int|
            0 <= j < day_offset && j < supply.len() ==> spec_minted_supply(
                supply,
                day_offset,
                duration_days,
                decay_rate,
            )[j] == supply[j],
{
    let cap = crate::MAX_LOCK_DURATION_DAYS as int * crate::SUBUNITS_PER_REWARD_TOKEN as int;
    assert forall|k: int| 0 <= k implies 0 <= #[trigger] spec_mint_amount(duration_days, decay_rate, k)
        <= cap by {
        assert(duration_days * crate::SUBUNITS_PER_REWARD_TOKEN as int <= cap) by (nonlinear_arith)
            requires
                duration_days <= crate::MAX_LOCK_DURATION_DAYS as int,
                cap == crate::MAX_LOCK_DURATION_DAYS as int
                    * crate::SUBUNITS_PER_REWARD_TOKEN as int,
        ;
    }
}

/// A rollover never touches the pool, and slides the staker's window in
/// lockstep with its anchor: at day-boundary timestamps, and as long as
/// the elapsed gap stays within one window length and within the
/// horizon, the entry aligned to any absolute day still inside the
/// window keeps its value, and the days that enter the window hold zero.
pub proof fn lemma_rollover_keeps_alignment(s: StakerView, st: StateView, now: i64)
    requires
        s.venft_balance.len() == crate::MAX_LOCK_DURATION_DAYS + 1,
        0 <= st.deployed_at <= s.last_updated_at <= now,
        st.deployed_at as int % (crate::SECONDS_PER_DAY as int) == 0,
        s.last_updated_at as int % (crate::SECONDS_PER_DAY as int) == 0,
        now as int % (crate::SECONDS_PER_DAY as int) == 0,
        1 <= spec_days_between(s.last_updated_at as int, now as int),
        spec_days_between(s.last_updated_at as int, now as int)
            <= crate::MAX_LOCK_DURATION_DAYS as int,
        spec_days_between(st.deployed_at as int, s.last_updated_at as int) + spec_days_between(
            s.last_updated_at as int,
            now as int,
        ) <= crate::MAX_DURATION_TO_EMIT_REWARDS_DAYS as int,
    ensures
        ({
            let elapsed = spec_days_between(s.last_updated_at as int, now as int);
            let s1 = spec_staker_update(s, st, now);
            // The anchor advances by exactly the days that the window
            // slides by, so surviving entries keep their absolute day.
            &&& spec_days_between(st.deployed_at as int, now as int) == spec_days_between(
                st.deployed_at as int,
                s.last_updated_at as int,
            ) + elapsed
            &&& s1.last_updated_at == now
            &&& forall|k: int|
                0 <= k < s.venft_balance.len() - elapsed ==> s1.venft_balance[k]
                    == s.venft_balance[k + elapsed]
            &&& forall|k: int|
                s.venft_balance.len() - elapsed <= k < s.venft_balance.len()
                    ==> s1.venft_balance[k] == 0u64
        }),
{
    let spd = crate::SECONDS_PER_DAY as int;
    let a = s.last_updated_at as int - st.deployed_at as int;
    let b = now as int - s.last_updated_at as int;
    vstd::arithmetic::div_mod::lemma_fundamental_div_mod(a, spd);
    vstd::arithmetic::div_mod::lemma_fundamental_div_mod(b, spd);
    vstd::arithmetic::div_mod::lemma_sub_mod_noop(
        s.last_updated_at as int,
        st.deployed_at as int,
        spd,
    );
    vstd::arithmetic::div_mod::lemma_sub_mod_noop(now as int, s.last_updated_at as int, spd);
    vstd::arithmetic::div_mod::lemma_mod_self_0(spd);
    assert(a % spd == 0);
    assert(b % spd == 0);
    let x = a / spd;
    let y = b / spd;
    assert(a + b == spd * (x + y)) by (nonlinear_arith)
        requires
            a == spd * x + a % spd,
            b == spd * y + b % spd,
            a % spd == 0,
            b % spd == 0,
    ;
    vstd::arithmetic::div_mod::lemma_div_multiples_vanish(x + y, spd);
    let elapsed = spec_days_between(s.last_updated_at as int, now as int);
    let count = spec_rollover_count(s.last_updated_at as int, st.deployed_at as int, now as int);
    assert(count == elapsed);
}

/// What one staker's ledger contributes to absolute day `dd`: the window
/// entry aligned to that day — the window is anchored at the day of the
/// staker's last touch — or nothing if the day lies outside the window.
pub open spec fn spec_contribution(s: StakerView, deployed_at: i64, dd: int) -> int {
    let anchor = spec_days_between(deployed_at as int, s.last_updated_at as int);
    if anchor <= dd < anchor + s.venft_balance.len() {
        s.venft_balance[dd - anchor] as int
    } else {
        0
    }
}

/// The combined contribution of a group of stakers to absolute day `dd`.
pub open spec fn spec_total_contribution(
    stakers: Seq<StakerView>,
    deployed_at: i64,
    dd: int,
) -> int
    decreases stakers.len(),
{
    if stakers.len() == 0 {
        0
    } else {
        spec_total_contribution(stakers.drop_last(), deployed_at, dd) + spec_contribution(
            stakers.last(),
            deployed_at,
            dd,
        )
    }
}

/// Changing one member of a group changes the combined contribution by
/// exactly that member's change.
pub proof fn lemma_total_contribution_one_change(
    before: Seq<StakerView>,
    after: Seq<StakerView>,
    deployed_at: i64,
    i: int,
    dd: int,
)
    requires
        before.len() == after.len(),
        0 <= i < before.len(),
        forall|j: int| 0 <= j < before.len() && j != i ==> before[j] == after[j],
    ensures
        spec_total_contribution(after, deployed_at, dd) - spec_total_contribution(
            before,
            deployed_at,
            dd,
        ) == spec_contribution(after[i], deployed_at, dd) - spec_contribution(
            before[i],
            deployed_at,
            dd,
        ),
    decreases before.len(),
{
    if i == before.len() - 1 {
        assert(before.drop_last() =~= after.drop_last());
    } else {
        lemma_total_contribution_one_change(
            before.drop_last(),
            after.drop_last(),
            deployed_at,
            i,
            dd,
        );
    }
}

/// A deposit or extension preserves the supply invariant: if, for every
/// absolute day from the operation's day to the end of the horizon, the
/// pool supply equals the combined aligned balances of all stakers, the
/// equality still holds after the mint — only the depositor's window and
/// the pool supply move, and they move in lockstep. Increments from
/// independent depositors therefore commute, and per-day totals are
/// order-independent. The entries involved must be far enough from the
/// numeric cap that no increment saturates.
pub proof fn lemma_mint_preserves_supply_invariant(
    stakers: Seq<StakerView>,
    minted_stakers: Seq<StakerView>,
    supply: Seq<u64>,
    deployed_at: i64,
    now: i64,
    i: int,
    duration_days: int,
    decay_rate: int,
)
    requires
        supply.len() == crate::MAX_DURATION_TO_EMIT_REWARDS_DAYS,
        0 <= i < stakers.len(),
        minted_stakers.len() == stakers.len(),
        forall|j: int| 0 <= j < stakers.len() && j != i ==> stakers[j] == minted_stakers[j],
        stakers[i].venft_balance.len() == crate::MAX_LOCK_DURATION_DAYS + 1,
        // The depositor's window was rolled forward before the mint: it
        // is anchored at the day of the deposit.
        spec_days_between(deployed_at as int, stakers[i].last_updated_at as int)
            == spec_days_between(deployed_at as int, now as int),
        minted_stakers[i] == (StakerView {
            venft_balance: spec_minted_balance(
                stakers[i].venft_balance,
                duration_days,
                decay_rate,
            ),
            ..stakers[i]
        }),
        crate::MIN_LOCK_DURATION_DAYS as int <= duration_days,
        duration_days <= crate::MAX_LOCK_DURATION_DAYS as int,
        0 <= decay_rate,
        forall|k: int|
            0 <= k < stakers[i].venft_balance.len() ==> stakers[i].venft_balance[k] as int
                <= u64::MAX as int - crate::MAX_LOCK_DURATION_DAYS as int
                    * crate::SUBUNITS_PER_REWARD_TOKEN as int,
        forall|j: int|
            0 <= j < supply.len() ==> supply[j] as int <= u64::MAX as int
                - crate::MAX_LOCK_DURATION_DAYS as int * crate::SUBUNITS_PER_REWARD_TOKEN as int,
        forall|dd: int|
            spec_days_between(deployed_at as int, now as int) <= dd < supply.len()
                ==> supply[dd] as int == spec_total_contribution(stakers, deployed_at, dd),
    ensures
        forall|dd: int|
            spec_days_between(deployed_at as int, now as int) <= dd < supply.len()
                ==> #[trigger] spec_minted_supply(
                    supply,
                    spec_days_between(deployed_at as int, now as int),
                    duration_days,
                    decay_rate,
                )[dd] as int == spec_total_contribution(minted_stakers, deployed_at, dd),
{
    let day_offset = spec_days_between(deployed_at as int, now as int);
    let cap = crate::MAX_LOCK_DURATION_DAYS as int * crate::SUBUNITS_PER_REWARD_TOKEN as int;
    assert forall|k: int| 0 <= k implies 0 <= #[trigger] spec_mint_amount(
        duration_days,
        decay_rate,
        k,
    ) <= cap by {
        assert(duration_days * crate::SUBUNITS_PER_REWARD_TOKEN as int <= cap) by (nonlinear_arith)
            requires
                duration_days <= crate::MAX_LOCK_DURATION_DAYS as int,
                cap == crate::MAX_LOCK_DURATION_DAYS as int
                    * crate::SUBUNITS_PER_REWARD_TOKEN as int,
        ;
    }
    assert forall|dd: int| day_offset <= dd < supply.len() implies #[trigger] spec_minted_supply(
        supply,
        day_offset,
        duration_days,
        decay_rate,
    )[dd] as int == spec_total_contribution(minted_stakers, deployed_at, dd) by {
        lemma_total_contribution_one_change(stakers, minted_stakers, deployed_at, i, dd);
        let window = stakers[i].venft_balance.len() as int;
        if dd - day_offset < window {
            assert(spec_contribution(minted_stakers[i], deployed_at, dd) - spec_contribution(
                stakers[i],
                deployed_at,
                dd,
            ) == spec_mint_amount(duration_days, decay_rate, dd - day_offset));
        } else {
            assert(spec_mint_amount(duration_days, decay_rate, dd - day_offset) == 0);
        }
    }
}

} // verus!
