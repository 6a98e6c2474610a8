//! The pool ledger: the shared singleton state of the staking pool.
//!
//! `venft_supply[d]` is the total entitlement scheduled to exist on
//! absolute day `d` since deployment. Entries are only ever incremented by
//! minting — once a day has passed, the rollover computation that consumed
//! it relies on the entry never changing again.

use vstd::prelude::*;
use crate::AccountId;

verus! {

/// Mathematical model of a [`State`].
pub ghost struct StateView {
    pub admin_id: AccountId,
    pub reward_token_mint_id: AccountId,
    pub deployed_at: i64,
    pub last_updated_at: i64,
    pub total_num_locked_nfts: u64,
    pub venft_supply: Seq<u64>,
}

/// The pool ledger, created once at deployment and never destroyed.
#[derive(Debug)]
pub struct State {
    pub admin_id: AccountId,
    pub reward_token_mint_id: AccountId,
    pub deployed_at: i64,
    pub last_updated_at: i64,
    pub total_num_locked_nfts: u64,
    /// Index 0 starts on the first day after the pool is deployed.
    pub venft_supply: Vec<u64>,
}

impl View for State {
    type V = StateView;

    open spec fn view(&self) -> StateView {
        StateView {
            admin_id: self.admin_id,
            reward_token_mint_id: self.reward_token_mint_id,
            deployed_at: self.deployed_at,
            last_updated_at: self.last_updated_at,
            total_num_locked_nfts: self.total_num_locked_nfts,
            venft_supply: self.venft_supply@,
        }
    }
}

impl State {
    /// The supply window always spans the whole emission horizon.
    pub open spec fn wf(&self) -> bool {
        self.venft_supply@.len() == crate::MAX_DURATION_TO_EMIT_REWARDS_DAYS
    }

    /// Stamps the pool's last-update timestamp. Supply entries are
    /// immutable once written and need no rollover of their own.
    pub fn update(&mut self, current_time: i64)
        ensures
            final(self)@ == (StateView { last_updated_at: current_time, ..old(self)@ }),
            final(self).wf() == old(self).wf(),
    {
        self.last_updated_at = current_time;
    }
}

impl Default for State {
    fn default() -> (r: Self)
        ensures
            r.wf(),
            r.admin_id == AccountId(0),
            r.reward_token_mint_id == AccountId(0),
            r.deployed_at == 0,
            r.last_updated_at == 0,
            r.total_num_locked_nfts == 0,
            r.venft_supply@ == Seq::new(crate::MAX_DURATION_TO_EMIT_REWARDS_DAYS as nat, |i: int| 0u64),
    {
        State {
            admin_id: AccountId(0),
            reward_token_mint_id: AccountId(0),
            deployed_at: 0,
            last_updated_at: 0,
            total_num_locked_nfts: 0,
            venft_supply: zeroed_u64_vec(crate::MAX_DURATION_TO_EMIT_REWARDS_DAYS as usize),
        }
    }
}

/// A window of `n` days, all holding zero.
pub fn zeroed_u64_vec(n: usize) -> (v: Vec<u64>)
    ensures
        v@ == Seq::new(n as nat, |i: int| 0u64),
{
    let mut v: Vec<u64> = Vec::new();
    let mut i: usize = 0;
    while i < n
        invariant
            i <= n,
            v@.len() == i,
            forall|j: int| 0 <= j < i ==> v@[j] == 0u64,
        decreases n - i,
    {
        v.push(0);
        i = i + 1;
    }
    proof {
        assert(v@ =~= Seq::new(n as nat, |i: int| 0u64));
    }
    v
}

/// The record tying the pool's authority to its state account.
pub struct Authority {
    pub state_id: AccountId,
}

impl Default for Authority {
    fn default() -> (r: Self)
        ensures
            r.state_id == AccountId(0),
    {
        Authority { state_id: AccountId(0) }
    }
}

} // verus!
