//! A time-decaying entitlement and reward-accrual ledger for a lock-based
//! staking pool: depositors lock a collateral item for a chosen number of
//! days and receive a decaying entitlement balance; each day a fixed,
//! pre-published emission budget is split across all depositors in
//! proportion to their outstanding entitlement, and accrues as claimable
//! reward.
//!
//! All timestamp and balance arithmetic near numeric bounds saturates
//! rather than wrapping or aborting: extreme edge-case inputs clamp to the
//! nearest valid bound. This is a deliberate policy of the ledger, stated
//! explicitly in every contract through the saturating spec functions of
//! [`arith`].

use vstd::prelude::*;

pub mod arith;
pub mod clock;
pub mod laws;
pub mod lock;
pub mod metadata;
pub mod ops;
pub mod pool;
pub mod schedule;
pub mod staker;

pub use crate::clock::days_between_timestamps;
pub use crate::lock::LockedNft;
pub use crate::metadata::{assert_lockable_nft, Creator, NftMetadata};
pub use crate::pool::{Authority, State};
pub use crate::schedule::REWARD_SCHEDULE_IN_DAYS;
pub use crate::staker::Staker;

verus! {

/// Shortest lock a depositor may commit to, in whole days.
pub const MIN_LOCK_DURATION_DAYS: u64 = 1;

/// Longest lock a depositor may commit to, in whole days (six months).
pub const MAX_LOCK_DURATION_DAYS: u64 = 365 / 2;

/// Number of days over which rewards are emitted (four years).
pub const MAX_DURATION_TO_EMIT_REWARDS_DAYS: u64 = 4 * 365 + 1;

/// Fractional precision required of the reward asset.
pub const REWARD_TOKEN_DECIMALS: u8 = 9;

/// Smallest indivisible fraction of one whole reward or entitlement unit.
pub const SUBUNITS_PER_REWARD_TOKEN: u64 = 1_000_000_000;

/// Seconds in one calendar day.
pub const SECONDS_PER_DAY: u64 = 24 * 60 * 60;

/// An opaque account identity (an admin, a depositor, a collateral item or
/// an asset). The ledger only ever compares identities for equality.
#[derive(Clone, Copy, PartialEq, Eq, Structural, Debug)]
pub struct AccountId(pub u128);

impl Default for AccountId {
    fn default() -> (r: Self)
        ensures
            r == AccountId(0),
    {
        AccountId(0)
    }
}

/// Why an operation was rejected. Every error is detected by validation
/// before any state is mutated: a rejected operation commits nothing.
#[derive(Clone, Copy, PartialEq, Eq, Structural, Debug)]
pub enum ErrorCode {
    /// The reward asset handed to a claim does not match the pool's.
    UnexpectedRewardTokenMintId,
    /// The reward asset was configured with the wrong fractional precision.
    UnexpectedRewardTokenMintDecimals,
    /// The collateral metadata names a different collateral item.
    MetadataMintMismatch,
    /// The collateral metadata lists no creators.
    MetadataHasNoCreators,
    /// The creator named by the collateral metadata is not verified.
    MetadataCreatorUnverified,
    /// The creator named by the collateral metadata is not the accepted one.
    UnexpectedMetadataCreator,
    /// The invoking identity does not own the referenced ledger.
    StakerIdMismatch,
    /// The requested lock duration is below the minimum.
    LockDurationTooSmall,
    /// The requested lock duration exceeds what may be locked or extended.
    MaxPossibleLockDurationExceeded,
    /// The lock period has not yet elapsed, or the caller does not match
    /// the lock record.
    NotYetUnlockable,
}

} // verus!
