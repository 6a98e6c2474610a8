//! Timestamp to day-index conversion.
//!
//! Days are counted in whole multiples of [`crate::SECONDS_PER_DAY`]
//! elapsed from `start` to `end`; a span that does not run forward counts
//! as zero days, and a span too wide for a signed timestamp difference
//! saturates at `i64::MAX` seconds before division.

use vstd::prelude::*;
use crate::arith::{sat_sub_i64, spec_sat_sub_i64};

verus! {

/// Number of whole days from `start` to `end`: zero whenever
/// `end <= start`, otherwise the saturating difference in seconds divided
/// by the length of a day.
pub open spec fn spec_days_between(start: int, end: int) -> int {
    if end <= start {
        0
    } else {
        spec_sat_sub_i64(end, start) / (crate::SECONDS_PER_DAY as int)
    }
}

pub fn days_between_timestamps(start: i64, end: i64) -> (r: u64)
    ensures
        r == spec_days_between(start as int, end as int),
{
    if end <= start {
        return 0;
    }
    let diff: i64 = sat_sub_i64(end, start);
    (diff as u64) / crate::SECONDS_PER_DAY
}

} // verus!
