//! Saturating arithmetic primitives.
//!
//! Every addition, subtraction and multiplication of the ledger that could
//! approach a numeric bound clamps to the nearest representable value
//! instead of wrapping or aborting. The spec functions here are the single
//! vocabulary in which the rest of the crate states that behaviour.

use vstd::prelude::*;

verus! {

/// `a + b` clamped to `u64`.
pub open spec fn spec_sat_add_u64(a: int, b: int) -> int {
    if a + b > u64::MAX {
        u64::MAX as int
    } else {
        a + b
    }
}

/// `a - b` clamped below at zero.
pub open spec fn spec_sat_sub_u64(a: int, b: int) -> int {
    if a - b < 0 {
        0
    } else {
        a - b
    }
}

/// `a * b` clamped to `u64`.
pub open spec fn spec_sat_mul_u64(a: int, b: int) -> int {
    if a * b > u64::MAX {
        u64::MAX as int
    } else {
        a * b
    }
}

/// `a + b` clamped to `i64`.
pub open spec fn spec_sat_add_i64(a: int, b: int) -> int {
    if a + b > i64::MAX {
        i64::MAX as int
    } else if a + b < i64::MIN {
        i64::MIN as int
    } else {
        a + b
    }
}

/// `a - b` clamped to `i64`.
pub open spec fn spec_sat_sub_i64(a: int, b: int) -> int {
    if a - b > i64::MAX {
        i64::MAX as int
    } else if a - b < i64::MIN {
        i64::MIN as int
    } else {
        a - b
    }
}

/// A non-negative value clamped to `i64::MAX`.
pub open spec fn spec_clamp_u64_to_i64(a: int) -> int {
    if a > i64::MAX {
        i64::MAX as int
    } else {
        a
    }
}

/// A signed value read as an unsigned one; an invalid (negative)
/// conversion collapses to the integer maximum.
pub open spec fn spec_i64_to_u64_or_max(a: int) -> int {
    if a < 0 {
        u64::MAX as int
    } else {
        a
    }
}

pub fn sat_add_u64(a: u64, b: u64) -> (r: u64)
    ensures
        r == spec_sat_add_u64(a as int, b as int),
{
    a.saturating_add(b)
}

pub fn sat_sub_u64(a: u64, b: u64) -> (r: u64)
    ensures
        r == spec_sat_sub_u64(a as int, b as int),
{
    a.saturating_sub(b)
}

pub fn sat_mul_u64(a: u64, b: u64) -> (r: u64)
    ensures
        r == spec_sat_mul_u64(a as int, b as int),
{
    match a.checked_mul(b) {
        Some(c) => c,
        None => u64::MAX,
    }
}

pub fn sat_add_i64(a: i64, b: i64) -> (r: i64)
    ensures
        r == spec_sat_add_i64(a as int, b as int),
{
    match a.checked_add(b) {
        Some(c) => c,
        None => {
            if b > 0 {
                i64::MAX
            } else {
                i64::MIN
            }
        },
    }
}

pub fn sat_sub_i64(a: i64, b: i64) -> (r: i64)
    ensures
        r == spec_sat_sub_i64(a as int, b as int),
{
    match a.checked_sub(b) {
        Some(c) => c,
        None => {
            if b < 0 {
                i64::MAX
            } else {
                i64::MIN
            }
        },
    }
}

/// Converts an unsigned quantity to a signed one, clamping at `i64::MAX`.
pub fn clamp_u64_to_i64(a: u64) -> (r: i64)
    ensures
        r == spec_clamp_u64_to_i64(a as int),
{
    if a > i64::MAX as u64 {
        i64::MAX
    } else {
        a as i64
    }
}

/// Reads a signed quantity as an unsigned one; a negative value, which
/// has no unsigned reading, collapses to the integer maximum.
pub fn i64_to_u64_or_max(a: i64) -> (r: u64)
    ensures
        r == spec_i64_to_u64_or_max(a as int),
{
    if a < 0 {
        u64::MAX
    } else {
        a as u64
    }
}

} // verus!
