//! Scales of the fixed-point quantities used throughout the library.
use vstd::prelude::*;

verus! {

/// 100% turbine speed, in millionths of a percent.
pub const FULL_N: u64 = 100_000_000;

/// Millionths of a degree Celsius in one degree.
pub const MICRO_PER_DEGREE: i64 = 1_000_000;

/// The magnitude that every temperature handed to the library stays within
/// (a billion degrees), so that sums of a few of them fit in an `i64`.
pub const TEMPERATURE_LIMIT: i64 = 1_000_000_000_000_000;

/// A temperature the library accepts as input.
pub open spec fn temperature_in_range(t: i64) -> bool {
    -TEMPERATURE_LIMIT <= t <= TEMPERATURE_LIMIT
}

/// Executable check of [`temperature_in_range`].
pub fn is_temperature_in_range(t: i64) -> (r: bool)
    ensures
        r == temperature_in_range(t),
{
    -TEMPERATURE_LIMIT <= t && t <= TEMPERATURE_LIMIT
}

/// Clamps a raw speed value (millionths of a percent, possibly outside the
/// physical range) to [0%, 100%].
pub open spec fn clamp_n_spec(raw: i64) -> u64 {
    if raw <= 0 {
        0
    } else if raw >= FULL_N as i64 {
        FULL_N
    } else {
        raw as u64
    }
}

/// Clamps a raw speed value to [0%, 100%].
pub fn clamp_n(raw: i64) -> (r: u64)
    ensures
        r == clamp_n_spec(raw),
        r <= FULL_N,
{
    if raw <= 0 {
        0
    } else if raw >= FULL_N as i64 {
        FULL_N
    } else {
        raw as u64
    }
}

/// `a + b` milliseconds, saturating at the largest representable time.
pub open spec fn add_ms_spec(a: u64, b: u64) -> u64 {
    if a + b > u64::MAX {
        u64::MAX
    } else {
        (a + b) as u64
    }
}

/// Adds two durations in milliseconds, saturating at the largest representable time.
pub fn add_ms(a: u64, b: u64) -> (r: u64)
    ensures
        r == add_ms_spec(a, b),
{
    if b > u64::MAX - a {
        u64::MAX
    } else {
        a + b
    }
}

} // verus!
