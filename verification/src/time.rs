//! Conversion of durations to stable-counter ticks.
use vstd::prelude::*;

verus! {

/// Counter ticks in `ms` milliseconds at a counter frequency of
/// `timer_freq` Hz (whole ticks per millisecond).
pub fn get_ms_counter(ms: u64, timer_freq: u64) -> (r: u64)
    requires
        ms * (timer_freq / 1000) <= u64::MAX,
    ensures
        r == ms * (timer_freq / 1000),
{
    ms * (timer_freq / 1000)
}

/// Counter ticks in `us` microseconds at a counter frequency of
/// `timer_freq` Hz (whole ticks per microsecond).
pub fn get_us_counter(us: u64, timer_freq: u64) -> (r: u64)
    requires
        us * (timer_freq / 1000_000) <= u64::MAX,
    ensures
        r == us * (timer_freq / 1000_000),
{
    us * (timer_freq / 1000_000)
}

} // verus!
