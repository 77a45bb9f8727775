//! Wall-clock time and the decay of the two timers.
//!
//! The timers lose one unit per whole second of elapsed wall-clock time.
//! The machine remembers when it last let them decay; each step compares
//! that moment with the present one.

use vstd::prelude::*;

verus! {

/// Nanoseconds in one second.
pub const NANOS_PER_SECOND: i128 = 1_000_000_000;

/// A moment of wall-clock time: whole seconds since the epoch and the
/// nanoseconds that follow them.
#[derive(Clone, Copy, Debug, PartialEq, Eq)]
pub struct Tick {
    pub sec: i64,
    pub nsec: i32,
}

/// The nanoseconds that lead from `earlier` to `later`; negative when
/// `later` comes first.
pub open spec fn nanos_between(earlier: Tick, later: Tick) -> int {
    (later.sec - earlier.sec) * 1_000_000_000 + (later.nsec - earlier.nsec)
}

/// The whole seconds in a span of `nanos` nanoseconds, rounded towards zero.
pub open spec fn whole_seconds(nanos: int) -> int {
    if nanos >= 0 {
        nanos / 1_000_000_000
    } else {
        -((-nanos) / 1_000_000_000)
    }
}

/// The whole seconds that have passed between `earlier` and `later`.
pub open spec fn elapsed_seconds(earlier: Tick, later: Tick) -> int {
    whole_seconds(nanos_between(earlier, later))
}

/// What a timer holding `timer` shows once `elapsed` whole seconds have
/// passed: nothing is lost in under a second, one unit is lost per second
/// down to zero, and a span no timer can hold clears it.
pub open spec fn timer_after(timer: u8, elapsed: int) -> u8 {
    if elapsed < 1 {
        timer
    } else if elapsed > 255 || elapsed >= timer {
        0
    } else {
        (timer - elapsed) as u8
    }
}

/// Reads the system clock with `time::now_utc` and hands back the seconds
/// and nanoseconds that `Tm::to_timespec` finds in the result. Nothing is
/// claimed of the moment that comes back: it is whatever the clock says,
/// and two calls may differ.
#[verifier::external_body]
pub(crate) fn clock_now() -> Tick {
    let now = time::now_utc().to_timespec();
    Tick { sec: now.sec, nsec: now.nsec }
}

/// Counts the whole seconds between two moments, rounding towards zero.
/// No pair of moments is too far apart to be counted.
pub fn seconds_between(earlier: Tick, later: Tick) -> (seconds: i128)
    ensures
        seconds == elapsed_seconds(earlier, later),
{
    let whole: i128 = later.sec as i128 - earlier.sec as i128;
    let part: i128 = later.nsec as i128 - earlier.nsec as i128;
    assert(-0x1_0000_0000_0000_0000 * 1_000_000_000 < whole * 1_000_000_000
        < 0x1_0000_0000_0000_0000 * 1_000_000_000) by (nonlinear_arith)
        requires
            -0x1_0000_0000_0000_0000 < whole < 0x1_0000_0000_0000_0000,
    ;
    let nanos: i128 = whole * NANOS_PER_SECOND + part;
    if nanos >= 0 {
        nanos / NANOS_PER_SECOND
    } else {
        -((-nanos) / NANOS_PER_SECOND)
    }
}

/// Lets one timer decay by `elapsed` whole seconds.
pub fn decay(timer: u8, elapsed: i128) -> (left: u8)
    ensures
        left == timer_after(timer, elapsed as int),
{
    if elapsed < 1 {
        timer
    } else if elapsed > 255 || elapsed >= timer as i128 {
        0
    } else {
        timer - (elapsed as u8)
    }
}

} // verus!
