//! The duration/tick seam: every blocking operation expresses its wait as a
//! kernel tick count through this one conversion.

use vstd::prelude::*;

verus! {

/// The kernel's "block as long as it takes" sentinel tick count. A wait of
/// this many ticks is treated by every blocking call as an unbounded wait.
pub const MAX_WAIT_TICKS: u32 = 0xFFFF_FFFF;

/// Milliseconds per kernel tick in this build's calibration.
pub const TICK_PERIOD_MS: u32 = 1;

/// Addition on the kernel's 32-bit tick clock, which wraps around on
/// overflow exactly as the kernel's own tick counter does.
pub open spec fn tick_add(t: u32, d: u32) -> u32 {
    if t + d > u32::MAX {
        (t + d - 0x1_0000_0000) as u32
    } else {
        (t + d) as u32
    }
}

/// How many ticks have passed since `since`, on the wrapping tick clock.
pub open spec fn tick_elapsed(now: u32, since: u32) -> u32 {
    if now - since < 0 {
        (now - since + 0x1_0000_0000) as u32
    } else {
        (now - since) as u32
    }
}

/// Does a tick count stand for an unbounded wait?
pub open spec fn is_unbounded_wait(ticks: u32) -> bool {
    ticks == MAX_WAIT_TICKS
}

/// Wrapping tick addition, executable form.
pub fn tick_add_exec(t: u32, d: u32) -> (r: u32)
    ensures
        r == tick_add(t, d),
{
    t.wrapping_add(d)
}

/// Wrapping tick distance, executable form.
pub fn tick_elapsed_exec(now: u32, since: u32) -> (r: u32)
    ensures
        r == tick_elapsed(now, since),
{
    now.wrapping_sub(since)
}

/// A semantic wait time: either a finite amount of wall time or "wait
/// forever". Carried as a tick count; the unbounded form is the kernel's
/// sentinel tick value, so callers never manipulate raw tick counts except
/// through this type.
#[derive(Clone, Copy, Debug, PartialEq, Eq, Structural)]
pub struct Duration {
    ticks: u32,
}

impl View for Duration {
    type V = u32;

    closed spec fn view(&self) -> u32 {
        self.ticks
    }
}

impl Duration {
    /// A duration of exactly this many kernel ticks.
    pub fn ticks(t: u32) -> (r: Duration)
        ensures
            r@ == t,
    {
        Duration { ticks: t }
    }

    /// A duration of this many milliseconds, converted at the build's tick
    /// calibration.
    pub fn ms(m: u32) -> (r: Duration)
        ensures
            r@ == m / TICK_PERIOD_MS,
    {
        Duration { ticks: m / TICK_PERIOD_MS }
    }

    /// The unbounded wait.
    pub fn infinite() -> (r: Duration)
        ensures
            r@ == MAX_WAIT_TICKS,
    {
        Duration { ticks: MAX_WAIT_TICKS }
    }

    /// No wait at all: a blocking call with this duration polls once.
    pub fn zero() -> (r: Duration)
        ensures
            r@ == 0,
    {
        Duration { ticks: 0 }
    }

    /// The smallest non-zero wait.
    pub fn eps() -> (r: Duration)
        ensures
            r@ == 1,
    {
        Duration { ticks: 1 }
    }

    /// The kernel tick count this wait stands for.
    pub fn to_ticks(&self) -> (r: u32)
        ensures
            r == self@,
    {
        self.ticks
    }
}

} // verus!
