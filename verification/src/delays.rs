//! Delay helpers built on the tick clock: absolute-deadline delays that
//! subtract the time already spent, and a polling-loop period timer.

use vstd::prelude::*;

use crate::operating_system::FreeRTOS;
use crate::operating_system::agrees_except_tasks_and_tick;
use crate::units::Duration;
use crate::units::tick_add;
use crate::units::tick_elapsed;

verus! {

/// Delays the current task by a duration minus the time already spent
/// since the last wakeup, for loops that must run at a steady rate.
pub struct TaskDelay {
    last_wake_time: u32,
}

impl View for TaskDelay {
    type V = u32;

    closed spec fn view(&self) -> u32 {
        self.last_wake_time
    }
}

impl TaskDelay {
    /// Create a new delay helper, marking the current time as the start of
    /// the next measurement.
    pub fn new(os: &FreeRTOS) -> (r: TaskDelay)
        ensures
            r@ == os@.tick,
    {
        TaskDelay { last_wake_time: os.get_tick_count() }
    }

    /// Delay the current task until one period past the previous wake
    /// time. When less than the period has elapsed since then, the task
    /// blocks until exactly that deadline; when the deadline has already
    /// passed, no time is spent. Either way the next measurement starts at
    /// the deadline.
    pub fn delay_until(&mut self, os: &mut FreeRTOS, delay: Duration)
        ensures
            final(self)@ == tick_add(old(self)@, delay@),
            final(os)@.tick == if tick_elapsed(old(os)@.tick, old(self)@) < delay@ {
                tick_add(old(self)@, delay@)
            } else {
                old(os)@.tick
            },
            final(os)@.tasks == old(os)@.tasks,
            agrees_except_tasks_and_tick(final(os)@, old(os)@),
    {
        let d = delay.to_ticks();
        let now = os.get_tick_count();
        let elapsed = crate::units::tick_elapsed_exec(now, self.last_wake_time);
        if elapsed < d {
            os.advance_tick(d - elapsed);
        }
        self.last_wake_time = crate::units::tick_add_exec(self.last_wake_time, d);
    }
}

/// Periodic delay timer for a polling loop: the loop polls this instance,
/// and `should_run` answers true once the set period has elapsed, then
/// restarts the period.
pub struct TaskDelayPeriodic {
    last_wake_time: u32,
    period_ticks: u32,
}

impl TaskDelayPeriodic {
    /// When the current period started.
    pub closed spec fn last_wake(&self) -> u32 {
        self.last_wake_time
    }

    /// The set period, in ticks.
    pub closed spec fn period(&self) -> u32 {
        self.period_ticks
    }

    /// Create a new period timer with the set period, starting now.
    pub fn new(os: &FreeRTOS, period: Duration) -> (r: TaskDelayPeriodic)
        ensures
            r.last_wake() == os@.tick,
            r.period() == period@,
    {
        TaskDelayPeriodic { last_wake_time: os.get_tick_count(), period_ticks: period.to_ticks() }
    }

    /// Has the set period passed? If it has, the internal timer restarts
    /// at the current time.
    pub fn should_run(&mut self, os: &FreeRTOS) -> (r: bool)
        ensures
            r == (tick_elapsed(os@.tick, old(self).last_wake()) >= old(self).period()),
            final(self).last_wake() == if r {
                os@.tick
            } else {
                old(self).last_wake()
            },
            final(self).period() == old(self).period(),
    {
        let c = os.get_tick_count();
        if crate::units::tick_elapsed_exec(c, self.last_wake_time) < self.period_ticks {
            false
        } else {
            self.last_wake_time = c;
            true
        }
    }

    /// Set a new delay period.
    pub fn set_period(&mut self, period: Duration)
        ensures
            final(self).period() == period@,
            final(self).last_wake() == old(self).last_wake(),
    {
        self.period_ticks = period.to_ticks();
    }

    /// Restart the period at the current time.
    pub fn reset(&mut self, os: &FreeRTOS)
        ensures
            final(self).last_wake() == os@.tick,
            final(self).period() == old(self).period(),
    {
        self.last_wake_time = os.get_tick_count();
    }
}

} // verus!
