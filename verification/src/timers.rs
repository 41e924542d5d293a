//! A thin builder over the kernel's software-timer registration: period,
//! name and reload mode are fixed at creation, and the timer's
//! active/dormant state follows its start and stop calls. The callback
//! machinery itself belongs to the kernel's timer service task.

use vstd::prelude::*;

use crate::base::FreeRtosError;
use crate::operating_system::FreeRTOS;
use crate::operating_system::TIMER_ALLOC_UNITS;
use crate::operating_system::agrees_except_alloc;
use crate::units::Duration;

verus! {

/// Builder for a software timer.
pub struct TimerBuilder {
    name: String,
    period_ticks: u32,
    auto_reload: bool,
}

impl TimerBuilder {
    /// The period the timer will be created with, in ticks.
    pub closed spec fn period(&self) -> u32 {
        self.period_ticks
    }

    /// Whether the timer will restart itself on expiry.
    pub closed spec fn auto_reload(&self) -> bool {
        self.auto_reload
    }

    /// The name the timer will be created with.
    pub closed spec fn name(&self) -> Seq<char> {
        self.name@
    }

    /// Start a builder with the given period; the timer comes out
    /// one-shot and unnamed unless said otherwise.
    pub fn new(period: Duration) -> (r: TimerBuilder)
        ensures
            r.period() == period@,
            !r.auto_reload(),
            r.name() == Seq::<char>::empty(),
    {
        TimerBuilder { name: String::new(), period_ticks: period.to_ticks(), auto_reload: false }
    }

    /// Name the timer.
    pub fn set_name(self, name: &str) -> (r: TimerBuilder)
        ensures
            r.name() == name@,
            r.period() == self.period(),
            r.auto_reload() == self.auto_reload(),
    {
        TimerBuilder { name: name.to_owned(), ..self }
    }

    /// Change the period.
    pub fn set_period(self, period: Duration) -> (r: TimerBuilder)
        ensures
            r.period() == period@,
            r.name() == self.name(),
            r.auto_reload() == self.auto_reload(),
    {
        TimerBuilder { period_ticks: period.to_ticks(), ..self }
    }

    /// Choose whether the timer restarts itself on expiry.
    pub fn set_auto_reload(self, flag: bool) -> (r: TimerBuilder)
        ensures
            r.auto_reload() == flag,
            r.name() == self.name(),
            r.period() == self.period(),
    {
        TimerBuilder { auto_reload: flag, ..self }
    }

    /// Register the timer with the kernel. It comes out dormant; a start
    /// call arms it.
    pub fn create(self, os: &mut FreeRTOS) -> (r: Result<Timer, FreeRtosError>)
        ensures
            old(os)@.free_heap >= TIMER_ALLOC_UNITS ==> {
                &&& r matches Ok(t) && t.period() == self.period() && t.auto_reload()
                    == self.auto_reload() && !t.active()
                &&& final(os)@.free_heap == old(os)@.free_heap - TIMER_ALLOC_UNITS
                &&& agrees_except_alloc(final(os)@, old(os)@)
            },
            old(os)@.free_heap < TIMER_ALLOC_UNITS ==> {
                &&& r matches Err(e) && e == FreeRtosError::OutOfMemory
                &&& final(os)@ == old(os)@
            },
    {
        match os.alloc_object(TIMER_ALLOC_UNITS) {
            Some(h) => Ok(
                Timer {
                    handle: h,
                    period_ticks: self.period_ticks,
                    auto_reload: self.auto_reload,
                    active: false,
                },
            ),
            None => Err(FreeRtosError::OutOfMemory),
        }
    }
}

/// A registered software timer.
pub struct Timer {
    handle: u32,
    period_ticks: u32,
    auto_reload: bool,
    active: bool,
}

impl Timer {
    /// The timer's period, in ticks.
    pub closed spec fn period(&self) -> u32 {
        self.period_ticks
    }

    /// Whether the timer restarts itself on expiry.
    pub closed spec fn auto_reload(&self) -> bool {
        self.auto_reload
    }

    /// Whether the timer is armed.
    pub closed spec fn active(&self) -> bool {
        self.active
    }

    /// Whether the timer is armed right now.
    pub fn is_active(&self) -> (r: bool)
        ensures
            r == self.active(),
    {
        self.active
    }

    /// Arm the timer.
    pub fn start(&mut self)
        ensures
            final(self).active(),
            final(self).period() == old(self).period(),
            final(self).auto_reload() == old(self).auto_reload(),
    {
        self.active = true;
    }

    /// Disarm the timer.
    pub fn stop(&mut self)
        ensures
            !final(self).active(),
            final(self).period() == old(self).period(),
            final(self).auto_reload() == old(self).auto_reload(),
    {
        self.active = false;
    }

    /// Change the timer's period, leaving its armed state alone.
    pub fn change_period(&mut self, period: Duration)
        ensures
            final(self).period() == period@,
            final(self).active() == old(self).active(),
            final(self).auto_reload() == old(self).auto_reload(),
    {
        self.period_ticks = period.to_ticks();
    }
}

} // verus!
