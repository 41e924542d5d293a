//! Binary and counting semaphores, their guards, and their interrupt-safe
//! views.

use vstd::prelude::*;

use crate::base::FreeRtosError;
use crate::isr::ISRSafe;
use crate::isr::ISRSafeHandle;
use crate::isr::InterruptContext;
use crate::operating_system::FreeRTOS;
use crate::operating_system::SEMAPHORE_ALLOC_UNITS;
use crate::operating_system::agrees_except_alloc;
use crate::operating_system::agrees_except_tasks_and_tick;
use crate::operating_system::tick_after_timeout;
use crate::units::Duration;
use crate::units::MAX_WAIT_TICKS;

verus! {

/// The protocol state of one semaphore, as the contracts see it.
pub ghost struct SemaphoreState {
    /// The kernel handle of the backing object.
    pub handle: u32,
    /// How many takes are available right now.
    pub count: u32,
    /// The ceiling the count can never exceed; one for a binary semaphore.
    pub max: u32,
}

/// A semaphore state is well formed when its count respects its ceiling.
pub open spec fn semaphore_wf(s: SemaphoreState) -> bool {
    s.count <= s.max && 1 <= s.max
}

/// One operation on a semaphore, for stating laws over whole histories.
pub enum SemaphoreOp {
    /// A give: returns one unit, refused without effect at the ceiling.
    Give,
    /// A take: consumes one unit, a timeout without effect at zero.
    Take,
}

/// The state transition of one semaphore operation. A give at the ceiling
/// is refused by the kernel and changes nothing; a take at zero times out
/// and changes nothing.
pub open spec fn semaphore_step(s: SemaphoreState, op: SemaphoreOp) -> SemaphoreState {
    match op {
        SemaphoreOp::Give => if s.count < s.max {
            SemaphoreState { count: (s.count + 1) as u32, ..s }
        } else {
            s
        },
        SemaphoreOp::Take => if s.count > 0 {
            SemaphoreState { count: (s.count - 1) as u32, ..s }
        } else {
            s
        },
    }
}

/// The state after a whole history of gives and takes.
pub open spec fn semaphore_run(s: SemaphoreState, ops: Seq<SemaphoreOp>) -> SemaphoreState
    decreases ops.len(),
{
    if ops.len() == 0 {
        s
    } else {
        semaphore_step(semaphore_run(s, ops.drop_last()), ops.last())
    }
}

/// Law: over every sequence of gives and takes on a semaphore created with
/// a count within its ceiling, the count stays within the ceiling (and,
/// being unsigned, never below zero), and neither the handle nor the
/// ceiling ever move.
pub proof fn lemma_semaphore_count_in_range(s: SemaphoreState, ops: Seq<SemaphoreOp>)
    requires
        semaphore_wf(s),
    ensures
        semaphore_wf(semaphore_run(s, ops)),
        semaphore_run(s, ops).max == s.max,
        semaphore_run(s, ops).handle == s.handle,
    decreases ops.len(),
{
    if ops.len() > 0 {
        lemma_semaphore_count_in_range(s, ops.drop_last());
    }
}

/// Proof that a semaphore was taken and not yet given back. The guard is
/// consumed by exactly one unlock, which keeps take and give symmetric on
/// every path.
pub struct SemaphoreGuard {
    handle: u32,
}

impl SemaphoreGuard {
    /// The kernel handle of the semaphore this guard was granted on.
    pub closed spec fn sem_handle(&self) -> u32 {
        self.handle
    }
}

/// The shared capability contract of the binary and the counting
/// semaphore: take within a wait, give back, and the guard-returning lock
/// around the pair.
pub trait Semaphore: Sized {
    /// The protocol state of this semaphore.
    spec fn sem(&self) -> SemaphoreState;

    /// The raw kernel handle.
    fn raw_handle(&self) -> (r: u32)
        ensures
            r == self.sem().handle,
    ;

    /// One take attempt. With a unit available it returns at once; at zero
    /// the caller is blocked for the full wait, the clock runs forward by
    /// it, and the generic timeout failure is reported.
    fn take(&mut self, os: &mut FreeRTOS, max_wait: Duration) -> (r: Result<(), FreeRtosError>)
        ensures
            final(self).sem() == semaphore_step(old(self).sem(), SemaphoreOp::Take),
            old(self).sem().count > 0 ==> {
                &&& r == Ok::<(), FreeRtosError>(())
                &&& final(os)@ == old(os)@
            },
            old(self).sem().count == 0 ==> {
                &&& r == Err::<(), FreeRtosError>(FreeRtosError::Timeout)
                &&& final(os)@.tick == tick_after_timeout(old(os)@.tick, max_wait@)
                &&& final(os)@.tasks == old(os)@.tasks
                &&& agrees_except_tasks_and_tick(final(os)@, old(os)@)
            },
    ;

    /// Give one unit back. At the ceiling the kernel refuses the give and
    /// the count stays put.
    fn give(&mut self)
        ensures
            final(self).sem() == semaphore_step(old(self).sem(), SemaphoreOp::Give),
    ;

    /// Take the semaphore in a guard-returning fashion: the take and the
    /// give that [`Semaphore::unlock`] performs are symmetric through the
    /// guard.
    fn lock(&mut self, os: &mut FreeRTOS, max_wait: Duration) -> (r: Result<
        SemaphoreGuard,
        FreeRtosError,
    >)
        ensures
            final(self).sem() == semaphore_step(old(self).sem(), SemaphoreOp::Take),
            old(self).sem().count > 0 ==> {
                &&& r matches Ok(g) && g.sem_handle() == old(self).sem().handle
                &&& final(os)@ == old(os)@
            },
            old(self).sem().count == 0 ==> {
                &&& r == Err::<SemaphoreGuard, FreeRtosError>(FreeRtosError::Timeout)
                &&& final(os)@.tick == tick_after_timeout(old(os)@.tick, max_wait@)
                &&& final(os)@.tasks == old(os)@.tasks
                &&& agrees_except_tasks_and_tick(final(os)@, old(os)@)
            },
    ;

    /// Give one unit back, consuming the guard that witnessed the take.
    fn unlock(&mut self, guard: SemaphoreGuard)
        requires
            guard.sem_handle() == old(self).sem().handle,
        ensures
            final(self).sem() == semaphore_step(old(self).sem(), SemaphoreOp::Give),
    ;
}

/// A binary semaphore: a single unit, created empty.
pub struct BinarySemaphore {
    handle: u32,
    count: u32,
}

impl Semaphore for BinarySemaphore {
    closed spec fn sem(&self) -> SemaphoreState {
        SemaphoreState { handle: self.handle, count: self.count, max: 1 }
    }

    fn raw_handle(&self) -> u32 {
        self.handle
    }

    fn take(&mut self, os: &mut FreeRTOS, max_wait: Duration) -> (r: Result<(), FreeRtosError>) {
        if self.count > 0 {
            self.count = self.count - 1;
            Ok(())
        } else {
            let w = max_wait.to_ticks();
            if w != MAX_WAIT_TICKS {
                os.advance_tick(w);
            }
            Err(FreeRtosError::Timeout)
        }
    }

    fn give(&mut self) {
        if self.count < 1 {
            self.count = self.count + 1;
        }
    }

    fn lock(&mut self, os: &mut FreeRTOS, max_wait: Duration) -> (r: Result<
        SemaphoreGuard,
        FreeRtosError,
    >) {
        match self.take(os, max_wait) {
            Ok(()) => Ok(SemaphoreGuard { handle: self.handle }),
            Err(e) => Err(e),
        }
    }

    fn unlock(&mut self, _guard: SemaphoreGuard) {
        self.give();
    }
}

impl BinarySemaphore {
    /// Create a new binary semaphore, empty: the first lock must be
    /// preceded by a give.
    pub fn new(os: &mut FreeRTOS) -> (r: Result<BinarySemaphore, FreeRtosError>)
        ensures
            old(os)@.free_heap >= SEMAPHORE_ALLOC_UNITS ==> {
                &&& r matches Ok(s) && s.sem() == (SemaphoreState {
                    handle: old(os)@.next_handle,
                    count: 0,
                    max: 1,
                })
                &&& final(os)@.free_heap == old(os)@.free_heap - SEMAPHORE_ALLOC_UNITS
                &&& agrees_except_alloc(final(os)@, old(os)@)
            },
            old(os)@.free_heap < SEMAPHORE_ALLOC_UNITS ==> {
                &&& r matches Err(e) && e == FreeRtosError::OutOfMemory
                &&& final(os)@ == old(os)@
            },
    {
        match os.alloc_object(SEMAPHORE_ALLOC_UNITS) {
            Some(h) => Ok(BinarySemaphore { handle: h, count: 0 }),
            None => Err(FreeRtosError::OutOfMemory),
        }
    }

    /// Is the single unit currently taken?
    pub fn is_taken(&self) -> (r: bool)
        ensures
            r == (self.sem().count == 0),
    {
        self.count == 0
    }
}

/// The interrupt-safe view of a binary semaphore: the same bounded
/// try-take/run/give critical section the plain mutex view offers.
pub struct ISRBinarySemaphore {
    handle: u32,
}

impl ISRSafe for ISRBinarySemaphore {}

impl View for ISRBinarySemaphore {
    type V = u32;

    closed spec fn view(&self) -> u32 {
        self.handle
    }
}

impl ISRSafeHandle<ISRBinarySemaphore> for BinarySemaphore {
    open spec fn isr_handle(&self) -> u32 {
        self.sem().handle
    }

    fn new_isr_safe_handle(&self) -> (r: ISRBinarySemaphore) {
        ISRBinarySemaphore { handle: self.handle }
    }
}

impl ISRBinarySemaphore {
    /// Attempt to take the backing semaphore without blocking; if a unit
    /// was available, run the supplied action and give the unit back.
    /// Returns whether the action ran. The give can wake a blocked task,
    /// which is folded into the context's wake flag.
    pub fn take<F: FnOnce()>(
        &self,
        semaphore: &mut BinarySemaphore,
        context: &mut InterruptContext,
        closure: F,
    ) -> (r: bool)
        requires
            self@ == old(semaphore).sem().handle,
            semaphore_wf(old(semaphore).sem()),
            call_requires(closure, ()),
        ensures
            r == (old(semaphore).sem().count > 0),
            final(semaphore).sem() == old(semaphore).sem(),
            final(context)@ == (old(context)@ || r),
    {
        if self.take_isr(semaphore, context) {
            closure();
            self.give_isr(semaphore, context);
            true
        } else {
            false
        }
    }

    fn take_isr(&self, semaphore: &mut BinarySemaphore, context: &mut InterruptContext) -> (r:
        bool)
        ensures
            r == (old(semaphore).sem().count > 0),
            final(semaphore).sem() == semaphore_step(old(semaphore).sem(), SemaphoreOp::Take),
            final(context)@ == old(context)@,
    {
        if semaphore.count > 0 {
            semaphore.count = semaphore.count - 1;
            true
        } else {
            false
        }
    }

    fn give_isr(&self, semaphore: &mut BinarySemaphore, context: &mut InterruptContext) -> (r:
        bool)
        ensures
            r == (old(semaphore).sem().count < old(semaphore).sem().max),
            final(semaphore).sem() == semaphore_step(old(semaphore).sem(), SemaphoreOp::Give),
            final(context)@ == (old(context)@ || r),
    {
        if semaphore.count < 1 {
            semaphore.count = semaphore.count + 1;
            context.record_wake(true);
            true
        } else {
            false
        }
    }
}

/// A counting semaphore.
pub struct CountingSemaphore {
    handle: u32,
    count: u32,
    max: u32,
}

impl Semaphore for CountingSemaphore {
    closed spec fn sem(&self) -> SemaphoreState {
        SemaphoreState { handle: self.handle, count: self.count, max: self.max }
    }

    fn raw_handle(&self) -> u32 {
        self.handle
    }

    fn take(&mut self, os: &mut FreeRTOS, max_wait: Duration) -> (r: Result<(), FreeRtosError>) {
        if self.count > 0 {
            self.count = self.count - 1;
            Ok(())
        } else {
            let w = max_wait.to_ticks();
            if w != MAX_WAIT_TICKS {
                os.advance_tick(w);
            }
            Err(FreeRtosError::Timeout)
        }
    }

    fn give(&mut self) {
        if self.count < self.max {
            self.count = self.count + 1;
        }
    }

    fn lock(&mut self, os: &mut FreeRTOS, max_wait: Duration) -> (r: Result<
        SemaphoreGuard,
        FreeRtosError,
    >) {
        match self.take(os, max_wait) {
            Ok(()) => Ok(SemaphoreGuard { handle: self.handle }),
            Err(e) => Err(e),
        }
    }

    fn unlock(&mut self, _guard: SemaphoreGuard) {
        self.give();
    }
}

impl CountingSemaphore {
    /// Create a new counting semaphore with the given ceiling and initial
    /// count. The kernel demands a non-zero ceiling and an initial count
    /// within it.
    pub fn new(os: &mut FreeRTOS, max: u32, initial: u32) -> (r: Result<
        CountingSemaphore,
        FreeRtosError,
    >)
        requires
            1 <= max,
            initial <= max,
        ensures
            old(os)@.free_heap >= SEMAPHORE_ALLOC_UNITS ==> {
                &&& r matches Ok(s) && s.sem() == (SemaphoreState {
                    handle: old(os)@.next_handle,
                    count: initial,
                    max: max,
                })
                &&& final(os)@.free_heap == old(os)@.free_heap - SEMAPHORE_ALLOC_UNITS
                &&& agrees_except_alloc(final(os)@, old(os)@)
            },
            old(os)@.free_heap < SEMAPHORE_ALLOC_UNITS ==> {
                &&& r matches Err(e) && e == FreeRtosError::OutOfMemory
                &&& final(os)@ == old(os)@
            },
    {
        match os.alloc_object(SEMAPHORE_ALLOC_UNITS) {
            Some(h) => Ok(CountingSemaphore { handle: h, count: initial, max }),
            None => Err(FreeRtosError::OutOfMemory),
        }
    }

    /// The current count.
    pub fn get_count(&self) -> (r: u32)
        ensures
            r == self.sem().count,
    {
        self.count
    }
}

/// The interrupt-safe view of a counting semaphore: the raw non-blocking
/// take/give pair, for interrupt handlers that need finer control than the
/// bounded critical section, such as posting from several interrupt
/// sources.
pub struct ISRCountingSemaphore {
    handle: u32,
}

impl ISRSafe for ISRCountingSemaphore {}

impl View for ISRCountingSemaphore {
    type V = u32;

    closed spec fn view(&self) -> u32 {
        self.handle
    }
}

impl ISRSafeHandle<ISRCountingSemaphore> for CountingSemaphore {
    open spec fn isr_handle(&self) -> u32 {
        self.sem().handle
    }

    fn new_isr_safe_handle(&self) -> (r: ISRCountingSemaphore) {
        ISRCountingSemaphore { handle: self.handle }
    }
}

impl ISRCountingSemaphore {
    /// Take one unit without blocking: succeeds exactly when a unit is
    /// there. Taking wakes nobody, so the context's wake flag is
    /// untouched.
    pub fn take_isr(&self, semaphore: &mut CountingSemaphore, context: &mut InterruptContext) -> (r:
        bool)
        requires
            self@ == old(semaphore).sem().handle,
        ensures
            r == (old(semaphore).sem().count > 0),
            final(semaphore).sem() == semaphore_step(old(semaphore).sem(), SemaphoreOp::Take),
            final(context)@ == old(context)@,
    {
        if semaphore.count > 0 {
            semaphore.count = semaphore.count - 1;
            true
        } else {
            false
        }
    }

    /// Give one unit without blocking: succeeds exactly when the count is
    /// below the ceiling. A successful give can wake a blocked task, which
    /// is folded into the context's wake flag.
    pub fn give_isr(&self, semaphore: &mut CountingSemaphore, context: &mut InterruptContext) -> (r:
        bool)
        requires
            self@ == old(semaphore).sem().handle,
        ensures
            r == (old(semaphore).sem().count < old(semaphore).sem().max),
            final(semaphore).sem() == semaphore_step(old(semaphore).sem(), SemaphoreOp::Give),
            final(context)@ == (old(context)@ || r),
    {
        if semaphore.count < semaphore.max {
            semaphore.count = semaphore.count + 1;
            context.record_wake(true);
            true
        } else {
            false
        }
    }
}

} // verus!
