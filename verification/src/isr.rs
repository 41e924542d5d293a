//! The interrupt-context token and the capability markers that separate
//! task-context primitives from their interrupt-safe views.

use vstd::prelude::*;

verus! {

/// Marker for types that may be used from an interrupt service routine.
///
/// Task-blocking primitives (mutexes, semaphores, queues, the task
/// self-handle, the kernel capability itself) deliberately do not implement
/// this; only the dedicated interrupt-safe view types and plain copyable data
/// do. The marker is what makes "never call a blocking take from an ISR" a
/// compile-time fact rather than a convention.
pub trait ISRSafe {}

impl ISRSafe for bool {}

impl ISRSafe for char {}

impl ISRSafe for u8 {}

impl ISRSafe for u16 {}

impl ISRSafe for u32 {}

impl ISRSafe for u64 {}

impl ISRSafe for usize {}

impl ISRSafe for i8 {}

impl ISRSafe for i16 {}

impl ISRSafe for i32 {}

impl ISRSafe for i64 {}

impl ISRSafe for isize {}

impl ISRSafe for () {}

/// A task-context primitive that can derive an interrupt-safe view of
/// itself.
///
/// The view holds only the primitive's kernel handle, never the primitive:
/// every interrupt-safe operation takes the backing primitive again and
/// demands, through its contract, that the handles agree. The caller remains
/// responsible for keeping the source primitive alive for as long as the
/// view is used, exactly as with the kernel's own non-owning handles.
pub trait ISRSafeHandle<SafeForm: ISRSafe + View<V = u32>>: Sized {
    /// The kernel handle the derived view will refer to.
    spec fn isr_handle(&self) -> u32;

    /// Derive the interrupt-safe view.
    fn new_isr_safe_handle(&self) -> (r: SafeForm)
        ensures
            r@ == self.isr_handle(),
    ;
}

/// Keeps track of whether execution must be yielded to a different task at
/// the end of the current interrupt.
///
/// One token is created at interrupt entry and passed by mutable reference
/// into every interrupt-safe primitive operation; an operation that wakes a
/// task sets the token's flag, and the flag is never cleared again. Closing
/// the token must be the last step of the handler: it reports whether a
/// single scheduler yield request is owed, and consuming the token makes a
/// second request impossible.
pub struct InterruptContext {
    higher_priority_task_woken: bool,
}

impl ISRSafe for InterruptContext {}

impl View for InterruptContext {
    type V = bool;

    closed spec fn view(&self) -> bool {
        self.higher_priority_task_woken
    }
}

impl InterruptContext {
    /// Instantiate a new token with a cleared wake flag.
    pub fn new() -> (r: InterruptContext)
        ensures
            !r@,
    {
        InterruptContext { higher_priority_task_woken: false }
    }

    /// Fold one more wake report into the token. The flag only ever grows.
    pub(crate) fn record_wake(&mut self, woke: bool)
        ensures
            final(self)@ == (old(self)@ || woke),
    {
        if woke {
            self.higher_priority_task_woken = true;
        }
    }

    /// Close the token at interrupt exit.
    ///
    /// Returns whether a scheduler yield must be requested before the
    /// interrupt returns: true exactly when some operation through this
    /// token woke a higher-priority task. The token is consumed, so the
    /// request is issued at most once per interrupt invocation.
    pub fn finish(self) -> (yield_required: bool)
        ensures
            yield_required == self@,
    {
        self.higher_priority_task_woken
    }
}

/// The wake flag after a sequence of interrupt-safe operations, each of
/// which reported whether it woke a higher-priority task.
pub open spec fn wake_flag_after(init: bool, wakes: Seq<bool>) -> bool
    decreases wakes.len(),
{
    if wakes.len() == 0 {
        init
    } else {
        wake_flag_after(init, wakes.drop_last()) || wakes.last()
    }
}

/// Law: a token that starts cleared ends set if and only if at least one
/// operation through it reported a wake. Together with the contract of
/// [`InterruptContext::finish`], exactly one yield request is issued when
/// some operation woke a task, and none when none did.
pub proof fn lemma_yield_iff_some_wake(wakes: Seq<bool>)
    ensures
        wake_flag_after(false, wakes) <==> exists|i: int| 0 <= i < wakes.len() && wakes[i],
    decreases wakes.len(),
{
    if wakes.len() > 0 {
        lemma_yield_iff_some_wake(wakes.drop_last());
        if wakes.last() {
            assert(wakes[wakes.len() - 1]);
        } else if wake_flag_after(false, wakes.drop_last()) {
            let i = choose|i: int| 0 <= i < wakes.drop_last().len() && wakes.drop_last()[i];
            assert(wakes[i]);
        } else {
            assert forall|i: int| 0 <= i < wakes.len() implies !wakes[i] by {
                if i < wakes.len() - 1 {
                    assert(!wakes.drop_last()[i]);
                }
            }
        }
    }
}

} // verus!
