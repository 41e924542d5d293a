//! Mutual-exclusion access to a contained value, plain and recursive, with
//! scope-symmetric guards and a bounded interrupt-safe critical section.

use vstd::prelude::*;

use crate::base::FreeRtosError;
use crate::isr::ISRSafe;
use crate::isr::ISRSafeHandle;
use crate::isr::InterruptContext;
use crate::operating_system::FreeRTOS;
use crate::operating_system::SEMAPHORE_ALLOC_UNITS;
use crate::operating_system::agrees_except_alloc;
use crate::operating_system::agrees_except_tasks_and_tick;
use crate::operating_system::heap_after_release;
use crate::operating_system::tick_after_timeout;
use crate::task::TaskHandle;
use crate::task::TaskSelfHandle;
use crate::units::Duration;
use crate::units::MAX_WAIT_TICKS;

verus! {

/// A plain mutex around a value.
pub type Mutex<T> = MutexImpl<T, MutexNormal>;

/// A recursive mutex around a value: the current owner may re-lock it.
pub type RecursiveMutex<T> = MutexImpl<T, MutexRecursive>;

/// Who holds a mutex: nobody, a task (by its kernel handle), or an
/// interrupt handler inside its bounded critical section.
#[derive(Clone, Copy, Debug, PartialEq, Eq, Structural)]
pub enum MutexHolder {
    /// The mutex is free to take.
    Free,
    /// Held by the task with this kernel handle.
    Task(u32),
    /// Held across an interrupt-context try-take/give pair.
    Interrupt,
}

/// The protocol state of one mutex, as the contracts see it.
pub ghost struct MutexState {
    /// The kernel handle of the backing semaphore object.
    pub handle: u32,
    /// Current holder.
    pub holder: MutexHolder,
    /// Re-entrancy count: how many balanced releases are owed.
    pub depth: u32,
}

/// A mutex state is well formed when its holder and its re-entrancy count
/// agree, and a non-recursive mutex is never nested.
pub open spec fn mutex_wf(s: MutexState, recursive: bool) -> bool {
    &&& (s.holder is Free <==> s.depth == 0)
    &&& (!recursive ==> s.depth <= 1)
}

/// May the calling task take the mutex without blocking? A free mutex always
/// grants; a recursive one also grants its current owner.
pub open spec fn mutex_grants(s: MutexState, caller: u32, recursive: bool) -> bool {
    ||| s.holder is Free
    ||| (recursive && s.holder == MutexHolder::Task(caller))
}

/// The state transition of one take attempt: a granted take records the
/// caller and deepens the nesting; a refused one changes nothing.
pub open spec fn lock_step(s: MutexState, caller: u32, recursive: bool) -> MutexState {
    if mutex_grants(s, caller, recursive) && s.depth < u32::MAX {
        MutexState { holder: MutexHolder::Task(caller), depth: (s.depth + 1) as u32, ..s }
    } else {
        s
    }
}

/// The state transition of one release by the owner: the nesting count
/// drops by one and the mutex only truly frees at zero. A release by
/// anybody else changes nothing.
pub open spec fn unlock_step(s: MutexState, caller: u32) -> MutexState {
    if s.holder == MutexHolder::Task(caller) && s.depth > 0 {
        MutexState {
            holder: if s.depth == 1 {
                MutexHolder::Free
            } else {
                MutexHolder::Task(caller)
            },
            depth: (s.depth - 1) as u32,
            ..s
        }
    } else {
        s
    }
}

/// The state after `n` nested take attempts by one caller.
pub open spec fn after_nested_locks(s: MutexState, caller: u32, recursive: bool, n: nat) -> MutexState
    decreases n,
{
    if n == 0 {
        s
    } else {
        lock_step(after_nested_locks(s, caller, recursive, (n - 1) as nat), caller, recursive)
    }
}

/// The state after `k` releases by one caller.
pub open spec fn after_releases(s: MutexState, caller: u32, k: nat) -> MutexState
    decreases k,
{
    if k == 0 {
        s
    } else {
        unlock_step(after_releases(s, caller, (k - 1) as nat), caller)
    }
}

/// From an unlocked recursive mutex, `n` nested locks leave the owner at
/// nesting depth `n`.
pub proof fn lemma_nested_locks(s: MutexState, caller: u32, n: nat)
    requires
        s.holder is Free,
        s.depth == 0,
        n <= u32::MAX,
    ensures
        after_nested_locks(s, caller, true, n).handle == s.handle,
        after_nested_locks(s, caller, true, n).depth == n,
        after_nested_locks(s, caller, true, n).holder == if n == 0 {
            MutexHolder::Free
        } else {
            MutexHolder::Task(caller)
        },
    decreases n,
{
    if n > 0 {
        lemma_nested_locks(s, caller, (n - 1) as nat);
    }
}

/// From a mutex held at depth `d`, `k <= d` releases by the owner leave it
/// at depth `d - k`, still owned unless the count reached zero.
pub proof fn lemma_balanced_releases(s: MutexState, caller: u32, k: nat)
    requires
        s.holder == MutexHolder::Task(caller),
        0 < s.depth,
        k <= s.depth,
    ensures
        after_releases(s, caller, k).handle == s.handle,
        after_releases(s, caller, k).depth == s.depth - k,
        after_releases(s, caller, k).holder == if k == s.depth {
            MutexHolder::Free
        } else {
            MutexHolder::Task(caller)
        },
    decreases k,
{
    if k > 0 {
        lemma_balanced_releases(s, caller, (k - 1) as nat);
    }
}

/// Law: on a recursive mutex, `n` nested same-owner locks followed by `n`
/// releases leave the mutex unlocked, and any fewer releases leave it
/// locked by that owner.
pub proof fn lemma_recursive_lock_balance(s: MutexState, caller: u32, n: nat, k: nat)
    requires
        s.holder is Free,
        s.depth == 0,
        n <= u32::MAX,
        k <= n,
    ensures
        after_releases(after_nested_locks(s, caller, true, n), caller, k).depth == n - k,
        k == n ==> after_releases(after_nested_locks(s, caller, true, n), caller, k).holder
            is Free,
        k < n ==> after_releases(after_nested_locks(s, caller, true, n), caller, k).holder
            == MutexHolder::Task(caller),
{
    lemma_nested_locks(s, caller, n);
    if n > 0 {
        lemma_balanced_releases(after_nested_locks(s, caller, true, n), caller, k);
    }
}

/// Law: a plain mutex grants at most one holder; once a take is granted,
/// every further take attempt, by anybody, is refused until the release.
pub proof fn lemma_plain_mutex_mutual_exclusion(s: MutexState, first: u32, second: u32)
    requires
        mutex_wf(s, false),
        mutex_grants(s, first, false),
    ensures
        lock_step(s, first, false).holder == MutexHolder::Task(first),
        !mutex_grants(lock_step(s, first, false), second, false),
{
}

/// The kernel-object half of a mutex: creation, take, give, and their
/// interrupt-context counterparts where they exist. Implemented by the
/// plain and the recursive backing objects.
pub trait MutexInnerImpl: Sized {
    /// The protocol state of this mutex object.
    spec fn state(&self) -> MutexState;

    /// Whether this backing object grants its owner nested re-locks.
    spec fn recursive() -> bool;

    /// The raw kernel handle.
    fn raw_handle(&self) -> (r: u32)
        ensures
            r == self.state().handle,
    ;

    /// Create the backing kernel object.
    fn create(os: &mut FreeRTOS) -> (r: Result<Self, FreeRtosError>)
        ensures
            old(os)@.free_heap >= SEMAPHORE_ALLOC_UNITS ==> {
                &&& r matches Ok(m) && m.state() == (MutexState {
                    handle: old(os)@.next_handle,
                    holder: MutexHolder::Free,
                    depth: 0,
                })
                &&& final(os)@.free_heap == old(os)@.free_heap - SEMAPHORE_ALLOC_UNITS
                &&& agrees_except_alloc(final(os)@, old(os)@)
            },
            old(os)@.free_heap < SEMAPHORE_ALLOC_UNITS ==> {
                &&& r == Err::<Self, FreeRtosError>(FreeRtosError::OutOfMemory)
                &&& final(os)@ == old(os)@
            },
    ;

    /// One take attempt by a task. A granted take returns at once; a
    /// refused one blocks the caller for the full wait and then reports
    /// the mutex-specific timeout, with the mutex left exactly as it was.
    fn take(&mut self, os: &mut FreeRTOS, caller: u32, max_wait: Duration) -> (r: Result<
        (),
        FreeRtosError,
    >)
        requires
            mutex_wf(old(self).state(), Self::recursive()),
            old(self).state().depth < u32::MAX,
        ensures
            mutex_wf(final(self).state(), Self::recursive()),
            final(self).state() == lock_step(old(self).state(), caller, Self::recursive()),
            mutex_grants(old(self).state(), caller, Self::recursive()) ==> {
                &&& r == Ok::<(), FreeRtosError>(())
                &&& final(os)@ == old(os)@
            },
            !mutex_grants(old(self).state(), caller, Self::recursive()) ==> {
                &&& r == Err::<(), FreeRtosError>(FreeRtosError::MutexTimeout)
                &&& final(os)@.tick == tick_after_timeout(old(os)@.tick, max_wait@)
                &&& final(os)@.tasks == old(os)@.tasks
                &&& agrees_except_tasks_and_tick(final(os)@, old(os)@)
            },
    ;

    /// One release by a task: the inverse of a granted take. A release by
    /// anybody but the owner is refused by the kernel and changes nothing.
    fn give(&mut self, caller: u32)
        ensures
            final(self).state() == unlock_step(old(self).state(), caller),
    ;
}

/// The plain backing object.
pub struct MutexNormal {
    handle: u32,
    holder: MutexHolder,
    depth: u32,
}

impl MutexInnerImpl for MutexNormal {
    closed spec fn state(&self) -> MutexState {
        MutexState { handle: self.handle, holder: self.holder, depth: self.depth }
    }

    open spec fn recursive() -> bool {
        false
    }

    fn raw_handle(&self) -> u32 {
        self.handle
    }

    fn create(os: &mut FreeRTOS) -> (r: Result<Self, FreeRtosError>) {
        match os.alloc_object(SEMAPHORE_ALLOC_UNITS) {
            Some(h) => Ok(MutexNormal { handle: h, holder: MutexHolder::Free, depth: 0 }),
            None => Err(FreeRtosError::OutOfMemory),
        }
    }

    fn take(&mut self, os: &mut FreeRTOS, caller: u32, max_wait: Duration) -> (r: Result<
        (),
        FreeRtosError,
    >) {
        match self.holder {
            MutexHolder::Free => {
                self.holder = MutexHolder::Task(caller);
                self.depth = 1;
                Ok(())
            },
            _ => {
                let w = max_wait.to_ticks();
                if w != MAX_WAIT_TICKS {
                    os.advance_tick(w);
                }
                Err(FreeRtosError::MutexTimeout)
            },
        }
    }

    fn give(&mut self, caller: u32) {
        match self.holder {
            MutexHolder::Task(c) => {
                if c == caller && self.depth > 0 {
                    self.depth = self.depth - 1;
                    if self.depth == 0 {
                        self.holder = MutexHolder::Free;
                    }
                }
            },
            _ => {},
        }
    }
}

impl MutexNormal {
    /// Try to take the mutex from an interrupt, without blocking: succeeds
    /// exactly when the mutex is free. Taking wakes nobody, so the
    /// context's wake flag is untouched.
    pub fn take_isr(&mut self, context: &mut InterruptContext) -> (r: bool)
        ensures
            r == (old(self).state().holder is Free),
            r ==> final(self).state() == (MutexState {
                holder: MutexHolder::Interrupt,
                depth: 1,
                ..old(self).state()
            }),
            !r ==> final(self).state() == old(self).state(),
            final(context)@ == old(context)@,
    {
        match self.holder {
            MutexHolder::Free => {
                self.holder = MutexHolder::Interrupt;
                self.depth = 1;
                true
            },
            _ => false,
        }
    }

    /// Give the mutex back from an interrupt. Giving can wake a task that
    /// blocks on the mutex, so a successful give sets the context's wake
    /// flag.
    pub fn give_isr(&mut self, context: &mut InterruptContext) -> (r: bool)
        ensures
            r == (old(self).state().holder is Interrupt),
            r ==> final(self).state() == (MutexState {
                holder: MutexHolder::Free,
                depth: 0,
                ..old(self).state()
            }),
            !r ==> final(self).state() == old(self).state(),
            final(context)@ == (old(context)@ || r),
    {
        match self.holder {
            MutexHolder::Interrupt => {
                self.holder = MutexHolder::Free;
                self.depth = 0;
                context.record_wake(true);
                true
            },
            _ => false,
        }
    }
}

/// The recursive backing object.
pub struct MutexRecursive {
    handle: u32,
    holder: MutexHolder,
    depth: u32,
}

impl MutexInnerImpl for MutexRecursive {
    closed spec fn state(&self) -> MutexState {
        MutexState { handle: self.handle, holder: self.holder, depth: self.depth }
    }

    open spec fn recursive() -> bool {
        true
    }

    fn raw_handle(&self) -> u32 {
        self.handle
    }

    fn create(os: &mut FreeRTOS) -> (r: Result<Self, FreeRtosError>) {
        match os.alloc_object(SEMAPHORE_ALLOC_UNITS) {
            Some(h) => Ok(MutexRecursive { handle: h, holder: MutexHolder::Free, depth: 0 }),
            None => Err(FreeRtosError::OutOfMemory),
        }
    }

    fn take(&mut self, os: &mut FreeRTOS, caller: u32, max_wait: Duration) -> (r: Result<
        (),
        FreeRtosError,
    >) {
        match self.holder {
            MutexHolder::Free => {
                self.holder = MutexHolder::Task(caller);
                self.depth = 1;
                Ok(())
            },
            MutexHolder::Task(c) => {
                if c == caller {
                    self.depth = self.depth + 1;
                    Ok(())
                } else {
                    let w = max_wait.to_ticks();
                    if w != MAX_WAIT_TICKS {
                        os.advance_tick(w);
                    }
                    Err(FreeRtosError::MutexTimeout)
                }
            },
            MutexHolder::Interrupt => {
                let w = max_wait.to_ticks();
                if w != MAX_WAIT_TICKS {
                    os.advance_tick(w);
                }
                Err(FreeRtosError::MutexTimeout)
            },
        }
    }

    fn give(&mut self, caller: u32) {
        match self.holder {
            MutexHolder::Task(c) => {
                if c == caller && self.depth > 0 {
                    self.depth = self.depth - 1;
                    if self.depth == 0 {
                        self.holder = MutexHolder::Free;
                    }
                }
            },
            _ => {},
        }
    }
}

/// Mutual-exclusion access to a contained value. Can be recursive: the
/// current owner of a lock can re-lock it.
pub struct MutexImpl<T, M> {
    mutex: M,
    data: T,
}

/// Proof that a lock was granted and not yet released. The guard is not
/// copyable: it is consumed by exactly one unlock, which keeps every
/// lock/unlock pair symmetric on every path.
pub struct MutexGuard {
    handle: u32,
    owner: u32,
}

impl MutexGuard {
    /// The kernel handle of the mutex this guard was granted on.
    pub closed spec fn mutex_handle(&self) -> u32 {
        self.handle
    }

    /// The kernel handle of the task that was granted the lock.
    pub closed spec fn owner(&self) -> u32 {
        self.owner
    }
}

impl<T, M: MutexInnerImpl> MutexImpl<T, M> {
    /// The protocol state of the backing mutex object.
    pub closed spec fn state(&self) -> MutexState {
        self.mutex.state()
    }

    /// The protected value.
    pub closed spec fn value(&self) -> T {
        self.data
    }

    /// Try to obtain the lock within the given wait. Locking demands a task
    /// self-handle: only a task body, never an interrupt handler, may
    /// block on a mutex. On a refusal the caller is blocked for the full
    /// wait, the clock having run forward by it, and the mutex stays with
    /// its holder.
    pub fn lock(&mut self, os: &mut FreeRTOS, task: &TaskSelfHandle, max_wait: Duration) -> (r:
        Result<MutexGuard, FreeRtosError>)
        requires
            mutex_wf(old(self).state(), M::recursive()),
            old(self).state().depth < u32::MAX,
        ensures
            final(self).value() == old(self).value(),
            mutex_wf(final(self).state(), M::recursive()),
            final(self).state() == lock_step(old(self).state(), task@, M::recursive()),
            mutex_grants(old(self).state(), task@, M::recursive()) ==> {
                &&& r matches Ok(g) && g.mutex_handle() == old(self).state().handle && g.owner()
                    == task@
                &&& final(os)@ == old(os)@
            },
            !mutex_grants(old(self).state(), task@, M::recursive()) ==> {
                &&& r == Err::<MutexGuard, FreeRtosError>(FreeRtosError::MutexTimeout)
                &&& final(os)@.tick == tick_after_timeout(old(os)@.tick, max_wait@)
                &&& final(os)@.tasks == old(os)@.tasks
                &&& agrees_except_tasks_and_tick(final(os)@, old(os)@)
            },
    {
        let caller = task.raw_handle();
        match self.mutex.take(os, caller, max_wait) {
            Ok(()) => Ok(MutexGuard { handle: self.mutex.raw_handle(), owner: caller }),
            Err(e) => Err(e),
        }
    }

    /// Release one level of the lock, consuming its guard. For a recursive
    /// mutex the re-entrancy count drops by one and the mutex only truly
    /// frees at zero.
    pub fn unlock(&mut self, guard: MutexGuard)
        requires
            guard.mutex_handle() == old(self).state().handle,
            old(self).state().holder == MutexHolder::Task(guard.owner()),
            old(self).state().depth > 0,
        ensures
            final(self).value() == old(self).value(),
            final(self).state() == unlock_step(old(self).state(), guard.owner()),
    {
        self.mutex.give(guard.owner);
    }

    /// Read the protected value under a live guard.
    pub fn get<'a>(&'a self, guard: &MutexGuard) -> (r: &'a T)
        requires
            guard.mutex_handle() == self.state().handle,
            self.state().holder == MutexHolder::Task(guard.owner()),
        ensures
            *r == self.value(),
    {
        &self.data
    }

    /// Replace the protected value under a live guard.
    pub fn set(&mut self, guard: &MutexGuard, v: T)
        requires
            guard.mutex_handle() == old(self).state().handle,
            old(self).state().holder == MutexHolder::Task(guard.owner()),
        ensures
            final(self).value() == v,
            final(self).state() == old(self).state(),
    {
        self.data = v;
    }

    /// Consume the mutex, discarding synchronization, and return the
    /// protected value. The backing kernel object is released here,
    /// exactly once: the wrapper is destructured, so no scope-exit release
    /// can run again.
    pub fn into_inner(self, os: &mut FreeRTOS) -> (r: T)
        ensures
            r == self.value(),
            final(os)@.free_heap == heap_after_release(old(os)@.free_heap, SEMAPHORE_ALLOC_UNITS),
            final(os)@.next_handle == old(os)@.next_handle,
            agrees_except_alloc(final(os)@, old(os)@),
    {
        let MutexImpl { mutex: _, data } = self;
        os.release_object(SEMAPHORE_ALLOC_UNITS);
        data
    }
}

impl<T> MutexImpl<T, MutexNormal> {
    /// Create a new mutex with the given inner value.
    pub fn new(os: &mut FreeRTOS, t: T) -> (r: Result<MutexImpl<T, MutexNormal>, FreeRtosError>)
        ensures
            old(os)@.free_heap >= SEMAPHORE_ALLOC_UNITS ==> {
                &&& r matches Ok(m) && m.value() == t && m.state() == (MutexState {
                    handle: old(os)@.next_handle,
                    holder: MutexHolder::Free,
                    depth: 0,
                })
                &&& final(os)@.free_heap == old(os)@.free_heap - SEMAPHORE_ALLOC_UNITS
                &&& agrees_except_alloc(final(os)@, old(os)@)
            },
            old(os)@.free_heap < SEMAPHORE_ALLOC_UNITS ==> {
                &&& r matches Err(e) && e == FreeRtosError::OutOfMemory
                &&& final(os)@ == old(os)@
            },
    {
        match MutexNormal::create(os) {
            Ok(m) => Ok(MutexImpl { mutex: m, data: t }),
            Err(e) => Err(e),
        }
    }
}

impl<T> MutexImpl<T, MutexRecursive> {
    /// Create a new recursive mutex with the given inner value.
    pub fn new(os: &mut FreeRTOS, t: T) -> (r: Result<MutexImpl<T, MutexRecursive>, FreeRtosError>)
        ensures
            old(os)@.free_heap >= SEMAPHORE_ALLOC_UNITS ==> {
                &&& r matches Ok(m) && m.value() == t && m.state() == (MutexState {
                    handle: old(os)@.next_handle,
                    holder: MutexHolder::Free,
                    depth: 0,
                })
                &&& final(os)@.free_heap == old(os)@.free_heap - SEMAPHORE_ALLOC_UNITS
                &&& agrees_except_alloc(final(os)@, old(os)@)
            },
            old(os)@.free_heap < SEMAPHORE_ALLOC_UNITS ==> {
                &&& r matches Err(e) && e == FreeRtosError::OutOfMemory
                &&& final(os)@ == old(os)@
            },
    {
        match MutexRecursive::create(os) {
            Ok(m) => Ok(MutexImpl { mutex: m, data: t }),
            Err(e) => Err(e),
        }
    }
}

/// The interrupt-safe view of a plain mutex. Its only operation is a
/// bounded, non-blocking critical section: try to take, run an action,
/// give back. The recursive mutex has no such view, because the kernel
/// offers no interrupt-safe primitive for it.
pub struct ISRMutexImpl {
    handle: u32,
}

impl ISRSafe for ISRMutexImpl {}

impl View for ISRMutexImpl {
    type V = u32;

    closed spec fn view(&self) -> u32 {
        self.handle
    }
}

impl<T: ISRSafe> ISRSafeHandle<ISRMutexImpl> for MutexImpl<T, MutexNormal> {
    open spec fn isr_handle(&self) -> u32 {
        self.state().handle
    }

    fn new_isr_safe_handle(&self) -> (r: ISRMutexImpl) {
        ISRMutexImpl { handle: self.mutex.raw_handle() }
    }
}

impl ISRMutexImpl {
    /// Attempt to take the backing mutex without blocking; if it was free,
    /// run the supplied action inside the critical section and give the
    /// mutex back. Returns whether the action ran. The give can wake a
    /// blocked task, which is folded into the context's wake flag.
    pub fn take<T, F: FnOnce()>(
        &self,
        mutex: &mut MutexImpl<T, MutexNormal>,
        context: &mut InterruptContext,
        closure: F,
    ) -> (r: bool)
        requires
            self@ == old(mutex).state().handle,
            mutex_wf(old(mutex).state(), false),
            call_requires(closure, ()),
        ensures
            r == (old(mutex).state().holder is Free),
            final(mutex).state() == old(mutex).state(),
            final(mutex).value() == old(mutex).value(),
            final(context)@ == (old(context)@ || r),
    {
        if mutex.mutex.take_isr(context) {
            closure();
            mutex.mutex.give_isr(context);
            true
        } else {
            false
        }
    }
}

} // verus!
