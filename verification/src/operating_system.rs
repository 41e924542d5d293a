//! The kernel capability and the kernel-side state it stands for.
//!
//! The real-time kernel is an external collaborator reached through a fixed,
//! narrow call surface (create/delete, take/give, send/receive, spawn,
//! notify, delay). This module captures that surface as an explicit state
//! machine: a [`FreeRTOS`] value carries the tick clock, the remaining
//! kernel heap, the handle counter and the task registry, and every kernel
//! call of the layer is a specified transition over it. A blocked wait that
//! can only end in a timeout advances the clock by the full wait, so timing
//! claims ("no sooner than the timeout") are part of each contract.

use vstd::prelude::*;

use crate::base::FreeRtosError;
use crate::base::FreeRtosTaskState;
use crate::delays::TaskDelay;
use crate::delays::TaskDelayPeriodic;
use crate::mutex::Mutex;
use crate::mutex::MutexHolder;
use crate::mutex::MutexImpl;
use crate::mutex::MutexState;
use crate::mutex::RecursiveMutex;
use crate::queue::Queue;
use crate::queue::QueueState;
use crate::semaphore::BinarySemaphore;
use crate::semaphore::CountingSemaphore;
use crate::semaphore::Semaphore;
use crate::semaphore::SemaphoreState;
use crate::task::FreeRtosSchedulerState;
use crate::task::FreeRtosTaskStatus;
use crate::task::TaskPriority;
use crate::task::TaskRemoteHandle;
use crate::task::spawned_task_view;
use crate::task::status_matches;
use crate::timers::TimerBuilder;
use crate::units::Duration;
use crate::units::is_unbounded_wait;
use crate::units::tick_add;

verus! {

/// Kernel memory is measured in abstract allocation units: one unit for a
/// semaphore's or mutex's bookkeeping, one per queue slot, one per word of a
/// task's stack. A creation call fails with an out-of-memory error exactly
/// when the remaining units do not cover the object's price.
pub const SEMAPHORE_ALLOC_UNITS: u32 = 1;

/// Base price of a queue, besides one unit per slot of its capacity.
pub const QUEUE_BASE_ALLOC_UNITS: u32 = 1;

/// Base price of a task's control block, besides its stack depth.
pub const TASK_BASE_ALLOC_UNITS: u32 = 1;

/// Price of a software timer.
pub const TIMER_ALLOC_UNITS: u32 = 1;

/// Kernel heap assumed when the scheduler is taken over already running.
pub const DEFAULT_KERNEL_HEAP_UNITS: u32 = 65536;

/// The kernel-side record of one task, as the contracts see it.
pub ghost struct TaskView {
    /// The task's name, fixed at spawn time.
    pub name: Seq<char>,
    /// Stack depth the task was spawned with.
    pub stack_size: u16,
    /// Scheduling priority; low numbers denote low priority.
    pub priority: u8,
    /// Scheduler-visible state.
    pub state: FreeRtosTaskState,
    /// The single-word notification mailbox.
    pub notify_value: u32,
    /// Whether a notification is pending and unconsumed.
    pub notify_pending: bool,
    /// Accumulated run time, in run-time counter units.
    pub run_time: u32,
    /// Least stack ever left free, a kernel-maintained diagnostic.
    pub stack_high_water_mark: u16,
    /// Whether the heap allocation that carries the task's entry closure is
    /// still waiting for its one recovery at first dispatch.
    pub closure_pending: bool,
}

/// The kernel-side state, as the contracts see it.
pub ghost struct KernelView {
    /// The tick clock, which wraps around at 32 bits.
    pub tick: u32,
    /// Remaining kernel heap, in allocation units.
    pub free_heap: u32,
    /// The next kernel handle to hand out.
    pub next_handle: u32,
    /// Total run time accumulated over all tasks.
    pub total_run_time: u32,
    /// The task registry; a task's handle is its position here.
    pub tasks: Seq<TaskView>,
}

/// Everything but the task registry agrees between two kernel states.
pub open spec fn agrees_except_tasks(a: KernelView, b: KernelView) -> bool {
    a.tick == b.tick && a.free_heap == b.free_heap && a.next_handle == b.next_handle
        && a.total_run_time == b.total_run_time
}

/// Everything but the task registry and the clock agrees.
pub open spec fn agrees_except_tasks_and_tick(a: KernelView, b: KernelView) -> bool {
    a.free_heap == b.free_heap && a.next_handle == b.next_handle && a.total_run_time
        == b.total_run_time
}

/// Everything but the allocator's bookkeeping agrees.
pub open spec fn agrees_except_alloc(a: KernelView, b: KernelView) -> bool {
    a.tick == b.tick && a.total_run_time == b.total_run_time && a.tasks == b.tasks
}

/// The clock a blocked wait leaves behind: a bounded wait runs the clock
/// forward by the full wait before the timeout is reported; the unbounded
/// wait cannot end in a timeout by the passing of time, so when the model
/// must report that no partner can ever supply the resource, it does so
/// without a clock movement.
pub open spec fn tick_after_timeout(tick: u32, wait_ticks: u32) -> u32 {
    if is_unbounded_wait(wait_ticks) {
        tick
    } else {
        tick_add(tick, wait_ticks)
    }
}

/// Heap units coming back on an object's deletion; the heap cannot grow past
/// the counter's width.
pub open spec fn heap_after_release(free_heap: u32, units: u32) -> u32 {
    if free_heap + units > u32::MAX {
        u32::MAX
    } else {
        (free_heap + units) as u32
    }
}

/// How many spawn-time closure allocations are still waiting for their one
/// recovery at first dispatch.
pub open spec fn live_closure_allocations(tasks: Seq<TaskView>) -> nat
    decreases tasks.len(),
{
    if tasks.len() == 0 {
        0
    } else {
        live_closure_allocations(tasks.drop_last()) + if tasks.last().closure_pending {
            1nat
        } else {
            0nat
        }
    }
}

/// How many tasks have been entered through the kernel's trampoline, that
/// is, dispatched for the first time.
pub open spec fn trampoline_invocations(tasks: Seq<TaskView>) -> nat
    decreases tasks.len(),
{
    if tasks.len() == 0 {
        0
    } else {
        trampoline_invocations(tasks.drop_last()) + if tasks.last().closure_pending {
            0nat
        } else {
            1nat
        }
    }
}

/// What one kernel notify call does to a task's mailbox. The action codes
/// are the kernel's: 0 wakes without touching the value, 1 ors the argument
/// in, 2 increments by one (wrapping as the kernel's unchecked arithmetic
/// does), 3 overwrites unconditionally, 4 overwrites only when no earlier
/// notification is still pending and reports failure otherwise.
pub ghost struct NotifyOutcome {
    /// Mailbox value after the call.
    pub value: u32,
    /// Pending flag after the call.
    pub pending: bool,
    /// Whether the kernel accepted the notification.
    pub accepted: bool,
}

/// The kernel's atomic notify update, over raw action codes.
pub open spec fn notify_apply_code(
    value: u32,
    pending: bool,
    arg: u32,
    action: u8,
) -> NotifyOutcome {
    if action == 0 {
        NotifyOutcome { value: value, pending: true, accepted: true }
    } else if action == 1 {
        NotifyOutcome { value: value | arg, pending: true, accepted: true }
    } else if action == 2 {
        NotifyOutcome { value: tick_add(value, 1), pending: true, accepted: true }
    } else if action == 3 {
        NotifyOutcome { value: arg, pending: true, accepted: true }
    } else if pending {
        NotifyOutcome { value: value, pending: true, accepted: false }
    } else {
        NotifyOutcome { value: arg, pending: true, accepted: true }
    }
}

struct TaskRecord {
    name: String,
    stack_size: u16,
    priority: u8,
    state: FreeRtosTaskState,
    notify_value: u32,
    notify_pending: bool,
    run_time: u32,
    stack_high_water_mark: u16,
    closure_pending: bool,
}

impl View for TaskRecord {
    type V = TaskView;

    closed spec fn view(&self) -> TaskView {
        TaskView {
            name: self.name@,
            stack_size: self.stack_size,
            priority: self.priority,
            state: self.state,
            notify_value: self.notify_value,
            notify_pending: self.notify_pending,
            run_time: self.run_time,
            stack_high_water_mark: self.stack_high_water_mark,
            closure_pending: self.closure_pending,
        }
    }
}

fn duplicate_record(rec: &TaskRecord) -> (r: TaskRecord)
    ensures
        r@ == rec@,
{
    TaskRecord {
        name: rec.name.clone(),
        stack_size: rec.stack_size,
        priority: rec.priority,
        state: rec.state,
        notify_value: rec.notify_value,
        notify_pending: rec.notify_pending,
        run_time: rec.run_time,
        stack_high_water_mark: rec.stack_high_water_mark,
        closure_pending: rec.closure_pending,
    }
}

/// The capability handed to code that runs under the scheduler. It proves
/// "this code executes in task context, after the kernel scheduler is
/// initialized", serves as the factory for every other primitive, and
/// carries the kernel-side state those primitives transition over.
pub struct FreeRTOS {
    tick: u32,
    free_heap: u32,
    next_handle: u32,
    total_run_time: u32,
    tasks: Vec<TaskRecord>,
}

impl View for FreeRTOS {
    type V = KernelView;

    closed spec fn view(&self) -> KernelView {
        KernelView {
            tick: self.tick,
            free_heap: self.free_heap,
            next_handle: self.next_handle,
            total_run_time: self.total_run_time,
            tasks: Seq::new(self.tasks@.len(), |i: int| self.tasks@[i]@),
        }
    }
}

impl FreeRTOS {
    /// Start the kernel scheduler with the given kernel heap, in allocation
    /// units. In the running system this call hands control to the
    /// scheduler for good; its result is the capability from which the
    /// application's setup code constructs every primitive and task.
    pub fn start_scheduler(free_heap: u32) -> (r: FreeRTOS)
        ensures
            r@.tick == 0,
            r@.free_heap == free_heap,
            r@.next_handle == 1,
            r@.total_run_time == 0,
            r@.tasks == Seq::<TaskView>::empty(),
    {
        let r = FreeRTOS { tick: 0, free_heap, next_handle: 1, total_run_time: 0, tasks: Vec::new() };
        proof {
            assert(r@.tasks =~= Seq::<TaskView>::empty());
        }
        r
    }

    /// Take over a scheduler that is already initialized and running, with
    /// the default kernel heap.
    pub fn assume_init() -> (r: FreeRTOS)
        ensures
            r@.tick == 0,
            r@.free_heap == DEFAULT_KERNEL_HEAP_UNITS,
            r@.next_handle == 1,
            r@.total_run_time == 0,
            r@.tasks == Seq::<TaskView>::empty(),
    {
        FreeRTOS::start_scheduler(DEFAULT_KERNEL_HEAP_UNITS)
    }

    /// The tick clock's current reading.
    pub fn get_tick_count(&self) -> (r: u32)
        ensures
            r == self@.tick,
    {
        self.tick
    }

    /// The tick clock's current reading, as a duration since boot.
    pub fn get_tick_count_duration(&self) -> (r: Duration)
        ensures
            r@ == self@.tick,
    {
        Duration::ticks(self.tick)
    }

    /// How many tasks the registry holds, in any state.
    pub fn get_number_of_tasks(&self) -> (r: usize)
        ensures
            r == self@.tasks.len(),
    {
        self.tasks.len()
    }

    /// Remaining kernel heap, in allocation units.
    pub fn free_heap_units(&self) -> (r: u32)
        ensures
            r == self@.free_heap,
    {
        self.free_heap
    }

    /// Run the tick clock forward, as the tick interrupt does.
    pub fn advance_tick(&mut self, ticks: u32)
        ensures
            final(self)@.tick == tick_add(old(self)@.tick, ticks),
            agrees_except_tasks_and_tick(final(self)@, old(self)@),
            final(self)@.tasks == old(self)@.tasks,
    {
        self.tick = crate::units::tick_add_exec(self.tick, ticks);
    }

    /// Delay the execution of the current task: the clock runs forward by
    /// the full delay.
    pub fn delay(&mut self, delay: Duration)
        ensures
            final(self)@.tick == tick_add(old(self)@.tick, delay@),
            agrees_except_tasks_and_tick(final(self)@, old(self)@),
            final(self)@.tasks == old(self)@.tasks,
    {
        let t = delay.to_ticks();
        self.advance_tick(t);
    }

    /// Charge run time to a task, as the kernel's tick-driven run-time
    /// statistics gathering does; both the task's counter and the total
    /// wrap at 32 bits.
    pub fn charge_run_time(&mut self, id: u32, ticks: u32)
        requires
            (id as int) < old(self)@.tasks.len(),
        ensures
            final(self)@.tasks == old(self)@.tasks.update(
                id as int,
                (TaskView {
                    run_time: tick_add(old(self)@.tasks[id as int].run_time, ticks),
                    ..old(self)@.tasks[id as int]
                }),
            ),
            final(self)@.total_run_time == tick_add(old(self)@.total_run_time, ticks),
            final(self)@.tick == old(self)@.tick,
            final(self)@.free_heap == old(self)@.free_heap,
            final(self)@.next_handle == old(self)@.next_handle,
    {
        let mut rec = duplicate_record(&self.tasks[id as usize]);
        rec.run_time = crate::units::tick_add_exec(rec.run_time, ticks);
        self.tasks.set(id as usize, rec);
        self.total_run_time = crate::units::tick_add_exec(self.total_run_time, ticks);
        proof {
            assert(self@.tasks =~= old(self)@.tasks.update(
                id as int,
                (TaskView {
                    run_time: tick_add(old(self)@.tasks[id as int].run_time, ticks),
                    ..old(self)@.tasks[id as int]
                }),
            ));
        }
    }

    /// Allocate one kernel object: take its price from the heap and hand
    /// out a fresh handle, or report that the heap does not cover it.
    pub(crate) fn alloc_object(&mut self, units: u32) -> (r: Option<u32>)
        ensures
            old(self)@.free_heap >= units ==> {
                &&& r == Some(old(self)@.next_handle)
                &&& final(self)@.free_heap == old(self)@.free_heap - units
                &&& final(self)@.next_handle == tick_add(old(self)@.next_handle, 1)
                &&& agrees_except_alloc(final(self)@, old(self)@)
            },
            old(self)@.free_heap < units ==> {
                &&& r is None
                &&& final(self)@ == old(self)@
            },
    {
        if self.free_heap >= units {
            let handle = self.next_handle;
            self.free_heap = self.free_heap - units;
            self.next_handle = self.next_handle.wrapping_add(1);
            Some(handle)
        } else {
            None
        }
    }

    /// Return one kernel object's price to the heap.
    pub(crate) fn release_object(&mut self, units: u32)
        ensures
            final(self)@.free_heap == heap_after_release(old(self)@.free_heap, units),
            final(self)@.next_handle == old(self)@.next_handle,
            agrees_except_alloc(final(self)@, old(self)@),
    {
        self.free_heap = match self.free_heap.checked_add(units) {
            Some(s) => s,
            None => u32::MAX,
        };
    }

    /// Create a task control block and its stack: the kernel half of a
    /// spawn. Returns the new task's handle, or nothing when the heap does
    /// not cover the stack and control block.
    pub(crate) fn kernel_spawn(&mut self, name: &str, stack_size: u16, priority: u8) -> (r: Option<
        u32,
    >)
        requires
            old(self)@.tasks.len() < u32::MAX,
        ensures
            old(self)@.free_heap >= stack_size + TASK_BASE_ALLOC_UNITS ==> {
                &&& r == Some(old(self)@.tasks.len() as u32)
                &&& final(self)@.tasks == old(self)@.tasks.push(
                    (TaskView {
                        name: name@,
                        stack_size: stack_size,
                        priority: priority,
                        state: FreeRtosTaskState::Ready,
                        notify_value: 0,
                        notify_pending: false,
                        run_time: 0,
                        stack_high_water_mark: stack_size,
                        closure_pending: true,
                    }),
                )
                &&& final(self)@.free_heap == old(self)@.free_heap - stack_size
                    - TASK_BASE_ALLOC_UNITS
                &&& final(self)@.tick == old(self)@.tick
                &&& final(self)@.next_handle == old(self)@.next_handle
                &&& final(self)@.total_run_time == old(self)@.total_run_time
            },
            old(self)@.free_heap < stack_size + TASK_BASE_ALLOC_UNITS ==> {
                &&& r is None
                &&& final(self)@ == old(self)@
            },
    {
        let units: u32 = stack_size as u32 + TASK_BASE_ALLOC_UNITS;
        if self.free_heap >= units {
            self.free_heap = self.free_heap - units;
            let rec = TaskRecord {
                name: name.to_owned(),
                stack_size,
                priority,
                state: FreeRtosTaskState::Ready,
                notify_value: 0,
                notify_pending: false,
                run_time: 0,
                stack_high_water_mark: stack_size,
                closure_pending: true,
            };
            let id: u32 = self.tasks.len() as u32;
            self.tasks.push(rec);
            proof {
                assert(self@.tasks =~= old(self)@.tasks.push(
                    (TaskView {
                        name: name@,
                        stack_size: stack_size,
                        priority: priority,
                        state: FreeRtosTaskState::Ready,
                        notify_value: 0,
                        notify_pending: false,
                        run_time: 0,
                        stack_high_water_mark: stack_size,
                        closure_pending: true,
                    }),
                ));
            }
            Some(id)
        } else {
            None
        }
    }

    /// First dispatch of a spawned task: the kernel's trampoline recovers
    /// the task's entry closure (consuming the one allocation made at spawn
    /// time) and the task starts running.
    pub(crate) fn kernel_dispatch(&mut self, id: u32)
        requires
            (id as int) < old(self)@.tasks.len(),
            old(self)@.tasks[id as int].closure_pending,
        ensures
            final(self)@.tasks == old(self)@.tasks.update(
                id as int,
                (TaskView {
                    state: FreeRtosTaskState::Running,
                    closure_pending: false,
                    ..old(self)@.tasks[id as int]
                }),
            ),
            agrees_except_tasks(final(self)@, old(self)@),
    {
        let mut rec = duplicate_record(&self.tasks[id as usize]);
        rec.state = FreeRtosTaskState::Running;
        rec.closure_pending = false;
        self.tasks.set(id as usize, rec);
        proof {
            assert(self@.tasks =~= old(self)@.tasks.update(
                id as int,
                (TaskView {
                    state: FreeRtosTaskState::Running,
                    closure_pending: false,
                    ..old(self)@.tasks[id as int]
                }),
            ));
        }
    }

    /// Delete a task: its slot is marked deleted and its stack and control
    /// block come back to the heap.
    pub(crate) fn kernel_delete_task(&mut self, id: u32)
        requires
            (id as int) < old(self)@.tasks.len(),
        ensures
            final(self)@.tasks == old(self)@.tasks.update(
                id as int,
                (TaskView { state: FreeRtosTaskState::Deleted, ..old(self)@.tasks[id as int] }),
            ),
            final(self)@.free_heap == heap_after_release(
                old(self)@.free_heap,
                (old(self)@.tasks[id as int].stack_size + TASK_BASE_ALLOC_UNITS) as u32,
            ),
            final(self)@.tick == old(self)@.tick,
            final(self)@.next_handle == old(self)@.next_handle,
            final(self)@.total_run_time == old(self)@.total_run_time,
    {
        let mut rec = duplicate_record(&self.tasks[id as usize]);
        let units: u32 = rec.stack_size as u32 + TASK_BASE_ALLOC_UNITS;
        rec.state = FreeRtosTaskState::Deleted;
        self.tasks.set(id as usize, rec);
        self.release_object(units);
        proof {
            assert(self@.tasks =~= old(self)@.tasks.update(
                id as int,
                (TaskView { state: FreeRtosTaskState::Deleted, ..old(self)@.tasks[id as int] }),
            ));
        }
    }

    /// The kernel's atomic notify call, over raw action codes.
    pub(crate) fn kernel_task_notify(&mut self, id: u32, arg: u32, action: u8) -> (accepted: bool)
        requires
            (id as int) < old(self)@.tasks.len(),
            action <= 4,
        ensures
            ({
                let t = old(self)@.tasks[id as int];
                let o = notify_apply_code(t.notify_value, t.notify_pending, arg, action);
                &&& accepted == o.accepted
                &&& final(self)@.tasks == old(self)@.tasks.update(
                    id as int,
                    (TaskView { notify_value: o.value, notify_pending: o.pending, ..t }),
                )
                &&& agrees_except_tasks(final(self)@, old(self)@)
            }),
    {
        let mut rec = duplicate_record(&self.tasks[id as usize]);
        let mut accepted: bool = true;
        if action == 0 {
            rec.notify_pending = true;
        } else if action == 1 {
            rec.notify_value = rec.notify_value | arg;
            rec.notify_pending = true;
        } else if action == 2 {
            rec.notify_value = rec.notify_value.wrapping_add(1);
            rec.notify_pending = true;
        } else if action == 3 {
            rec.notify_value = arg;
            rec.notify_pending = true;
        } else if rec.notify_pending {
            accepted = false;
        } else {
            rec.notify_value = arg;
            rec.notify_pending = true;
        }
        let ghost t = old(self)@.tasks[id as int];
        let ghost o = notify_apply_code(t.notify_value, t.notify_pending, arg, action);
        self.tasks.set(id as usize, rec);
        proof {
            assert(self@.tasks =~= old(self)@.tasks.update(
                id as int,
                (TaskView { notify_value: o.value, notify_pending: o.pending, ..t }),
            ));
        }
        accepted
    }

    /// The kernel's "take" on the current task's notification mailbox:
    /// return the value and decrement it by one or clear it, or wait out
    /// the timeout and return zero when the mailbox stays empty.
    pub(crate) fn kernel_notify_take(&mut self, id: u32, clear: bool, wait_ticks: u32) -> (r: u32)
        requires
            (id as int) < old(self)@.tasks.len(),
        ensures
            ({
                let t = old(self)@.tasks[id as int];
                if t.notify_value > 0 {
                    &&& r == t.notify_value
                    &&& final(self)@.tasks == old(self)@.tasks.update(
                        id as int,
                        (TaskView {
                            notify_value: if clear {
                                0u32
                            } else {
                                (t.notify_value - 1) as u32
                            },
                            notify_pending: false,
                            ..t
                        }),
                    )
                    &&& final(self)@.tick == old(self)@.tick
                } else {
                    &&& r == 0
                    &&& final(self)@.tasks == old(self)@.tasks.update(
                        id as int,
                        (TaskView { notify_pending: false, ..t }),
                    )
                    &&& final(self)@.tick == tick_after_timeout(old(self)@.tick, wait_ticks)
                }
            }),
            agrees_except_tasks_and_tick(final(self)@, old(self)@),
    {
        let mut rec = duplicate_record(&self.tasks[id as usize]);
        let ghost t = old(self)@.tasks[id as int];
        let r: u32 = rec.notify_value;
        if rec.notify_value > 0 {
            if clear {
                rec.notify_value = 0;
            } else {
                rec.notify_value = rec.notify_value - 1;
            }
            rec.notify_pending = false;
            self.tasks.set(id as usize, rec);
            proof {
                assert(self@.tasks =~= old(self)@.tasks.update(
                    id as int,
                    (TaskView {
                        notify_value: if clear {
                            0u32
                        } else {
                            (t.notify_value - 1) as u32
                        },
                        notify_pending: false,
                        ..t
                    }),
                ));
            }
            r
        } else {
            rec.notify_pending = false;
            self.tasks.set(id as usize, rec);
            if wait_ticks != crate::units::MAX_WAIT_TICKS {
                self.advance_tick(wait_ticks);
            }
            proof {
                assert(self@.tasks =~= old(self)@.tasks.update(
                    id as int,
                    (TaskView { notify_pending: false, ..t }),
                ));
            }
            0
        }
    }

    /// The kernel's "wait" on the current task's notification mailbox: a
    /// pending notification is consumed with the exit mask applied; without
    /// one, the entry mask is applied and the wait times out.
    pub(crate) fn kernel_notify_wait(
        &mut self,
        id: u32,
        clear_on_entry: u32,
        clear_on_exit: u32,
        wait_ticks: u32,
    ) -> (r: Option<u32>)
        requires
            (id as int) < old(self)@.tasks.len(),
        ensures
            ({
                let t = old(self)@.tasks[id as int];
                if t.notify_pending {
                    &&& r == Some(t.notify_value)
                    &&& final(self)@.tasks == old(self)@.tasks.update(
                        id as int,
                        (TaskView {
                            notify_value: t.notify_value & !clear_on_exit,
                            notify_pending: false,
                            ..t
                        }),
                    )
                    &&& final(self)@.tick == old(self)@.tick
                } else {
                    &&& r is None
                    &&& final(self)@.tasks == old(self)@.tasks.update(
                        id as int,
                        (TaskView { notify_value: t.notify_value & !clear_on_entry, ..t }),
                    )
                    &&& final(self)@.tick == tick_after_timeout(old(self)@.tick, wait_ticks)
                }
            }),
            agrees_except_tasks_and_tick(final(self)@, old(self)@),
    {
        let mut rec = duplicate_record(&self.tasks[id as usize]);
        let ghost t = old(self)@.tasks[id as int];
        if rec.notify_pending {
            let r: u32 = rec.notify_value;
            rec.notify_value = rec.notify_value & !clear_on_exit;
            rec.notify_pending = false;
            self.tasks.set(id as usize, rec);
            proof {
                assert(self@.tasks =~= old(self)@.tasks.update(
                    id as int,
                    (TaskView {
                        notify_value: t.notify_value & !clear_on_exit,
                        notify_pending: false,
                        ..t
                    }),
                ));
            }
            Some(r)
        } else {
            rec.notify_value = rec.notify_value & !clear_on_entry;
            self.tasks.set(id as usize, rec);
            if wait_ticks != crate::units::MAX_WAIT_TICKS {
                self.advance_tick(wait_ticks);
            }
            proof {
                assert(self@.tasks =~= old(self)@.tasks.update(
                    id as int,
                    (TaskView { notify_value: t.notify_value & !clear_on_entry, ..t }),
                ));
            }
            None
        }
    }

    /// Read a task's name out of the registry.
    pub(crate) fn kernel_task_name(&self, id: u32) -> (r: String)
        requires
            (id as int) < self@.tasks.len(),
        ensures
            r@ == self@.tasks[id as int].name,
    {
        self.tasks[id as usize].name.clone()
    }

    /// Read a task's stack high-water mark out of the registry.
    pub(crate) fn kernel_task_high_water_mark(&self, id: u32) -> (r: u16)
        requires
            (id as int) < self@.tasks.len(),
        ensures
            r == self@.tasks[id as int].stack_high_water_mark,
    {
        self.tasks[id as usize].stack_high_water_mark
    }
}

impl FreeRTOS {
    /// Spawn a new independent task; see [`TaskRemoteHandle::new`].
    pub fn new_task(&mut self, name: &str, stack_depth: u16, priority: TaskPriority) -> (r: Result<
        TaskRemoteHandle,
        FreeRtosError,
    >)
        requires
            name@.len() <= 255,
            old(self)@.tasks.len() < u32::MAX,
        ensures
            old(self)@.free_heap >= stack_depth + TASK_BASE_ALLOC_UNITS ==> {
                &&& r matches Ok(h) && h@ == old(self)@.tasks.len() as u32
                &&& final(self)@.tasks == old(self)@.tasks.push(
                    spawned_task_view(name@, stack_depth, priority.0),
                )
                &&& final(self)@.free_heap == old(self)@.free_heap - stack_depth
                    - TASK_BASE_ALLOC_UNITS
                &&& live_closure_allocations(final(self)@.tasks) == live_closure_allocations(
                    old(self)@.tasks,
                ) + 1
                &&& trampoline_invocations(final(self)@.tasks) == trampoline_invocations(
                    old(self)@.tasks,
                )
                &&& final(self)@.tick == old(self)@.tick
                &&& final(self)@.next_handle == old(self)@.next_handle
                &&& final(self)@.total_run_time == old(self)@.total_run_time
            },
            old(self)@.free_heap < stack_depth + TASK_BASE_ALLOC_UNITS ==> {
                &&& r == Err::<TaskRemoteHandle, FreeRtosError>(FreeRtosError::OutOfMemory)
                &&& final(self)@ == old(self)@
            },
    {
        TaskRemoteHandle::new(self, name, stack_depth, priority)
    }

    /// Create a new delay helper, marking the current time as the start of
    /// the next measurement.
    pub fn new_delay(&self) -> (r: TaskDelay)
        ensures
            r@ == self@.tick,
    {
        TaskDelay::new(self)
    }

    /// Create a new period timer with the set period, starting now.
    pub fn new_periodic_delay(&self, period: Duration) -> (r: TaskDelayPeriodic)
        ensures
            r.last_wake() == self@.tick,
            r.period() == period@,
    {
        TaskDelayPeriodic::new(self, period)
    }

    /// Start a software-timer builder with the set period.
    pub fn new_timer(&self, period: Duration) -> (r: TimerBuilder)
        ensures
            r.period() == period@,
            !r.auto_reload(),
            r.name() == Seq::<char>::empty(),
    {
        TimerBuilder::new(period)
    }

    /// Create a new bounded queue; see [`Queue::new`].
    pub fn new_queue<T: Copy>(&mut self, max_size: usize) -> (r: Result<Queue<T>, FreeRtosError>)
        requires
            1 <= max_size,
            max_size + QUEUE_BASE_ALLOC_UNITS <= u32::MAX,
        ensures
            old(self)@.free_heap >= max_size + QUEUE_BASE_ALLOC_UNITS ==> {
                &&& r matches Ok(q) && q.state() == (QueueState {
                    handle: old(self)@.next_handle,
                    capacity: max_size as nat,
                    items: Seq::<T>::empty(),
                })
                &&& final(self)@.free_heap == old(self)@.free_heap - max_size
                    - QUEUE_BASE_ALLOC_UNITS
                &&& agrees_except_alloc(final(self)@, old(self)@)
            },
            old(self)@.free_heap < max_size + QUEUE_BASE_ALLOC_UNITS ==> {
                &&& r matches Err(e) && e == FreeRtosError::OutOfMemory
                &&& final(self)@ == old(self)@
            },
    {
        Queue::new(self, max_size)
    }

    /// Create a new binary semaphore; see [`BinarySemaphore::new`].
    pub fn new_binary_semaphore(&mut self) -> (r: Result<BinarySemaphore, FreeRtosError>)
        ensures
            old(self)@.free_heap >= SEMAPHORE_ALLOC_UNITS ==> {
                &&& r matches Ok(s) && s.sem() == (SemaphoreState {
                    handle: old(self)@.next_handle,
                    count: 0,
                    max: 1,
                })
                &&& final(self)@.free_heap == old(self)@.free_heap - SEMAPHORE_ALLOC_UNITS
                &&& agrees_except_alloc(final(self)@, old(self)@)
            },
            old(self)@.free_heap < SEMAPHORE_ALLOC_UNITS ==> {
                &&& r matches Err(e) && e == FreeRtosError::OutOfMemory
                &&& final(self)@ == old(self)@
            },
    {
        BinarySemaphore::new(self)
    }

    /// Create a new counting semaphore; see [`CountingSemaphore::new`].
    pub fn new_counting_semaphore(&mut self, max: u32, initial: u32) -> (r: Result<
        CountingSemaphore,
        FreeRtosError,
    >)
        requires
            1 <= max,
            initial <= max,
        ensures
            old(self)@.free_heap >= SEMAPHORE_ALLOC_UNITS ==> {
                &&& r matches Ok(s) && s.sem() == (SemaphoreState {
                    handle: old(self)@.next_handle,
                    count: initial,
                    max: max,
                })
                &&& final(self)@.free_heap == old(self)@.free_heap - SEMAPHORE_ALLOC_UNITS
                &&& agrees_except_alloc(final(self)@, old(self)@)
            },
            old(self)@.free_heap < SEMAPHORE_ALLOC_UNITS ==> {
                &&& r matches Err(e) && e == FreeRtosError::OutOfMemory
                &&& final(self)@ == old(self)@
            },
    {
        CountingSemaphore::new(self, max, initial)
    }

    /// Create a new mutex with the given inner value; see
    /// [`MutexImpl::new`].
    pub fn new_mutex<T>(&mut self, t: T) -> (r: Result<Mutex<T>, FreeRtosError>)
        ensures
            old(self)@.free_heap >= SEMAPHORE_ALLOC_UNITS ==> {
                &&& r matches Ok(m) && m.value() == t && m.state() == (MutexState {
                    handle: old(self)@.next_handle,
                    holder: MutexHolder::Free,
                    depth: 0,
                })
                &&& final(self)@.free_heap == old(self)@.free_heap - SEMAPHORE_ALLOC_UNITS
                &&& agrees_except_alloc(final(self)@, old(self)@)
            },
            old(self)@.free_heap < SEMAPHORE_ALLOC_UNITS ==> {
                &&& r matches Err(e) && e == FreeRtosError::OutOfMemory
                &&& final(self)@ == old(self)@
            },
    {
        MutexImpl::<T, crate::mutex::MutexNormal>::new(self, t)
    }

    /// Create a new recursive mutex with the given inner value; see
    /// [`MutexImpl::new`].
    pub fn new_recursive_mutex<T>(&mut self, t: T) -> (r: Result<RecursiveMutex<T>, FreeRtosError>)
        ensures
            old(self)@.free_heap >= SEMAPHORE_ALLOC_UNITS ==> {
                &&& r matches Ok(m) && m.value() == t && m.state() == (MutexState {
                    handle: old(self)@.next_handle,
                    holder: MutexHolder::Free,
                    depth: 0,
                })
                &&& final(self)@.free_heap == old(self)@.free_heap - SEMAPHORE_ALLOC_UNITS
                &&& agrees_except_alloc(final(self)@, old(self)@)
            },
            old(self)@.free_heap < SEMAPHORE_ALLOC_UNITS ==> {
                &&& r matches Err(e) && e == FreeRtosError::OutOfMemory
                &&& final(self)@ == old(self)@
            },
    {
        MutexImpl::<T, crate::mutex::MutexRecursive>::new(self, t)
    }

    /// A snapshot of the scheduler's task list: one faithful row per task,
    /// in registry order, up to the given limit (or all tasks without
    /// one), together with the total run time.
    pub fn get_all_tasks(&self, tasks_len: Option<usize>) -> (r: FreeRtosSchedulerState)
        requires
            self@.tasks.len() <= u32::MAX,
        ensures
            r.total_run_time == self@.total_run_time,
            r.tasks@.len() == match tasks_len {
                Some(n) => if n <= self@.tasks.len() {
                    n as int
                } else {
                    self@.tasks.len() as int
                },
                None => self@.tasks.len() as int,
            },
            forall|i: int|
                0 <= i < r.tasks@.len() ==> status_matches(#[trigger] r.tasks@[i], self@.tasks[i], i),
    {
        let total: usize = self.tasks.len();
        let limit: usize = match tasks_len {
            Some(n) => if n <= total {
                n
            } else {
                total
            },
            None => total,
        };
        let mut statuses: Vec<FreeRtosTaskStatus> = Vec::new();
        let mut i: usize = 0;
        while i < limit
            invariant
                limit <= self@.tasks.len(),
                self@.tasks.len() <= u32::MAX,
                i <= limit,
                statuses@.len() == i,
                forall|j: int|
                    0 <= j < i ==> status_matches(
                        #[trigger] statuses@[j],
                        self@.tasks[j],
                        j,
                    ),
            decreases limit - i,
        {
            let rec = &self.tasks[i];
            let st = FreeRtosTaskStatus {
                task: TaskRemoteHandle::from_raw(i as u32),
                name: rec.name.clone(),
                task_number: i as u32,
                task_state: rec.state,
                current_priority: TaskPriority(rec.priority),
                base_priority: TaskPriority(rec.priority),
                run_time_counter: rec.run_time,
                stack_high_water_mark: rec.stack_high_water_mark,
            };
            statuses.push(st);
            i = i + 1;
        }
        FreeRtosSchedulerState { tasks: statuses, total_run_time: self.total_run_time }
    }
}

} // verus!
