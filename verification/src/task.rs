//! The task model: the three views of a task identity, the spawn mechanism,
//! and the single-word notification mailbox with its five update policies.

use vstd::prelude::*;

use crate::base::FreeRtosError;
use crate::base::FreeRtosTaskState;
use crate::isr::ISRSafe;
use crate::isr::InterruptContext;
use crate::operating_system::FreeRTOS;
use crate::operating_system::NotifyOutcome;
use crate::operating_system::TASK_BASE_ALLOC_UNITS;
use crate::operating_system::TaskView;
use crate::operating_system::agrees_except_tasks;
use crate::operating_system::agrees_except_tasks_and_tick;
use crate::operating_system::heap_after_release;
use crate::operating_system::live_closure_allocations;
use crate::operating_system::notify_apply_code;
use crate::operating_system::tick_after_timeout;
use crate::operating_system::trampoline_invocations;
use crate::units::Duration;
use crate::units::tick_add;

verus! {

/// A task's execution priority. Low numbers denote low-priority tasks.
#[derive(Debug, Copy, Clone)]
pub struct TaskPriority(pub u8);

impl TaskPriority {
    /// The raw priority code as the kernel call surface takes it.
    pub fn to_freertos(&self) -> (r: u8)
        ensures
            r == self.0,
    {
        self.0
    }
}

/// A notification to be posted to a task: one of the five update policies
/// the kernel applies atomically to the target's single-word mailbox.
#[derive(Debug, Copy, Clone)]
pub enum TaskNotification {
    /// Wake the task; its notification value is not changed.
    NoAction,
    /// Bitwise-or the given bits into the task's notification value.
    SetBits(u32),
    /// Increment the task's notification value by one.
    Increment,
    /// Set the task's notification value unconditionally.
    OverwriteValue(u32),
    /// Set the task's notification value only if the task has no pending
    /// notification; otherwise the notify call reports failure.
    SetValue(u32),
}

impl TaskNotification {
    /// The value argument this notification hands to the kernel call.
    pub open spec fn arg_spec(&self) -> u32 {
        match *self {
            TaskNotification::NoAction => 0,
            TaskNotification::SetBits(v) => v,
            TaskNotification::Increment => 0,
            TaskNotification::OverwriteValue(v) => v,
            TaskNotification::SetValue(v) => v,
        }
    }

    /// The action code this notification hands to the kernel call.
    pub open spec fn action_spec(&self) -> u8 {
        match *self {
            TaskNotification::NoAction => 0,
            TaskNotification::SetBits(_) => 1,
            TaskNotification::Increment => 2,
            TaskNotification::OverwriteValue(_) => 3,
            TaskNotification::SetValue(_) => 4,
        }
    }

    /// Encode the notification as the kernel call surface takes it: a value
    /// argument and an action code.
    pub fn to_freertos(&self) -> (r: (u32, u8))
        ensures
            r.0 == self.arg_spec(),
            r.1 == self.action_spec(),
    {
        match *self {
            TaskNotification::NoAction => (0, 0),
            TaskNotification::SetBits(v) => (v, 1),
            TaskNotification::Increment => (0, 2),
            TaskNotification::OverwriteValue(v) => (v, 3),
            TaskNotification::SetValue(v) => (v, 4),
        }
    }
}

/// What posting a notification does to a task's mailbox, over the policy
/// enumeration itself.
pub open spec fn notification_apply(
    value: u32,
    pending: bool,
    n: TaskNotification,
) -> NotifyOutcome {
    match n {
        TaskNotification::NoAction => NotifyOutcome { value: value, pending: true, accepted: true },
        TaskNotification::SetBits(b) => NotifyOutcome {
            value: value | b,
            pending: true,
            accepted: true,
        },
        TaskNotification::Increment => NotifyOutcome {
            value: tick_add(value, 1),
            pending: true,
            accepted: true,
        },
        TaskNotification::OverwriteValue(v) => NotifyOutcome {
            value: v,
            pending: true,
            accepted: true,
        },
        TaskNotification::SetValue(v) => if pending {
            NotifyOutcome { value: value, pending: true, accepted: false }
        } else {
            NotifyOutcome { value: v, pending: true, accepted: true }
        },
    }
}

/// The kernel's raw-code update agrees with the policy-level one under the
/// encoding of [`TaskNotification::to_freertos`].
pub proof fn lemma_notification_codes(value: u32, pending: bool, n: TaskNotification)
    ensures
        notify_apply_code(value, pending, n.arg_spec(), n.action_spec()) == notification_apply(
            value,
            pending,
            n,
        ),
{
}

/// Operations available on any view of a task identity that may be held in
/// task context.
pub trait TaskHandle: Sized {
    /// The kernel handle this view stands for.
    spec fn task_id(&self) -> u32;

    /// The raw kernel handle.
    fn raw_handle(&self) -> (r: u32)
        ensures
            r == self.task_id(),
    ;

    /// The task's name.
    fn get_name(&self, os: &FreeRTOS) -> (r: Result<String, ()>)
        requires
            (self.task_id() as int) < os@.tasks.len(),
        ensures
            r is Ok,
            r matches Ok(name) ==> name@ == os@.tasks[self.task_id() as int].name,
    ;

    /// The least stack ever left free on the task, a kernel-maintained
    /// diagnostic watermark.
    fn get_stack_high_water_mark(&self, os: &FreeRTOS) -> (r: u32)
        requires
            (self.task_id() as int) < os@.tasks.len(),
        ensures
            r == os@.tasks[self.task_id() as int].stack_high_water_mark,
    ;

    /// Derive the interrupt-safe view of the task: a non-owning handle
    /// restricted to posting notifications, the one task operation the
    /// kernel defines as interrupt-safe. Tasks are never deallocated while
    /// the scheduler runs, so the derivation needs no lifetime promise.
    fn new_isr_safe_handle(&self) -> (r: TaskISRHandle)
        ensures
            r@ == self.task_id(),
    ;
}

/// The view a task holds of itself, handed to its body at dispatch. It is
/// not transferable to another execution context; it alone may delete its
/// own task or consume its own pending notification.
pub struct TaskSelfHandle {
    task_id: u32,
    // Pins the handle to the execution context it was synthesized in: a
    // self-handle must never be shared with or sent to another task.
    not_shareable: core::marker::PhantomData<std::rc::Rc<()>>,
}

impl View for TaskSelfHandle {
    type V = u32;

    closed spec fn view(&self) -> u32 {
        self.task_id
    }
}

impl TaskHandle for TaskSelfHandle {
    open spec fn task_id(&self) -> u32 {
        self@
    }

    fn raw_handle(&self) -> u32 {
        self.task_id
    }

    fn get_name(&self, os: &FreeRTOS) -> (r: Result<String, ()>) {
        Ok(os.kernel_task_name(self.task_id))
    }

    fn get_stack_high_water_mark(&self, os: &FreeRTOS) -> u32 {
        os.kernel_task_high_water_mark(self.task_id) as u32
    }

    fn new_isr_safe_handle(&self) -> TaskISRHandle {
        TaskISRHandle { task_id: self.task_id }
    }
}

impl TaskSelfHandle {
    /// A task can delete itself. The deletion is irreversible: the slot is
    /// marked deleted, the task's stack and control block return to the
    /// kernel heap, and the self-handle is consumed, so nothing can run on
    /// its behalf afterwards. This must be the last statement of a task
    /// body.
    pub fn delete(self, os: &mut FreeRTOS)
        requires
            (self@ as int) < old(os)@.tasks.len(),
        ensures
            final(os)@.tasks == old(os)@.tasks.update(
                self@ as int,
                (TaskView {
                    state: FreeRtosTaskState::Deleted,
                    ..old(os)@.tasks[self@ as int]
                }),
            ),
            final(os)@.free_heap == heap_after_release(
                old(os)@.free_heap,
                (old(os)@.tasks[self@ as int].stack_size + TASK_BASE_ALLOC_UNITS) as u32,
            ),
            final(os)@.tick == old(os)@.tick,
            final(os)@.next_handle == old(os)@.next_handle,
            final(os)@.total_run_time == old(os)@.total_run_time,
    {
        os.kernel_delete_task(self.task_id);
    }

    /// Take the pending notification: returns the notification value and
    /// either clears it or decrements it by one. When no notification value
    /// is there, the call waits out the given time and returns zero.
    pub fn take_notification(&self, os: &mut FreeRTOS, clear: bool, wait_for: Duration) -> (r: u32)
        requires
            (self@ as int) < old(os)@.tasks.len(),
        ensures
            ({
                let t = old(os)@.tasks[self@ as int];
                if t.notify_value > 0 {
                    &&& r == t.notify_value
                    &&& final(os)@.tasks == old(os)@.tasks.update(
                        self@ as int,
                        (TaskView {
                            notify_value: if clear {
                                0u32
                            } else {
                                (t.notify_value - 1) as u32
                            },
                            notify_pending: false,
                            ..t
                        }),
                    )
                    &&& final(os)@.tick == old(os)@.tick
                } else {
                    &&& r == 0
                    &&& final(os)@.tasks == old(os)@.tasks.update(
                        self@ as int,
                        (TaskView { notify_pending: false, ..t }),
                    )
                    &&& final(os)@.tick == tick_after_timeout(old(os)@.tick, wait_for@)
                }
            }),
            agrees_except_tasks_and_tick(final(os)@, old(os)@),
    {
        let ticks = wait_for.to_ticks();
        os.kernel_notify_take(self.task_id, clear, ticks)
    }

    /// Wait for a notification to be posted. A pending notification is
    /// consumed with the exit bit-mask cleared from its value; when none is
    /// pending, the entry bit-mask is cleared, the wait times out and the
    /// call reports the generic timeout failure.
    pub fn wait_for_notification(
        &self,
        os: &mut FreeRTOS,
        clear_bits_enter: u32,
        clear_bits_exit: u32,
        wait_for: Duration,
    ) -> (r: Result<u32, FreeRtosError>)
        requires
            (self@ as int) < old(os)@.tasks.len(),
        ensures
            ({
                let t = old(os)@.tasks[self@ as int];
                if t.notify_pending {
                    &&& r == Ok::<u32, FreeRtosError>(t.notify_value)
                    &&& final(os)@.tasks == old(os)@.tasks.update(
                        self@ as int,
                        (TaskView {
                            notify_value: t.notify_value & !clear_bits_exit,
                            notify_pending: false,
                            ..t
                        }),
                    )
                    &&& final(os)@.tick == old(os)@.tick
                } else {
                    &&& r == Err::<u32, FreeRtosError>(FreeRtosError::Timeout)
                    &&& final(os)@.tasks == old(os)@.tasks.update(
                        self@ as int,
                        (TaskView { notify_value: t.notify_value & !clear_bits_enter, ..t }),
                    )
                    &&& final(os)@.tick == tick_after_timeout(old(os)@.tick, wait_for@)
                }
            }),
            agrees_except_tasks_and_tick(final(os)@, old(os)@),
    {
        let ticks = wait_for.to_ticks();
        match os.kernel_notify_wait(self.task_id, clear_bits_enter, clear_bits_exit, ticks) {
            Some(v) => Ok(v),
            None => Err(FreeRtosError::Timeout),
        }
    }

    /// Hand out an owning, shareable view of the running task for other tasks to
    /// notify or inspect it.
    pub fn new_remote_handle(&self) -> (r: TaskRemoteHandle)
        ensures
            r@ == self@,
    {
        TaskRemoteHandle { task_id: self.task_id }
    }
}

/// The owning, copyable, shareable view of a task used by other tasks to
/// notify or inspect it.
#[derive(Debug, Clone, Copy)]
pub struct TaskRemoteHandle {
    task_id: u32,
}

impl View for TaskRemoteHandle {
    type V = u32;

    closed spec fn view(&self) -> u32 {
        self.task_id
    }
}

impl TaskHandle for TaskRemoteHandle {
    open spec fn task_id(&self) -> u32 {
        self@
    }

    fn raw_handle(&self) -> u32 {
        self.task_id
    }

    fn get_name(&self, os: &FreeRTOS) -> (r: Result<String, ()>) {
        Ok(os.kernel_task_name(self.task_id))
    }

    fn get_stack_high_water_mark(&self, os: &FreeRTOS) -> u32 {
        os.kernel_task_high_water_mark(self.task_id) as u32
    }

    fn new_isr_safe_handle(&self) -> TaskISRHandle {
        TaskISRHandle { task_id: self.task_id }
    }
}

/// The task record a successful spawn appends to the registry.
pub open spec fn spawned_task_view(name: Seq<char>, stack_size: u16, priority: u8) -> TaskView {
    TaskView {
        name: name,
        stack_size: stack_size,
        priority: priority,
        state: FreeRtosTaskState::Ready,
        notify_value: 0,
        notify_pending: false,
        run_time: 0,
        stack_high_water_mark: stack_size,
        closure_pending: true,
    }
}

impl TaskRemoteHandle {
    /// Spawn a new independent task.
    ///
    /// The task's entry closure is heap-allocated in one piece and handed to
    /// the kernel as the opaque parameter of a single trampoline entry
    /// point; the allocation is recovered exactly once, at the task's first
    /// dispatch. When the kernel cannot create the task, the allocation is
    /// released before the call returns (the live-allocation count is
    /// unchanged) and no trampoline invocation ever occurs for it.
    pub fn new(
        os: &mut FreeRTOS,
        name: &str,
        stack_depth: u16,
        priority: TaskPriority,
    ) -> (r: Result<TaskRemoteHandle, FreeRtosError>)
        requires
            name@.len() <= 255,
            old(os)@.tasks.len() < u32::MAX,
        ensures
            old(os)@.free_heap >= stack_depth + TASK_BASE_ALLOC_UNITS ==> {
                &&& r matches Ok(h) && h@ == old(os)@.tasks.len() as u32
                &&& final(os)@.tasks == old(os)@.tasks.push(
                    spawned_task_view(name@, stack_depth, priority.0),
                )
                &&& final(os)@.free_heap == old(os)@.free_heap - stack_depth
                    - TASK_BASE_ALLOC_UNITS
                &&& live_closure_allocations(final(os)@.tasks) == live_closure_allocations(
                    old(os)@.tasks,
                ) + 1
                &&& trampoline_invocations(final(os)@.tasks) == trampoline_invocations(
                    old(os)@.tasks,
                )
                &&& final(os)@.tick == old(os)@.tick
                &&& final(os)@.next_handle == old(os)@.next_handle
                &&& final(os)@.total_run_time == old(os)@.total_run_time
            },
            old(os)@.free_heap < stack_depth + TASK_BASE_ALLOC_UNITS ==> {
                &&& r == Err::<TaskRemoteHandle, FreeRtosError>(FreeRtosError::OutOfMemory)
                &&& final(os)@ == old(os)@
                &&& live_closure_allocations(final(os)@.tasks) == live_closure_allocations(
                    old(os)@.tasks,
                )
                &&& trampoline_invocations(final(os)@.tasks) == trampoline_invocations(
                    old(os)@.tasks,
                )
            },
    {
        TaskRemoteHandle::spawn_inner(os, name, stack_depth, priority)
    }

    /// Construct a remote handle from a raw kernel handle.
    pub fn from_raw(task_handle: u32) -> (r: TaskRemoteHandle)
        ensures
            r@ == task_handle,
    {
        TaskRemoteHandle { task_id: task_handle }
    }

    fn spawn_inner(
        os: &mut FreeRTOS,
        name: &str,
        stack_size: u16,
        priority: TaskPriority,
    ) -> (r: Result<TaskRemoteHandle, FreeRtosError>)
        requires
            name@.len() <= 255,
            old(os)@.tasks.len() < u32::MAX,
        ensures
            old(os)@.free_heap >= stack_size + TASK_BASE_ALLOC_UNITS ==> {
                &&& r matches Ok(h) && h@ == old(os)@.tasks.len() as u32
                &&& final(os)@.tasks == old(os)@.tasks.push(
                    spawned_task_view(name@, stack_size, priority.0),
                )
                &&& final(os)@.free_heap == old(os)@.free_heap - stack_size
                    - TASK_BASE_ALLOC_UNITS
                &&& live_closure_allocations(final(os)@.tasks) == live_closure_allocations(
                    old(os)@.tasks,
                ) + 1
                &&& trampoline_invocations(final(os)@.tasks) == trampoline_invocations(
                    old(os)@.tasks,
                )
                &&& final(os)@.tick == old(os)@.tick
                &&& final(os)@.next_handle == old(os)@.next_handle
                &&& final(os)@.total_run_time == old(os)@.total_run_time
            },
            old(os)@.free_heap < stack_size + TASK_BASE_ALLOC_UNITS ==> {
                &&& r == Err::<TaskRemoteHandle, FreeRtosError>(FreeRtosError::OutOfMemory)
                &&& final(os)@ == old(os)@
                &&& live_closure_allocations(final(os)@.tasks) == live_closure_allocations(
                    old(os)@.tasks,
                )
                &&& trampoline_invocations(final(os)@.tasks) == trampoline_invocations(
                    old(os)@.tasks,
                )
            },
    {
        let p = priority.to_freertos();
        match os.kernel_spawn(name, stack_size, p) {
            Some(id) => {
                proof {
                    lemma_closure_counts_push(
                        old(os)@.tasks,
                        spawned_task_view(name@, stack_size, priority.0),
                    );
                }
                Ok(TaskRemoteHandle { task_id: id })
            },
            None => Err(FreeRtosError::OutOfMemory),
        }
    }

    /// Forcibly set the notification value for the target task: an unconditional
    /// overwrite, which cannot be refused.
    pub fn set_notification_value(&self, os: &mut FreeRTOS, val: u32)
        requires
            (self@ as int) < old(os)@.tasks.len(),
        ensures
            final(os)@.tasks == old(os)@.tasks.update(
                self@ as int,
                (TaskView {
                    notify_value: val,
                    notify_pending: true,
                    ..old(os)@.tasks[self@ as int]
                }),
            ),
            agrees_except_tasks(final(os)@, old(os)@),
    {
        self.notify(os, TaskNotification::OverwriteValue(val));
    }

    /// Notify the target task. Returns whether the kernel accepted the
    /// notification: every policy is accepted except a conditional set
    /// against a still-pending notification.
    pub fn notify(&self, os: &mut FreeRTOS, notification: TaskNotification) -> (accepted: bool)
        requires
            (self@ as int) < old(os)@.tasks.len(),
        ensures
            ({
                let t = old(os)@.tasks[self@ as int];
                let o = notification_apply(t.notify_value, t.notify_pending, notification);
                &&& accepted == o.accepted
                &&& final(os)@.tasks == old(os)@.tasks.update(
                    self@ as int,
                    (TaskView { notify_value: o.value, notify_pending: o.pending, ..t }),
                )
                &&& agrees_except_tasks(final(os)@, old(os)@)
            }),
    {
        let n = notification.to_freertos();
        proof {
            let t = old(os)@.tasks[self@ as int];
            lemma_notification_codes(t.notify_value, t.notify_pending, notification);
        }
        os.kernel_task_notify(self.task_id, n.0, n.1)
    }
}

/// The non-owning, interrupt-safe view of a task: it supports the one task
/// operation the kernel defines as interrupt-safe, posting a notification.
#[derive(Debug, Clone, Copy)]
pub struct TaskISRHandle {
    task_id: u32,
}

impl ISRSafe for TaskISRHandle {}

impl View for TaskISRHandle {
    type V = u32;

    closed spec fn view(&self) -> u32 {
        self.task_id
    }
}

impl TaskISRHandle {
    /// Notify the target task from an interrupt. An accepted notification can
    /// wake the target, which is folded into the context's wake flag; a
    /// refused conditional set reports a full mailbox and leaves the flag
    /// alone.
    pub fn notify(
        &self,
        os: &mut FreeRTOS,
        context: &mut InterruptContext,
        notification: TaskNotification,
    ) -> (r: Result<(), FreeRtosError>)
        requires
            (self@ as int) < old(os)@.tasks.len(),
        ensures
            ({
                let t = old(os)@.tasks[self@ as int];
                let o = notification_apply(t.notify_value, t.notify_pending, notification);
                &&& r == if o.accepted {
                    Ok::<(), FreeRtosError>(())
                } else {
                    Err::<(), FreeRtosError>(FreeRtosError::QueueFull)
                }
                &&& final(os)@.tasks == old(os)@.tasks.update(
                    self@ as int,
                    (TaskView { notify_value: o.value, notify_pending: o.pending, ..t }),
                )
                &&& agrees_except_tasks(final(os)@, old(os)@)
                &&& final(context)@ == (old(context)@ || o.accepted)
            }),
    {
        let n = notification.to_freertos();
        proof {
            let t = old(os)@.tasks[self@ as int];
            lemma_notification_codes(t.notify_value, t.notify_pending, notification);
        }
        let accepted = os.kernel_task_notify(self.task_id, n.0, n.1);
        context.record_wake(accepted);
        if accepted {
            Ok(())
        } else {
            Err(FreeRtosError::QueueFull)
        }
    }
}

impl FreeRTOS {
    /// The kernel starts running a spawned task: its trampoline recovers
    /// the entry closure from the opaque spawn parameter (consuming the one
    /// allocation made at spawn time, so the live-allocation count drops by
    /// one and the trampoline count rises by one) and synthesizes the
    /// self-handle the task body receives.
    pub fn dispatch(&mut self, task: &TaskRemoteHandle) -> (r: TaskSelfHandle)
        requires
            (task@ as int) < old(self)@.tasks.len(),
            old(self)@.tasks[task@ as int].closure_pending,
        ensures
            r@ == task@,
            final(self)@.tasks == old(self)@.tasks.update(
                task@ as int,
                (TaskView {
                    state: FreeRtosTaskState::Running,
                    closure_pending: false,
                    ..old(self)@.tasks[task@ as int]
                }),
            ),
            agrees_except_tasks(final(self)@, old(self)@),
            live_closure_allocations(final(self)@.tasks) + 1 == live_closure_allocations(
                old(self)@.tasks,
            ),
            trampoline_invocations(final(self)@.tasks) == trampoline_invocations(
                old(self)@.tasks,
            ) + 1,
    {
        let id = task.raw_handle();
        self.kernel_dispatch(id);
        proof {
            lemma_closure_counts_update(
                old(self)@.tasks,
                task@ as int,
                (TaskView {
                    state: FreeRtosTaskState::Running,
                    closure_pending: false,
                    ..old(self)@.tasks[task@ as int]
                }),
            );
        }
        TaskSelfHandle { task_id: id, not_shareable: core::marker::PhantomData }
    }
}

/// One row of a scheduler snapshot: the kernel's report on one task.
#[derive(Debug)]
pub struct FreeRtosTaskStatus {
    /// A remote handle on the reported task.
    pub task: TaskRemoteHandle,
    /// The task's name.
    pub name: String,
    /// The task's position in the kernel registry.
    pub task_number: u32,
    /// Scheduler-visible state at snapshot time.
    pub task_state: FreeRtosTaskState,
    /// Current priority.
    pub current_priority: TaskPriority,
    /// Priority before any inheritance.
    pub base_priority: TaskPriority,
    /// Accumulated run time.
    pub run_time_counter: u32,
    /// Least stack ever left free.
    pub stack_high_water_mark: u16,
}

/// Does a snapshot row faithfully report the registry entry `t` standing
/// at position `number`?
pub open spec fn status_matches(st: FreeRtosTaskStatus, t: TaskView, number: int) -> bool {
    &&& st.task@ == number
    &&& st.name@ == t.name
    &&& st.task_number == number
    &&& st.task_state == t.state
    &&& st.current_priority.0 == t.priority
    &&& st.base_priority.0 == t.priority
    &&& st.run_time_counter == t.run_time
    &&& st.stack_high_water_mark == t.stack_high_water_mark
}

/// A scheduler snapshot: one row per task, plus the total run time the
/// kernel reported.
#[derive(Debug)]
pub struct FreeRtosSchedulerState {
    /// One row per task, in registry order.
    pub tasks: Vec<FreeRtosTaskStatus>,
    /// Total run time over all tasks.
    pub total_run_time: u32,
}

/// A task's share of the total run time, as a report renders it. Both a
/// zero total and a per-task run time exceeding the reported total are
/// treated as unknown rather than as an error.
#[derive(Clone, Copy, Debug, PartialEq, Eq, Structural)]
pub enum CpuUsage {
    /// No percentage can be given: the total is zero or inconsistent.
    Unknown,
    /// The task ran, but for less than one percent of the total.
    LessThanOnePercent,
    /// The task's whole percentage of the total run time.
    Percent(u32),
}

/// The percentage rule of the scheduler report.
pub open spec fn cpu_usage_spec(run_time: u32, total_run_time: u32) -> CpuUsage {
    if 0 < total_run_time && run_time <= total_run_time {
        if (run_time as int) * 100 / (total_run_time as int) == 0 && run_time > 0 {
            CpuUsage::LessThanOnePercent
        } else {
            CpuUsage::Percent(((run_time as int) * 100 / (total_run_time as int)) as u32)
        }
    } else {
        CpuUsage::Unknown
    }
}

impl FreeRtosTaskStatus {
    /// The row's share of the given total run time.
    pub fn cpu_usage(&self, total_run_time: u32) -> (r: CpuUsage)
        ensures
            r == cpu_usage_spec(self.run_time_counter, total_run_time),
    {
        let run = self.run_time_counter;
        if 0 < total_run_time && run <= total_run_time {
            let p64: u64 = ((run as u64) * 100) / (total_run_time as u64);
            proof {
                vstd::arithmetic::div_mod::lemma_div_is_ordered(
                    (run as int) * 100,
                    (total_run_time as int) * 100,
                    total_run_time as int,
                );
                vstd::arithmetic::div_mod::lemma_div_multiples_vanish(
                    100,
                    total_run_time as int,
                );
            }
            let p: u32 = p64 as u32;
            if p == 0 && run > 0 {
                CpuUsage::LessThanOnePercent
            } else {
                CpuUsage::Percent(p)
            }
        } else {
            CpuUsage::Unknown
        }
    }
}

/// Pushing a record onto the registry adds its contribution to both
/// spawn-accounting counts.
pub proof fn lemma_closure_counts_push(s: Seq<TaskView>, t: TaskView)
    ensures
        live_closure_allocations(s.push(t)) == live_closure_allocations(s) + if t.closure_pending {
            1nat
        } else {
            0nat
        },
        trampoline_invocations(s.push(t)) == trampoline_invocations(s) + if t.closure_pending {
            0nat
        } else {
            1nat
        },
{
    assert(s.push(t).drop_last() =~= s);
    assert(s.push(t).last() == t);
}

/// Replacing one record exchanges its contribution to both spawn-accounting
/// counts.
pub proof fn lemma_closure_counts_update(s: Seq<TaskView>, i: int, t: TaskView)
    requires
        0 <= i < s.len(),
    ensures
        live_closure_allocations(s.update(i, t)) + if s[i].closure_pending {
            1nat
        } else {
            0nat
        } == live_closure_allocations(s) + if t.closure_pending {
            1nat
        } else {
            0nat
        },
        trampoline_invocations(s.update(i, t)) + if s[i].closure_pending {
            0nat
        } else {
            1nat
        } == trampoline_invocations(s) + if t.closure_pending {
            0nat
        } else {
            1nat
        },
    decreases s.len(),
{
    if i == s.len() - 1 {
        assert(s.update(i, t).drop_last() =~= s.drop_last());
        assert(s.update(i, t).last() == t);
        assert(s.last() == s[i]);
    } else {
        assert(s.update(i, t).drop_last() =~= s.drop_last().update(i, t));
        assert(s.update(i, t).last() == s.last());
        lemma_closure_counts_update(s.drop_last(), i, t);
        assert(s.drop_last()[i] == s[i]);
    }
}

} // verus!
