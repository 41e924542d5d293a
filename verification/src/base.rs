//! Error taxonomy and kernel-level enumerations shared by every primitive.

use vstd::prelude::*;

verus! {

/// Every fallible operation of the layer reports one of these kernel-level
/// failures. Timeout kinds are deliberately kept distinct per primitive:
/// callers may retry mutex contention differently from queue or semaphore
/// timeouts.
#[derive(Clone, Copy, Debug, PartialEq, Eq, Structural)]
pub enum FreeRtosError {
    /// The kernel could not allocate a handle or a task.
    OutOfMemory,
    /// A mutex lock attempt exceeded its timeout.
    MutexTimeout,
    /// A generic wait (semaphore take, notification wait) expired.
    Timeout,
    /// A queue send did not find free space within its timeout.
    QueueSendTimeout,
    /// A queue receive did not find an item within its timeout.
    QueueReceiveTimeout,
    /// A non-blocking queue send found the queue full and rejected the item.
    QueueFull,
}

/// The scheduler-visible state of a task, as reported in a scheduler
/// snapshot.
#[derive(Clone, Copy, Debug, PartialEq, Eq, Structural)]
pub enum FreeRtosTaskState {
    /// The task is currently executing.
    Running,
    /// The task is ready to execute but another task is running.
    Ready,
    /// The task waits for a primitive or for a tick deadline.
    Blocked,
    /// The task was explicitly suspended.
    Suspended,
    /// The task deleted itself; its slot awaits cleanup.
    Deleted,
}

} // verus!
