//! A bounded queue of copyable items, with blocking task-context send and
//! receive and a non-blocking interrupt-safe view.

use vstd::prelude::*;

use crate::base::FreeRtosError;
use crate::isr::ISRSafe;
use crate::isr::ISRSafeHandle;
use crate::isr::InterruptContext;
use crate::operating_system::FreeRTOS;
use crate::operating_system::QUEUE_BASE_ALLOC_UNITS;
use crate::operating_system::agrees_except_alloc;
use crate::operating_system::agrees_except_tasks_and_tick;
use crate::operating_system::heap_after_release;
use crate::operating_system::tick_after_timeout;
use crate::units::Duration;
use crate::units::MAX_WAIT_TICKS;

verus! {

/// The protocol state of one queue, as the contracts see it.
pub ghost struct QueueState<T> {
    /// The kernel handle of the backing object.
    pub handle: u32,
    /// The fixed capacity chosen at creation.
    pub capacity: nat,
    /// The queued items, oldest first.
    pub items: Seq<T>,
}

/// A queue state is well formed when it holds no more than its capacity.
pub open spec fn queue_wf<T>(s: QueueState<T>) -> bool {
    s.items.len() <= s.capacity
}

/// Does a send find room?
pub open spec fn queue_has_room<T>(s: QueueState<T>) -> bool {
    s.items.len() < s.capacity
}

/// Law: a queue filled to its capacity refuses the next send, and after a
/// single receive the next send finds room again — the round-trip
/// capacity invariant.
pub proof fn lemma_queue_capacity_round_trip<T>(s: QueueState<T>)
    requires
        queue_wf(s),
        s.items.len() == s.capacity,
        s.capacity > 0,
    ensures
        !queue_has_room(s),
        queue_has_room(
            (QueueState { items: s.items.subrange(1, s.items.len() as int), ..s }),
        ),
{
}

/// Law: the queue is a faithful first-in first-out channel — a send puts
/// the very item, bit pattern untouched, behind exactly the items that
/// stood before it, and disturbs none of them; so the item comes back as
/// exactly the `n`-th receive, where `n` is how many items stood before
/// it, and a receive from a freshly sent-to empty queue returns it at
/// once.
pub proof fn lemma_queue_fifo_round_trip<T>(s: QueueState<T>, item: T)
    ensures
        s.items.push(item)[s.items.len() as int] == item,
        s.items.push(item).subrange(0, s.items.len() as int) == s.items,
        s.items.len() == 0 ==> s.items.push(item)[0] == item,
{
    assert(s.items.push(item).subrange(0, s.items.len() as int) =~= s.items);
}

/// A queue with a finite capacity. Items are owned by the queue and are
/// copied in and out, never referenced: the backing storage belongs to the
/// kernel and may be touched concurrently from an interrupt and a task, so
/// only bit-copyable payloads are allowed through.
pub struct Queue<T: Copy> {
    handle: u32,
    capacity: usize,
    items: Vec<T>,
}

impl<T: Copy> Queue<T> {
    /// The protocol state of this queue.
    pub closed spec fn state(&self) -> QueueState<T> {
        QueueState { handle: self.handle, capacity: self.capacity as nat, items: self.items@ }
    }

    /// Create a queue of the given capacity. The kernel demands a
    /// non-zero capacity, and charges one allocation unit per slot plus
    /// the queue's own bookkeeping.
    pub fn new(os: &mut FreeRTOS, max_size: usize) -> (r: Result<Queue<T>, FreeRtosError>)
        requires
            1 <= max_size,
            max_size + QUEUE_BASE_ALLOC_UNITS <= u32::MAX,
        ensures
            old(os)@.free_heap >= max_size + QUEUE_BASE_ALLOC_UNITS ==> {
                &&& r matches Ok(q) && q.state() == (QueueState {
                    handle: old(os)@.next_handle,
                    capacity: max_size as nat,
                    items: Seq::<T>::empty(),
                })
                &&& final(os)@.free_heap == old(os)@.free_heap - max_size
                    - QUEUE_BASE_ALLOC_UNITS
                &&& agrees_except_alloc(final(os)@, old(os)@)
            },
            old(os)@.free_heap < max_size + QUEUE_BASE_ALLOC_UNITS ==> {
                &&& r matches Err(e) && e == FreeRtosError::OutOfMemory
                &&& final(os)@ == old(os)@
            },
    {
        let units: u32 = (max_size as u32) + QUEUE_BASE_ALLOC_UNITS;
        match os.alloc_object(units) {
            Some(h) => {
                let q = Queue { handle: h, capacity: max_size, items: Vec::new() };
                proof {
                    assert(q.state().items =~= Seq::<T>::empty());
                }
                Ok(q)
            },
            None => Err(FreeRtosError::OutOfMemory),
        }
    }

    /// Send an item to the end of the queue, waiting for free space within
    /// the given wait. With the queue full the caller is blocked for the
    /// full wait, the clock runs forward by it, and the send-specific
    /// timeout is reported with the item rejected.
    pub fn send(&mut self, os: &mut FreeRTOS, item: T, max_wait: Duration) -> (r: Result<
        (),
        FreeRtosError,
    >)
        requires
            queue_wf(old(self).state()),
        ensures
            queue_wf(final(self).state()),
            final(self).state().handle == old(self).state().handle,
            final(self).state().capacity == old(self).state().capacity,
            queue_has_room(old(self).state()) ==> {
                &&& r == Ok::<(), FreeRtosError>(())
                &&& final(self).state().items == old(self).state().items.push(item)
                &&& final(os)@ == old(os)@
            },
            !queue_has_room(old(self).state()) ==> {
                &&& r == Err::<(), FreeRtosError>(FreeRtosError::QueueSendTimeout)
                &&& final(self).state().items == old(self).state().items
                &&& final(os)@.tick == tick_after_timeout(old(os)@.tick, max_wait@)
                &&& final(os)@.tasks == old(os)@.tasks
                &&& agrees_except_tasks_and_tick(final(os)@, old(os)@)
            },
    {
        if self.items.len() < self.capacity {
            self.items.push(item);
            Ok(())
        } else {
            let w = max_wait.to_ticks();
            if w != MAX_WAIT_TICKS {
                os.advance_tick(w);
            }
            Err(FreeRtosError::QueueSendTimeout)
        }
    }

    /// Receive the item at the front of the queue, waiting for one within
    /// the given wait. With the queue empty the caller is blocked for the
    /// full wait, the clock runs forward by it, and the receive-specific
    /// timeout is reported.
    pub fn receive(&mut self, os: &mut FreeRTOS, max_wait: Duration) -> (r: Result<
        T,
        FreeRtosError,
    >)
        requires
            queue_wf(old(self).state()),
        ensures
            queue_wf(final(self).state()),
            final(self).state().handle == old(self).state().handle,
            final(self).state().capacity == old(self).state().capacity,
            old(self).state().items.len() > 0 ==> {
                &&& r == Ok::<T, FreeRtosError>(old(self).state().items[0])
                &&& final(self).state().items == old(self).state().items.subrange(
                    1,
                    old(self).state().items.len() as int,
                )
                &&& final(os)@ == old(os)@
            },
            old(self).state().items.len() == 0 ==> {
                &&& r == Err::<T, FreeRtosError>(FreeRtosError::QueueReceiveTimeout)
                &&& final(self).state().items == old(self).state().items
                &&& final(os)@.tick == tick_after_timeout(old(os)@.tick, max_wait@)
                &&& final(os)@.tasks == old(os)@.tasks
                &&& agrees_except_tasks_and_tick(final(os)@, old(os)@)
            },
    {
        if self.items.len() > 0 {
            let item = self.items.remove(0);
            proof {
                assert(self.items@ =~= old(self).state().items.subrange(
                    1,
                    old(self).state().items.len() as int,
                ));
            }
            Ok(item)
        } else {
            let w = max_wait.to_ticks();
            if w != MAX_WAIT_TICKS {
                os.advance_tick(w);
            }
            Err(FreeRtosError::QueueReceiveTimeout)
        }
    }

    /// Delete the queue, releasing the backing kernel object exactly once.
    /// Items still queued are dropped without being consumed, which loses
    /// nothing: the payload type is bit-copyable and owns no resource.
    pub fn delete(self, os: &mut FreeRTOS)
        requires
            self.state().capacity + QUEUE_BASE_ALLOC_UNITS <= u32::MAX,
        ensures
            final(os)@.free_heap == heap_after_release(
                old(os)@.free_heap,
                (self.state().capacity + QUEUE_BASE_ALLOC_UNITS) as u32,
            ),
            final(os)@.next_handle == old(os)@.next_handle,
            agrees_except_alloc(final(os)@, old(os)@),
    {
        let units: u32 = (self.capacity as u32) + QUEUE_BASE_ALLOC_UNITS;
        os.release_object(units);
    }
}

/// The interrupt-safe view of a queue: non-blocking send and receive only.
pub struct QueueISRHandle<T: Copy> {
    handle: u32,
    item_type: core::marker::PhantomData<T>,
}

impl<T: Copy> ISRSafe for QueueISRHandle<T> {}

impl<T: Copy> View for QueueISRHandle<T> {
    type V = u32;

    closed spec fn view(&self) -> u32 {
        self.handle
    }
}

impl<T: Copy + ISRSafe> ISRSafeHandle<QueueISRHandle<T>> for Queue<T> {
    open spec fn isr_handle(&self) -> u32 {
        self.state().handle
    }

    fn new_isr_safe_handle(&self) -> (r: QueueISRHandle<T>) {
        QueueISRHandle { handle: self.handle, item_type: core::marker::PhantomData }
    }
}

impl<T: Copy> QueueISRHandle<T> {
    /// Send an item to the end of the queue from an interrupt, without
    /// blocking: a full queue rejects the item at once. A delivered item
    /// can wake a blocked receiver, which is folded into the context's
    /// wake flag.
    pub fn send(&self, queue: &mut Queue<T>, context: &mut InterruptContext, item: T) -> (r: Result<
        (),
        FreeRtosError,
    >)
        requires
            self@ == old(queue).state().handle,
            queue_wf(old(queue).state()),
        ensures
            queue_wf(final(queue).state()),
            final(queue).state().handle == old(queue).state().handle,
            final(queue).state().capacity == old(queue).state().capacity,
            queue_has_room(old(queue).state()) ==> {
                &&& r == Ok::<(), FreeRtosError>(())
                &&& final(queue).state().items == old(queue).state().items.push(item)
                &&& final(context)@ == (old(context)@ || true)
            },
            !queue_has_room(old(queue).state()) ==> {
                &&& r == Err::<(), FreeRtosError>(FreeRtosError::QueueFull)
                &&& final(queue).state().items == old(queue).state().items
                &&& final(context)@ == old(context)@
            },
    {
        if queue.items.len() < queue.capacity {
            queue.items.push(item);
            context.record_wake(true);
            Ok(())
        } else {
            Err(FreeRtosError::QueueFull)
        }
    }

    /// Receive the item at the front of the queue from an interrupt,
    /// without blocking: an empty queue yields nothing. Receiving wakes
    /// nobody in this model, so the context's wake flag is untouched.
    pub fn receive(&self, queue: &mut Queue<T>, context: &mut InterruptContext) -> (r: Option<T>)
        requires
            self@ == old(queue).state().handle,
            queue_wf(old(queue).state()),
        ensures
            queue_wf(final(queue).state()),
            final(queue).state().handle == old(queue).state().handle,
            final(queue).state().capacity == old(queue).state().capacity,
            old(queue).state().items.len() > 0 ==> {
                &&& r == Some(old(queue).state().items[0])
                &&& final(queue).state().items == old(queue).state().items.subrange(
                    1,
                    old(queue).state().items.len() as int,
                )
            },
            old(queue).state().items.len() == 0 ==> {
                &&& r is None
                &&& final(queue).state().items == old(queue).state().items
            },
            final(context)@ == old(context)@,
    {
        if queue.items.len() > 0 {
            let item = queue.items.remove(0);
            proof {
                assert(queue.items@ =~= old(queue).state().items.subrange(
                    1,
                    old(queue).state().items.len() as int,
                ));
            }
            Some(item)
        } else {
            None
        }
    }
}

} // verus!
