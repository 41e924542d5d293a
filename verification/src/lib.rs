//! A safety layer over a preemptive real-time kernel's native primitives.
//!
//! The kernel itself (scheduler, tick interrupt, ready queue) is an external
//! collaborator; this crate captures the narrow call surface it offers as an
//! explicit, fully specified state machine: the [`operating_system::FreeRTOS`]
//! value holds the kernel-side state (tick clock, remaining kernel heap, task
//! registry with per-task notification slots), and every primitive wrapper
//! (mutex, semaphore, bounded queue, task handle, delay helper) is a verified
//! transition over that state plus its own protocol state.
//!
//! The layer's job is to make misuse of a primitive across the task/interrupt
//! boundary impossible: blocking entry points demand a task self-handle as the
//! proof of task context, interrupt-safe entry points demand an
//! [`isr::InterruptContext`] token, and every lock/unlock pair is kept
//! symmetric through guard values that are consumed exactly once.

pub mod base;
pub mod delays;
pub mod isr;
pub mod mutex;
pub mod operating_system;
pub mod queue;
pub mod semaphore;
pub mod task;
pub mod timers;
pub mod units;
