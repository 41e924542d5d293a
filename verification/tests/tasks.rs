use freertos_rust::base::FreeRtosError;
use freertos_rust::base::FreeRtosTaskState;
use freertos_rust::isr::InterruptContext;
use freertos_rust::operating_system::FreeRTOS;
use freertos_rust::task::CpuUsage;
use freertos_rust::task::FreeRtosTaskStatus;
use freertos_rust::task::TaskHandle;
use freertos_rust::task::TaskNotification;
use freertos_rust::task::TaskPriority;
use freertos_rust::task::TaskRemoteHandle;
use freertos_rust::units::Duration;

#[test]
fn spawn_registers_the_task() {
    let mut os = FreeRTOS::start_scheduler(1000);
    assert_eq!(os.get_number_of_tasks(), 0);
    let t = os.new_task("gatherer", 128, TaskPriority(3)).unwrap();
    assert_eq!(os.get_number_of_tasks(), 1);
    assert_eq!(t.raw_handle(), 0);
    assert_eq!(t.get_name(&os), Ok(String::from("gatherer")));
    assert_eq!(t.get_stack_high_water_mark(&os), 128);
    let again = TaskRemoteHandle::from_raw(t.raw_handle());
    assert_eq!(again.get_name(&os), Ok(String::from("gatherer")));
}

#[test]
fn spawn_failure_releases_the_closure_and_runs_no_trampoline() {
    // heap for the control block but not for the stack
    let mut os = FreeRTOS::start_scheduler(50);
    let heap_before = os.free_heap_units();
    let r = os.new_task("too-big", 1024, TaskPriority(1));
    match r {
        Err(e) => assert_eq!(e, FreeRtosError::OutOfMemory),
        Ok(_) => panic!("a stack exceeding the kernel heap cannot be allocated"),
    }
    // nothing leaked and nothing ran: registry and heap exactly as before
    assert_eq!(os.get_number_of_tasks(), 0);
    assert_eq!(os.free_heap_units(), heap_before);
}

#[test]
fn dispatch_hands_the_task_its_self_handle() {
    let mut os = FreeRTOS::start_scheduler(1000);
    let remote = os.new_task("runner", 64, TaskPriority(1)).unwrap();
    let own = os.dispatch(&remote);
    assert_eq!(own.raw_handle(), remote.raw_handle());
    let derived = own.new_remote_handle();
    assert_eq!(derived.raw_handle(), remote.raw_handle());
    let snapshot = os.get_all_tasks(None);
    assert_eq!(snapshot.tasks[0].task_state, FreeRtosTaskState::Running);
}

#[test]
fn deleted_task_returns_its_memory() {
    let mut os = FreeRTOS::start_scheduler(1000);
    let heap_start = os.free_heap_units();
    let remote = os.new_task("brief", 64, TaskPriority(1)).unwrap();
    let own = os.dispatch(&remote);
    own.delete(&mut os);
    assert_eq!(os.free_heap_units(), heap_start);
    let snapshot = os.get_all_tasks(None);
    assert_eq!(snapshot.tasks[0].task_state, FreeRtosTaskState::Deleted);
}

#[test]
fn conditional_set_fails_on_a_pending_notification() {
    let mut os = FreeRTOS::start_scheduler(1000);
    let remote = os.new_task("notified", 64, TaskPriority(1)).unwrap();
    // a prior notification is still unconsumed
    assert!(remote.notify(&mut os, TaskNotification::SetBits(0b01)));
    // the conditional set is refused
    assert!(!remote.notify(&mut os, TaskNotification::SetValue(99)));
    // the unconditional overwrite always succeeds
    assert!(remote.notify(&mut os, TaskNotification::OverwriteValue(7)));
    let own = os.dispatch(&remote);
    assert_eq!(own.take_notification(&mut os, true, Duration::zero()), 7);
    // consumed: now the conditional set is accepted
    assert!(remote.notify(&mut os, TaskNotification::SetValue(99)));
    assert_eq!(own.take_notification(&mut os, true, Duration::zero()), 99);
}

#[test]
fn increment_twice_then_take_yields_two() {
    let mut os = FreeRTOS::start_scheduler(1000);
    let remote = os.new_task("counted", 64, TaskPriority(1)).unwrap();
    let own = os.dispatch(&remote);
    assert!(remote.notify(&mut os, TaskNotification::Increment));
    assert!(remote.notify(&mut os, TaskNotification::Increment));
    assert_eq!(own.take_notification(&mut os, true, Duration::zero()), 2);
    assert_eq!(own.take_notification(&mut os, true, Duration::zero()), 0);
}

#[test]
fn increment_wraps_like_the_kernel_counter() {
    let mut os = FreeRTOS::start_scheduler(1000);
    let remote = os.new_task("wrapped", 64, TaskPriority(1)).unwrap();
    let own = os.dispatch(&remote);
    remote.set_notification_value(&mut os, u32::MAX);
    assert!(remote.notify(&mut os, TaskNotification::Increment));
    assert_eq!(own.take_notification(&mut os, true, Duration::zero()), 0);
}

#[test]
fn take_without_clear_decrements() {
    let mut os = FreeRTOS::start_scheduler(1000);
    let remote = os.new_task("decremented", 64, TaskPriority(1)).unwrap();
    let own = os.dispatch(&remote);
    assert!(remote.notify(&mut os, TaskNotification::Increment));
    assert!(remote.notify(&mut os, TaskNotification::Increment));
    assert_eq!(own.take_notification(&mut os, false, Duration::zero()), 2);
    assert_eq!(own.take_notification(&mut os, false, Duration::zero()), 1);
    assert_eq!(own.take_notification(&mut os, false, Duration::zero()), 0);
}

#[test]
fn wait_for_notification_applies_the_masks() {
    let mut os = FreeRTOS::start_scheduler(1000);
    let remote = os.new_task("masked", 64, TaskPriority(1)).unwrap();
    let own = os.dispatch(&remote);
    assert!(remote.notify(&mut os, TaskNotification::SetBits(0b1100)));
    let got = own.wait_for_notification(&mut os, 0, 0b0100, Duration::zero());
    assert_eq!(got, Ok(0b1100));
    // the exit mask cleared one bit; what remains is taken next
    assert_eq!(own.take_notification(&mut os, true, Duration::zero()), 0b1000);
    // with nothing pending, the wait times out after its full duration
    let before = os.get_tick_count();
    let empty = own.wait_for_notification(&mut os, 0, 0, Duration::ticks(6));
    assert_eq!(empty, Err(FreeRtosError::Timeout));
    assert_eq!(os.get_tick_count(), before + 6);
}

#[test]
fn set_notification_value_overwrites() {
    let mut os = FreeRTOS::start_scheduler(1000);
    let remote = os.new_task("forced", 64, TaskPriority(1)).unwrap();
    let own = os.dispatch(&remote);
    remote.set_notification_value(&mut os, 3);
    remote.set_notification_value(&mut os, 11);
    assert_eq!(own.take_notification(&mut os, true, Duration::zero()), 11);
}

#[test]
fn isr_notify_reports_the_refused_conditional_set() {
    let mut os = FreeRTOS::start_scheduler(1000);
    let remote = os.new_task("pinged", 64, TaskPriority(1)).unwrap();
    let isr = remote.new_isr_safe_handle();
    let mut ctx = InterruptContext::new();
    assert_eq!(isr.notify(&mut os, &mut ctx, TaskNotification::SetValue(1)), Ok(()));
    assert_eq!(
        isr.notify(&mut os, &mut ctx, TaskNotification::SetValue(2)),
        Err(FreeRtosError::QueueFull)
    );
    // the accepted notification woke the target
    assert!(ctx.finish());
    let mut ctx2 = InterruptContext::new();
    assert_eq!(
        isr.notify(&mut os, &mut ctx2, TaskNotification::SetValue(2)),
        Err(FreeRtosError::QueueFull)
    );
    // a refused notification wakes nobody
    assert!(!ctx2.finish());
}

#[test]
fn scheduler_snapshot_reports_every_task() {
    let mut os = FreeRTOS::start_scheduler(1000);
    let a = os.new_task("first", 32, TaskPriority(1)).unwrap();
    let _b = os.new_task("second", 48, TaskPriority(2)).unwrap();
    os.charge_run_time(a.raw_handle(), 250);
    let snapshot = os.get_all_tasks(None);
    assert_eq!(snapshot.tasks.len(), 2);
    assert_eq!(snapshot.total_run_time, 250);
    assert_eq!(snapshot.tasks[0].name, String::from("first"));
    assert_eq!(snapshot.tasks[0].task_number, 0);
    assert_eq!(snapshot.tasks[0].current_priority.0, 1);
    assert_eq!(snapshot.tasks[0].run_time_counter, 250);
    assert_eq!(snapshot.tasks[0].stack_high_water_mark, 32);
    assert_eq!(snapshot.tasks[1].name, String::from("second"));
    assert_eq!(snapshot.tasks[1].task_state, FreeRtosTaskState::Ready);
    let limited = os.get_all_tasks(Some(1));
    assert_eq!(limited.tasks.len(), 1);
}

#[test]
fn cpu_usage_guards_zero_and_inconsistent_totals() {
    let mk = |run: u32| FreeRtosTaskStatus {
        task: TaskRemoteHandle::from_raw(0),
        name: String::from("t"),
        task_number: 0,
        task_state: FreeRtosTaskState::Ready,
        current_priority: TaskPriority(1),
        base_priority: TaskPriority(1),
        run_time_counter: run,
        stack_high_water_mark: 0,
    };
    assert_eq!(mk(0).cpu_usage(0), CpuUsage::Unknown);
    assert_eq!(mk(200).cpu_usage(100), CpuUsage::Unknown);
    assert_eq!(mk(0).cpu_usage(1000), CpuUsage::Percent(0));
    assert_eq!(mk(1).cpu_usage(1000), CpuUsage::LessThanOnePercent);
    assert_eq!(mk(500).cpu_usage(1000), CpuUsage::Percent(50));
    assert_eq!(mk(1000).cpu_usage(1000), CpuUsage::Percent(100));
}
