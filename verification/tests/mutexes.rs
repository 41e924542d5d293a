use freertos_rust::base::FreeRtosError;
use freertos_rust::isr::ISRSafeHandle;
use freertos_rust::isr::InterruptContext;
use freertos_rust::operating_system::FreeRTOS;
use freertos_rust::operating_system::SEMAPHORE_ALLOC_UNITS;
use freertos_rust::task::TaskPriority;
use freertos_rust::task::TaskRemoteHandle;
use freertos_rust::task::TaskSelfHandle;
use freertos_rust::units::Duration;

fn os_with_task(heap: u32) -> (FreeRTOS, TaskRemoteHandle, TaskSelfHandle) {
    let mut os = FreeRTOS::start_scheduler(heap);
    let remote = os.new_task("worker", 64, TaskPriority(1)).unwrap();
    let own = os.dispatch(&remote);
    (os, remote, own)
}

#[test]
fn lock_set_unlock_roundtrip() {
    let (mut os, _remote, own) = os_with_task(1000);
    let mut m = os.new_mutex(41u32).unwrap();
    let g = m.lock(&mut os, &own, Duration::ticks(1)).unwrap();
    let v = *m.get(&g);
    assert_eq!(v, 41);
    m.set(&g, v + 1);
    m.unlock(g);
    assert_eq!(m.into_inner(&mut os), 42);
}

#[test]
fn held_mutex_times_out_no_sooner_than_the_wait() {
    let mut os = FreeRTOS::start_scheduler(1000);
    let a = os.new_task("a", 64, TaskPriority(1)).unwrap();
    let b = os.new_task("b", 64, TaskPriority(1)).unwrap();
    let own_a = os.dispatch(&a);
    let own_b = os.dispatch(&b);
    let mut m = os.new_mutex(0u32).unwrap();
    let g = m.lock(&mut os, &own_a, Duration::ticks(1)).unwrap();
    let before = os.get_tick_count();
    let r = m.lock(&mut os, &own_b, Duration::ticks(100));
    match r {
        Err(e) => assert_eq!(e, FreeRtosError::MutexTimeout),
        Ok(_) => panic!("a held mutex must not be granted to another task"),
    }
    // the full wait elapsed before the failure was reported
    assert_eq!(os.get_tick_count(), before + 100);
    // the mutex stayed with its original owner: the owner's re-lock on the
    // plain mutex still fails, while its guarded value is reachable
    assert_eq!(*m.get(&g), 0);
    m.unlock(g);
    // once released, the other task gets it
    let g2 = m.lock(&mut os, &own_b, Duration::ticks(1)).unwrap();
    m.unlock(g2);
}

#[test]
fn plain_mutex_is_not_reentrant() {
    let (mut os, _remote, own) = os_with_task(1000);
    let mut m = os.new_mutex(0u8).unwrap();
    let g = m.lock(&mut os, &own, Duration::ticks(1)).unwrap();
    let again = m.lock(&mut os, &own, Duration::zero());
    assert!(matches!(again, Err(FreeRtosError::MutexTimeout)));
    m.unlock(g);
}

#[test]
fn recursive_mutex_nests_and_releases_in_balance() {
    let mut os = FreeRTOS::start_scheduler(1000);
    let a = os.new_task("a", 64, TaskPriority(1)).unwrap();
    let b = os.new_task("b", 64, TaskPriority(1)).unwrap();
    let own_a = os.dispatch(&a);
    let own_b = os.dispatch(&b);
    let mut m = os.new_recursive_mutex(5u32).unwrap();
    let g1 = m.lock(&mut os, &own_a, Duration::ticks(1)).unwrap();
    let g2 = m.lock(&mut os, &own_a, Duration::ticks(1)).unwrap();
    let g3 = m.lock(&mut os, &own_a, Duration::ticks(1)).unwrap();
    m.unlock(g3);
    m.unlock(g2);
    // two of three released: still locked by the owner
    let r = m.lock(&mut os, &own_b, Duration::zero());
    assert!(matches!(r, Err(FreeRtosError::MutexTimeout)));
    m.unlock(g1);
    // all three released: unlocked
    let g = m.lock(&mut os, &own_b, Duration::ticks(1)).unwrap();
    m.unlock(g);
}

#[test]
fn mutex_creation_reports_out_of_memory() {
    let mut os = FreeRTOS::start_scheduler(0);
    match os.new_mutex(1u32) {
        Err(e) => assert_eq!(e, FreeRtosError::OutOfMemory),
        Ok(_) => panic!("an empty kernel heap cannot hold a mutex"),
    }
}

#[test]
fn into_inner_releases_the_kernel_object_once() {
    let mut os = FreeRTOS::start_scheduler(10);
    let before = os.free_heap_units();
    let m = os.new_mutex(9u64).unwrap();
    assert_eq!(os.free_heap_units(), before - SEMAPHORE_ALLOC_UNITS);
    let v = m.into_inner(&mut os);
    assert_eq!(v, 9);
    assert_eq!(os.free_heap_units(), before);
}

#[test]
fn isr_mutex_runs_the_action_only_when_free() {
    let (mut os, _remote, own) = os_with_task(1000);
    let mut m = os.new_mutex(0u32).unwrap();
    let view = m.new_isr_safe_handle();

    let mut ctx = InterruptContext::new();
    let mut ran = false;
    assert!(view.take(&mut m, &mut ctx, || {
        ran = true;
    }));
    assert!(ran);
    assert!(ctx.finish());

    let g = m.lock(&mut os, &own, Duration::ticks(1)).unwrap();
    let mut ctx2 = InterruptContext::new();
    let mut ran2 = false;
    assert!(!view.take(&mut m, &mut ctx2, || {
        ran2 = true;
    }));
    assert!(!ran2);
    assert!(!ctx2.finish());
    m.unlock(g);
}
