use freertos_rust::base::FreeRtosError;
use freertos_rust::operating_system::FreeRTOS;
use freertos_rust::semaphore::Semaphore;
use freertos_rust::units::Duration;

#[test]
fn binary_semaphore_starts_empty() {
    let mut os = FreeRTOS::start_scheduler(100);
    let mut sem = os.new_binary_semaphore().unwrap();
    assert!(sem.is_taken());
    let r = sem.take(&mut os, Duration::ticks(4));
    assert_eq!(r, Err(FreeRtosError::Timeout));
    // the wait elapsed in full before the timeout
    assert_eq!(os.get_tick_count(), 4);
    sem.give();
    assert!(!sem.is_taken());
    assert_eq!(sem.take(&mut os, Duration::ticks(1)), Ok(()));
    assert!(sem.is_taken());
}

#[test]
fn binary_semaphore_give_is_idempotent_at_ceiling() {
    let mut os = FreeRTOS::start_scheduler(100);
    let mut sem = os.new_binary_semaphore().unwrap();
    sem.give();
    sem.give();
    assert_eq!(sem.take(&mut os, Duration::zero()), Ok(()));
    // a second take finds nothing: the double give stored only one unit
    assert_eq!(sem.take(&mut os, Duration::zero()), Err(FreeRtosError::Timeout));
}

#[test]
fn counting_semaphore_stays_within_bounds() {
    let mut os = FreeRTOS::start_scheduler(100);
    let mut sem = os.new_counting_semaphore(3, 2).unwrap();
    assert_eq!(sem.get_count(), 2);
    sem.give();
    sem.give();
    sem.give();
    assert_eq!(sem.get_count(), 3);
    assert_eq!(sem.take(&mut os, Duration::zero()), Ok(()));
    assert_eq!(sem.take(&mut os, Duration::zero()), Ok(()));
    assert_eq!(sem.take(&mut os, Duration::zero()), Ok(()));
    assert_eq!(sem.get_count(), 0);
    assert_eq!(sem.take(&mut os, Duration::zero()), Err(FreeRtosError::Timeout));
    assert_eq!(sem.get_count(), 0);
    sem.give();
    assert_eq!(sem.get_count(), 1);
}

#[test]
fn semaphore_guard_locks_and_releases() {
    let mut os = FreeRTOS::start_scheduler(100);
    let mut sem = os.new_counting_semaphore(2, 1).unwrap();
    let guard = sem.lock(&mut os, Duration::ticks(1)).unwrap();
    assert_eq!(sem.get_count(), 0);
    match sem.lock(&mut os, Duration::ticks(2)) {
        Err(e) => assert_eq!(e, FreeRtosError::Timeout),
        Ok(_) => panic!("an exhausted semaphore must not grant a lock"),
    }
    sem.unlock(guard);
    assert_eq!(sem.get_count(), 1);
}

#[test]
fn semaphore_creation_reports_out_of_memory() {
    let mut os = FreeRTOS::start_scheduler(0);
    assert!(matches!(os.new_binary_semaphore(), Err(FreeRtosError::OutOfMemory)));
    assert!(matches!(os.new_counting_semaphore(4, 0), Err(FreeRtosError::OutOfMemory)));
}
