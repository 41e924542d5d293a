use freertos_rust::base::FreeRtosError;
use freertos_rust::operating_system::FreeRTOS;
use freertos_rust::task::TaskPriority;
use freertos_rust::units::Duration;

#[test]
fn two_tasks_increment_a_shared_counter_to_exactly_two_thousand() {
    let mut os = FreeRTOS::start_scheduler(4096);
    let a = os.new_task("incr-a", 128, TaskPriority(1)).unwrap();
    let b = os.new_task("incr-b", 128, TaskPriority(1)).unwrap();
    let own_a = os.dispatch(&a);
    let own_b = os.dispatch(&b);
    let mut counter = os.new_mutex(0u32).unwrap();

    for round in 0..1000u32 {
        let guard_a = counter.lock(&mut os, &own_a, Duration::infinite()).unwrap();
        // while one task holds the guard, the other cannot obtain it
        if round == 500 {
            assert!(matches!(
                counter.lock(&mut os, &own_b, Duration::zero()),
                Err(FreeRtosError::MutexTimeout)
            ));
        }
        let v = *counter.get(&guard_a);
        counter.set(&guard_a, v + 1);
        counter.unlock(guard_a);

        let guard_b = counter.lock(&mut os, &own_b, Duration::infinite()).unwrap();
        if round == 500 {
            assert!(matches!(
                counter.lock(&mut os, &own_a, Duration::zero()),
                Err(FreeRtosError::MutexTimeout)
            ));
        }
        let v = *counter.get(&guard_b);
        counter.set(&guard_b, v + 1);
        counter.unlock(guard_b);
    }

    assert_eq!(counter.into_inner(&mut os), 2000);
}
