use freertos_rust::base::FreeRtosError;
use freertos_rust::isr::ISRSafeHandle;
use freertos_rust::isr::InterruptContext;
use freertos_rust::operating_system::FreeRTOS;
use freertos_rust::queue::Queue;
use freertos_rust::semaphore::Semaphore;

#[test]
fn token_without_wakes_requests_no_yield() {
    let ctx = InterruptContext::new();
    assert!(!ctx.finish());
}

#[test]
fn token_with_a_wake_requests_exactly_one_yield() {
    let mut os = FreeRTOS::start_scheduler(100);
    let mut sem = os.new_binary_semaphore().unwrap();
    sem.give();
    let view = sem.new_isr_safe_handle();
    let mut ctx = InterruptContext::new();
    let mut ran = false;
    let did = view.take(&mut sem, &mut ctx, || {
        ran = true;
    });
    assert!(did);
    assert!(ran);
    // the give inside the critical section woke a potential waiter: one
    // yield request is owed, and consuming the token makes a second one
    // impossible
    assert!(ctx.finish());
}

#[test]
fn taken_semaphore_skips_the_critical_section() {
    let mut os = FreeRTOS::start_scheduler(100);
    let mut sem = os.new_binary_semaphore().unwrap();
    // created empty: the unit is taken
    let view = sem.new_isr_safe_handle();
    let mut ctx = InterruptContext::new();
    let mut ran = false;
    let did = view.take(&mut sem, &mut ctx, || {
        ran = true;
    });
    assert!(!did);
    assert!(!ran);
    assert!(!ctx.finish());
}

#[test]
fn counting_semaphore_isr_take_give() {
    let mut os = FreeRTOS::start_scheduler(100);
    let mut sem = os.new_counting_semaphore(2, 1).unwrap();
    let view = sem.new_isr_safe_handle();
    let mut ctx = InterruptContext::new();
    assert!(view.take_isr(&mut sem, &mut ctx));
    assert_eq!(sem.get_count(), 0);
    // taking wakes nobody
    assert!(!view.take_isr(&mut sem, &mut ctx));
    assert!(view.give_isr(&mut sem, &mut ctx));
    assert_eq!(sem.get_count(), 1);
    assert!(ctx.finish());
}

#[test]
fn counting_semaphore_isr_give_respects_ceiling() {
    let mut os = FreeRTOS::start_scheduler(100);
    let mut sem = os.new_counting_semaphore(2, 2).unwrap();
    let view = sem.new_isr_safe_handle();
    let mut ctx = InterruptContext::new();
    assert!(!view.give_isr(&mut sem, &mut ctx));
    assert_eq!(sem.get_count(), 2);
    // the refused give woke nobody
    assert!(!ctx.finish());
}

#[test]
fn queue_isr_send_wakes_and_full_rejects() {
    let mut os = FreeRTOS::start_scheduler(100);
    let mut q: Queue<u32> = os.new_queue(2).unwrap();
    let view = q.new_isr_safe_handle();
    let mut ctx = InterruptContext::new();
    assert_eq!(view.send(&mut q, &mut ctx, 7), Ok(()));
    assert_eq!(view.send(&mut q, &mut ctx, 8), Ok(()));
    assert_eq!(view.send(&mut q, &mut ctx, 9), Err(FreeRtosError::QueueFull));
    assert!(ctx.finish());

    let mut ctx2 = InterruptContext::new();
    assert_eq!(view.receive(&mut q, &mut ctx2), Some(7));
    assert_eq!(view.receive(&mut q, &mut ctx2), Some(8));
    assert_eq!(view.receive(&mut q, &mut ctx2), None);
    // receives wake nobody
    assert!(!ctx2.finish());
}
