use freertos_rust::base::FreeRtosError;
use freertos_rust::operating_system::FreeRTOS;
use freertos_rust::queue::Queue;
use freertos_rust::units::Duration;

#[test]
fn queue_fills_to_capacity_and_no_further() {
    let mut os = FreeRTOS::start_scheduler(100);
    let mut q: Queue<u32> = os.new_queue(3).unwrap();
    assert_eq!(q.send(&mut os, 1, Duration::zero()), Ok(()));
    assert_eq!(q.send(&mut os, 2, Duration::zero()), Ok(()));
    assert_eq!(q.send(&mut os, 3, Duration::zero()), Ok(()));
    // the queue holds exactly its capacity: the next send is refused
    assert_eq!(q.send(&mut os, 4, Duration::zero()), Err(FreeRtosError::QueueSendTimeout));
    // after one receive there is room again
    assert_eq!(q.receive(&mut os, Duration::zero()), Ok(1));
    assert_eq!(q.send(&mut os, 4, Duration::zero()), Ok(()));
}

#[test]
fn queue_preserves_order_and_bit_patterns() {
    let mut os = FreeRTOS::start_scheduler(200);
    let mut q: Queue<u64> = os.new_queue(8).unwrap();
    let values: [u64; 6] = [0, 1, 0xDEAD_BEEF_CAFE_F00D, u64::MAX, 0x8000_0000_0000_0000, 42];
    for v in values {
        assert_eq!(q.send(&mut os, v, Duration::zero()), Ok(()));
    }
    for v in values {
        assert_eq!(q.receive(&mut os, Duration::zero()), Ok(v));
    }
}

#[test]
fn queue_round_trips_signed_values() {
    let mut os = FreeRTOS::start_scheduler(100);
    let mut q: Queue<i32> = os.new_queue(2).unwrap();
    assert_eq!(q.send(&mut os, -1, Duration::zero()), Ok(()));
    assert_eq!(q.send(&mut os, i32::MIN, Duration::zero()), Ok(()));
    assert_eq!(q.receive(&mut os, Duration::zero()), Ok(-1));
    assert_eq!(q.receive(&mut os, Duration::zero()), Ok(i32::MIN));
}

#[derive(Clone, Copy, PartialEq, Debug)]
struct Reading {
    channel: u8,
    raw: u16,
    scaled: i32,
}

#[test]
fn queue_round_trips_fixed_size_records() {
    let mut os = FreeRTOS::start_scheduler(100);
    let mut q: Queue<Reading> = os.new_queue(2).unwrap();
    let first = Reading { channel: 3, raw: 0xBEEF, scaled: -40_000 };
    let second = Reading { channel: 250, raw: 0, scaled: i32::MAX };
    assert_eq!(q.send(&mut os, first, Duration::zero()), Ok(()));
    assert_eq!(q.send(&mut os, second, Duration::zero()), Ok(()));
    assert_eq!(q.receive(&mut os, Duration::zero()), Ok(first));
    assert_eq!(q.receive(&mut os, Duration::zero()), Ok(second));
}

#[test]
fn empty_queue_receive_waits_out_the_timeout() {
    let mut os = FreeRTOS::start_scheduler(100);
    let mut q: Queue<u8> = os.new_queue(1).unwrap();
    let before = os.get_tick_count();
    assert_eq!(q.receive(&mut os, Duration::ticks(12)), Err(FreeRtosError::QueueReceiveTimeout));
    assert_eq!(os.get_tick_count(), before + 12);
}

#[test]
fn full_queue_send_waits_out_the_timeout() {
    let mut os = FreeRTOS::start_scheduler(100);
    let mut q: Queue<u8> = os.new_queue(1).unwrap();
    assert_eq!(q.send(&mut os, 1, Duration::zero()), Ok(()));
    let before = os.get_tick_count();
    assert_eq!(q.send(&mut os, 2, Duration::ticks(9)), Err(FreeRtosError::QueueSendTimeout));
    assert_eq!(os.get_tick_count(), before + 9);
}

#[test]
fn queue_charges_and_returns_kernel_memory() {
    let mut os = FreeRTOS::start_scheduler(10);
    let before = os.free_heap_units();
    let q: Queue<u16> = os.new_queue(4).unwrap();
    assert!(os.free_heap_units() < before);
    q.delete(&mut os);
    assert_eq!(os.free_heap_units(), before);
}

#[test]
fn queue_creation_reports_out_of_memory() {
    let mut os = FreeRTOS::start_scheduler(3);
    let r: Result<Queue<u32>, FreeRtosError> = os.new_queue(8);
    assert!(matches!(r, Err(FreeRtosError::OutOfMemory)));
}
