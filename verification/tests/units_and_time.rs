use freertos_rust::delays::TaskDelay;
use freertos_rust::delays::TaskDelayPeriodic;
use freertos_rust::operating_system::FreeRTOS;
use freertos_rust::units::Duration;
use freertos_rust::units::MAX_WAIT_TICKS;
use freertos_rust::units::TICK_PERIOD_MS;
use freertos_rust::units::tick_add_exec;
use freertos_rust::units::tick_elapsed_exec;

#[test]
fn milliseconds_convert_at_tick_calibration() {
    assert_eq!(Duration::ms(0).to_ticks(), 0);
    assert_eq!(Duration::ms(25).to_ticks(), 25 / TICK_PERIOD_MS);
    assert_eq!(Duration::ticks(7).to_ticks(), 7);
    assert_eq!(Duration::zero().to_ticks(), 0);
    assert_eq!(Duration::eps().to_ticks(), 1);
}

#[test]
fn infinite_wait_is_the_sentinel() {
    assert_eq!(Duration::infinite().to_ticks(), MAX_WAIT_TICKS);
    assert_eq!(Duration::infinite().to_ticks(), 0xFFFF_FFFF);
}

#[test]
fn tick_arithmetic_wraps() {
    assert_eq!(tick_add_exec(0xFFFF_FFFF, 5), 4);
    assert_eq!(tick_add_exec(10, 20), 30);
    assert_eq!(tick_elapsed_exec(4, 0xFFFF_FFFF), 5);
    assert_eq!(tick_elapsed_exec(30, 10), 20);
}

#[test]
fn kernel_clock_advances_by_delays() {
    let mut os = FreeRTOS::start_scheduler(100);
    assert_eq!(os.get_tick_count(), 0);
    os.delay(Duration::ticks(15));
    assert_eq!(os.get_tick_count(), 15);
    os.advance_tick(5);
    assert_eq!(os.get_tick_count(), 20);
    assert_eq!(os.get_tick_count_duration().to_ticks(), 20);
}

#[test]
fn delay_until_subtracts_time_already_spent() {
    let mut os = FreeRTOS::start_scheduler(100);
    let mut d = TaskDelay::new(&os);
    os.advance_tick(3);
    d.delay_until(&mut os, Duration::ticks(10));
    assert_eq!(os.get_tick_count(), 10);
    d.delay_until(&mut os, Duration::ticks(10));
    assert_eq!(os.get_tick_count(), 20);
}

#[test]
fn delay_until_past_deadline_spends_no_time() {
    let mut os = FreeRTOS::start_scheduler(100);
    let mut d = TaskDelay::new(&os);
    os.advance_tick(50);
    d.delay_until(&mut os, Duration::ticks(10));
    assert_eq!(os.get_tick_count(), 50);
}

#[test]
fn periodic_delay_reports_elapsed_periods() {
    let mut os = FreeRTOS::start_scheduler(100);
    let mut p = TaskDelayPeriodic::new(&os, Duration::ticks(30));
    assert!(!p.should_run(&os));
    os.advance_tick(29);
    assert!(!p.should_run(&os));
    os.advance_tick(1);
    assert!(p.should_run(&os));
    // the period restarted at tick 30
    os.advance_tick(29);
    assert!(!p.should_run(&os));
    os.advance_tick(1);
    assert!(p.should_run(&os));
}

#[test]
fn periodic_delay_set_period_and_reset() {
    let mut os = FreeRTOS::start_scheduler(100);
    let mut p = TaskDelayPeriodic::new(&os, Duration::ticks(30));
    p.set_period(Duration::ticks(5));
    os.advance_tick(5);
    assert!(p.should_run(&os));
    os.advance_tick(4);
    p.reset(&os);
    assert!(!p.should_run(&os));
    os.advance_tick(5);
    assert!(p.should_run(&os));
}

#[test]
fn periodic_delay_new_from_os_factory() {
    let mut os = FreeRTOS::start_scheduler(100);
    let mut p = os.new_periodic_delay(Duration::ticks(2));
    let mut d = os.new_delay();
    os.advance_tick(2);
    assert!(p.should_run(&os));
    d.delay_until(&mut os, Duration::ticks(4));
    assert_eq!(os.get_tick_count(), 4);
}
