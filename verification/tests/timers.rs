use freertos_rust::base::FreeRtosError;
use freertos_rust::operating_system::FreeRTOS;
use freertos_rust::units::Duration;

#[test]
fn timer_builder_creates_a_dormant_timer() {
    let mut os = FreeRTOS::start_scheduler(10);
    let builder = os
        .new_timer(Duration::ticks(100))
        .set_name("blinker")
        .set_period(Duration::ticks(250))
        .set_auto_reload(true);
    let mut timer = builder.create(&mut os).unwrap();
    assert!(!timer.is_active());
    timer.start();
    assert!(timer.is_active());
    timer.change_period(Duration::ticks(500));
    assert!(timer.is_active());
    timer.stop();
    assert!(!timer.is_active());
}

#[test]
fn timer_creation_reports_out_of_memory() {
    let mut os = FreeRTOS::start_scheduler(0);
    let r = os.new_timer(Duration::ticks(10)).create(&mut os);
    assert!(matches!(r, Err(FreeRtosError::OutOfMemory)));
}
