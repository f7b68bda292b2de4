use healslut::pattern::{Pattern, PatternCommand, HIGH_PERMILLE, LOW_PERMILLE};

#[test]
fn active_ticks_alternate_the_intensity() {
    let mut driver = Pattern::new();
    assert_eq!(driver.tick(true), vec![PatternCommand::Vibrate(HIGH_PERMILLE)]);
    assert_eq!(driver.tick(true), vec![PatternCommand::Vibrate(LOW_PERMILLE)]);
    assert_eq!(driver.tick(true), vec![PatternCommand::Vibrate(HIGH_PERMILLE)]);
    assert_eq!(driver.tick(true), vec![PatternCommand::Vibrate(LOW_PERMILLE)]);
}

#[test]
fn inactive_ticks_stop_the_actuator() {
    let mut driver = Pattern::new();
    driver.tick(true);
    assert_eq!(
        driver.tick(false),
        vec![PatternCommand::Vibrate(0), PatternCommand::Stop]
    );
    // The phase is kept, so the next active tick continues the pulse.
    assert_eq!(driver.tick(true), vec![PatternCommand::Vibrate(LOW_PERMILLE)]);
}
