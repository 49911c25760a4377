use chip_8::timer::Timer;

#[test]
fn timer_test_default() {
    let t = Timer::default();

    assert_eq!(t.is_active(), false);
    assert_eq!(t.current_value(), 0);
}

#[test]
fn test_tick_when_value_is_zero() {
    let mut t = Timer::default();

    t.tick();

    assert_eq!(t.is_active(), false);
    assert_eq!(t.current_value(), 0);
}

#[test]
fn test_tick_when_value_is_non_zero() {
    let mut t = Timer::default();
    t.set_value(2);

    t.tick();
    assert_eq!(t.is_active(), true);
    assert_eq!(t.current_value(), 1);

    t.tick();
    assert_eq!(t.is_active(), false);
    assert_eq!(t.current_value(), 0);
}

#[test]
fn timer_counts_down_to_zero_and_stays() {
    let mut t = Timer::new();
    t.set_value(255);

    for expected in (0..255u8).rev() {
        t.tick();
        assert_eq!(t.current_value(), expected);
        assert_eq!(t.is_active(), expected > 0);
    }

    t.tick();
    assert_eq!(t.current_value(), 0);
}
