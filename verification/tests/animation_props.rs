use bomby::animation::AnimationConfig;

#[test]
fn frames_cycle_through_the_window_and_wrap() {
    let mut a = AnimationConfig::new(8, 4, 4);
    assert_eq!(a.timer.duration_ms, 250);
    let mut shown = a.advance(250, 8);
    assert_eq!(shown, 9);
    shown = a.advance(250, shown);
    shown = a.advance(250, shown);
    assert_eq!(shown, 11);
    shown = a.advance(250, shown);
    assert_eq!(shown, 8);
}

#[test]
fn frame_holds_until_its_time_elapses() {
    let mut a = AnimationConfig::new(0, 6, 12);
    assert_eq!(a.timer.duration_ms, 83);
    assert_eq!(a.advance(50, 0), 0);
    assert_eq!(a.advance(40, 0), 1);
}

#[test]
fn zero_rate_never_advances() {
    let mut a = AnimationConfig::new(0, 4, 0);
    assert_eq!(a.advance(100_000, 2), 2);
}
