use bomby::timer::{Timer, TimerMode};

#[test]
fn one_shot_fires_exactly_once_across_crossing() {
    let mut t = Timer::new(1000, TimerMode::Once);
    t.tick(400);
    assert!(!t.just_finished());
    assert!(!t.finished());
    t.tick(400);
    assert!(!t.just_finished());
    t.tick(300);
    assert!(t.just_finished());
    assert!(t.finished());
    t.tick(500);
    assert!(!t.just_finished());
    assert!(t.finished());
    t.tick(0);
    assert!(!t.just_finished());
}

#[test]
fn one_shot_fraction_monotone_within_run() {
    let mut t = Timer::new(800, TimerMode::Once);
    let mut last = t.fraction_permille();
    for d in [100u64, 50, 0, 300, 700, 10] {
        t.tick(d);
        let f = t.fraction_permille();
        assert!(f >= last);
        last = f;
    }
    assert_eq!(last, 1000);
}

#[test]
fn zero_duration_timer_does_not_divide_by_zero() {
    let mut t = Timer::new(0, TimerMode::Once);
    assert_eq!(t.fraction_permille(), 1000);
    t.tick(0);
    assert!(t.just_finished());
    t.tick(0);
    assert!(!t.just_finished());
}

#[test]
fn repeating_timer_wraps_and_rearms() {
    let mut t = Timer::new(500, TimerMode::Repeating);
    t.tick(499);
    assert!(!t.just_finished());
    t.tick(1);
    assert!(t.just_finished());
    t.tick(499);
    assert!(!t.just_finished());
    t.tick(2);
    assert!(t.just_finished());
    assert_eq!(t.elapsed_ms, 1);
}

#[test]
fn reset_clears_elapsed_and_flags() {
    let mut t = Timer::new(100, TimerMode::Once);
    t.tick(150);
    assert!(t.finished());
    t.reset();
    assert!(!t.finished());
    assert!(!t.just_finished());
    assert_eq!(t.elapsed_ms, 0);
    t.tick(100);
    assert!(t.just_finished());
}

#[test]
fn fraction_remaining_complements_fraction() {
    let mut t = Timer::new(400, TimerMode::Once);
    t.tick(100);
    assert_eq!(t.fraction_permille(), 250);
    assert_eq!(t.fraction_remaining_permille(), 750);
    assert_eq!(t.remaining_ms(), 300);
}
