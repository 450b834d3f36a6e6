use imposclib::chatter::{ChatterChecker, DEFAULT_COUNT_THRESHOLD};

#[test]
fn run_past_threshold_triggers_once() {
    let mut checker = ChatterChecker::new(true, DEFAULT_COUNT_THRESHOLD);

    for _ in 0..DEFAULT_COUNT_THRESHOLD {
        assert!(!checker.check(true));
    }
    assert!(checker.check(true));
    assert_eq!(checker.impact_count, 0);
}

#[test]
fn high_velocity_impact_interrupts_the_run() {
    let mut checker = ChatterChecker::new(true, 3);

    assert!(!checker.check(true));
    assert!(!checker.check(true));
    assert!(!checker.check(true));
    assert!(!checker.check(false));
    assert_eq!(checker.impact_count, 0);

    assert!(!checker.check(true));
    assert!(!checker.check(true));
    assert!(!checker.check(true));
    assert!(checker.check(true));
}

#[test]
fn elastic_restitution_never_chatters() {
    let mut checker = ChatterChecker::new(false, 2);

    for _ in 0..20 {
        assert!(!checker.check(true));
        assert_eq!(checker.impact_count, 0);
    }
}
