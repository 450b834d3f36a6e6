use imposclib::motion::{bisection_step, ObstacleSide};

#[test]
fn free_flight_forward_keeps_stepping() {
    let decision = bisection_step(ObstacleSide::Free, true);
    assert!(decision.record_state);
    assert!(!decision.reverse_and_halve);
    assert!(!decision.terminate);
}

#[test]
fn free_flight_backward_turns_the_search_around() {
    let decision = bisection_step(ObstacleSide::Free, false);
    assert!(decision.record_state);
    assert!(decision.reverse_and_halve);
    assert!(!decision.terminate);
}

#[test]
fn penetration_forward_turns_the_search_around() {
    let decision = bisection_step(ObstacleSide::Penetrating, true);
    assert!(!decision.record_state);
    assert!(decision.reverse_and_halve);
    assert!(!decision.terminate);
}

#[test]
fn penetration_backward_keeps_retreating() {
    let decision = bisection_step(ObstacleSide::Penetrating, false);
    assert!(!decision.record_state);
    assert!(!decision.reverse_and_halve);
    assert!(!decision.terminate);
}

#[test]
fn landing_on_the_obstacle_ends_the_search() {
    for step_forward in [false, true] {
        let decision = bisection_step(ObstacleSide::AtObstacle, step_forward);
        assert!(decision.record_state);
        assert!(!decision.reverse_and_halve);
        assert!(decision.terminate);
    }
}
