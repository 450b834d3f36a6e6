use imposclib::parameters::{parameter_errors, ParameterChecks, ParameterError};

fn checks_for(frequency: f64, r: f64, max_periods: u32) -> ParameterChecks {
    ParameterChecks {
        zero_frequency: frequency == 0.0,
        negative_frequency: frequency < 0.0,
        resonant_frequency: frequency == 1.0,
        large_restitution: 1.0 < r,
        negative_restitution: 0.0 > r,
        zero_maximum_periods: max_periods == 0,
    }
}

#[test]
fn test_parameter_errors() {
    let cases: Vec<(f64, f64, f64, u32, usize)> = vec![
        (2.8, 0.0, 0.1, 100, 0),
        (2.8, 0.0, 0.1, 0, 1),
        (-2.8, 0.8, 0.1, 100, 1),
        (2.8, 0.8, -0.1, 100, 0),
        (2.8, -0.5, 0.1, 100, 1),
        (0.0, 2.3, 0.1, 100, 2),
        (1.0, 1.2, -0.1, 0, 3),
    ];

    for (frequency, r, _offset, max_periods, expected_errors) in cases {
        let errors = parameter_errors(&checks_for(frequency, r, max_periods));
        assert_eq!(errors.len(), expected_errors);
    }
}

#[test]
fn zero_frequency_gives_exactly_one_error() {
    let errors = parameter_errors(&checks_for(0.0, 0.5, 100));
    assert_eq!(errors, vec![ParameterError::ZeroForcingFrequency]);
}

#[test]
fn negative_frequency_gives_exactly_one_error() {
    let errors = parameter_errors(&checks_for(-1.0, 0.5, 100));
    assert_eq!(errors, vec![ParameterError::NegativeForcingFrequency]);
}

#[test]
fn resonant_large_r_zero_periods_give_three_distinct_errors() {
    let errors = parameter_errors(&checks_for(1.0, 1.2, 0));
    assert_eq!(errors.len(), 3);
    assert!(errors.contains(&ParameterError::ResonantForcingFrequency));
    assert!(errors.contains(&ParameterError::LargeCoefficientOfRestitution));
    assert!(errors.contains(&ParameterError::ZeroMaximumPeriods));
    assert!(!errors.contains(&ParameterError::ZeroForcingFrequency));
    assert!(!errors.contains(&ParameterError::NegativeForcingFrequency));
    assert!(!errors.contains(&ParameterError::NegativeCoefficientOfRestitution));
}

#[test]
fn valid_configuration_gives_no_errors() {
    let errors = parameter_errors(&checks_for(4.85, 0.8, 100));
    assert!(errors.is_empty());
}

#[test]
fn every_constraint_violated_gives_every_error() {
    let checks = ParameterChecks {
        zero_frequency: true,
        negative_frequency: true,
        resonant_frequency: true,
        large_restitution: true,
        negative_restitution: true,
        zero_maximum_periods: true,
    };
    let errors = parameter_errors(&checks);
    assert_eq!(
        errors,
        vec![
            ParameterError::ZeroForcingFrequency,
            ParameterError::NegativeForcingFrequency,
            ParameterError::ResonantForcingFrequency,
            ParameterError::LargeCoefficientOfRestitution,
            ParameterError::NegativeCoefficientOfRestitution,
            ParameterError::ZeroMaximumPeriods,
        ]
    );
}
