//! Validation of the physical configuration of the oscillator.
//!
//! A configuration is described by a forcing frequency, an obstacle offset, a
//! coefficient of restitution and a search budget in forcing periods.  The
//! host compares each quantity against its constraint and records the
//! outcomes in a [`ParameterChecks`] value; `parameter_errors` turns those
//! outcomes into the complete list of rejection reasons, accumulating every
//! violated constraint rather than stopping at the first.

use vstd::prelude::*;

verus! {

/// A reason for rejecting a candidate configuration.
///
/// Every violated constraint is reported, so a rejection carries a non-empty
/// list of distinct values of this type.
#[derive(Clone, Copy, Debug, PartialEq, Eq, Structural)]
pub enum ParameterError {
    /// The forcing frequency is zero, so no forcing period exists.
    ZeroForcingFrequency,
    /// The forcing frequency is negative, which the model cannot handle.
    NegativeForcingFrequency,
    /// The forcing frequency equals the natural frequency: the resonant case
    /// has unbounded free motion and is rejected.
    ResonantForcingFrequency,
    /// A coefficient of restitution above one amplifies every impact.
    LargeCoefficientOfRestitution,
    /// A negative coefficient of restitution is unphysical.
    NegativeCoefficientOfRestitution,
    /// A search budget of zero forcing periods can never detect an impact.
    ZeroMaximumPeriods,
}

/// The outcome of comparing a candidate configuration against each
/// constraint, one flag per constraint.
///
/// The two frequency flags come from comparing one number against zero, so a
/// caller never sets both; the contract of `parameter_errors` nevertheless
/// covers every combination.
#[derive(Clone, Copy, Debug, PartialEq, Eq, Structural)]
pub struct ParameterChecks {
    /// The forcing frequency equals zero.
    pub zero_frequency: bool,
    /// The forcing frequency is below zero.
    pub negative_frequency: bool,
    /// The forcing frequency equals the natural frequency.
    pub resonant_frequency: bool,
    /// The coefficient of restitution exceeds one.
    pub large_restitution: bool,
    /// The coefficient of restitution is below zero.
    pub negative_restitution: bool,
    /// The maximum number of forcing periods is zero.
    pub zero_maximum_periods: bool,
}

impl ParameterChecks {
    /// A configuration is acceptable exactly when no constraint is violated.
    pub open spec fn valid(self) -> bool {
        &&& !self.zero_frequency
        &&& !self.negative_frequency
        &&& !self.resonant_frequency
        &&& !self.large_restitution
        &&& !self.negative_restitution
        &&& !self.zero_maximum_periods
    }
}

/// The list of rejection reasons owed for a set of check outcomes: one entry
/// per raised flag, in the order the constraints are examined.
pub open spec fn expected_errors(c: ParameterChecks) -> Seq<ParameterError> {
    let s0 = Seq::<ParameterError>::empty();
    let s1 = if c.zero_frequency { s0.push(ParameterError::ZeroForcingFrequency) } else { s0 };
    let s2 = if c.negative_frequency { s1.push(ParameterError::NegativeForcingFrequency) } else {
        s1
    };
    let s3 = if c.resonant_frequency { s2.push(ParameterError::ResonantForcingFrequency) } else {
        s2
    };
    let s4 = if c.large_restitution { s3.push(ParameterError::LargeCoefficientOfRestitution) } else {
        s3
    };
    let s5 = if c.negative_restitution {
        s4.push(ParameterError::NegativeCoefficientOfRestitution)
    } else {
        s4
    };
    if c.zero_maximum_periods { s5.push(ParameterError::ZeroMaximumPeriods) } else { s5 }
}

/// Accumulates every rejection reason for a set of check outcomes.
///
/// The result is empty exactly when the configuration is acceptable, and a
/// constraint's error appears exactly when its flag is raised.
pub fn parameter_errors(checks: &ParameterChecks) -> (errors: Vec<ParameterError>)
    ensures
        errors@ == expected_errors(*checks),
        errors@.len() == 0 <==> checks.valid(),
{
    let mut errors: Vec<ParameterError> = Vec::new();
    if checks.zero_frequency {
        errors.push(ParameterError::ZeroForcingFrequency);
    }
    if checks.negative_frequency {
        errors.push(ParameterError::NegativeForcingFrequency);
    }
    if checks.resonant_frequency {
        errors.push(ParameterError::ResonantForcingFrequency);
    }
    if checks.large_restitution {
        errors.push(ParameterError::LargeCoefficientOfRestitution);
    }
    if checks.negative_restitution {
        errors.push(ParameterError::NegativeCoefficientOfRestitution);
    }
    if checks.zero_maximum_periods {
        errors.push(ParameterError::ZeroMaximumPeriods);
    }
    errors
}

/// Appending one element to a sequence adds that element to its contents and
/// nothing else.
proof fn lemma_push_contains<A>(s: Seq<A>, x: A)
    ensures
        forall|e: A| #[trigger] s.push(x).contains(e) <==> (s.contains(e) || e == x),
{
    assert forall|e: A| #[trigger] s.push(x).contains(e) implies (s.contains(e) || e == x) by {
        let i = choose|i: int| 0 <= i < s.push(x).len() && s.push(x)[i] == e;
        if i < s.len() {
            assert(s[i] == e);
        }
    }
    assert forall|e: A| s.contains(e) || e == x implies #[trigger] s.push(x).contains(e) by {
        if s.contains(e) {
            let i = choose|i: int| 0 <= i < s.len() && s[i] == e;
            assert(s.push(x)[i] == e);
        } else {
            assert(s.push(x)[s.len() as int] == e);
        }
    }
}

/// Each constraint's error is reported if and only if its flag is raised,
/// whatever the other flags say: the checks do not mask one another.
pub proof fn lemma_each_error_reported_iff_violated(c: ParameterChecks)
    ensures
        expected_errors(c).contains(ParameterError::ZeroForcingFrequency) <==> c.zero_frequency,
        expected_errors(c).contains(ParameterError::NegativeForcingFrequency)
            <==> c.negative_frequency,
        expected_errors(c).contains(ParameterError::ResonantForcingFrequency)
            <==> c.resonant_frequency,
        expected_errors(c).contains(ParameterError::LargeCoefficientOfRestitution)
            <==> c.large_restitution,
        expected_errors(c).contains(ParameterError::NegativeCoefficientOfRestitution)
            <==> c.negative_restitution,
        expected_errors(c).contains(ParameterError::ZeroMaximumPeriods)
            <==> c.zero_maximum_periods,
{
    let s0 = Seq::<ParameterError>::empty();
    let s1 = if c.zero_frequency { s0.push(ParameterError::ZeroForcingFrequency) } else { s0 };
    let s2 = if c.negative_frequency { s1.push(ParameterError::NegativeForcingFrequency) } else {
        s1
    };
    let s3 = if c.resonant_frequency { s2.push(ParameterError::ResonantForcingFrequency) } else {
        s2
    };
    let s4 = if c.large_restitution { s3.push(ParameterError::LargeCoefficientOfRestitution) } else {
        s3
    };
    let s5 = if c.negative_restitution {
        s4.push(ParameterError::NegativeCoefficientOfRestitution)
    } else {
        s4
    };
    assert(forall|e: ParameterError| !s0.contains(e));
    if c.zero_frequency {
        lemma_push_contains(s0, ParameterError::ZeroForcingFrequency);
    }
    if c.negative_frequency {
        lemma_push_contains(s1, ParameterError::NegativeForcingFrequency);
    }
    if c.resonant_frequency {
        lemma_push_contains(s2, ParameterError::ResonantForcingFrequency);
    }
    if c.large_restitution {
        lemma_push_contains(s3, ParameterError::LargeCoefficientOfRestitution);
    }
    if c.negative_restitution {
        lemma_push_contains(s4, ParameterError::NegativeCoefficientOfRestitution);
    }
    if c.zero_maximum_periods {
        lemma_push_contains(s5, ParameterError::ZeroMaximumPeriods);
    }
}

/// No rejection reason is ever listed twice.
pub proof fn lemma_errors_distinct(c: ParameterChecks)
    ensures
        expected_errors(c).no_duplicates(),
{
}

} // verus!
