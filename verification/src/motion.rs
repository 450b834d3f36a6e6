//! Decisions of the impact search.
//!
//! Between impacts the mass moves in free flight along a closed-form
//! trajectory, and the next impact is found by walking forward in time and
//! bisecting: each probe of the trajectory lands below, beyond or exactly at
//! the obstacle, and the search reacts by recording the probe, reversing and
//! halving its step, or stopping.  The probes themselves are continuous and
//! belong to the host; the reaction to each probe is decided here.

use vstd::prelude::*;

verus! {

/// Where a probed state of free flight lies relative to the obstacle.
#[derive(Clone, Copy, Debug, PartialEq, Eq, Structural)]
pub enum ObstacleSide {
    /// The displacement is below the obstacle offset: the state is physical
    /// free flight.
    Free,
    /// The displacement exceeds the obstacle offset: the probe has stepped
    /// through the obstacle and the state is unphysical.
    Penetrating,
    /// The displacement equals the obstacle offset: the probe has landed on
    /// the impact itself.
    AtObstacle,
}

/// What the search does with one probe.
#[derive(Clone, Copy, Debug, PartialEq, Eq, Structural)]
pub struct StepDecision {
    /// Keep the probed state as part of the candidate trajectory.
    pub record_state: bool,
    /// Reverse the direction of the time step and halve its size, closing
    /// in on the crossing from the other side.
    pub reverse_and_halve: bool,
    /// Stop the search: the impact has been found exactly.
    pub terminate: bool,
}

/// The reaction owed to a probe: free flight is recorded and turns the
/// search around only when it was stepping backwards; penetration is
/// discarded and turns the search around only when it was stepping
/// forwards; landing on the obstacle is recorded and ends the search.
pub open spec fn spec_bisection_step(side: ObstacleSide, step_forward: bool) -> StepDecision {
    match side {
        ObstacleSide::Free => StepDecision {
            record_state: true,
            reverse_and_halve: !step_forward,
            terminate: false,
        },
        ObstacleSide::Penetrating => StepDecision {
            record_state: false,
            reverse_and_halve: step_forward,
            terminate: false,
        },
        ObstacleSide::AtObstacle => StepDecision {
            record_state: true,
            reverse_and_halve: false,
            terminate: true,
        },
    }
}

/// Decides the search's reaction to one probe, from the probe's side of the
/// obstacle and the direction of the current time step.
pub fn bisection_step(side: ObstacleSide, step_forward: bool) -> (decision: StepDecision)
    ensures
        decision == spec_bisection_step(side, step_forward),
{
    match side {
        ObstacleSide::Free => StepDecision {
            record_state: true,
            reverse_and_halve: !step_forward,
            terminate: false,
        },
        ObstacleSide::Penetrating => StepDecision {
            record_state: false,
            reverse_and_halve: step_forward,
            terminate: false,
        },
        ObstacleSide::AtObstacle => StepDecision {
            record_state: true,
            reverse_and_halve: false,
            terminate: true,
        },
    }
}

/// The candidate trajectory only ever holds physical states, and the search
/// stops of its own accord only on the obstacle itself: a probe is recorded
/// exactly when it does not penetrate, and the search terminates exactly
/// when the probe lands on the obstacle.
pub proof fn lemma_bisection_records_only_physical_states(side: ObstacleSide, step_forward: bool)
    ensures
        spec_bisection_step(side, step_forward).record_state <==> side != ObstacleSide::Penetrating,
        spec_bisection_step(side, step_forward).terminate <==> side == ObstacleSide::AtObstacle,
{
}

} // verus!
