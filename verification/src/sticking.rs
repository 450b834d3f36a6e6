//! The sticking region of the impact surface.
//!
//! When a zero-velocity impact happens while the forcing presses the mass
//! against the obstacle, the mass stays pinned at the obstacle until the
//! forcing releases it.  The phases for which this happens form a window
//! that wraps through phase zero: it is entered at `phase_in` and left at
//! `phase_out`.  The window's extent is one of three kinds, decided by how
//! the obstacle offset compares with the forcing amplitude; the comparisons
//! themselves are made on the continuous quantities by the host, and the
//! decisions they feed are verified here.

use vstd::prelude::*;

verus! {

/// How much of the forcing cycle pins a zero-velocity contact.
#[derive(Clone, Copy, Debug, PartialEq, Eq, Structural)]
pub enum StickingKind {
    /// The obstacle sits at or beyond the forcing amplitude: it is never
    /// reached by a resting mass, so no phase sticks.
    Never,
    /// The obstacle sits at or beyond the amplitude on the near side, or the
    /// forcing is absent: a resting mass is pinned at every phase.
    Always,
    /// The obstacle cuts the forcing cycle: a proper window of phases
    /// sticks, wrapping through phase zero.
    Partial,
}

/// The sticking region, reduced to the decisions it makes.  The two phase
/// bounds of a `Partial` region stay with the host; the region's kind and
/// everything the model decides from it live here.
#[derive(Clone, Copy, Debug, PartialEq, Eq, Structural)]
pub struct Sticking {
    /// How much of the forcing cycle the region covers.
    pub kind: StickingKind,
}

/// The kind owed for a set of geometry comparisons: the offset reaching the
/// far amplitude wins, then the near amplitude or a vanished forcing, and a
/// proper window remains otherwise.
pub open spec fn spec_region_kind(
    offset_at_least_one: bool,
    offset_at_most_minus_one: bool,
    zero_frequency: bool,
) -> StickingKind {
    if offset_at_least_one {
        StickingKind::Never
    } else if offset_at_most_minus_one || zero_frequency {
        StickingKind::Always
    } else {
        StickingKind::Partial
    }
}

/// Whether a phase lies in the sticking window.  For a `Partial` region the
/// window wraps through zero: a phase sticks when it is still before the
/// release phase or already at or past the entry phase.
pub open spec fn spec_phase_sticks(
    kind: StickingKind,
    below_phase_out: bool,
    at_or_beyond_phase_in: bool,
) -> bool {
    match kind {
        StickingKind::Never => false,
        StickingKind::Always => true,
        StickingKind::Partial => below_phase_out || at_or_beyond_phase_in,
    }
}

impl Sticking {
    /// Builds the region from the geometry comparisons the host made:
    /// whether the obstacle offset is at least one, whether it is at most
    /// minus one, and whether the forcing frequency is zero.
    pub fn new(
        offset_at_least_one: bool,
        offset_at_most_minus_one: bool,
        zero_frequency: bool,
    ) -> (region: Sticking)
        ensures
            region.kind == spec_region_kind(
                offset_at_least_one,
                offset_at_most_minus_one,
                zero_frequency,
            ),
    {
        if offset_at_least_one {
            Sticking { kind: StickingKind::Never }
        } else if offset_at_most_minus_one || zero_frequency {
            Sticking { kind: StickingKind::Always }
        } else {
            Sticking { kind: StickingKind::Partial }
        }
    }

    /// No phase ever sticks.
    pub fn never(&self) -> (r: bool)
        ensures
            r == (self.kind == StickingKind::Never),
    {
        matches!(self.kind, StickingKind::Never)
    }

    /// Every phase sticks.
    pub fn always(&self) -> (r: bool)
        ensures
            r == (self.kind == StickingKind::Always),
    {
        matches!(self.kind, StickingKind::Always)
    }

    /// Whether a phase lies in the sticking window, given where the host
    /// found it relative to the window's two bounds.
    pub fn phase_sticks(&self, below_phase_out: bool, at_or_beyond_phase_in: bool) -> (r: bool)
        ensures
            r == spec_phase_sticks(self.kind, below_phase_out, at_or_beyond_phase_in),
    {
        match self.kind {
            StickingKind::Never => false,
            StickingKind::Always => true,
            StickingKind::Partial => below_phase_out || at_or_beyond_phase_in,
        }
    }

    /// Whether an impact is replaced by a release impact before the next
    /// search: exactly when it arrives at zero velocity inside the sticking
    /// window of a region that does release.  A region that sticks at every
    /// phase never releases, so the impact passes through unchanged.
    pub fn check_impact(
        &self,
        zero_velocity: bool,
        below_phase_out: bool,
        at_or_beyond_phase_in: bool,
    ) -> (release: bool)
        ensures
            release == (zero_velocity && spec_phase_sticks(
                self.kind,
                below_phase_out,
                at_or_beyond_phase_in,
            ) && self.kind != StickingKind::Always),
    {
        zero_velocity && self.phase_sticks(below_phase_out, at_or_beyond_phase_in)
            && !self.always()
    }
}

/// A region of kind `Never` holds no phase and one of kind `Always` holds
/// every phase, wherever the phase falls against the window bounds.
pub proof fn lemma_degenerate_regions(below_phase_out: bool, at_or_beyond_phase_in: bool)
    ensures
        !spec_phase_sticks(StickingKind::Never, below_phase_out, at_or_beyond_phase_in),
        spec_phase_sticks(StickingKind::Always, below_phase_out, at_or_beyond_phase_in),
{
}

} // verus!
