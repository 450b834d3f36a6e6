//! Detection of chatter: an infinite run of ever-smaller impacts that
//! accumulates in finite time on a sticking impact.
//!
//! Chatter cannot be simulated impact by impact, so the model watches for
//! the evidence of it: a sustained run of impacts whose velocities stay
//! below a threshold.  The velocity comparison and the extrapolation to the
//! accumulation time are continuous work left with the host; the run-length
//! bookkeeping that decides when a run counts as evidence is verified here.

use vstd::prelude::*;

verus! {

/// How many consecutive low-velocity impacts are tolerated before the run
/// is declared chatter, unless a caller chooses its own threshold.
pub const DEFAULT_COUNT_THRESHOLD: u32 = 10;

/// Counts consecutive low-velocity impacts.
///
/// Chatter needs a coefficient of restitution strictly between zero and one
/// (inclusive of zero): a perfectly elastic or an amplifying impact never
/// produces an accumulating run, which `can_chatter` records once and for
/// all.  The counter resets on every impact that does not qualify, so only
/// uninterrupted runs are counted.
#[derive(Clone, Copy, Debug, PartialEq, Eq, Structural)]
pub struct ChatterChecker {
    /// Whether the coefficient of restitution admits chatter at all.
    pub can_chatter: bool,
    /// The run length above which a run is declared chatter.
    pub count_threshold: u32,
    /// The length of the current uninterrupted run of low-velocity impacts.
    pub impact_count: u32,
}

impl ChatterChecker {
    /// The counter never runs beyond its threshold: it resets as soon as
    /// the threshold is exceeded.
    pub open spec fn well_formed(self) -> bool {
        self.impact_count <= self.count_threshold
    }

    /// Whether presenting one more impact declares chatter: the impact must
    /// qualify, and it must be the one that carries the run past the
    /// threshold.
    pub open spec fn spec_triggers(self, below_threshold: bool) -> bool {
        self.can_chatter && below_threshold && self.impact_count >= self.count_threshold
    }

    /// The counter state after one impact is presented: a non-qualifying
    /// impact or a declared run resets the counter, a qualifying impact
    /// extends the run.
    pub open spec fn spec_step(self, below_threshold: bool) -> ChatterChecker {
        ChatterChecker {
            can_chatter: self.can_chatter,
            count_threshold: self.count_threshold,
            impact_count: if !self.can_chatter || !below_threshold {
                0
            } else if self.impact_count >= self.count_threshold {
                0
            } else {
                (self.impact_count + 1) as u32
            },
        }
    }

    /// A fresh counter: no impacts seen yet.
    pub fn new(can_chatter: bool, count_threshold: u32) -> (checker: ChatterChecker)
        ensures
            checker == (ChatterChecker { can_chatter, count_threshold, impact_count: 0 }),
            checker.well_formed(),
    {
        ChatterChecker { can_chatter, count_threshold, impact_count: 0 }
    }

    /// Presents one impact to the counter, telling it only whether the
    /// impact's velocity fell below the chatter threshold.  Returns whether
    /// the run is now long enough to declare chatter; the host then
    /// extrapolates the accumulation time and keeps the declaration only if
    /// that time falls in the sticking window.  The counter resets whenever
    /// it declares a run or the run is interrupted.
    pub fn check(&mut self, below_threshold: bool) -> (triggered: bool)
        requires
            old(self).well_formed(),
        ensures
            triggered == old(self).spec_triggers(below_threshold),
            *final(self) == old(self).spec_step(below_threshold),
            final(self).well_formed(),
    {
        if self.can_chatter && below_threshold {
            if self.impact_count >= self.count_threshold {
                self.impact_count = 0;
                true
            } else {
                self.impact_count = self.impact_count + 1;
                false
            }
        } else {
            self.impact_count = 0;
            false
        }
    }
}

/// The counter state after a run of `n` qualifying impacts in a row.
pub open spec fn after_low_impacts(checker: ChatterChecker, n: nat) -> ChatterChecker
    decreases n,
{
    if n == 0 {
        checker
    } else {
        after_low_impacts(checker, (n - 1) as nat).spec_step(true)
    }
}

/// While an uninterrupted run stays within the threshold, the counter is
/// exactly the length of the run.
proof fn lemma_low_run_counts(checker: ChatterChecker, k: nat)
    requires
        checker.can_chatter,
        checker.impact_count == 0,
        k <= checker.count_threshold,
    ensures
        after_low_impacts(checker, k) == (ChatterChecker {
            can_chatter: checker.can_chatter,
            count_threshold: checker.count_threshold,
            impact_count: k as u32,
        }),
    decreases k,
{
    if k > 0 {
        lemma_low_run_counts(checker, (k - 1) as nat);
    }
}

/// A sustained run of low-velocity impacts is declared chatter exactly
/// once the run outgrows the threshold: starting from a fresh counter that
/// admits chatter, none of the first `count_threshold` qualifying impacts
/// declares a run, and the one after them does.
pub proof fn lemma_sustained_low_run_triggers(checker: ChatterChecker)
    requires
        checker.can_chatter,
        checker.impact_count == 0,
    ensures
        forall|k: nat|
            k < checker.count_threshold ==> !(#[trigger] after_low_impacts(
                checker,
                k,
            )).spec_triggers(true),
        after_low_impacts(checker, checker.count_threshold as nat).spec_triggers(true),
{
    assert forall|k: nat| k < checker.count_threshold implies !(#[trigger] after_low_impacts(
        checker,
        k,
    )).spec_triggers(true) by {
        lemma_low_run_counts(checker, k);
    }
    lemma_low_run_counts(checker, checker.count_threshold as nat);
}

} // verus!
