//! The loading-progress aggregator.
//!
//! Many independent loading tasks are coalesced into two counters:
//! `total_registered`, the number of tasks expected to complete, and `done`,
//! the number completed so far, with `done <= total_registered` at all
//! times. A private cursor, `last_reported`, remembers the last `done` value
//! handed out, so that each increase is reported once and only once.

use vstd::prelude::*;

verus! {

/// Progress counters for the loading phase.
pub struct ProgressTracker {
    /// Tasks expected to complete.
    pub total_registered: u32,
    /// Tasks completed so far; never exceeds `total_registered`.
    pub done: u32,
    /// The `done` value at the last report; reporting is edge-triggered on
    /// `done` moving past this cursor.
    pub last_reported: u32,
}

impl ProgressTracker {
    /// The counters are consistent: completions never outrun registrations,
    /// and the cursor never outruns the completions.
    pub open spec fn wf(self) -> bool {
        &&& self.done <= self.total_registered
        &&& self.last_reported <= self.done
    }

    /// Loading is complete when every registered task is done and at least
    /// one task was registered; with nothing registered, completion never
    /// fires.
    pub open spec fn spec_is_complete(self) -> bool {
        self.done == self.total_registered && self.total_registered > 0
    }

    /// What a check would report right now: the current `done` count when it
    /// has strictly increased past the cursor, nothing otherwise.
    pub open spec fn spec_report(self) -> Option<u32> {
        if self.done > self.last_reported {
            Some(self.done)
        } else {
            None
        }
    }

    /// A fresh tracker: nothing registered, nothing done, nothing reported.
    pub fn new() -> (r: ProgressTracker)
        ensures
            r.total_registered == 0,
            r.done == 0,
            r.last_reported == 0,
            r.wf(),
    {
        ProgressTracker { total_registered: 0, done: 0, last_reported: 0 }
    }

    /// Announce `expected_count` further tasks: `total_registered` grows by
    /// that much and nothing else moves. The total must stay within the
    /// counter's width.
    pub fn register(&mut self, expected_count: u32)
        requires
            old(self).wf(),
            old(self).total_registered + expected_count <= u32::MAX,
        ensures
            final(self).total_registered == old(self).total_registered + expected_count,
            final(self).done == old(self).done,
            final(self).last_reported == old(self).last_reported,
            final(self).wf(),
    {
        self.total_registered = self.total_registered + expected_count;
    }

    /// Record `count` further completions: `done` grows by that much and
    /// nothing else moves. Completions beyond `total_registered` mean a
    /// collaborator miscounted — a programming error — so they are ruled
    /// out up front rather than clamped.
    pub fn mark_done(&mut self, count: u32)
        requires
            old(self).wf(),
            old(self).done + count <= old(self).total_registered,
        ensures
            final(self).done == old(self).done + count,
            final(self).total_registered == old(self).total_registered,
            final(self).last_reported == old(self).last_reported,
            final(self).wf(),
    {
        self.done = self.done + count;
    }

    /// True exactly when every registered task is done and at least one was
    /// registered.
    pub fn is_complete(&self) -> (r: bool)
        ensures
            r == self.spec_is_complete(),
    {
        self.done == self.total_registered && self.total_registered > 0
    }

    /// Report progress if and only if `done` strictly increased since the
    /// previous report, and move the cursor up to `done` so the same
    /// increase is never reported twice. Called once per tick, this yields
    /// one report per increase, not one per unit of increase.
    pub fn check_and_report(&mut self) -> (r: Option<u32>)
        requires
            old(self).wf(),
        ensures
            r == old(self).spec_report(),
            final(self).last_reported == old(self).done,
            final(self).done == old(self).done,
            final(self).total_registered == old(self).total_registered,
            final(self).wf(),
    {
        if self.done > self.last_reported {
            self.last_reported = self.done;
            Some(self.done)
        } else {
            self.last_reported = self.done;
            None
        }
    }
}

/// Reporting is edge-triggered: a report is due exactly when `done` has
/// moved past the cursor, and directly after any check — reporting or not —
/// the cursor has caught up, so a further check yields nothing until `done`
/// increases again. No increase is ever reported twice.
pub proof fn lemma_report_edge_triggered(t: ProgressTracker)
    requires
        t.wf(),
    ensures
        t.spec_report() is Some <==> t.done > t.last_reported,
        t.spec_report() is Some ==> t.spec_report() == Some(t.done),
        (ProgressTracker {
            total_registered: t.total_registered,
            done: t.done,
            last_reported: t.done,
        }).spec_report() is None,
{
}

} // verus!
