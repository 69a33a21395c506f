//! The lifecycle phase and its state machine.
//!
//! The lifecycle moves through three phases: `Loading` (initial), `Ready`,
//! and `Terminating` (terminal). A transition is requested mid-tick but takes
//! effect only at the next tick boundary: the machine double-buffers a
//! `pending` phase beside the `current` one, so a read of the current phase
//! after a request within the same tick still sees the old phase.

use vstd::prelude::*;

verus! {

/// The coarse-grained mode of the application.
#[derive(Clone, Copy, Debug, PartialEq, Eq, Structural)]
pub enum Phase {
    /// Assets are being loaded; the initial phase.
    Loading,
    /// Loading finished; the application is running.
    Ready,
    /// Shutdown was requested; the terminal phase.
    Terminating,
}

/// The transitions the lifecycle admits: `Loading -> Ready` and
/// `Ready -> Terminating`. There are no self-loops and no way out of
/// `Terminating`.
pub open spec fn valid_transition(from: Phase, to: Phase) -> bool {
    ||| (from == Phase::Loading && to == Phase::Ready)
    ||| (from == Phase::Ready && to == Phase::Terminating)
}

/// The double-buffered lifecycle machine: `current` is the phase every
/// reader sees this tick; `pending` is a queued transition that becomes
/// current at the next tick boundary.
pub struct Lifecycle {
    /// The phase in effect for the whole of the current tick.
    pub current: Phase,
    /// The phase queued to take effect at the next tick boundary, if any.
    pub pending: Option<Phase>,
}

impl Lifecycle {
    /// A queued phase is always one the machine may actually move to.
    pub open spec fn wf(self) -> bool {
        self.pending matches Some(p) ==> valid_transition(self.current, p)
    }

    /// A fresh lifecycle starts in `Loading` with nothing queued.
    pub fn new() -> (r: Lifecycle)
        ensures
            r.current == Phase::Loading,
            r.pending is None,
            r.wf(),
    {
        Lifecycle { current: Phase::Loading, pending: None }
    }

    /// The phase in effect this tick.
    pub fn current_phase(&self) -> (r: Phase)
        ensures
            r == self.current,
    {
        self.current
    }

    /// Whether a phase-scoped behaviour guarded on `phase` runs this tick.
    pub fn is_active(&self, phase: Phase) -> (r: bool)
        ensures
            r == (self.current == phase),
    {
        self.current == phase
    }

    /// Queue a phase change. The change is not visible before the next tick
    /// boundary: `current` is left untouched, so a phase read later in the
    /// same tick still returns the old phase. A request made in the terminal
    /// phase is a no-op; any other request must name an admissible
    /// transition, since asking for an unreachable phase is a programming
    /// error, not a runtime condition.
    pub fn request_transition(&mut self, to: Phase)
        requires
            old(self).current == Phase::Terminating || valid_transition(old(self).current, to),
            old(self).wf(),
        ensures
            final(self).current == old(self).current,
            old(self).current == Phase::Terminating ==> final(self).pending == old(self).pending,
            old(self).current != Phase::Terminating ==> final(self).pending == Some(to),
            final(self).wf(),
    {
        if self.current == Phase::Terminating {
            return;
        }
        self.pending = Some(to);
    }

    /// Apply the queued transition at a tick boundary. Returns the phase just
    /// entered, or `None` when no transition was queued; a phase is entered
    /// at most once per boundary, so the caller can run its on-enter
    /// behaviour exactly once.
    pub fn apply_pending(&mut self) -> (entered: Option<Phase>)
        requires
            old(self).wf(),
        ensures
            final(self).pending is None,
            final(self).wf(),
            old(self).pending is None ==> {
                &&& final(self).current == old(self).current
                &&& entered is None
            },
            old(self).pending matches Some(p) ==> {
                &&& final(self).current == p
                &&& entered == Some(p)
                &&& p != old(self).current
            },
    {
        match self.pending {
            None => None,
            Some(p) => {
                self.current = p;
                self.pending = None;
                Some(p)
            },
        }
    }
}

} // verus!
