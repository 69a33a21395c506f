//! The tick harness: the lifecycle machine, the progress aggregator and the
//! quit binding wired together, driven one tick at a time by a host loop.
//!
//! Each tick first applies the transition queued on the previous tick (the
//! tick boundary), reporting the phase just entered so the host can run its
//! on-enter behaviour exactly once. Then the phase-scoped behaviours of the
//! now-current phase run: in `Loading`, progress is checked and reported and
//! completion requests the move to `Ready`; in `Ready`, an edge-triggered
//! press of the bound quit key requests the move to `Terminating`. A
//! transition requested mid-tick becomes visible only at the next boundary.
//!
//! The host owns all input and output: it hands the harness the keys held
//! down this tick and the task counts the loader discovered, and acts on
//! what the tick returns.

use vstd::prelude::*;

use crate::input::ActionBinding;
use crate::input::spec_just_pressed;
use crate::phase::Lifecycle;
use crate::phase::Phase;
use crate::progress::ProgressTracker;

verus! {

/// What one tick hands back to the host.
#[derive(Clone, Copy, Debug, PartialEq, Eq)]
pub struct TickOutput {
    /// The phase entered at this tick's boundary, if a transition was
    /// queued; the host runs that phase's on-enter behaviour exactly once.
    /// On entering `Terminating` the host emits its single shutdown notice
    /// and requests process exit with a success status.
    pub entered: Option<Phase>,
    /// The progress snapshot to log, present exactly on ticks where `done`
    /// increased since the last report during `Loading`.
    pub report: Option<u32>,
}

impl TickOutput {
    /// Whether this tick crossed into the terminal phase: the host's cue to
    /// announce shutdown once and request orderly process exit.
    pub fn is_shutdown(&self) -> (r: bool)
        ensures
            r == (self.entered == Some(Phase::Terminating)),
    {
        match self.entered {
            Some(p) => p == Phase::Terminating,
            None => false,
        }
    }
}

/// The whole harness state: one lifecycle, one progress aggregator, one
/// immutable quit binding, and the key state remembered from the previous
/// tick for edge detection.
pub struct Harness {
    /// The double-buffered lifecycle machine.
    pub lifecycle: Lifecycle,
    /// The loading-progress counters.
    pub progress: ProgressTracker,
    /// The quit action's key binding, fixed at startup.
    pub binding: ActionBinding,
    /// Whether the bound key was down on the previous tick.
    pub prev_down: bool,
}

impl Harness {
    /// Both owned state machines are consistent.
    pub open spec fn wf(self) -> bool {
        &&& self.lifecycle.wf()
        &&& self.progress.wf()
    }

    /// The phase in effect for the coming tick once the queued transition,
    /// if any, is applied at the boundary.
    pub open spec fn boundary_phase(self) -> Phase {
        match self.lifecycle.pending {
            Some(p) => p,
            None => self.lifecycle.current,
        }
    }

    /// Whether a tick that sees the bound key down (`down_now`) fires the
    /// quit request: only in `Ready`, and only on the press edge.
    pub open spec fn quit_fires(self, down_now: bool) -> bool {
        self.boundary_phase() == Phase::Ready && spec_just_pressed(self.prev_down, down_now)
    }

    /// One tick of the harness, given whether the bound key is down: the
    /// queued transition is applied, the new phase's behaviour runs, and at
    /// most one follow-up transition is queued for the next boundary.
    pub open spec fn spec_step(self, down_now: bool) -> (Harness, TickOutput) {
        let phase = self.boundary_phase();
        let report = if phase == Phase::Loading {
            self.progress.spec_report()
        } else {
            None
        };
        let progress = if phase == Phase::Loading {
            ProgressTracker {
                total_registered: self.progress.total_registered,
                done: self.progress.done,
                last_reported: self.progress.done,
            }
        } else {
            self.progress
        };
        let pending = if phase == Phase::Loading && self.progress.spec_is_complete() {
            Some(Phase::Ready)
        } else if self.quit_fires(down_now) {
            Some(Phase::Terminating)
        } else {
            None
        };
        (
            Harness {
                lifecycle: Lifecycle { current: phase, pending },
                progress,
                binding: self.binding,
                prev_down: down_now,
            },
            TickOutput { entered: self.lifecycle.pending, report },
        )
    }

    /// One tick, given the set of keys held down this tick.
    pub open spec fn spec_tick(self, keys_down: Seq<u32>) -> (Harness, TickOutput) {
        self.spec_step(self.binding.spec_down(keys_down))
    }

    /// A fresh harness: phase `Loading`, no progress, the given quit
    /// binding, and the bound key taken as released.
    pub fn new(binding: ActionBinding) -> (r: Harness)
        ensures
            r.lifecycle.current == Phase::Loading,
            r.lifecycle.pending is None,
            r.progress.total_registered == 0,
            r.progress.done == 0,
            r.progress.last_reported == 0,
            r.binding == binding,
            r.prev_down == false,
            r.wf(),
    {
        Harness {
            lifecycle: Lifecycle::new(),
            progress: ProgressTracker::new(),
            binding,
            prev_down: false,
        }
    }

    /// The phase in effect this tick. A transition requested earlier in the
    /// same tick has no effect on this read.
    pub fn current_phase(&self) -> (r: Phase)
        ensures
            r == self.lifecycle.current,
    {
        self.lifecycle.current_phase()
    }

    /// Whether every registered task is done and at least one was
    /// registered.
    pub fn is_complete(&self) -> (r: bool)
        ensures
            r == self.progress.spec_is_complete(),
    {
        self.progress.is_complete()
    }

    /// Announce further loading tasks. Registration is meaningful only
    /// before the `Loading` phase is left; afterwards the call is ignored,
    /// so the counters stay frozen.
    pub fn register(&mut self, expected_count: u32)
        requires
            old(self).wf(),
            old(self).lifecycle.current == Phase::Loading ==> old(self).progress.total_registered
                + expected_count <= u32::MAX,
        ensures
            final(self).wf(),
            final(self).lifecycle == old(self).lifecycle,
            final(self).binding == old(self).binding,
            final(self).prev_down == old(self).prev_down,
            final(self).progress.done == old(self).progress.done,
            final(self).progress.last_reported == old(self).progress.last_reported,
            old(self).lifecycle.current == Phase::Loading ==> final(self).progress.total_registered
                == old(self).progress.total_registered + expected_count,
            old(self).lifecycle.current != Phase::Loading ==> final(self).progress == old(
                self,
            ).progress,
    {
        if self.lifecycle.is_active(Phase::Loading) {
            self.progress.register(expected_count);
        }
    }

    /// Record further completed tasks. Completions beyond the registered
    /// total mean a collaborator miscounted and are ruled out up front; once
    /// the `Loading` phase is left the call is ignored and the counters stay
    /// frozen.
    pub fn mark_done(&mut self, count: u32)
        requires
            old(self).wf(),
            old(self).lifecycle.current == Phase::Loading ==> old(self).progress.done + count <= old(
                self,
            ).progress.total_registered,
        ensures
            final(self).wf(),
            final(self).lifecycle == old(self).lifecycle,
            final(self).binding == old(self).binding,
            final(self).prev_down == old(self).prev_down,
            final(self).progress.total_registered == old(self).progress.total_registered,
            final(self).progress.last_reported == old(self).progress.last_reported,
            old(self).lifecycle.current == Phase::Loading ==> final(self).progress.done == old(
                self,
            ).progress.done + count,
            old(self).lifecycle.current != Phase::Loading ==> final(self).progress == old(
                self,
            ).progress,
    {
        if self.lifecycle.is_active(Phase::Loading) {
            self.progress.mark_done(count);
        }
    }

    /// Whether the quit action is just pressed this tick: the bound key is
    /// among `keys_down` and was not down on the previous tick.
    pub fn action_just_pressed(&self, keys_down: &Vec<u32>) -> (r: bool)
        ensures
            r == spec_just_pressed(self.prev_down, self.binding.spec_down(keys_down@)),
    {
        let down_now = self.binding.is_down(keys_down);
        down_now && !self.prev_down
    }

    /// Run one tick against the keys held down this tick. The state and the
    /// output are exactly those of `spec_tick`: the queued transition takes
    /// effect at this boundary and is returned as `entered`; in `Loading`
    /// the progress check reports each increase of `done` once and
    /// completion queues the move to `Ready`; in `Ready` a just-pressed quit
    /// key queues the move to `Terminating`; a transition queued on this
    /// tick is not yet visible in the returned phase.
    pub fn tick(&mut self, keys_down: &Vec<u32>) -> (out: TickOutput)
        requires
            old(self).wf(),
        ensures
            final(self).wf(),
            (*final(self), out) == old(self).spec_tick(keys_down@),
            out.entered == old(self).lifecycle.pending,
            final(self).lifecycle.current == old(self).boundary_phase(),
            final(self).binding == old(self).binding,
    {
        let entered = self.lifecycle.apply_pending();
        let down_now = self.binding.is_down(keys_down);
        let report: Option<u32>;
        if self.lifecycle.is_active(Phase::Loading) {
            report = self.progress.check_and_report();
            if self.progress.is_complete() {
                self.lifecycle.request_transition(Phase::Ready);
            }
        } else {
            report = None;
            if self.lifecycle.is_active(Phase::Ready) && down_now && !self.prev_down {
                self.lifecycle.request_transition(Phase::Terminating);
            }
        }
        self.prev_down = down_now;
        TickOutput { entered, report }
    }
}

/// The harness state after one tick for each key state of `downs`, in
/// order.
pub open spec fn run_steps(h: Harness, downs: Seq<bool>) -> Harness
    decreases downs.len(),
{
    if downs.len() == 0 {
        h
    } else {
        run_steps(h.spec_step(downs[0]).0, downs.skip(1))
    }
}

/// On how many ticks of the run over `downs` the quit request fires.
pub open spec fn quit_request_count(h: Harness, downs: Seq<bool>) -> nat
    decreases downs.len(),
{
    if downs.len() == 0 {
        0
    } else {
        (if h.quit_fires(downs[0]) {
            1nat
        } else {
            0nat
        }) + quit_request_count(h.spec_step(downs[0]).0, downs.skip(1))
    }
}

/// On how many ticks of the run over `downs` the boundary enters phase `p`,
/// cueing that phase's on-enter behaviour.
pub open spec fn entry_count(h: Harness, downs: Seq<bool>, p: Phase) -> nat
    decreases downs.len(),
{
    if downs.len() == 0 {
        0
    } else {
        (if h.spec_step(downs[0]).1.entered == Some(p) {
            1nat
        } else {
            0nat
        }) + entry_count(h.spec_step(downs[0]).0, downs.skip(1), p)
    }
}

/// The phases in the order the lifecycle passes through them; every
/// admissible transition moves strictly forward.
pub open spec fn phase_rank(p: Phase) -> int {
    match p {
        Phase::Loading => 0,
        Phase::Ready => 1,
        Phase::Terminating => 2,
    }
}

/// Once the lifecycle stands at `p` or beyond with nothing queued back into
/// `p`, no later tick ever enters `p` again: transitions only move forward.
pub proof fn lemma_no_reentry(h: Harness, downs: Seq<bool>, p: Phase)
    requires
        h.wf(),
        phase_rank(h.lifecycle.current) >= phase_rank(p),
        h.lifecycle.pending != Some(p),
    ensures
        entry_count(h, downs, p) == 0,
    decreases downs.len(),
{
    if downs.len() > 0 {
        lemma_no_reentry(h.spec_step(downs[0]).0, downs.skip(1), p);
    }
}

/// Every phase is entered on at most one tick of any run, so each on-enter
/// behaviour — the one-shot shutdown notification among them — runs at most
/// once, and the move into `Ready` fires at most once.
pub proof fn lemma_each_phase_entered_at_most_once(h: Harness, downs: Seq<bool>, p: Phase)
    requires
        h.wf(),
    ensures
        entry_count(h, downs, p) <= 1,
    decreases downs.len(),
{
    if downs.len() > 0 {
        let h2 = h.spec_step(downs[0]).0;
        if h.lifecycle.pending == Some(p) {
            // This tick enters `p`; afterwards the lifecycle stands at `p`
            // with nothing aimed back into it, so it is never entered again.
            lemma_no_reentry(h2, downs.skip(1), p);
        } else {
            lemma_each_phase_entered_at_most_once(h2, downs.skip(1), p);
        }
    }
}

/// A phase transition takes effect only at a tick boundary: the tick's
/// resulting phase is the one queued before the tick began, the phase just
/// entered is reported exactly once, and whatever the tick itself queues is
/// not yet visible in that phase.
pub proof fn lemma_transition_at_boundary_only(h: Harness, down_now: bool)
    ensures
        h.spec_step(down_now).0.lifecycle.current == h.boundary_phase(),
        h.spec_step(down_now).1.entered == h.lifecycle.pending,
{
}

/// `Terminating` is terminal: once the coming boundary leads into it, no
/// tick ever fires the quit request again and every later boundary stays in
/// `Terminating`.
pub proof fn lemma_terminal_no_quit(h: Harness, downs: Seq<bool>)
    requires
        h.boundary_phase() == Phase::Terminating,
    ensures
        quit_request_count(h, downs) == 0,
        run_steps(h, downs).boundary_phase() == Phase::Terminating,
    decreases downs.len(),
{
    if downs.len() > 0 {
        let h2 = h.spec_step(downs[0]).0;
        assert(h2.boundary_phase() == Phase::Terminating);
        lemma_terminal_no_quit(h2, downs.skip(1));
    }
}

/// One press-release cycle of the bound key requests termination exactly
/// once. Over a run that starts in `Ready` with nothing queued and the key
/// released, and in which the key is down precisely on the ticks `p..q`,
/// the quit request fires on exactly one tick — the press tick `p` — no
/// matter how long the key is held.
pub proof fn lemma_one_quit_request_per_cycle(h: Harness, downs: Seq<bool>, p: int, q: int)
    requires
        h.wf(),
        h.lifecycle.current == Phase::Ready,
        h.lifecycle.pending is None,
        !h.prev_down,
        0 <= p < q <= downs.len(),
        forall|i: int| 0 <= i < downs.len() ==> downs[i] == (p <= i < q),
    ensures
        quit_request_count(h, downs) == 1,
    decreases downs.len(),
{
    let h2 = h.spec_step(downs[0]).0;
    let rest = downs.skip(1);
    assert forall|i: int| 0 <= i < rest.len() implies rest[i] == (p - 1 <= i < q - 1) by {
        assert(rest[i] == downs[i + 1]);
    }
    if p > 0 {
        // The key is still up on the first tick: nothing fires, and the
        // harness is left in the same quiescent `Ready` state, one tick
        // closer to the press.
        assert(!downs[0]);
        assert(!h.quit_fires(downs[0]));
        lemma_one_quit_request_per_cycle(h2, rest, p - 1, q - 1);
    } else {
        // The first tick is the press edge: the request fires, the move to
        // `Terminating` is queued, and from the next boundary on the
        // terminal phase rules out any further firing.
        assert(downs[0]);
        assert(h.quit_fires(downs[0]));
        assert(h2.boundary_phase() == Phase::Terminating);
        lemma_terminal_no_quit(h2, rest);
    }
}

/// With no task ever registered, completion never fires and the harness
/// never leaves `Loading`: the zero-task state is preserved by every tick,
/// so a run of any length still ends in `Loading`.
pub proof fn lemma_zero_tasks_starve(h: Harness, downs: Seq<bool>)
    requires
        h.wf(),
        h.lifecycle.current == Phase::Loading,
        h.lifecycle.pending is None,
        h.progress.total_registered == 0,
    ensures
        !h.progress.spec_is_complete(),
        run_steps(h, downs).lifecycle.current == Phase::Loading,
        run_steps(h, downs).lifecycle.pending is None,
        run_steps(h, downs).progress.total_registered == 0,
        run_steps(h, downs).wf(),
    decreases downs.len(),
{
    if downs.len() > 0 {
        lemma_zero_tasks_starve(h.spec_step(downs[0]).0, downs.skip(1));
    }
}

} // verus!
