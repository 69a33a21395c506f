use lifecycle_harness::phase::Lifecycle;
use lifecycle_harness::phase::Phase;

#[test]
fn starts_in_loading_with_nothing_queued() {
    let l = Lifecycle::new();
    assert_eq!(l.current_phase(), Phase::Loading);
    assert!(l.pending.is_none());
    assert!(l.is_active(Phase::Loading));
    assert!(!l.is_active(Phase::Ready));
}

#[test]
fn request_is_invisible_until_boundary() {
    let mut l = Lifecycle::new();
    l.request_transition(Phase::Ready);
    // Mid-tick, the current phase still reads as the old one.
    assert_eq!(l.current_phase(), Phase::Loading);
    assert!(l.is_active(Phase::Loading));
    // At the boundary the queued phase takes effect, reported once.
    assert_eq!(l.apply_pending(), Some(Phase::Ready));
    assert_eq!(l.current_phase(), Phase::Ready);
}

#[test]
fn boundary_without_request_changes_nothing() {
    let mut l = Lifecycle::new();
    assert_eq!(l.apply_pending(), None);
    assert_eq!(l.current_phase(), Phase::Loading);
    assert_eq!(l.apply_pending(), None);
}

#[test]
fn full_run_to_terminating() {
    let mut l = Lifecycle::new();
    l.request_transition(Phase::Ready);
    assert_eq!(l.apply_pending(), Some(Phase::Ready));
    l.request_transition(Phase::Terminating);
    assert_eq!(l.current_phase(), Phase::Ready);
    assert_eq!(l.apply_pending(), Some(Phase::Terminating));
    assert_eq!(l.current_phase(), Phase::Terminating);
}

#[test]
fn request_in_terminal_phase_is_a_no_op() {
    let mut l = Lifecycle::new();
    l.request_transition(Phase::Ready);
    l.apply_pending();
    l.request_transition(Phase::Terminating);
    l.apply_pending();
    assert_eq!(l.current_phase(), Phase::Terminating);
    // Terminating is terminal: a further request queues nothing.
    l.request_transition(Phase::Ready);
    assert!(l.pending.is_none());
    assert_eq!(l.apply_pending(), None);
    assert_eq!(l.current_phase(), Phase::Terminating);
}
