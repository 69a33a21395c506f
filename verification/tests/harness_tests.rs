use lifecycle_harness::harness::Harness;
use lifecycle_harness::input::ActionBinding;
use lifecycle_harness::input::ActionId;
use lifecycle_harness::input::KEY_Q;
use lifecycle_harness::phase::Phase;

fn quit_harness() -> Harness {
    Harness::new(ActionBinding::new(ActionId::Quit, KEY_Q))
}

fn no_keys() -> Vec<u32> {
    Vec::new()
}

fn quit_key_down() -> Vec<u32> {
    vec![KEY_Q]
}

/// Drive a fresh harness into the Ready phase with one registered, completed
/// and reported task.
fn ready_harness() -> Harness {
    let mut h = quit_harness();
    h.register(1);
    h.mark_done(1);
    let out = h.tick(&no_keys());
    assert_eq!(out.report, Some(1));
    let out = h.tick(&no_keys());
    assert_eq!(out.entered, Some(Phase::Ready));
    assert_eq!(h.current_phase(), Phase::Ready);
    h
}

#[test]
fn binding_matches_only_its_key() {
    let b = ActionBinding::new(ActionId::Quit, KEY_Q);
    assert!(b.is_down(&vec![KEY_Q]));
    assert!(b.is_down(&vec![3, KEY_Q, 9]));
    assert!(!b.is_down(&vec![3, 9]));
    assert!(!b.is_down(&no_keys()));
}

#[test]
fn three_tasks_reported_then_ready_next_tick() {
    let mut h = quit_harness();
    h.register(3);
    assert!(!h.is_complete());

    h.mark_done(1);
    let out = h.tick(&no_keys());
    assert_eq!(out.report, Some(1));
    assert_eq!(out.entered, None);
    assert!(!h.is_complete());

    h.mark_done(1);
    let out = h.tick(&no_keys());
    assert_eq!(out.report, Some(2));
    assert_eq!(out.entered, None);

    h.mark_done(1);
    let out = h.tick(&no_keys());
    assert_eq!(out.report, Some(3));
    assert_eq!(out.entered, None);
    // All tasks are done now, and the move to Ready is queued, but the
    // current phase still reads Loading until the next boundary.
    assert!(h.is_complete());
    assert_eq!(h.current_phase(), Phase::Loading);

    let out = h.tick(&no_keys());
    assert_eq!(out.entered, Some(Phase::Ready));
    assert_eq!(out.report, None);
    assert_eq!(h.current_phase(), Phase::Ready);
}

#[test]
fn zero_tasks_never_leave_loading() {
    let mut h = quit_harness();
    for _ in 0..10 {
        let out = h.tick(&no_keys());
        assert_eq!(out.entered, None);
        assert_eq!(out.report, None);
        assert_eq!(h.current_phase(), Phase::Loading);
        assert!(!h.is_complete());
    }
}

#[test]
fn held_quit_key_requests_termination_once() {
    let mut h = ready_harness();
    let mut shutdowns = 0;
    // Press and hold the bound key for five ticks, then release it.
    for i in 0..5 {
        let out = h.tick(&quit_key_down());
        if out.is_shutdown() {
            shutdowns += 1;
            // The request fired on the first held tick, so the terminal
            // phase is entered at the very next boundary.
            assert_eq!(i, 1);
        }
    }
    let out = h.tick(&no_keys());
    assert!(!out.is_shutdown());
    assert_eq!(shutdowns, 1);
    assert_eq!(h.current_phase(), Phase::Terminating);
}

#[test]
fn key_held_since_loading_does_not_fire() {
    let mut h = quit_harness();
    h.register(1);
    h.mark_done(1);
    // The key goes down while still loading and stays down across the
    // switch to Ready: no press edge happens in Ready, so nothing fires.
    h.tick(&quit_key_down());
    let out = h.tick(&quit_key_down());
    assert_eq!(out.entered, Some(Phase::Ready));
    for _ in 0..3 {
        let out = h.tick(&quit_key_down());
        assert_eq!(out.entered, None);
        assert_eq!(h.current_phase(), Phase::Ready);
    }
    // Release and press again: now there is an edge, and it fires.
    h.tick(&no_keys());
    let out = h.tick(&quit_key_down());
    assert_eq!(out.entered, None);
    let out = h.tick(&no_keys());
    assert_eq!(out.entered, Some(Phase::Terminating));
    assert!(out.is_shutdown());
}

#[test]
fn quit_key_ignored_while_loading() {
    let mut h = quit_harness();
    h.register(2);
    for _ in 0..4 {
        let out = h.tick(&quit_key_down());
        assert_eq!(out.entered, None);
        assert_eq!(h.current_phase(), Phase::Loading);
    }
}

#[test]
fn just_pressed_is_edge_triggered() {
    let h = ready_harness();
    assert!(h.action_just_pressed(&quit_key_down()));
    assert!(!h.action_just_pressed(&no_keys()));
    let mut h = h;
    h.tick(&quit_key_down());
    // The key is now remembered as down: holding it is no longer a press.
    assert!(!h.action_just_pressed(&quit_key_down()));
}

#[test]
fn registration_is_ignored_after_loading() {
    let mut h = ready_harness();
    h.register(5);
    h.mark_done(2);
    assert_eq!(h.progress.total_registered, 1);
    assert_eq!(h.progress.done, 1);
    let out = h.tick(&no_keys());
    assert_eq!(out.report, None);
}

#[test]
fn terminating_is_terminal() {
    let mut h = ready_harness();
    h.tick(&quit_key_down());
    let out = h.tick(&quit_key_down());
    assert!(out.is_shutdown());
    // Press-release cycles after termination change nothing.
    for _ in 0..3 {
        let out = h.tick(&no_keys());
        assert_eq!(out.entered, None);
        let out = h.tick(&quit_key_down());
        assert_eq!(out.entered, None);
        assert_eq!(h.current_phase(), Phase::Terminating);
    }
}
