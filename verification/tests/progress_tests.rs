use lifecycle_harness::progress::ProgressTracker;

#[test]
fn fresh_tracker_is_empty_and_incomplete() {
    let t = ProgressTracker::new();
    assert_eq!(t.total_registered, 0);
    assert_eq!(t.done, 0);
    assert_eq!(t.last_reported, 0);
    assert!(!t.is_complete());
}

#[test]
fn complete_iff_all_done_and_some_registered() {
    let mut t = ProgressTracker::new();
    t.register(3);
    assert!(!t.is_complete());
    t.mark_done(2);
    assert!(!t.is_complete());
    t.mark_done(1);
    assert!(t.is_complete());
}

#[test]
fn zero_total_never_complete() {
    let mut t = ProgressTracker::new();
    assert!(!t.is_complete());
    t.register(0);
    t.mark_done(0);
    assert!(!t.is_complete());
}

#[test]
fn report_fires_only_on_increase() {
    let mut t = ProgressTracker::new();
    t.register(3);
    assert_eq!(t.check_and_report(), None);
    t.mark_done(1);
    assert_eq!(t.check_and_report(), Some(1));
    assert_eq!(t.check_and_report(), None);
    assert_eq!(t.check_and_report(), None);
    t.mark_done(1);
    assert_eq!(t.check_and_report(), Some(2));
    assert_eq!(t.check_and_report(), None);
}

#[test]
fn one_report_per_increase_not_per_unit() {
    let mut t = ProgressTracker::new();
    t.register(5);
    t.mark_done(4);
    assert_eq!(t.check_and_report(), Some(4));
    assert_eq!(t.check_and_report(), None);
    t.mark_done(1);
    assert_eq!(t.check_and_report(), Some(5));
    assert_eq!(t.check_and_report(), None);
}

#[test]
fn register_accumulates() {
    let mut t = ProgressTracker::new();
    t.register(2);
    t.register(4);
    assert_eq!(t.total_registered, 6);
    t.mark_done(6);
    assert!(t.is_complete());
}

#[test]
fn counters_at_full_width() {
    let mut t = ProgressTracker::new();
    t.register(u32::MAX);
    assert!(!t.is_complete());
    t.mark_done(u32::MAX);
    assert!(t.is_complete());
    assert_eq!(t.check_and_report(), Some(u32::MAX));
    assert_eq!(t.check_and_report(), None);
}
