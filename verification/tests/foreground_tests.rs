use window_rectangle::foreground::{is_top_level_style, ForegroundTracker, WS_CHILD};

#[test]
fn own_windows_are_not_candidates() {
    let mut tracker = ForegroundTracker::new();
    tracker.register_own_window(42);
    tracker.register_own_window(43);
    assert!(tracker.is_own(42));
    assert!(!tracker.is_own(44));
    assert!(!tracker.is_foreground_candidate(42, 0, 0));
    assert!(!tracker.is_foreground_candidate(43, 0, 0));
    assert!(tracker.is_foreground_candidate(44, 0, 0));
}

#[test]
fn child_objects_and_null_windows_are_not_candidates() {
    let tracker = ForegroundTracker::new();
    assert!(!tracker.is_foreground_candidate(44, 1, 0));
    assert!(!tracker.is_foreground_candidate(44, 0, -4));
    assert!(!tracker.is_foreground_candidate(0, 0, 0));
}

#[test]
fn last_real_foreground_starts_empty_and_follows() {
    let mut tracker = ForegroundTracker::new();
    assert_eq!(tracker.last_real_foreground(), None);
    tracker.remember_foreground(1234);
    assert_eq!(tracker.last_real_foreground(), Some(1234));
    tracker.remember_foreground(99);
    assert_eq!(tracker.last_real_foreground(), Some(99));
}

#[test]
fn child_style_is_not_top_level() {
    assert!(is_top_level_style(0x10CF_0000));
    assert!(!is_top_level_style(WS_CHILD));
    assert!(!is_top_level_style(0x5000_0000));
}
