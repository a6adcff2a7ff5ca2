use window_rectangle::adjacency::{adjacent_search_computable, find_adjacent_monitor};
use window_rectangle::geometry::{Half, Rect};

#[test]
fn finds_left_monitor_in_horizontal_setup() {
    let monitor_left = Rect::new(-1920, 0, 1920, 1080);
    let monitor_main = Rect::new(0, 0, 1920, 1080);
    let monitors = vec![monitor_left, monitor_main];

    let result = find_adjacent_monitor(&monitors, monitor_main, Half::Left);
    assert_eq!(result, Some(0));
}

#[test]
fn finds_right_monitor() {
    let monitor_main = Rect::new(0, 0, 1920, 1080);
    let monitor_right = Rect::new(1920, 0, 1920, 1080);
    let monitors = vec![monitor_main, monitor_right];

    let result = find_adjacent_monitor(&monitors, monitor_main, Half::Right);
    assert_eq!(result, Some(1));
}

#[test]
fn no_left_neighbor_returns_none() {
    let monitor_main = Rect::new(0, 0, 1920, 1080);
    let monitor_right = Rect::new(1920, 0, 1920, 1080);
    let monitors = vec![monitor_main, monitor_right];

    let result = find_adjacent_monitor(&monitors, monitor_main, Half::Left);
    assert_eq!(result, None);
}

#[test]
fn picks_greatest_overlap_among_multiple_left_candidates() {
    // Two stacked monitors on the left, both share the right-edge x.
    // Top one barely overlaps current vertically; bottom one fully overlaps.
    let monitor_top_left = Rect::new(-1920, -1000, 1920, 1080); // overlaps y=0..80
    let monitor_bottom_left = Rect::new(-1920, 0, 1920, 1080); // overlaps y=0..1080
    let monitor_main = Rect::new(0, 0, 1920, 1080);
    let monitors = vec![monitor_top_left, monitor_bottom_left, monitor_main];

    let result = find_adjacent_monitor(&monitors, monitor_main, Half::Left);
    assert_eq!(result, Some(1));
}

#[test]
fn finds_top_monitor() {
    let monitor_top = Rect::new(0, -1080, 1920, 1080);
    let monitor_main = Rect::new(0, 0, 1920, 1080);
    let monitors = vec![monitor_top, monitor_main];

    let result = find_adjacent_monitor(&monitors, monitor_main, Half::Top);
    assert_eq!(result, Some(0));
}

#[test]
fn touching_corner_only_does_not_count() {
    // Top-left monitor touches main only at the corner — no overlap on either axis.
    let monitor_corner = Rect::new(-1920, -1080, 1920, 1080);
    let monitor_main = Rect::new(0, 0, 1920, 1080);
    let monitors = vec![monitor_corner, monitor_main];

    // Looking left: edge matches (right = -1920+1920 = 0 = current.x) but vertical overlap is 0.
    let result = find_adjacent_monitor(&monitors, monitor_main, Half::Left);
    assert_eq!(result, None);
}

#[test]
fn finds_bottom_monitor_with_partial_overlap() {
    let monitor_main = Rect::new(0, 0, 1920, 1080);
    let monitor_below = Rect::new(1000, 1080, 2560, 1440);
    let monitors = vec![monitor_main, monitor_below];
    assert_eq!(find_adjacent_monitor(&monitors, monitor_main, Half::Bottom), Some(1));
    // And from below, the main monitor is on top.
    assert_eq!(find_adjacent_monitor(&monitors, monitor_below, Half::Top), Some(0));
}

#[test]
fn equal_overlaps_pick_first_candidate() {
    let monitor_main = Rect::new(0, 0, 1920, 1080);
    let a = Rect::new(-1920, 0, 1920, 1080);
    let b = Rect::new(-1000, 0, 1000, 1080);
    let monitors = vec![monitor_main, a, b];
    assert_eq!(find_adjacent_monitor(&monitors, monitor_main, Half::Left), Some(1));
}

#[test]
fn adjacency_is_mutual() {
    let left = Rect::new(-1920, 100, 1920, 1080);
    let main = Rect::new(0, 0, 1920, 1080);
    let monitors = vec![left, main];
    assert_eq!(find_adjacent_monitor(&monitors, main, Half::Left), Some(0));
    assert_eq!(find_adjacent_monitor(&monitors, left, Half::Right), Some(1));
}

#[test]
fn empty_monitor_list_has_no_neighbor() {
    let main = Rect::new(0, 0, 1920, 1080);
    assert_eq!(find_adjacent_monitor(&[], main, Half::Right), None);
}

#[test]
fn search_computability_flags_overflow() {
    let main = Rect::new(0, 0, 1920, 1080);
    let far = Rect::new(i32::MAX - 5, 0, 100, 1080);
    assert!(adjacent_search_computable(&[main], main, Half::Left));
    assert!(!adjacent_search_computable(&[far, main], main, Half::Left));
    assert!(adjacent_search_computable(&[Rect::new(1920, 0, 1920, 1080)], main, Half::Right));
}
