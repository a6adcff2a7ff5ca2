use window_rectangle::geometry::{
    compute_target_rect, fits_rect_edges, rect_from_edges, target_rect_computable, Action, Corner,
    Half, Rect,
};

fn work_area_1920_1080() -> Rect {
    Rect::new(0, 0, 1920, 1040) // taskbar takes 40px
}

#[test]
fn halve_left_takes_left_half() {
    let work_area = work_area_1920_1080();
    let result = compute_target_rect(work_area, Action::Halve(Half::Left), work_area).unwrap();
    assert_eq!(result, Rect::new(0, 0, 960, 1040));
}

#[test]
fn halve_right_takes_right_half_with_remainder() {
    let work_area = Rect::new(0, 0, 1921, 1080); // odd width
    let result = compute_target_rect(work_area, Action::Halve(Half::Right), work_area).unwrap();
    assert_eq!(result, Rect::new(960, 0, 961, 1080));
    assert_eq!(result.x + result.width, 1921, "must reach right edge");
}

#[test]
fn halve_bottom_starts_at_midpoint() {
    let work_area = Rect::new(0, 0, 1920, 1080);
    let result = compute_target_rect(work_area, Action::Halve(Half::Bottom), work_area).unwrap();
    assert_eq!(result, Rect::new(0, 540, 1920, 540));
}

#[test]
fn quarter_top_left() {
    let work_area = work_area_1920_1080();
    let result = compute_target_rect(work_area, Action::Quarter(Corner::TopLeft), work_area).unwrap();
    assert_eq!(result, Rect::new(0, 0, 960, 520));
}

#[test]
fn quarter_bottom_right_reaches_corners() {
    let work_area = Rect::new(0, 0, 1921, 1081); // odd both
    let result = compute_target_rect(work_area, Action::Quarter(Corner::BottomRight), work_area).unwrap();
    assert_eq!(result.x + result.width, 1921);
    assert_eq!(result.y + result.height, 1081);
}

#[test]
fn center_preserves_size() {
    let work_area = Rect::new(0, 0, 1920, 1080);
    let current = Rect::new(100, 100, 800, 600);
    let result = compute_target_rect(work_area, Action::Center, current).unwrap();
    assert_eq!(result, Rect::new(560, 240, 800, 600));
}

#[test]
fn center_on_offset_work_area() {
    // Second monitor at x=1920
    let work_area = Rect::new(1920, 0, 1920, 1080);
    let current = Rect::new(0, 0, 800, 600);
    let result = compute_target_rect(work_area, Action::Center, current).unwrap();
    assert_eq!(result, Rect::new(1920 + 560, 240, 800, 600));
}

#[test]
fn maximize_returns_none_pure_geometry() {
    let work_area = Rect::new(0, 0, 1920, 1080);
    assert!(compute_target_rect(work_area, Action::Maximize, work_area).is_none());
}

#[test]
fn restore_original_returns_none() {
    let work_area = Rect::new(0, 0, 1920, 1080);
    assert!(compute_target_rect(work_area, Action::RestoreOriginal, work_area).is_none());
}

#[test]
fn halve_top_takes_top_half_rounded_down() {
    let work_area = Rect::new(10, 20, 1000, 801);
    let result = compute_target_rect(work_area, Action::Halve(Half::Top), work_area).unwrap();
    assert_eq!(result, Rect::new(10, 20, 1000, 400));
}

#[test]
fn left_and_right_halves_meet_without_gap() {
    let work_area = Rect::new(-1921, 7, 1921, 1080);
    let left = compute_target_rect(work_area, Action::Halve(Half::Left), work_area).unwrap();
    let right = compute_target_rect(work_area, Action::Halve(Half::Right), work_area).unwrap();
    assert_eq!(left.x, -1921);
    assert_eq!(left.x + left.width, right.x);
    assert_eq!(right.x + right.width, 0);
    assert_eq!(left, Rect::new(-1921, 7, 960, 1080));
    assert_eq!(right, Rect::new(-961, 7, 961, 1080));
}

#[test]
fn quarters_are_crossings_of_halves() {
    let work_area = Rect::new(100, 50, 1921, 1081);
    let q = compute_target_rect(work_area, Action::Quarter(Corner::TopRight), work_area).unwrap();
    let right = compute_target_rect(work_area, Action::Halve(Half::Right), work_area).unwrap();
    let top = compute_target_rect(work_area, Action::Halve(Half::Top), work_area).unwrap();
    assert_eq!(q, Rect::new(right.x, top.y, right.width, top.height));
    let bl = compute_target_rect(work_area, Action::Quarter(Corner::BottomLeft), work_area).unwrap();
    assert_eq!(bl, Rect::new(100, 50 + 540, 960, 541));
}

#[test]
fn center_window_larger_than_work_area_rounds_toward_zero() {
    let work_area = Rect::new(0, 0, 1000, 700);
    let current = Rect::new(0, 0, 1201, 901);
    let result = compute_target_rect(work_area, Action::Center, current).unwrap();
    // (1000 - 1201) / 2 == -100 and (700 - 901) / 2 == -100, rounding toward zero.
    assert_eq!(result, Rect::new(-100, -100, 1201, 901));
}

#[test]
fn computability_check_flags_overflow() {
    let huge = Rect::new(i32::MAX - 10, 0, 100, 100);
    assert!(!target_rect_computable(huge, Action::Halve(Half::Right), huge));
    assert!(target_rect_computable(huge, Action::Halve(Half::Left), huge));
    let work = Rect::new(0, 0, i32::MIN + 5, 10);
    let current = Rect::new(0, 0, 100, 10);
    assert!(!target_rect_computable(work, Action::Center, current));
    assert!(target_rect_computable(Rect::new(0, 0, 1920, 1080), Action::Center, current));
}

#[test]
fn rect_from_edges_measures_size() {
    let r = rect_from_edges(-1920, 10, 0, 1050);
    assert_eq!(r, Rect::new(-1920, 10, 1920, 1040));
}

#[test]
fn edge_check_flags_overflow() {

    assert!(fits_rect_edges(-1920, 0, 0, 1080));
    assert!(!fits_rect_edges(i32::MIN, 0, i32::MAX, 1080));
    assert!(!fits_rect_edges(0, i32::MAX, 10, i32::MIN));
}
