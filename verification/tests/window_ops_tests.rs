use window_rectangle::geometry::Rect;
use window_rectangle::window_ops::RestoreStack;

#[test]
fn take_returns_last_capture_once() {
    let mut stack = RestoreStack::new();
    stack.capture(7, Rect::new(1, 2, 3, 4));
    stack.capture(7, Rect::new(5, 6, 7, 8));
    stack.capture(9, Rect::new(0, 0, 10, 10));
    assert_eq!(stack.take(7), Some(Rect::new(5, 6, 7, 8)));
    assert_eq!(stack.take(7), None);
    assert_eq!(stack.take(9), Some(Rect::new(0, 0, 10, 10)));
}

#[test]
fn empty_stack_has_nothing() {
    let mut stack = RestoreStack::default();
    assert_eq!(stack.take(1), None);
}
