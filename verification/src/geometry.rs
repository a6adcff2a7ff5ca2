//! Rectangles, the layout actions, and the placement each action asks for
//! inside a monitor's work area.
use vstd::prelude::*;

verus! {

/// A screen rectangle: top-left corner and size, in physical pixels.
#[derive(Debug, Clone, Copy, PartialEq, Eq, Structural, Hash)]
pub struct Rect {
    pub x: i32,
    pub y: i32,
    pub width: i32,
    pub height: i32,
}

impl View for Rect {
    type V = (int, int, int, int);

    open spec fn view(&self) -> (int, int, int, int) {
        (self.x as int, self.y as int, self.width as int, self.height as int)
    }
}

impl Rect {
    pub fn new(x: i32, y: i32, width: i32, height: i32) -> (r: Self)
        ensures
            r.x == x,
            r.y == y,
            r.width == width,
            r.height == height,
    {
        Self { x, y, width, height }
    }

    /// The x coordinate just past the right edge.
    pub open spec fn right(self) -> int {
        self.x + self.width
    }

    /// The y coordinate just past the bottom edge.
    pub open spec fn bottom(self) -> int {
        self.y + self.height
    }
}

#[derive(Debug, Clone, Copy, PartialEq, Eq, Structural, Hash)]
pub enum Half {
    Left,
    Right,
    Top,
    Bottom,
}

#[derive(Debug, Clone, Copy, PartialEq, Eq, Structural, Hash)]
pub enum Corner {
    TopLeft,
    TopRight,
    BottomLeft,
    BottomRight,
}

#[derive(Debug, Clone, Copy, PartialEq, Eq, Structural, Hash)]
pub enum Action {
    Halve(Half),
    Quarter(Corner),
    Maximize,
    Center,
    RestoreOriginal,
}

pub open spec fn fits_i32(v: int) -> bool {
    i32::MIN <= v <= i32::MAX
}

/// Half of `a`, rounded toward zero (what integer division by two gives).
pub open spec fn half_of(a: int) -> int {
    if a >= 0 {
        a / 2
    } else {
        -((-a) / 2)
    }
}

/// One of the two halves of the span `[start, start + len)`, as (start, length).
/// The first half gets the rounded-down share; the second half gets the rest
/// and ends exactly where the span ends.
pub open spec fn half_span(start: int, len: int, second: bool) -> (int, int) {
    if second {
        (start + half_of(len), len - half_of(len))
    } else {
        (start, half_of(len))
    }
}

/// A span of length `size` centered in `[start, start + len)`.
pub open spec fn centered_span(start: int, len: int, size: int) -> (int, int) {
    (start + half_of(len - size), size)
}

/// A rectangle built from a horizontal and a vertical span.
pub open spec fn from_spans(h: (int, int), v: (int, int)) -> (int, int, int, int) {
    (h.0, v.0, h.1, v.1)
}

/// Whether a corner lies on the right (second) horizontal half.
pub open spec fn corner_is_right(c: Corner) -> bool {
    c is TopRight || c is BottomRight
}

/// Whether a corner lies on the bottom (second) vertical half.
pub open spec fn corner_is_bottom(c: Corner) -> bool {
    c is BottomLeft || c is BottomRight
}

/// The placement that `action` asks for inside `work`, where `current` is the
/// window's present rectangle (used by `Center`, which keeps the size).
/// Maximize and RestoreOriginal are not a matter of geometry: `None`.
pub open spec fn target_spec(work: Rect, action: Action, current: Rect) -> Option<(int, int, int, int)> {
    let (wx, wy, ww, wh) = work@;
    match action {
        Action::Halve(Half::Left) => Some(from_spans(half_span(wx, ww, false), (wy, wh))),
        Action::Halve(Half::Right) => Some(from_spans(half_span(wx, ww, true), (wy, wh))),
        Action::Halve(Half::Top) => Some(from_spans((wx, ww), half_span(wy, wh, false))),
        Action::Halve(Half::Bottom) => Some(from_spans((wx, ww), half_span(wy, wh, true))),
        Action::Quarter(c) => Some(
            from_spans(half_span(wx, ww, corner_is_right(c)), half_span(wy, wh, corner_is_bottom(c))),
        ),
        Action::Center => Some(
            from_spans(
                centered_span(wx, ww, current.width as int),
                centered_span(wy, wh, current.height as int),
            ),
        ),
        Action::Maximize | Action::RestoreOriginal => None,
    }
}

/// Every intermediate value of the placement arithmetic stays in `i32`
/// (outside of it the computation overflows).
pub open spec fn target_computable(work: Rect, action: Action, current: Rect) -> bool {
    &&& action is Center ==> fits_i32(work.width - current.width) && fits_i32(
        work.height - current.height,
    )
    &&& match target_spec(work, action, current) {
        Some(t) => fits_i32(t.0) && fits_i32(t.1) && fits_i32(t.2) && fits_i32(t.3),
        None => true,
    }
}

/// Compute target rect for a given action within a work area.
/// `current` is needed for Center (preserve size) and is otherwise unused.
pub fn compute_target_rect(work_area: Rect, action: Action, current: Rect) -> (r: Option<Rect>)
    requires
        target_computable(work_area, action, current),
    ensures
        match target_spec(work_area, action, current) {
            Some(t) => r matches Some(rect) && rect@ == t,
            None => r is None,
        },
{
    match action {
        Action::Halve(Half::Left) => Some(
            Rect::new(work_area.x, work_area.y, work_area.width / 2, work_area.height),
        ),
        Action::Halve(Half::Right) => Some(
            Rect::new(
                work_area.x + work_area.width / 2,
                work_area.y,
                work_area.width - work_area.width / 2,
                work_area.height,
            ),
        ),
        Action::Halve(Half::Top) => Some(
            Rect::new(work_area.x, work_area.y, work_area.width, work_area.height / 2),
        ),
        Action::Halve(Half::Bottom) => Some(
            Rect::new(
                work_area.x,
                work_area.y + work_area.height / 2,
                work_area.width,
                work_area.height - work_area.height / 2,
            ),
        ),
        Action::Quarter(Corner::TopLeft) => Some(
            Rect::new(work_area.x, work_area.y, work_area.width / 2, work_area.height / 2),
        ),
        Action::Quarter(Corner::TopRight) => Some(
            Rect::new(
                work_area.x + work_area.width / 2,
                work_area.y,
                work_area.width - work_area.width / 2,
                work_area.height / 2,
            ),
        ),
        Action::Quarter(Corner::BottomLeft) => Some(
            Rect::new(
                work_area.x,
                work_area.y + work_area.height / 2,
                work_area.width / 2,
                work_area.height - work_area.height / 2,
            ),
        ),
        Action::Quarter(Corner::BottomRight) => Some(
            Rect::new(
                work_area.x + work_area.width / 2,
                work_area.y + work_area.height / 2,
                work_area.width - work_area.width / 2,
                work_area.height - work_area.height / 2,
            ),
        ),
        Action::Center => Some(
            Rect::new(
                work_area.x + (work_area.width - current.width) / 2,
                work_area.y + (work_area.height - current.height) / 2,
                current.width,
                current.height,
            ),
        ),
        Action::Maximize | Action::RestoreOriginal => None,
    }
}

/// Tells, without overflowing, whether `compute_target_rect` can be called
/// on these arguments.
pub fn target_rect_computable(work_area: Rect, action: Action, current: Rect) -> (r: bool)
    ensures
        r == target_computable(work_area, action, current),
{
    let wx = work_area.x as i64;
    let wy = work_area.y as i64;
    let ww = work_area.width as i64;
    let wh = work_area.height as i64;
    let lo = i32::MIN as i64;
    let hi = i32::MAX as i64;
    match action {
        Action::Halve(Half::Right) | Action::Quarter(Corner::TopRight) => {
            let x = wx + ww / 2;
            lo <= x && x <= hi
        },
        Action::Halve(Half::Bottom) | Action::Quarter(Corner::BottomLeft) => {
            let y = wy + wh / 2;
            lo <= y && y <= hi
        },
        Action::Quarter(Corner::BottomRight) => {
            let x = wx + ww / 2;
            let y = wy + wh / 2;
            lo <= x && x <= hi && lo <= y && y <= hi
        },
        Action::Center => {
            let dw = ww - current.width as i64;
            let dh = wh - current.height as i64;
            if lo <= dw && dw <= hi && lo <= dh && dh <= hi {
                let x = wx + dw / 2;
                let y = wy + dh / 2;
                lo <= x && x <= hi && lo <= y && y <= hi
            } else {
                false
            }
        },
        _ => true,
    }
}

/// The rectangle between the edges `left`, `top`, `right` and `bottom`
/// (the form in which the system reports window and monitor areas).
pub fn rect_from_edges(left: i32, top: i32, right: i32, bottom: i32) -> (r: Rect)
    requires
        fits_i32(right - left),
        fits_i32(bottom - top),
    ensures
        r.x == left,
        r.y == top,
        r.width == right - left,
        r.height == bottom - top,
        r.right() == right,
        r.bottom() == bottom,
{
    Rect::new(left, top, right - left, bottom - top)
}

/// Tells, without overflowing, whether `rect_from_edges` can be called on
/// these edges.
pub fn fits_rect_edges(left: i32, top: i32, right: i32, bottom: i32) -> (r: bool)
    ensures
        r == (fits_i32(right - left) && fits_i32(bottom - top)),
{
    let w = right as i64 - left as i64;
    let h = bottom as i64 - top as i64;
    i32::MIN as i64 <= w && w <= i32::MAX as i64 && i32::MIN as i64 <= h && h <= i32::MAX as i64
}

/// Halving rounds toward zero: twice the half misses `a` by at most one,
/// on the side of zero.
pub proof fn lemma_half_of_bounds(a: int)
    ensures
        -1 <= a - 2 * half_of(a) <= 1,
        a >= 0 ==> 0 <= a - 2 * half_of(a),
        a <= 0 ==> a - 2 * half_of(a) <= 0,
{
}

/// The left and right halves of a work area tile it: the left half starts at
/// its left edge, the right half starts where the left half ends and reaches
/// its right edge, and both span its full height.
pub proof fn lemma_left_right_halves_tile(work: Rect, current: Rect)
    ensures
        ({
            let l = target_spec(work, Action::Halve(Half::Left), current).unwrap();
            let r = target_spec(work, Action::Halve(Half::Right), current).unwrap();
            &&& l.0 == work.x
            &&& l.0 + l.2 == r.0
            &&& r.0 + r.2 == work.right()
            &&& l.1 == work.y && r.1 == work.y
            &&& l.3 == work.height && r.3 == work.height
        }),
{
}

/// The top and bottom halves of a work area tile it, as the left and right
/// halves do across.
pub proof fn lemma_top_bottom_halves_tile(work: Rect, current: Rect)
    ensures
        ({
            let t = target_spec(work, Action::Halve(Half::Top), current).unwrap();
            let b = target_spec(work, Action::Halve(Half::Bottom), current).unwrap();
            &&& t.1 == work.y
            &&& t.1 + t.3 == b.1
            &&& b.1 + b.3 == work.bottom()
            &&& t.0 == work.x && b.0 == work.x
            &&& t.2 == work.width && b.2 == work.width
        }),
{
}

/// Each quarter is where two halves cross: it takes its columns from the
/// left or right half and its rows from the top or bottom half. So the four
/// quarters reach every edge and corner of the work area with no gap.
pub proof fn lemma_quarter_is_crossing_of_halves(work: Rect, corner: Corner, current: Rect)
    ensures
        ({
            let q = target_spec(work, Action::Quarter(corner), current).unwrap();
            let h = target_spec(
                work,
                Action::Halve(if corner_is_right(corner) { Half::Right } else { Half::Left }),
                current,
            ).unwrap();
            let v = target_spec(
                work,
                Action::Halve(if corner_is_bottom(corner) { Half::Bottom } else { Half::Top }),
                current,
            ).unwrap();
            &&& q.0 == h.0 && q.2 == h.2
            &&& q.1 == v.1 && q.3 == v.3
        }),
{
}

/// Halves and quarters stay inside the work area (which is what keeps the
/// taskbar uncovered), with sizes that are not negative.
pub proof fn lemma_halves_and_quarters_inside_work_area(work: Rect, action: Action, current: Rect)
    requires
        action is Halve || action is Quarter,
        work.width >= 0,
        work.height >= 0,
    ensures
        ({
            let t = target_spec(work, action, current).unwrap();
            &&& work.x <= t.0 && t.0 + t.2 <= work.right() && t.2 >= 0
            &&& work.y <= t.1 && t.1 + t.3 <= work.bottom() && t.3 >= 0
        }),
{
}

/// Centering keeps the window's size and leaves margins on opposite sides
/// that differ by at most one pixel; the odd pixel goes to the right (bottom)
/// margin when the window fits, to the left (top) one when it overhangs.
pub proof fn lemma_center_keeps_size_and_balances_margins(work: Rect, current: Rect)
    ensures
        ({
            let c = target_spec(work, Action::Center, current).unwrap();
            let left = c.0 - work.x;
            let right = work.right() - (c.0 + c.2);
            let top = c.1 - work.y;
            let bottom = work.bottom() - (c.1 + c.3);
            &&& c.2 == current.width && c.3 == current.height
            &&& current.width <= work.width ==> 0 <= right - left <= 1
            &&& current.width > work.width ==> -1 <= right - left <= 0
            &&& current.height <= work.height ==> 0 <= bottom - top <= 1
            &&& current.height > work.height ==> -1 <= bottom - top <= 0
        }),
{
    lemma_half_of_bounds(work.width - current.width);
    lemma_half_of_bounds(work.height - current.height);
}

/// The two halves split the work area evenly: their sizes add up to the
/// work area's and differ by at most one pixel, the odd pixel going to the
/// right (bottom) half. The same split gives the quarters their sizes.
pub proof fn lemma_halves_split_evenly(work: Rect, current: Rect, corner: Corner)
    ensures
        ({
            let l = target_spec(work, Action::Halve(Half::Left), current).unwrap();
            let r = target_spec(work, Action::Halve(Half::Right), current).unwrap();
            let t = target_spec(work, Action::Halve(Half::Top), current).unwrap();
            let b = target_spec(work, Action::Halve(Half::Bottom), current).unwrap();
            let q = target_spec(work, Action::Quarter(corner), current).unwrap();
            &&& l.2 + r.2 == work.width
            &&& work.width >= 0 ==> 0 <= r.2 - l.2 <= 1
            &&& work.width < 0 ==> -1 <= r.2 - l.2 <= 0
            &&& t.3 + b.3 == work.height
            &&& work.height >= 0 ==> 0 <= b.3 - t.3 <= 1
            &&& work.height < 0 ==> -1 <= b.3 - t.3 <= 0
            &&& q.2 == (if corner_is_right(corner) { r.2 } else { l.2 })
            &&& q.3 == (if corner_is_bottom(corner) { b.3 } else { t.3 })
        }),
{
    lemma_half_of_bounds(work.width as int);
    lemma_half_of_bounds(work.height as int);
}

/// Exactly the geometric actions have a placement: Maximize and
/// RestoreOriginal have none.
pub proof fn lemma_placement_exists_iff_geometric(work: Rect, action: Action, current: Rect)
    ensures
        target_spec(work, action, current) is None <==> (action is Maximize
            || action is RestoreOriginal),
{
}

} // verus!
