//! Which monitor lies next to another one in a given direction.
use vstd::prelude::*;
use crate::geometry::{fits_i32, Half, Rect};

verus! {

pub open spec fn max_int(a: int, b: int) -> int {
    if a >= b {
        a
    } else {
        b
    }
}

pub open spec fn min_int(a: int, b: int) -> int {
    if a <= b {
        a
    } else {
        b
    }
}

/// Length of the common part of `[a0, a0 + alen)` and `[b0, b0 + blen)`;
/// zero when they do not meet.
pub open spec fn span_overlap(a0: int, alen: int, b0: int, blen: int) -> int {
    let d = min_int(a0 + alen, b0 + blen) - max_int(a0, b0);
    if d > 0 {
        d
    } else {
        0
    }
}

pub open spec fn vertical_overlap_of(a: Rect, b: Rect) -> int {
    span_overlap(a.y as int, a.height as int, b.y as int, b.height as int)
}

pub open spec fn horizontal_overlap_of(a: Rect, b: Rect) -> int {
    span_overlap(a.x as int, a.width as int, b.x as int, b.width as int)
}

/// The overlap of the two spans can be computed without leaving `i32`.
pub open spec fn span_overlap_computable(a0: int, alen: int, b0: int, blen: int) -> bool {
    &&& fits_i32(a0 + alen)
    &&& fits_i32(b0 + blen)
    &&& fits_i32(min_int(a0 + alen, b0 + blen) - max_int(a0, b0))
}

/// `candidate`'s edge facing `direction` lies on `current`'s edge on that side.
pub open spec fn edge_touches(candidate: Rect, current: Rect, direction: Half) -> bool {
    match direction {
        Half::Left => candidate.right() == current.x,
        Half::Right => candidate.x == current.right(),
        Half::Top => candidate.bottom() == current.y,
        Half::Bottom => candidate.y == current.bottom(),
    }
}

/// Length of the border the two rectangles share across `direction`.
pub open spec fn shared_border(candidate: Rect, current: Rect, direction: Half) -> int {
    match direction {
        Half::Left | Half::Right => vertical_overlap_of(candidate, current),
        Half::Top | Half::Bottom => horizontal_overlap_of(candidate, current),
    }
}

/// `candidate` is another monitor that touches `current` on the `direction`
/// side along a border of positive length (a shared corner is not enough).
pub open spec fn is_neighbor(candidate: Rect, current: Rect, direction: Half) -> bool {
    &&& candidate != current
    &&& edge_touches(candidate, current, direction)
    &&& shared_border(candidate, current, direction) > 0
}

/// Examining `candidate` stays within `i32`.
pub open spec fn candidate_computable(candidate: Rect, current: Rect, direction: Half) -> bool {
    candidate != current ==> {
        &&& match direction {
            Half::Left => fits_i32(candidate.right()),
            Half::Right => fits_i32(current.right()),
            Half::Top => fits_i32(candidate.bottom()),
            Half::Bottom => fits_i32(current.bottom()),
        }
        &&& match direction {
            Half::Left | Half::Right => span_overlap_computable(
                candidate.y as int,
                candidate.height as int,
                current.y as int,
                current.height as int,
            ),
            Half::Top | Half::Bottom => span_overlap_computable(
                candidate.x as int,
                candidate.width as int,
                current.x as int,
                current.width as int,
            ),
        }
    }
}

pub open spec fn search_computable(monitors: Seq<Rect>, current: Rect, direction: Half) -> bool {
    forall|i: int| 0 <= i < monitors.len() ==> candidate_computable(monitors[i], current, direction)
}

/// `k` is the neighbor with the longest shared border, the first such one
/// where several share the longest.
pub open spec fn is_best_neighbor(monitors: Seq<Rect>, current: Rect, direction: Half, k: int) -> bool {
    &&& 0 <= k < monitors.len()
    &&& is_neighbor(monitors[k], current, direction)
    &&& forall|j: int|
        0 <= j < monitors.len() && is_neighbor(#[trigger] monitors[j], current, direction) ==> {
            &&& shared_border(monitors[j], current, direction) <= shared_border(
                monitors[k],
                current,
                direction,
            )
            &&& j < k ==> shared_border(monitors[j], current, direction) < shared_border(
                monitors[k],
                current,
                direction,
            )
        }
}

pub open spec fn has_neighbor(monitors: Seq<Rect>, current: Rect, direction: Half) -> bool {
    exists|i: int| 0 <= i < monitors.len() && is_neighbor(#[trigger] monitors[i], current, direction)
}

/// The monitor adjacent to `current` in `direction`, as an index into `monitors`.
pub open spec fn best_neighbor(monitors: Seq<Rect>, current: Rect, direction: Half) -> Option<int> {
    if has_neighbor(monitors, current, direction) {
        Some(choose|k: int| is_best_neighbor(monitors, current, direction, k))
    } else {
        None
    }
}

/// Find the monitor adjacent to `current` in the direction implied by `direction`.
/// Returns the index into `monitors`, or None if no neighbor.
///
/// Rules:
/// - Left: another monitor whose `right` edge equals `current.left`, with vertical overlap > 0.
/// - Right: symmetric with `left == current.right`.
/// - Top: another monitor whose `bottom` edge equals `current.top`, with horizontal overlap > 0.
/// - Bottom: symmetric with `top == current.bottom`.
/// - On multiple candidates, pick the one with greatest perpendicular-axis overlap.
pub fn find_adjacent_monitor(monitors: &[Rect], current: Rect, direction: Half) -> (r: Option<usize>)
    requires
        search_computable(monitors@, current, direction),
    ensures
        match r {
            Some(k) => is_best_neighbor(monitors@, current, direction, k as int),
            None => !has_neighbor(monitors@, current, direction),
        },
        r matches Some(k) ==> best_neighbor(monitors@, current, direction) == Some(k as int),
        r is None ==> best_neighbor(monitors@, current, direction) is None,
{
    let mut best_index: Option<usize> = None;
    let mut best_overlap: i32 = 0;
    let mut index: usize = 0;
    while index < monitors.len()
        invariant
            index <= monitors.len(),
            search_computable(monitors@, current, direction),
            match best_index {
                None => best_overlap == 0 && forall|j: int|
                    0 <= j < index ==> !is_neighbor(#[trigger] monitors@[j], current, direction),
                Some(k) => {
                    &&& k < index
                    &&& is_neighbor(monitors@[k as int], current, direction)
                    &&& best_overlap == shared_border(monitors@[k as int], current, direction)
                    &&& forall|j: int|
                        0 <= j < index && is_neighbor(#[trigger] monitors@[j], current, direction)
                            ==> {
                            &&& shared_border(monitors@[j], current, direction) <= best_overlap
                            &&& j < k ==> shared_border(monitors@[j], current, direction)
                                < best_overlap
                        }
                },
            },
        decreases monitors.len() - index,
    {
        let candidate = monitors[index];
        assert(candidate_computable(monitors@[index as int], current, direction));
        if candidate == current {
            index = index + 1;
            continue;
        }
        let (edge_match, overlap) = match direction {
            Half::Left => (
                candidate.x + candidate.width == current.x,
                vertical_overlap(candidate, current),
            ),
            Half::Right => (
                candidate.x == current.x + current.width,
                vertical_overlap(candidate, current),
            ),
            Half::Top => (
                candidate.y + candidate.height == current.y,
                horizontal_overlap(candidate, current),
            ),
            Half::Bottom => (
                candidate.y == current.y + current.height,
                horizontal_overlap(candidate, current),
            ),
        };
        assert(edge_match == edge_touches(candidate, current, direction));
        assert(overlap == shared_border(candidate, current, direction));
        if edge_match && overlap > 0 && overlap > best_overlap {
            best_index = Some(index);
            best_overlap = overlap;
        }
        index = index + 1;
    }
    proof {
        match best_index {
            Some(k) => {
                lemma_best_neighbor_unique(monitors@, current, direction, k as int);
            },
            None => {},
        }
    }
    best_index
}

/// There is at most one best neighbor, so `best_neighbor` names it.
pub proof fn lemma_best_neighbor_unique(monitors: Seq<Rect>, current: Rect, direction: Half, k: int)
    requires
        is_best_neighbor(monitors, current, direction, k),
    ensures
        best_neighbor(monitors, current, direction) == Some(k),
{
    assert(has_neighbor(monitors, current, direction)) by {
        assert(is_neighbor(monitors[k], current, direction));
    }
    let c = choose|c: int| is_best_neighbor(monitors, current, direction, c);
    assert(is_best_neighbor(monitors, current, direction, c));
    if c < k {
        assert(is_neighbor(monitors[c], current, direction));
    } else if k < c {
        assert(is_neighbor(monitors[k], current, direction));
    }
}

/// Length of the common part of `[a0, a0 + alen)` and `[b0, b0 + blen)`.
fn span_overlap_exec(a0: i32, alen: i32, b0: i32, blen: i32) -> (r: i32)
    requires
        span_overlap_computable(a0 as int, alen as int, b0 as int, blen as int),
    ensures
        r == span_overlap(a0 as int, alen as int, b0 as int, blen as int),
{
    let top = if a0 >= b0 {
        a0
    } else {
        b0
    };
    let a1 = a0 + alen;
    let b1 = b0 + blen;
    let bottom = if a1 <= b1 {
        a1
    } else {
        b1
    };
    let d = bottom - top;
    if d > 0 {
        d
    } else {
        0
    }
}

fn vertical_overlap(a: Rect, b: Rect) -> (r: i32)
    requires
        span_overlap_computable(a.y as int, a.height as int, b.y as int, b.height as int),
    ensures
        r == vertical_overlap_of(a, b),
{
    span_overlap_exec(a.y, a.height, b.y, b.height)
}

fn horizontal_overlap(a: Rect, b: Rect) -> (r: i32)
    requires
        span_overlap_computable(a.x as int, a.width as int, b.x as int, b.width as int),
    ensures
        r == horizontal_overlap_of(a, b),
{
    span_overlap_exec(a.x, a.width, b.x, b.width)
}

/// Tells, without overflowing, whether `find_adjacent_monitor` can be called
/// on these arguments.
pub fn adjacent_search_computable(monitors: &[Rect], current: Rect, direction: Half) -> (r: bool)
    ensures
        r == search_computable(monitors@, current, direction),
{
    let mut index: usize = 0;
    while index < monitors.len()
        invariant
            index <= monitors.len(),
            forall|j: int|
                0 <= j < index ==> candidate_computable(#[trigger] monitors@[j], current, direction),
        decreases monitors.len() - index,
    {
        if !candidate_computable_exec(monitors[index], current, direction) {
            assert(!candidate_computable(monitors@[index as int], current, direction));
            return false;
        }
        index = index + 1;
    }
    true
}

fn fits_i64(v: i64) -> (r: bool)
    ensures
        r == fits_i32(v as int),
{
    i32::MIN as i64 <= v && v <= i32::MAX as i64
}

fn span_overlap_computable_exec(a0: i32, alen: i32, b0: i32, blen: i32) -> (r: bool)
    ensures
        r == span_overlap_computable(a0 as int, alen as int, b0 as int, blen as int),
{
    let a1 = a0 as i64 + alen as i64;
    let b1 = b0 as i64 + blen as i64;
    let lo = if a0 >= b0 {
        a0 as i64
    } else {
        b0 as i64
    };
    let hi = if a1 <= b1 {
        a1
    } else {
        b1
    };
    fits_i64(a1) && fits_i64(b1) && fits_i64(hi - lo)
}

fn candidate_computable_exec(candidate: Rect, current: Rect, direction: Half) -> (r: bool)
    ensures
        r == candidate_computable(candidate, current, direction),
{
    if candidate == current {
        return true;
    }
    match direction {
        Half::Left => fits_i64(candidate.x as i64 + candidate.width as i64)
            && span_overlap_computable_exec(candidate.y, candidate.height, current.y, current.height),
        Half::Right => fits_i64(current.x as i64 + current.width as i64)
            && span_overlap_computable_exec(candidate.y, candidate.height, current.y, current.height),
        Half::Top => fits_i64(candidate.y as i64 + candidate.height as i64)
            && span_overlap_computable_exec(candidate.x, candidate.width, current.x, current.width),
        Half::Bottom => fits_i64(current.y as i64 + current.height as i64)
            && span_overlap_computable_exec(candidate.x, candidate.width, current.x, current.width),
    }
}

/// `p` lies in the span `[start, start + len)`.
pub open spec fn in_span(p: int, start: int, len: int) -> bool {
    start <= p < start + len
}

/// The later of two starts.
pub open spec fn later_start(a0: int, b0: int) -> int {
    if a0 >= b0 {
        a0
    } else {
        b0
    }
}

/// The overlap of two spans is the length of their intersection: a point
/// lies in both spans exactly when it lies in the span of that length that
/// starts at the later of the two starts. In particular the overlap does not
/// depend on the order of the spans and is at most the length of each.
pub proof fn lemma_span_overlap_is_intersection(a0: int, alen: int, b0: int, blen: int)
    ensures
        span_overlap(a0, alen, b0, blen) >= 0,
        forall|p: int|
            #![trigger in_span(p, a0, alen), in_span(p, b0, blen)]
            #![trigger in_span(p, later_start(a0, b0), span_overlap(a0, alen, b0, blen))]
            (in_span(p, a0, alen) && in_span(p, b0, blen)) <==> in_span(
                p,
                later_start(a0, b0),
                span_overlap(a0, alen, b0, blen),
            ),
        span_overlap(a0, alen, b0, blen) == span_overlap(b0, blen, a0, alen),
        alen >= 0 ==> span_overlap(a0, alen, b0, blen) <= alen,
        blen >= 0 ==> span_overlap(a0, alen, b0, blen) <= blen,
{
}

/// The border a neighbor shares is the length of the common part of the
/// two monitors' extents across the search direction: rows for Left and
/// Right, columns for Top and Bottom.
pub proof fn lemma_shared_border_is_common_extent(a: Rect, b: Rect, direction: Half)
    ensures
        shared_border(a, b, direction) >= 0,
        shared_border(a, b, direction) == shared_border(b, a, direction),
        direction is Left || direction is Right ==> forall|p: int|
            #![trigger in_span(p, a.y as int, a.height as int), in_span(p, b.y as int, b.height as int)]
            (in_span(p, a.y as int, a.height as int) && in_span(p, b.y as int, b.height as int))
                <==> in_span(
                p,
                later_start(a.y as int, b.y as int),
                shared_border(a, b, direction),
            ),
        direction is Top || direction is Bottom ==> forall|p: int|
            #![trigger in_span(p, a.x as int, a.width as int), in_span(p, b.x as int, b.width as int)]
            (in_span(p, a.x as int, a.width as int) && in_span(p, b.x as int, b.width as int))
                <==> in_span(
                p,
                later_start(a.x as int, b.x as int),
                shared_border(a, b, direction),
            ),
{
    lemma_span_overlap_is_intersection(a.y as int, a.height as int, b.y as int, b.height as int);
    lemma_span_overlap_is_intersection(a.x as int, a.width as int, b.x as int, b.width as int);
}

/// A neighbor lies on the side it was looked for: touching the current
/// monitor's edge there, with its extent on the far side of that edge.
pub proof fn lemma_neighbor_lies_on_that_side(candidate: Rect, current: Rect, direction: Half)
    requires
        is_neighbor(candidate, current, direction),
        candidate.width >= 0,
        candidate.height >= 0,
        current.width >= 0,
        current.height >= 0,
    ensures
        candidate != current,
        shared_border(candidate, current, direction) > 0,
        match direction {
            Half::Left => candidate.x + candidate.width == current.x && candidate.x <= current.x,
            Half::Right => candidate.x == current.x + current.width && current.x <= candidate.x,
            Half::Top => candidate.y + candidate.height == current.y && candidate.y <= current.y,
            Half::Bottom => candidate.y == current.y + current.height && current.y <= candidate.y,
        },
{
}

pub open spec fn opposite(direction: Half) -> Half {
    match direction {
        Half::Left => Half::Right,
        Half::Right => Half::Left,
        Half::Top => Half::Bottom,
        Half::Bottom => Half::Top,
    }
}

/// Adjacency is mutual: `a` is `b`'s neighbor on one side exactly when `b`
/// is `a`'s neighbor on the opposite side.
pub proof fn lemma_neighbor_symmetric(a: Rect, b: Rect, direction: Half)
    ensures
        is_neighbor(a, b, direction) <==> is_neighbor(b, a, opposite(direction)),
{
}

/// A monitor never neighbors one it overlaps across the search direction:
/// for Left and Right neighbors the horizontal spans meet only at the shared
/// edge, for Top and Bottom the vertical spans do.
pub proof fn lemma_neighbor_does_not_overlap(a: Rect, b: Rect, direction: Half)
    requires
        is_neighbor(a, b, direction),
        a.width >= 0,
        a.height >= 0,
        b.width >= 0,
        b.height >= 0,
    ensures
        match direction {
            Half::Left | Half::Right => horizontal_overlap_of(a, b) == 0,
            Half::Top | Half::Bottom => vertical_overlap_of(a, b) == 0,
        },
{
}

} // verus!
