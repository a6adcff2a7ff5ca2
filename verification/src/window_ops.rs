//! The restore stack: the rectangle each window had before the last action
//! that moved or resized it.
use vstd::prelude::*;
use std::collections::HashMap;
use crate::cycle_state::WindowId;
use crate::geometry::Rect;

verus! {

broadcast use vstd::std_specs::hash::group_hash_axioms;

pub struct RestoreStack {
    saved: HashMap<WindowId, Rect>,
}

impl View for RestoreStack {
    type V = Map<WindowId, Rect>;

    /// The saved rectangle of each window that has one.
    closed spec fn view(&self) -> Map<WindowId, Rect> {
        self.saved@
    }
}

impl RestoreStack {
    pub fn new() -> (s: Self)
        ensures
            s@ == Map::<WindowId, Rect>::empty(),
    {
        RestoreStack { saved: HashMap::new() }
    }

    /// Remember `rect` as the rectangle to restore `window` to, replacing any
    /// rectangle saved for it before.
    pub fn capture(&mut self, window: WindowId, rect: Rect)
        ensures
            final(self)@ == old(self)@.insert(window, rect),
    {
        self.saved.insert(window, rect);
    }

    /// Hand out and forget the rectangle saved for `window`, if any.
    pub fn take(&mut self, window: WindowId) -> (r: Option<Rect>)
        ensures
            r == (if old(self)@.contains_key(window) {
                Some(old(self)@[window])
            } else {
                None
            }),
            final(self)@ == old(self)@.remove(window),
    {
        self.saved.remove(&window)
    }

    /// The rectangle saved for `window`, if any, left in place.
    pub fn saved_for(&self, window: WindowId) -> (r: Option<Rect>)
        ensures
            r == (if self@.contains_key(window) {
                Some(self@[window])
            } else {
                None
            }),
    {
        match self.saved.get(&window) {
            Some(rect) => Some(*rect),
            None => None,
        }
    }
}

impl Default for RestoreStack {
    fn default() -> (s: Self)
        ensures
            s@ == Map::<WindowId, Rect>::empty(),
    {
        Self::new()
    }
}

/// What was captured last for a window is what taking gives back, and
/// taking leaves nothing for it; other windows' rectangles are untouched.
pub proof fn lemma_take_returns_last_capture(
    saved: Map<WindowId, Rect>,
    window: WindowId,
    first: Rect,
    second: Rect,
    other: WindowId,
)
    requires
        other != window,
    ensures
        ({
            let after = saved.insert(window, first).insert(window, second);
            &&& after.contains_key(window) && after[window] == second
            &&& !after.remove(window).contains_key(window)
            &&& after.remove(window).contains_key(other) == saved.contains_key(other)
            &&& saved.contains_key(other) ==> after.remove(window)[other] == saved[other]
        }),
{
}

} // verus!
