//! Tracking the last real foreground window, so that a tray-menu click acts
//! on the window that was active before the tray took focus.
use vstd::prelude::*;
use crate::cycle_state::WindowId;

verus! {

/// The window-style bit of child windows.
pub const WS_CHILD: u32 = 0x4000_0000;

/// A foreground change to `window` is worth looking at: it is about the
/// window itself (object and child ids zero), the window is not null, and it
/// is not one of this program's windows (`own`).
pub open spec fn is_candidate(own: Seq<WindowId>, window: WindowId, id_object: i32, id_child: i32) -> bool {
    id_object == 0 && id_child == 0 && window != 0 && !own.contains(window)
}

pub struct ForegroundTracker {
    own_windows: Vec<WindowId>,
    last_real: WindowId,
}

impl ForegroundTracker {
    /// This program's own windows, which never count as foreground targets.
    pub closed spec fn own(&self) -> Seq<WindowId> {
        self.own_windows@
    }

    /// The last real foreground window, 0 while there is none.
    pub closed spec fn last(&self) -> WindowId {
        self.last_real
    }

    pub fn new() -> (t: Self)
        ensures
            t.own() == Seq::<WindowId>::empty(),
            t.last() == 0,
    {
        ForegroundTracker { own_windows: Vec::new(), last_real: 0 }
    }

    pub fn register_own_window(&mut self, window: WindowId)
        ensures
            final(self).own() == old(self).own().push(window),
            final(self).last() == old(self).last(),
    {
        self.own_windows.push(window);
    }

    pub fn is_own(&self, window: WindowId) -> (r: bool)
        ensures
            r == self.own().contains(window),
    {
        let mut i: usize = 0;
        while i < self.own_windows.len()
            invariant
                i <= self.own_windows.len(),
                forall|j: int| 0 <= j < i ==> self.own_windows@[j] != window,
            decreases self.own_windows.len() - i,
        {
            if self.own_windows[i] == window {
                assert(self.own_windows@[i as int] == window);
                return true;
            }
            i = i + 1;
        }
        false
    }

    /// Whether a foreground change to `window` is worth looking at; whether
    /// it is a visible top-level window is asked of the system next.
    pub fn is_foreground_candidate(&self, window: WindowId, id_object: i32, id_child: i32) -> (r:
        bool)
        ensures
            r == is_candidate(self.own(), window, id_object, id_child),
    {
        if id_object != 0 || id_child != 0 {
            return false;
        }
        if window == 0 || self.is_own(window) {
            return false;
        }
        true
    }

    /// Remember `window` as the last real foreground window.
    pub fn remember_foreground(&mut self, window: WindowId)
        ensures
            final(self).last() == window,
            final(self).own() == old(self).own(),
    {
        self.last_real = window;
    }

    pub fn last_real_foreground(&self) -> (r: Option<WindowId>)
        ensures
            r == (if self.last() == 0 {
                None
            } else {
                Some(self.last())
            }),
    {
        if self.last_real == 0 {
            None
        } else {
            Some(self.last_real)
        }
    }
}

/// A window style without the child bit belongs to a top-level window.
pub fn is_top_level_style(style: u32) -> (r: bool)
    ensures
        r == (style & WS_CHILD == 0),
{
    style & WS_CHILD == 0
}

/// Once registered, a window of this program is never taken for a
/// foreground target, whatever is registered after it.
pub proof fn lemma_own_window_never_candidate(
    own: Seq<WindowId>,
    window: WindowId,
    later: Seq<WindowId>,
    id_object: i32,
    id_child: i32,
)
    requires
        own.contains(window),
    ensures
        !is_candidate(own + later, window, id_object, id_child),
{
    let k = choose|k: int| 0 <= k < own.len() && own[k] == window;
    assert((own + later)[k] == window);
}

} // verus!
