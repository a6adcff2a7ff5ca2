//! The repeat-press cycle: pressing the same halve again on the same window
//! and monitor moves the window on to the adjacent monitor.
use vstd::prelude::*;
use crate::geometry::Action;

verus! {

/// Identifies a window for cycle-state purposes. The Win32 layer passes
/// HWND.0 as i64 here; tests use any unique integer.
pub type WindowId = i64;

/// Identifies a monitor for cycle-state purposes. The Win32 layer passes
/// HMONITOR.0 as i64; tests use any unique integer.
pub type MonitorId = i64;

#[derive(Debug)]
pub struct CycleState {
    last: Option<(WindowId, Action, MonitorId)>,
}

#[derive(Debug, PartialEq, Eq, Structural, Clone, Copy)]
pub enum CycleDecision {
    /// First press, or different window/action: apply on the current monitor.
    ApplyHere,
    /// Repeat press on the same window+action+monitor: move to the adjacent monitor.
    MoveToAdjacent,
}

impl View for CycleState {
    type V = Option<(WindowId, Action, MonitorId)>;

    /// The last halve that was applied, with its window and the monitor it
    /// landed on.
    closed spec fn view(&self) -> Option<(WindowId, Action, MonitorId)> {
        self.last
    }
}

/// What `decide` answers when the remembered halve is `last`.
pub open spec fn decision_for(
    last: Option<(WindowId, Action, MonitorId)>,
    window: WindowId,
    action: Action,
    monitor: MonitorId,
) -> CycleDecision {
    if action is Halve && last == Some((window, action, monitor)) {
        CycleDecision::MoveToAdjacent
    } else {
        CycleDecision::ApplyHere
    }
}

/// What `record` remembers: a halve with its window and monitor; any other
/// action forgets.
pub open spec fn recorded(window: WindowId, action: Action, monitor: MonitorId) -> Option<
    (WindowId, Action, MonitorId),
> {
    if action is Halve {
        Some((window, action, monitor))
    } else {
        None
    }
}

impl CycleState {
    pub fn new() -> (s: Self)
        ensures
            s@ is None,
    {
        Self { last: None }
    }

    /// Decide what to do for an incoming action on `window` currently on `monitor`.
    /// Only `Halve` actions cycle; everything else returns `ApplyHere`.
    pub fn decide(&self, window: WindowId, action: Action, monitor: MonitorId) -> (d: CycleDecision)
        ensures
            d == decision_for(self@, window, action, monitor),
    {
        if !matches!(action, Action::Halve(_)) {
            return CycleDecision::ApplyHere;
        }
        match self.last {
            Some((prev_window, prev_action, prev_monitor)) => {
                if prev_window == window && prev_action == action && prev_monitor == monitor {
                    CycleDecision::MoveToAdjacent
                } else {
                    CycleDecision::ApplyHere
                }
            },
            None => CycleDecision::ApplyHere,
        }
    }

    /// Record that `action` was just applied to `window` on `monitor`.
    pub fn record(&mut self, window: WindowId, action: Action, monitor: MonitorId)
        ensures
            final(self)@ == recorded(window, action, monitor),
    {
        if matches!(action, Action::Halve(_)) {
            self.last = Some((window, action, monitor));
        } else {
            self.last = None;
        }
    }
}

impl Default for CycleState {
    fn default() -> (s: Self)
        ensures
            s@ is None,
    {
        Self::new()
    }
}

/// Recording a halve and pressing it again on the same window and monitor
/// asks to move on; any other action, once recorded, never asks to move,
/// whatever comes next.
pub proof fn lemma_repeat_press_moves(window: WindowId, action: Action, monitor: MonitorId)
    ensures
        action is Halve ==> decision_for(recorded(window, action, monitor), window, action, monitor)
            == CycleDecision::MoveToAdjacent,
        !(action is Halve) ==> forall|w: WindowId, a: Action, m: MonitorId|
            decision_for(recorded(window, action, monitor), w, a, m) == CycleDecision::ApplyHere,
{
}

/// After recording a halve, a press that differs in window, action or
/// monitor applies on the current monitor.
pub proof fn lemma_changed_press_applies_here(
    window: WindowId,
    action: Action,
    monitor: MonitorId,
    other_window: WindowId,
    other_action: Action,
    other_monitor: MonitorId,
)
    requires
        window != other_window || action != other_action || monitor != other_monitor,
    ensures
        decision_for(recorded(window, action, monitor), other_window, other_action, other_monitor)
            == CycleDecision::ApplyHere,
{
}

/// Only halves ever move between monitors.
pub proof fn lemma_only_halves_cycle(
    last: Option<(WindowId, Action, MonitorId)>,
    window: WindowId,
    action: Action,
    monitor: MonitorId,
)
    requires
        !(action is Halve),
    ensures
        decision_for(last, window, action, monitor) == CycleDecision::ApplyHere,
{
}

/// With nothing remembered (a fresh state), every press applies on the
/// current monitor.
pub proof fn lemma_fresh_state_applies_here(window: WindowId, action: Action, monitor: MonitorId)
    ensures
        decision_for(None, window, action, monitor) == CycleDecision::ApplyHere,
{
}

} // verus!
