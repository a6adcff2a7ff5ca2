//! What whole dispatches do, proved from the controller's transitions.
use vstd::prelude::*;
use crate::adjacency::{best_neighbor, search_computable};
use crate::cycle_state::{decision_for, recorded, CycleDecision, MonitorId, WindowId};
use crate::dispatcher::{
    accepts, begin_apply, dispatch_action, is_geometric, phase_wf, next, PlaceStage, target_rect, with_phase, work_areas, Command, ControllerView, Event, MonitorEntry,
    Phase,
};
use crate::geometry::{target_computable, Action, Half, Rect};

verus! {

/// A press that does not repeat the last halve (or is a quarter or center)
/// applies on the window's current monitor: with the window neither
/// maximized nor minimized, the controller asks for that monitor's work
/// area and the window's rectangle, saves the rectangle for restoring, moves
/// the window to the action's placement in that work area, and records the
/// action with that monitor.
pub proof fn lemma_press_applies_on_current_monitor(
    s: ControllerView,
    window: WindowId,
    action: Action,
    monitor: MonitorId,
    work_area: Rect,
    current: Rect,
    before_move: Rect,
)
    requires
        s.phase == (Phase::AwaitMonitor { window, action }),
        action is Halve || action is Quarter || action is Center,
        decision_for(s.cycle, window, action, monitor) == CycleDecision::ApplyHere,
        target_computable(work_area, action, current),
    ensures
        ({
            let (s1, c1) = next(s, Event::Monitor(monitor));
            let (s2, c2) = next(s1, Event::WorkArea(work_area));
            let (s3, c3) = next(s2, Event::WindowRect(current));
            let (s4, c4) = next(s3, Event::Answer(false));
            let (s5, c5) = next(s4, Event::Answer(false));
            let (s6, c6) = next(s5, Event::WindowRect(before_move));
            let (s7, c7) = next(s6, Event::Done);
            &&& accepts(s, Event::Monitor(monitor)) && c1 == Command::QueryWorkArea(monitor)
            &&& accepts(s1, Event::WorkArea(work_area)) && c2 == Command::QueryWindowRect(window)
            &&& accepts(s2, Event::WindowRect(current)) && c3 == Command::QueryMaximized(window)
            &&& accepts(s3, Event::Answer(false)) && c4 == Command::QueryMinimized(window)
            &&& accepts(s4, Event::Answer(false)) && c5 == Command::QueryWindowRect(window)
            &&& accepts(s5, Event::WindowRect(before_move)) && c6 == Command::SetWindowPos(
                window,
                target_rect(work_area, action, current),
            )
            &&& accepts(s6, Event::Done) && c7 == Command::Finish
            &&& s7.phase == Phase::Idle
            &&& s7.cycle == recorded(window, action, monitor)
            &&& s7.saved == s.saved.insert(window, before_move)
        }),
{
}

/// A maximized or minimized window is shown restored before it is moved.
pub proof fn lemma_restored_before_moving(
    s: ControllerView,
    window: WindowId,
    action: Action,
    monitor: MonitorId,
    work_area: Rect,
    current: Rect,
    maximized: bool,
)
    requires
        s.phase == (Phase::AwaitCurrentRect { window, action, work_area, monitor }),
        action is Halve || action is Quarter || action is Center,
        target_computable(work_area, action, current),
    ensures
        ({
            let (s1, c1) = next(s, Event::WindowRect(current));
            let (s2, c2) = next(s1, Event::Answer(maximized));
            let (s3, c3) = next(s2, Event::Answer(true));
            &&& c1 == Command::QueryMaximized(window)
            &&& maximized ==> c2 == Command::ShowRestore(window)
            &&& !maximized ==> c2 == Command::QueryMinimized(window) && c3 == Command::ShowRestore(
                window,
            )
        }),
{
}

/// Pressing the same halve again on the same window and monitor moves the
/// window on: the controller lists the monitors and, when one lies next to
/// the current monitor in that direction, halves the window there and
/// records that monitor, so that a further press moves on again. When none
/// does, the press does nothing at all (no wrap-around).
pub proof fn lemma_repeat_press_moves_to_adjacent_monitor(
    s: ControllerView,
    window: WindowId,
    direction: Half,
    monitor: MonitorId,
    monitors: Vec<MonitorEntry>,
    current_work_area: Rect,
    current: Rect,
    before_move: Rect,
)
    requires
        s.phase == (Phase::AwaitMonitor { window, action: Action::Halve(direction) }),
        s.cycle == Some((window, Action::Halve(direction), monitor)),
        search_computable(work_areas(monitors@), current_work_area, direction),
        best_neighbor(work_areas(monitors@), current_work_area, direction) matches Some(k)
            ==> target_computable(monitors@[k].work_area, Action::Halve(direction), current),
    ensures
        ({
            let action = Action::Halve(direction);
            let (s1, c1) = next(s, Event::Monitor(monitor));
            let (s2, c2) = next(s1, Event::Monitors(monitors));
            let (s3, c3) = next(s2, Event::WorkArea(current_work_area));
            &&& accepts(s, Event::Monitor(monitor)) && c1 == Command::ListMonitors
            &&& accepts(s1, Event::Monitors(monitors)) && c2 == Command::QueryWorkArea(monitor)
            &&& accepts(s2, Event::WorkArea(current_work_area))
            &&& match best_neighbor(work_areas(monitors@), current_work_area, direction) {
                None => c3 == Command::Finish && s3 == with_phase(s, Phase::Idle),
                Some(k) => {
                    let target = monitors@[k];
                    let (s4, c4) = next(s3, Event::WindowRect(current));
                    let (s5, c5) = next(s4, Event::Answer(false));
                    let (s6, c6) = next(s5, Event::Answer(false));
                    let (s7, c7) = next(s6, Event::WindowRect(before_move));
                    let (s8, c8) = next(s7, Event::Done);
                    &&& c3 == Command::QueryWindowRect(window)
                    &&& accepts(s3, Event::WindowRect(current))
                    &&& c4 == Command::QueryMaximized(window)
                    &&& c5 == Command::QueryMinimized(window)
                    &&& c6 == Command::QueryWindowRect(window)
                    &&& c7 == Command::SetWindowPos(
                        window,
                        target_rect(target.work_area, action, current),
                    )
                    &&& c8 == Command::Finish
                    &&& s8.cycle == Some((window, action, target.handle))
                    &&& decision_for(s8.cycle, window, action, target.handle)
                        == CycleDecision::MoveToAdjacent
                },
            }
        }),
{
}

/// Restore puts the window back at the rectangle saved for it and, once the
/// window has been moved, forgets that rectangle; if the move fails, the
/// rectangle stays saved for another try. With nothing saved Restore does
/// nothing to the window. Whenever it succeeds it ends any repeat cycle.
pub proof fn lemma_restore_returns_saved_rect(s: ControllerView, window: WindowId)
    requires
        s.phase == (Phase::AwaitValidity { window, action: Action::RestoreOriginal }),
    ensures
        ({
            let (s1, c1) = next(s, Event::Answer(true));
            if s.saved.contains_key(window) {
                let (s2, c2) = next(s1, Event::Answer(false));
                let (s3, c3) = next(s2, Event::Answer(false));
                let (s4, c4) = next(s3, Event::Done);
                &&& c1 == Command::QueryMaximized(window)
                &&& c2 == Command::QueryMinimized(window)
                &&& c3 == Command::SetWindowPos(window, s.saved[window])
                &&& c4 == Command::Finish
                &&& s3.saved == s.saved
                &&& s4.saved == s.saved.remove(window)
                &&& s4.cycle is None
                &&& s4.phase == Phase::Idle
                &&& accepts(s3, Event::Failed)
                &&& next(s3, Event::Failed) == (with_phase(s3, Phase::Idle), Command::Fail)
                &&& next(s3, Event::Failed).0.saved == s.saved
                &&& next(s3, Event::Failed).0.cycle == s.cycle
            } else {
                &&& c1 == Command::Finish
                &&& s1.saved == s.saved
                &&& s1.cycle is None
                &&& s1.phase == Phase::Idle
            }
        }),
{
}

/// Restore after an action returns the window to where it was before that
/// action: the rectangle saved while applying the action is the one the
/// next Restore moves the window to.
pub proof fn lemma_restore_undoes_action(
    s: ControllerView,
    window: WindowId,
    action: Action,
    monitor: MonitorId,
    work_area: Rect,
    current: Rect,
    before_move: Rect,
)
    requires
        s.phase == (Phase::AwaitMonitor { window, action }),
        action is Halve || action is Quarter || action is Center,
        decision_for(s.cycle, window, action, monitor) == CycleDecision::ApplyHere,
        target_computable(work_area, action, current),
    ensures
        ({
            let (s1, _c1) = next(s, Event::Monitor(monitor));
            let (s2, _c2) = next(s1, Event::WorkArea(work_area));
            let (s3, _c3) = next(s2, Event::WindowRect(current));
            let (s4, _c4) = next(s3, Event::Answer(false));
            let (s5, _c5) = next(s4, Event::Answer(false));
            let (s6, _c6) = next(s5, Event::WindowRect(before_move));
            let (s7, _c7) = next(s6, Event::Done);
            let r0 = with_phase(
                s7,
                Phase::AwaitValidity { window, action: Action::RestoreOriginal },
            );
            let (r1, _d1) = next(r0, Event::Answer(true));
            let (r2, _d2) = next(r1, Event::Answer(false));
            let (r3, d3) = next(r2, Event::Answer(false));
            d3 == Command::SetWindowPos(window, before_move)
        }),
{
    lemma_press_applies_on_current_monitor(
        s,
        window,
        action,
        monitor,
        work_area,
        current,
        before_move,
    );
}

/// Maximize toggles: a maximized window is shown restored, anything else has
/// its rectangle saved and is maximized. Either way the repeat cycle ends.
pub proof fn lemma_maximize_toggles(s: ControllerView, window: WindowId, maximized: bool, current: Rect)
    requires
        s.phase == (Phase::AwaitValidity { window, action: Action::Maximize }),
    ensures
        ({
            let (s1, c1) = next(s, Event::Answer(true));
            let (s2, c2) = next(s1, Event::Answer(maximized));
            &&& c1 == Command::QueryMaximized(window)
            &&& if maximized {
                let (s3, c3) = next(s2, Event::Done);
                &&& c2 == Command::ShowRestore(window)
                &&& c3 == Command::Finish
                &&& s3.saved == s.saved
                &&& s3.cycle is None
            } else {
                let (s3, c3) = next(s2, Event::WindowRect(current));
                let (s4, c4) = next(s3, Event::Done);
                &&& c2 == Command::QueryWindowRect(window)
                &&& c3 == Command::ShowMaximize(window)
                &&& c4 == Command::Finish
                &&& s4.saved == s.saved.insert(window, current)
                &&& s4.cycle is None
            }
        }),
{
}

/// Without a target window (none known, or one that no longer exists) a
/// dispatch does nothing.
pub proof fn lemma_no_target_no_op(s: ControllerView, action: Action, window: WindowId)
    ensures
        ({
            let (s1, c1) = next(with_phase(s, Phase::AwaitTarget { action }), Event::Window(None));
            let (s2, c2) = next(
                with_phase(s, Phase::AwaitValidity { window, action }),
                Event::Answer(false),
            );
            &&& c1 == Command::Finish && s1 == with_phase(s, Phase::Idle)
            &&& c2 == Command::Finish && s2 == with_phase(s, Phase::Idle)
        }),
{
}

/// When a system call fails the dispatch stops there: the repeat cycle and
/// the saved rectangles stay as they were when the call was made. In
/// particular a Restore whose move fails keeps the rectangle it was putting
/// back.
pub proof fn lemma_failure_stops_dispatch(s: ControllerView)
    requires
        accepts(s, Event::Failed),
    ensures
        next(s, Event::Failed) == (with_phase(s, Phase::Idle), Command::Fail),
{
}

/// Every transition keeps the controller's phases well formed, and so does
/// starting to apply an action.
pub proof fn lemma_transitions_keep_phase_wf(s: ControllerView, event: Event, window: WindowId, action: Action)
    ensures
        phase_wf(s.phase) && accepts(s, event) ==> phase_wf(next(s, event).0.phase),
        phase_wf(begin_apply(s, window, action).0.phase),
{
}

/// Any action other than a halve, once applied successfully, ends the repeat
/// cycle: whichever step completes such a dispatch with `Finish` leaves no
/// halve recorded.
pub proof fn lemma_non_halve_success_clears_cycle(
    s: ControllerView,
    event: Event,
    window: WindowId,
    action: Action,
)
    requires
        !(action is Halve),
    ensures
        begin_apply(s, window, action).1 == Command::Finish ==> begin_apply(
            s,
            window,
            action,
        ).0.cycle is None,
        ({
            &&& phase_wf(s.phase)
            &&& accepts(s, event)
            &&& !(s.phase is AwaitTarget) && !(s.phase is AwaitValidity)
            &&& dispatch_action(s.phase) == Some(action)
            &&& next(s, event).1 == Command::Finish
        }) ==> next(s, event).0.cycle is None,
{
}

/// A halve, quarter or center dispatched to an existing window moves it:
/// once the window is found and known to exist, the controller asks for its
/// monitor, leaving the cycle and saved rectangles alone, and (for a press
/// that does not repeat the last halve, with the window neither maximized
/// nor minimized) goes on to move the window to the action's placement in
/// that monitor's work area.
pub proof fn lemma_geometric_action_moves_window(
    s: ControllerView,
    window: WindowId,
    action: Action,
    monitor: MonitorId,
    work_area: Rect,
    current: Rect,
    before_move: Rect,
)
    requires
        s.phase == (Phase::AwaitTarget { action }),
        is_geometric(action),
        decision_for(s.cycle, window, action, monitor) == CycleDecision::ApplyHere,
        target_computable(work_area, action, current),
    ensures
        ({
            let (s1, c1) = next(s, Event::Window(Some(window)));
            let (s2, c2) = next(s1, Event::Answer(true));
            let (s3, c3) = next(s2, Event::Monitor(monitor));
            let (s4, c4) = next(s3, Event::WorkArea(work_area));
            let (s5, c5) = next(s4, Event::WindowRect(current));
            let (s6, c6) = next(s5, Event::Answer(false));
            let (s7, c7) = next(s6, Event::Answer(false));
            let (s8, c8) = next(s7, Event::WindowRect(before_move));
            &&& c1 == Command::QueryIsWindow(window)
            &&& begin_apply(s1, window, action) == (
                with_phase(s1, Phase::AwaitMonitor { window, action }),
                Command::QueryMonitor(window),
            )
            &&& c2 == Command::QueryMonitor(window)
            &&& s2.cycle == s.cycle && s2.saved == s.saved
            &&& c3 == Command::QueryWorkArea(monitor)
            &&& c4 == Command::QueryWindowRect(window)
            &&& c5 == Command::QueryMaximized(window)
            &&& c6 == Command::QueryMinimized(window)
            &&& c7 == Command::QueryWindowRect(window)
            &&& c8 == Command::SetWindowPos(window, target_rect(work_area, action, current))
        }),
{
    let (s1, c1) = next(s, Event::Window(Some(window)));
    let (s2, c2) = next(s1, Event::Answer(true));
    lemma_press_applies_on_current_monitor(
        s2,
        window,
        action,
        monitor,
        work_area,
        current,
        before_move,
    );
}

/// A window reported maximized or minimized is shown restored before it is
/// moved, whatever the placement (an action's target or a Restore's saved
/// rectangle): the controller asks to show it restored, and only then saves
/// its rectangle (when the placement does) or moves it.
pub proof fn lemma_window_shown_restored_before_any_move(
    s: ControllerView,
    window: WindowId,
    action: Action,
    monitor: MonitorId,
    rect: Rect,
    capture: bool,
    stage: PlaceStage,
)
    requires
        s.phase == (Phase::Place { window, action, monitor, rect, capture, stage }),
        stage is Zoomed || stage is Iconic,
    ensures
        ({
            let (s1, c1) = next(s, Event::Answer(true));
            let (s2, c2) = next(s1, Event::Done);
            &&& c1 == Command::ShowRestore(window)
            &&& s1.cycle == s.cycle && s1.saved == s.saved
            &&& accepts(s1, Event::Done)
            &&& c2 == (if capture {
                Command::QueryWindowRect(window)
            } else {
                Command::SetWindowPos(window, rect)
            })
        }),
{
}

/// Restoring a minimized window shows it restored first, then puts it back
/// at its saved rectangle.
pub proof fn lemma_restore_shows_minimized_window_first(s: ControllerView, window: WindowId)
    requires
        s.phase == (Phase::AwaitValidity { window, action: Action::RestoreOriginal }),
        s.saved.contains_key(window),
    ensures
        ({
            let (s1, c1) = next(s, Event::Answer(true));
            let (s2, c2) = next(s1, Event::Answer(false));
            let (s3, c3) = next(s2, Event::Answer(true));
            let (s4, c4) = next(s3, Event::Done);
            let (s5, c5) = next(s4, Event::Done);
            &&& c1 == Command::QueryMaximized(window)
            &&& c2 == Command::QueryMinimized(window)
            &&& c3 == Command::ShowRestore(window)
            &&& c4 == Command::SetWindowPos(window, s.saved[window])
            &&& c5 == Command::Finish
            &&& s5.saved == s.saved.remove(window)
        }),
{
}

} // verus!
