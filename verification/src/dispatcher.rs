//! The decisions of a dispatch, as a state machine. The caller performs each
//! command against the system and hands back what came of it as an event;
//! the controller answers with the next command, until `Finish` or `Fail`.
use vstd::prelude::*;
use crate::adjacency::{adjacent_search_computable, best_neighbor, find_adjacent_monitor, search_computable};
use crate::bindings::{binding_action, binding_spec, BINDING_COUNT};
use crate::cycle_state::{decision_for, recorded, CycleDecision, CycleState, MonitorId, WindowId};
use crate::geometry::{compute_target_rect, target_computable, target_rect_computable, target_spec, Action, Half, Rect};
use crate::window_ops::RestoreStack;

verus! {

#[derive(Debug, Clone, Copy, PartialEq, Eq, Structural)]
pub enum DispatchSource {
    Hotkey,
    TrayMenu,
}

/// A monitor: its handle, its work area (without the taskbar) and its full area.
#[derive(Debug, Clone, Copy, PartialEq, Eq, Structural)]
pub struct MonitorEntry {
    pub handle: MonitorId,
    pub work_area: Rect,
    pub monitor_area: Rect,
}

/// What the caller is to do next.
#[derive(Debug, Clone, Copy, PartialEq, Eq, Structural)]
pub enum Command {
    /// Ask for the foreground window; answer `Event::Window`.
    QueryForegroundWindow,
    /// Ask the foreground tracker for the last real foreground window;
    /// answer `Event::Window`.
    QueryLastRealForeground,
    /// Ask whether the window still exists; answer `Event::Answer`.
    QueryIsWindow(WindowId),
    /// Ask whether the window is maximized; answer `Event::Answer`.
    QueryMaximized(WindowId),
    /// Ask whether the window is minimized; answer `Event::Answer`.
    QueryMinimized(WindowId),
    /// Show the window restored (not maximized or minimized); answer `Event::Done`.
    ShowRestore(WindowId),
    /// Show the window maximized; answer `Event::Done`.
    ShowMaximize(WindowId),
    /// Ask for the window's rectangle; answer `Event::WindowRect` or `Event::Failed`.
    QueryWindowRect(WindowId),
    /// Move and resize the window; answer `Event::Done` or `Event::Failed`.
    SetWindowPos(WindowId, Rect),
    /// Ask which monitor the window is on; answer `Event::Monitor`.
    QueryMonitor(WindowId),
    /// Ask for all monitors; answer `Event::Monitors` or `Event::Failed`.
    ListMonitors,
    /// Ask for a monitor's work area; answer `Event::WorkArea` or `Event::Failed`.
    QueryWorkArea(MonitorId),
    /// The dispatch is over.
    Finish,
    /// The dispatch stopped because a system call failed.
    Fail,
}

/// What came of the last command.
#[derive(Debug, Clone, PartialEq, Eq)]
pub enum Event {
    Window(Option<WindowId>),
    Answer(bool),
    WindowRect(Rect),
    Monitor(MonitorId),
    Monitors(Vec<MonitorEntry>),
    WorkArea(Rect),
    Done,
    Failed,
}

/// How far a placement of the window has got.
#[derive(Debug, Clone, Copy, PartialEq, Eq, Structural)]
pub enum PlaceStage {
    /// Waiting to learn whether the window is maximized.
    Zoomed,
    /// Waiting to learn whether the window is minimized.
    Iconic,
    /// Waiting for the window to be shown restored.
    Shown,
    /// Waiting for the window's rectangle, to save it for restoring.
    Captured,
    /// Waiting for the window to be moved.
    Moved,
}

/// Where the controller stands in a dispatch.
#[derive(Debug, Clone, PartialEq, Eq)]
pub enum Phase {
    Idle,
    AwaitTarget { action: Action },
    AwaitValidity { window: WindowId, action: Action },
    ToggleAwaitZoomed { window: WindowId },
    ToggleAwaitCapture { window: WindowId },
    ToggleAwaitShown { window: WindowId },
    AwaitMonitor { window: WindowId, action: Action },
    AwaitMonitorList { window: WindowId, direction: Half, monitor: MonitorId },
    AwaitAdjacentBase { window: WindowId, direction: Half, monitors: Vec<MonitorEntry> },
    AwaitWorkArea { window: WindowId, action: Action, monitor: MonitorId },
    AwaitCurrentRect { window: WindowId, action: Action, work_area: Rect, monitor: MonitorId },
    /// Placing `window` at `rect`, saving its rectangle first when `capture`;
    /// on success `action` is recorded with `monitor`, and a Restore drops
    /// the rectangle it put back (a failed one keeps it for another try).
    Place {
        window: WindowId,
        action: Action,
        monitor: MonitorId,
        rect: Rect,
        capture: bool,
        stage: PlaceStage,
    },
}

/// The state of the controller: the repeat-press cycle, the restore stack,
/// and the dispatch in progress.
pub struct ControllerView {
    pub cycle: Option<(WindowId, Action, MonitorId)>,
    pub saved: Map<WindowId, Rect>,
    pub phase: Phase,
}

pub struct Controller {
    cycle: CycleState,
    restore: RestoreStack,
    phase: Phase,
}

impl View for Controller {
    type V = ControllerView;

    closed spec fn view(&self) -> ControllerView {
        ControllerView { cycle: self.cycle@, saved: self.restore@, phase: self.phase }
    }
}

pub open spec fn with_phase(s: ControllerView, phase: Phase) -> ControllerView {
    ControllerView { phase, ..s }
}

pub open spec fn rect_of(t: (int, int, int, int)) -> Rect {
    Rect { x: t.0 as i32, y: t.1 as i32, width: t.2 as i32, height: t.3 as i32 }
}

/// The placement that `action` asks for, as a rectangle.
pub open spec fn target_rect(work_area: Rect, action: Action, current: Rect) -> Rect {
    rect_of(target_spec(work_area, action, current).unwrap())
}

pub open spec fn work_areas(monitors: Seq<MonitorEntry>) -> Seq<Rect> {
    monitors.map_values(|m: MonitorEntry| m.work_area)
}

/// Actions that place the window somewhere in a work area.
pub open spec fn is_geometric(action: Action) -> bool {
    action is Halve || action is Quarter || action is Center
}

/// The action of the dispatch in progress, if any.
pub open spec fn dispatch_action(phase: Phase) -> Option<Action> {
    match phase {
        Phase::Idle => None,
        Phase::AwaitTarget { action } => Some(action),
        Phase::AwaitValidity { action, .. } => Some(action),
        Phase::ToggleAwaitZoomed { .. } | Phase::ToggleAwaitCapture { .. }
        | Phase::ToggleAwaitShown { .. } => Some(Action::Maximize),
        Phase::AwaitMonitor { action, .. } => Some(action),
        Phase::AwaitMonitorList { direction, .. } => Some(Action::Halve(direction)),
        Phase::AwaitAdjacentBase { direction, .. } => Some(Action::Halve(direction)),
        Phase::AwaitWorkArea { action, .. } => Some(action),
        Phase::AwaitCurrentRect { action, .. } => Some(action),
        Phase::Place { action, .. } => Some(action),
    }
}

/// The phases the controller can be in: the monitor and placement phases
/// carry a geometric action, and a placement without capture is a Restore.
pub open spec fn phase_wf(phase: Phase) -> bool {
    match phase {
        Phase::AwaitMonitor { action, .. } => is_geometric(action),
        Phase::AwaitWorkArea { action, .. } => is_geometric(action),
        Phase::AwaitCurrentRect { action, .. } => is_geometric(action),
        Phase::Place { action, capture, .. } => if capture {
            is_geometric(action)
        } else {
            action is RestoreOriginal
        },
        _ => true,
    }
}

/// The first step of applying `action` to `window`, once the window is known
/// to exist.
pub open spec fn begin_apply(s: ControllerView, window: WindowId, action: Action) -> (
    ControllerView,
    Command,
) {
    match action {
        Action::Maximize => (
            with_phase(s, Phase::ToggleAwaitZoomed { window }),
            Command::QueryMaximized(window),
        ),
        Action::RestoreOriginal => if s.saved.contains_key(window) {
            (
                with_phase(
                    s,
                    Phase::Place {
                        window,
                        action,
                        monitor: 0,
                        rect: s.saved[window],
                        capture: false,
                        stage: PlaceStage::Zoomed,
                    },
                ),
                Command::QueryMaximized(window),
            )
        } else {
            (
                ControllerView {
                    cycle: recorded(window, action, 0),
                    phase: Phase::Idle,
                    ..s
                },
                Command::Finish,
            )
        },
        _ => (with_phase(s, Phase::AwaitMonitor { window, action }), Command::QueryMonitor(window)),
    }
}

/// What follows once the window has been shown restored (or did not need
/// to be): save its rectangle first if asked, then move it.
pub open spec fn after_show(
    s: ControllerView,
    window: WindowId,
    action: Action,
    monitor: MonitorId,
    rect: Rect,
    capture: bool,
) -> (ControllerView, Command) {
    if capture {
        (
            with_phase(
                s,
                Phase::Place { window, action, monitor, rect, capture, stage: PlaceStage::Captured },
            ),
            Command::QueryWindowRect(window),
        )
    } else {
        (
            with_phase(
                s,
                Phase::Place { window, action, monitor, rect, capture, stage: PlaceStage::Moved },
            ),
            Command::SetWindowPos(window, rect),
        )
    }
}

/// The controller can take `event` in state `s`: it answers the command
/// given last, and the arithmetic it leads to stays within `i32`.
pub open spec fn accepts(s: ControllerView, event: Event) -> bool {
    match s.phase {
        Phase::Idle => false,
        Phase::AwaitTarget { .. } => event is Window,
        Phase::AwaitValidity { .. } => event is Answer,
        Phase::ToggleAwaitZoomed { .. } => event is Answer,
        Phase::ToggleAwaitCapture { .. } => event is WindowRect || event is Failed,
        Phase::ToggleAwaitShown { .. } => event is Done,
        Phase::AwaitMonitor { .. } => event is Monitor,
        Phase::AwaitMonitorList { .. } => event is Monitors || event is Failed,
        Phase::AwaitAdjacentBase { direction, monitors, .. } => match event {
            Event::WorkArea(current) => search_computable(work_areas(monitors@), current, direction),
            Event::Failed => true,
            _ => false,
        },
        Phase::AwaitWorkArea { .. } => event is WorkArea || event is Failed,
        Phase::AwaitCurrentRect { action, work_area, .. } => match event {
            Event::WindowRect(current) => target_computable(work_area, action, current),
            Event::Failed => true,
            _ => false,
        },
        Phase::Place { stage, .. } => match stage {
            PlaceStage::Zoomed | PlaceStage::Iconic => event is Answer,
            PlaceStage::Shown => event is Done,
            PlaceStage::Captured => event is WindowRect || event is Failed,
            PlaceStage::Moved => event is Done || event is Failed,
        },
    }
}

/// The transition: the next state and command after `event` in state `s`
/// (for the events that `accepts` admits).
pub open spec fn next(s: ControllerView, event: Event) -> (ControllerView, Command) {
    let idle = with_phase(s, Phase::Idle);
    match s.phase {
        Phase::AwaitTarget { action } => match event {
            Event::Window(Some(window)) => (
                with_phase(s, Phase::AwaitValidity { window, action }),
                Command::QueryIsWindow(window),
            ),
            _ => (idle, Command::Finish),
        },
        Phase::AwaitValidity { window, action } => match event {
            Event::Answer(true) => begin_apply(s, window, action),
            _ => (idle, Command::Finish),
        },
        Phase::ToggleAwaitZoomed { window } => match event {
            Event::Answer(true) => (
                with_phase(s, Phase::ToggleAwaitShown { window }),
                Command::ShowRestore(window),
            ),
            _ => (
                with_phase(s, Phase::ToggleAwaitCapture { window }),
                Command::QueryWindowRect(window),
            ),
        },
        Phase::ToggleAwaitCapture { window } => match event {
            Event::WindowRect(r) => (
                ControllerView {
                    saved: s.saved.insert(window, r),
                    phase: Phase::ToggleAwaitShown { window },
                    ..s
                },
                Command::ShowMaximize(window),
            ),
            _ => (idle, Command::Fail),
        },
        Phase::ToggleAwaitShown { window } => (
            ControllerView {
                cycle: recorded(window, Action::Maximize, 0),
                phase: Phase::Idle,
                ..s
            },
            Command::Finish,
        ),
        Phase::AwaitMonitor { window, action } => match event {
            Event::Monitor(monitor) => match action {
                Action::Halve(direction) => if decision_for(s.cycle, window, action, monitor)
                    == CycleDecision::MoveToAdjacent {
                    (
                        with_phase(s, Phase::AwaitMonitorList { window, direction, monitor }),
                        Command::ListMonitors,
                    )
                } else {
                    (
                        with_phase(s, Phase::AwaitWorkArea { window, action, monitor }),
                        Command::QueryWorkArea(monitor),
                    )
                },
                _ => (
                    with_phase(s, Phase::AwaitWorkArea { window, action, monitor }),
                    Command::QueryWorkArea(monitor),
                ),
            },
            _ => (idle, Command::Fail),
        },
        Phase::AwaitMonitorList { window, direction, monitor } => match event {
            Event::Monitors(monitors) => (
                with_phase(s, Phase::AwaitAdjacentBase { window, direction, monitors }),
                Command::QueryWorkArea(monitor),
            ),
            _ => (idle, Command::Fail),
        },
        Phase::AwaitAdjacentBase { window, direction, monitors } => match event {
            Event::WorkArea(current) => match best_neighbor(
                work_areas(monitors@),
                current,
                direction,
            ) {
                Some(k) => (
                    with_phase(
                        s,
                        Phase::AwaitCurrentRect {
                            window,
                            action: Action::Halve(direction),
                            work_area: monitors@[k].work_area,
                            monitor: monitors@[k].handle,
                        },
                    ),
                    Command::QueryWindowRect(window),
                ),
                None => (idle, Command::Finish),
            },
            _ => (idle, Command::Fail),
        },
        Phase::AwaitWorkArea { window, action, monitor } => match event {
            Event::WorkArea(work_area) => (
                with_phase(s, Phase::AwaitCurrentRect { window, action, work_area, monitor }),
                Command::QueryWindowRect(window),
            ),
            _ => (idle, Command::Fail),
        },
        Phase::AwaitCurrentRect { window, action, work_area, monitor } => match event {
            Event::WindowRect(current) => match target_spec(work_area, action, current) {
                Some(t) => (
                    with_phase(
                        s,
                        Phase::Place {
                            window,
                            action,
                            monitor,
                            rect: rect_of(t),
                            capture: true,
                            stage: PlaceStage::Zoomed,
                        },
                    ),
                    Command::QueryMaximized(window),
                ),
                None => (idle, Command::Finish),
            },
            _ => (idle, Command::Fail),
        },
        Phase::Place { window, action, monitor, rect, capture, stage } => match stage {
            PlaceStage::Zoomed => match event {
                Event::Answer(true) => (
                    with_phase(
                        s,
                        Phase::Place { window, action, monitor, rect, capture, stage: PlaceStage::Shown },
                    ),
                    Command::ShowRestore(window),
                ),
                _ => (
                    with_phase(
                        s,
                        Phase::Place {
                            window,
                            action,
                            monitor,
                            rect,
                            capture,
                            stage: PlaceStage::Iconic,
                        },
                    ),
                    Command::QueryMinimized(window),
                ),
            },
            PlaceStage::Iconic => match event {
                Event::Answer(true) => (
                    with_phase(
                        s,
                        Phase::Place { window, action, monitor, rect, capture, stage: PlaceStage::Shown },
                    ),
                    Command::ShowRestore(window),
                ),
                _ => after_show(s, window, action, monitor, rect, capture),
            },
            PlaceStage::Shown => after_show(s, window, action, monitor, rect, capture),
            PlaceStage::Captured => match event {
                Event::WindowRect(r) => (
                    ControllerView {
                        saved: s.saved.insert(window, r),
                        phase: Phase::Place {
                            window,
                            action,
                            monitor,
                            rect,
                            capture,
                            stage: PlaceStage::Moved,
                        },
                        ..s
                    },
                    Command::SetWindowPos(window, rect),
                ),
                _ => (idle, Command::Fail),
            },
            PlaceStage::Moved => match event {
                Event::Done => (
                    ControllerView {
                        cycle: recorded(window, action, monitor),
                        saved: if action is RestoreOriginal {
                            s.saved.remove(window)
                        } else {
                            s.saved
                        },
                        phase: Phase::Idle,
                    },
                    Command::Finish,
                ),
                _ => (idle, Command::Fail),
            },
        },
        Phase::Idle => (s, Command::Finish),
    }
}

impl Controller {
    pub fn new() -> (c: Self)
        ensures
            c@.cycle is None,
            c@.saved == Map::<WindowId, Rect>::empty(),
            c@.phase == Phase::Idle,
    {
        Controller { cycle: CycleState::new(), restore: RestoreStack::new(), phase: Phase::Idle }
    }

    pub(crate) fn begin(&mut self, window: WindowId, action: Action) -> (c: Command)
        ensures
            (final(self)@, c) == begin_apply(old(self)@, window, action),
    {
        match action {
            Action::Maximize => {
                self.phase = Phase::ToggleAwaitZoomed { window };
                Command::QueryMaximized(window)
            },
            Action::RestoreOriginal => {
                match self.restore.saved_for(window) {
                    Some(saved) => {
                        self.phase = Phase::Place {
                            window,
                            action,
                            monitor: 0,
                            rect: saved,
                            capture: false,
                            stage: PlaceStage::Zoomed,
                        };
                        Command::QueryMaximized(window)
                    },
                    None => {
                        self.cycle.record(window, action, 0);
                        self.phase = Phase::Idle;
                        Command::Finish
                    },
                }
            },
            _ => {
                self.phase = Phase::AwaitMonitor { window, action };
                Command::QueryMonitor(window)
            },
        }
    }

    /// Whether `step` can take `event` now (see `accepts`).
    pub fn accepts(&self, event: &Event) -> (r: bool)
        ensures
            r == accepts(self@, *event),
    {
        match &self.phase {
            Phase::Idle => false,
            Phase::AwaitTarget { .. } => matches!(event, Event::Window(_)),
            Phase::AwaitValidity { .. } => matches!(event, Event::Answer(_)),
            Phase::ToggleAwaitZoomed { .. } => matches!(event, Event::Answer(_)),
            Phase::ToggleAwaitCapture { .. } => matches!(
                event,
                Event::WindowRect(_) | Event::Failed
            ),
            Phase::ToggleAwaitShown { .. } => matches!(event, Event::Done),
            Phase::AwaitMonitor { .. } => matches!(event, Event::Monitor(_)),
            Phase::AwaitMonitorList { .. } => matches!(event, Event::Monitors(_) | Event::Failed),
            Phase::AwaitAdjacentBase { direction, monitors, .. } => match event {
                Event::WorkArea(current) => {
                    let areas = collect_work_areas(monitors);
                    adjacent_search_computable(areas.as_slice(), *current, *direction)
                },
                Event::Failed => true,
                _ => false,
            },
            Phase::AwaitWorkArea { .. } => matches!(event, Event::WorkArea(_) | Event::Failed),
            Phase::AwaitCurrentRect { action, work_area, .. } => match event {
                Event::WindowRect(current) => target_rect_computable(*work_area, *action, *current),
                Event::Failed => true,
                _ => false,
            },
            Phase::Place { stage, .. } => match stage {
                PlaceStage::Zoomed | PlaceStage::Iconic => matches!(event, Event::Answer(_)),
                PlaceStage::Shown => matches!(event, Event::Done),
                PlaceStage::Captured => matches!(event, Event::WindowRect(_) | Event::Failed),
                PlaceStage::Moved => matches!(event, Event::Done | Event::Failed),
            },
        }
    }

    /// Take what came of the last command and give the next one.
    pub fn step(&mut self, event: Event) -> (c: Command)
        requires
            accepts(old(self)@, event),
        ensures
            (final(self)@, c) == next(old(self)@, event),
    {
        let mut phase = Phase::Idle;
        std::mem::swap(&mut phase, &mut self.phase);
        match phase {
            Phase::Idle => Command::Finish,
            Phase::AwaitTarget { action } => match event {
                Event::Window(Some(window)) => {
                    self.phase = Phase::AwaitValidity { window, action };
                    Command::QueryIsWindow(window)
                },
                _ => Command::Finish,
            },
            Phase::AwaitValidity { window, action } => match event {
                Event::Answer(true) => self.begin(window, action),
                _ => Command::Finish,
            },
            Phase::ToggleAwaitZoomed { window } => match event {
                Event::Answer(true) => {
                    self.phase = Phase::ToggleAwaitShown { window };
                    Command::ShowRestore(window)
                },
                _ => {
                    self.phase = Phase::ToggleAwaitCapture { window };
                    Command::QueryWindowRect(window)
                },
            },
            Phase::ToggleAwaitCapture { window } => match event {
                Event::WindowRect(r) => {
                    self.restore.capture(window, r);
                    self.phase = Phase::ToggleAwaitShown { window };
                    Command::ShowMaximize(window)
                },
                _ => Command::Fail,
            },
            Phase::ToggleAwaitShown { window } => {
                self.cycle.record(window, Action::Maximize, 0);
                Command::Finish
            },
            Phase::AwaitMonitor { window, action } => match event {
                Event::Monitor(monitor) => {
                    let decision = self.cycle.decide(window, action, monitor);
                    match action {
                        Action::Halve(direction) => {
                            if decision == CycleDecision::MoveToAdjacent {
                                self.phase = Phase::AwaitMonitorList { window, direction, monitor };
                                Command::ListMonitors
                            } else {
                                self.phase = Phase::AwaitWorkArea { window, action, monitor };
                                Command::QueryWorkArea(monitor)
                            }
                        },
                        _ => {
                            self.phase = Phase::AwaitWorkArea { window, action, monitor };
                            Command::QueryWorkArea(monitor)
                        },
                    }
                },
                _ => Command::Fail,
            },
            Phase::AwaitMonitorList { window, direction, monitor } => match event {
                Event::Monitors(monitors) => {
                    self.phase = Phase::AwaitAdjacentBase { window, direction, monitors };
                    Command::QueryWorkArea(monitor)
                },
                _ => Command::Fail,
            },
            Phase::AwaitAdjacentBase { window, direction, monitors } => match event {
                Event::WorkArea(current) => {
                    let areas = collect_work_areas(&monitors);
                    match find_adjacent_monitor(areas.as_slice(), current, direction) {
                        Some(k) => {
                            self.phase = Phase::AwaitCurrentRect {
                                window,
                                action: Action::Halve(direction),
                                work_area: monitors[k].work_area,
                                monitor: monitors[k].handle,
                            };
                            Command::QueryWindowRect(window)
                        },
                        None => Command::Finish,
                    }
                },
                _ => Command::Fail,
            },
            Phase::AwaitWorkArea { window, action, monitor } => match event {
                Event::WorkArea(work_area) => {
                    self.phase = Phase::AwaitCurrentRect { window, action, work_area, monitor };
                    Command::QueryWindowRect(window)
                },
                _ => Command::Fail,
            },
            Phase::AwaitCurrentRect { window, action, work_area, monitor } => match event {
                Event::WindowRect(current) => match compute_target_rect(work_area, action, current) {
                    Some(rect) => {
                        self.phase = Phase::Place {
                            window,
                            action,
                            monitor,
                            rect,
                            capture: true,
                            stage: PlaceStage::Zoomed,
                        };
                        Command::QueryMaximized(window)
                    },
                    None => Command::Finish,
                },
                _ => Command::Fail,
            },
            Phase::Place { window, action, monitor, rect, capture, stage } => match stage {
                PlaceStage::Zoomed => match event {
                    Event::Answer(true) => {
                        self.phase = Phase::Place {
                            window,
                            action,
                            monitor,
                            rect,
                            capture,
                            stage: PlaceStage::Shown,
                        };
                        Command::ShowRestore(window)
                    },
                    _ => {
                        self.phase = Phase::Place {
                            window,
                            action,
                            monitor,
                            rect,
                            capture,
                            stage: PlaceStage::Iconic,
                        };
                        Command::QueryMinimized(window)
                    },
                },
                PlaceStage::Iconic => match event {
                    Event::Answer(true) => {
                        self.phase = Phase::Place {
                            window,
                            action,
                            monitor,
                            rect,
                            capture,
                            stage: PlaceStage::Shown,
                        };
                        Command::ShowRestore(window)
                    },
                    _ => self.place_after_show(window, action, monitor, rect, capture),
                },
                PlaceStage::Shown => self.place_after_show(window, action, monitor, rect, capture),
                PlaceStage::Captured => match event {
                    Event::WindowRect(r) => {
                        self.restore.capture(window, r);
                        self.phase = Phase::Place {
                            window,
                            action,
                            monitor,
                            rect,
                            capture,
                            stage: PlaceStage::Moved,
                        };
                        Command::SetWindowPos(window, rect)
                    },
                    _ => Command::Fail,
                },
                PlaceStage::Moved => match event {
                    Event::Done => {
                        self.cycle.record(window, action, monitor);
                        if matches!(action, Action::RestoreOriginal) {
                            let _ = self.restore.take(window);
                        }
                        Command::Finish
                    },
                    _ => Command::Fail,
                },
            },
        }
    }

    fn place_after_show(
        &mut self,
        window: WindowId,
        action: Action,
        monitor: MonitorId,
        rect: Rect,
        capture: bool,
    ) -> (c: Command)
        ensures
            (final(self)@, c) == after_show(old(self)@, window, action, monitor, rect, capture),
    {
        if capture {
            self.phase = Phase::Place {
                window,
                action,
                monitor,
                rect,
                capture,
                stage: PlaceStage::Captured,
            };
            Command::QueryWindowRect(window)
        } else {
            self.phase = Phase::Place {
                window,
                action,
                monitor,
                rect,
                capture,
                stage: PlaceStage::Moved,
            };
            Command::SetWindowPos(window, rect)
        }
    }
}

/// Start the dispatch of binding `index` pressed from `source`: the target
/// is the foreground window for a hotkey, the last real foreground window
/// for a tray-menu click.
pub fn dispatch_binding_index(controller: &mut Controller, index: usize, source: DispatchSource) -> (c: Command)
    requires
        index < BINDING_COUNT,
    ensures
        final(controller)@ == with_phase(
            old(controller)@,
            Phase::AwaitTarget { action: binding_spec(index as int).action },
        ),
        c == (match source {
            DispatchSource::Hotkey => Command::QueryForegroundWindow,
            DispatchSource::TrayMenu => Command::QueryLastRealForeground,
        }),
{
    let action = binding_action(index);
    controller.phase = Phase::AwaitTarget { action };
    match source {
        DispatchSource::Hotkey => Command::QueryForegroundWindow,
        DispatchSource::TrayMenu => Command::QueryLastRealForeground,
    }
}

/// Start applying `action` to `window`, an existing window.
pub fn apply_action(controller: &mut Controller, window: WindowId, action: Action) -> (c: Command)
    ensures
        (final(controller)@, c) == begin_apply(old(controller)@, window, action),
{
    controller.begin(window, action)
}

impl Default for Controller {
    fn default() -> (c: Self)
        ensures
            c@.cycle is None,
            c@.saved == Map::<WindowId, Rect>::empty(),
            c@.phase == Phase::Idle,
    {
        Self::new()
    }
}

/// The work areas of `monitors`, in order.
fn collect_work_areas(monitors: &Vec<MonitorEntry>) -> (r: Vec<Rect>)
    ensures
        r@ == work_areas(monitors@),
{
    let mut areas: Vec<Rect> = Vec::new();
    let mut i: usize = 0;
    while i < monitors.len()
        invariant
            i <= monitors.len(),
            areas@ == work_areas(monitors@).take(i as int),
        decreases monitors.len() - i,
    {
        areas.push(monitors[i].work_area);
        i = i + 1;
        assert(areas@ =~= work_areas(monitors@).take(i as int));
    }
    assert(areas@ =~= work_areas(monitors@));
    areas
}

} // verus!
