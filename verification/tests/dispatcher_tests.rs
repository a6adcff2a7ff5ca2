use window_rectangle::dispatcher::{
    apply_action, dispatch_binding_index, Command, Controller, DispatchSource, Event, MonitorEntry,
};
use window_rectangle::geometry::{Action, Half, Rect};

const WINDOW: i64 = 0x1000;
const MAIN: i64 = 1;
const LEFT: i64 = 2;

fn main_area() -> Rect {
    Rect::new(0, 0, 1920, 1040)
}

fn left_area() -> Rect {
    Rect::new(-1920, 0, 1920, 1040)
}

fn monitors() -> Vec<MonitorEntry> {
    vec![
        MonitorEntry { handle: MAIN, work_area: main_area(), monitor_area: Rect::new(0, 0, 1920, 1080) },
        MonitorEntry {
            handle: LEFT,
            work_area: left_area(),
            monitor_area: Rect::new(-1920, 0, 1920, 1080),
        },
    ]
}

fn feed(c: &mut Controller, event: Event) -> Command {
    assert!(c.accepts(&event), "event not accepted: {:?}", event);
    c.step(event)
}

/// Runs a Halve Left hotkey press (binding 0) for `WINDOW`, answering the
/// controller as a two-monitor system would, with the window on `on`.
/// Returns the command that moved the window, if any.
fn press_halve_left(c: &mut Controller, on: i64, current: Rect) -> Option<Command> {
    assert_eq!(dispatch_binding_index(c, 0, DispatchSource::Hotkey), Command::QueryForegroundWindow);
    assert_eq!(feed(c, Event::Window(Some(WINDOW))), Command::QueryIsWindow(WINDOW));
    assert_eq!(feed(c, Event::Answer(true)), Command::QueryMonitor(WINDOW));
    let mut cmd = feed(c, Event::Monitor(on));
    let mut moved = None;
    loop {
        cmd = match cmd {
            Command::ListMonitors => feed(c, Event::Monitors(monitors())),
            Command::QueryWorkArea(m) => {
                feed(c, Event::WorkArea(if m == MAIN { main_area() } else { left_area() }))
            }
            Command::QueryWindowRect(w) => {
                assert_eq!(w, WINDOW);
                feed(c, Event::WindowRect(current))
            }
            Command::QueryMaximized(_) | Command::QueryMinimized(_) => feed(c, Event::Answer(false)),
            Command::SetWindowPos(_, _) => {
                moved = Some(cmd);
                feed(c, Event::Done)
            }
            Command::Finish => return moved,
            other => panic!("unexpected command {:?}", other),
        };
    }
}

#[test]
fn halve_twice_moves_to_left_monitor_then_stops() {
    let mut c = Controller::new();
    let start = Rect::new(300, 200, 800, 600);
    // First press: halve on the main monitor.
    let first = press_halve_left(&mut c, MAIN, start);
    assert_eq!(first, Some(Command::SetWindowPos(WINDOW, Rect::new(0, 0, 960, 1040))));
    // Second press on the same monitor: move to the left monitor and halve there.
    let second = press_halve_left(&mut c, MAIN, Rect::new(0, 0, 960, 1040));
    assert_eq!(second, Some(Command::SetWindowPos(WINDOW, Rect::new(-1920, 0, 960, 1040))));
    // Third press, now on the left monitor: nothing further left, no-op.
    let third = press_halve_left(&mut c, LEFT, Rect::new(-1920, 0, 960, 1040));
    assert_eq!(third, None);
}

#[test]
fn restore_returns_window_to_rect_before_action() {
    let mut c = Controller::new();
    let start = Rect::new(300, 200, 800, 600);
    press_halve_left(&mut c, MAIN, start);
    // Restore (binding 10) from the tray menu.
    assert_eq!(dispatch_binding_index(&mut c, 10, DispatchSource::TrayMenu), Command::QueryLastRealForeground);
    assert_eq!(feed(&mut c, Event::Window(Some(WINDOW))), Command::QueryIsWindow(WINDOW));
    assert_eq!(feed(&mut c, Event::Answer(true)), Command::QueryMaximized(WINDOW));
    assert_eq!(feed(&mut c, Event::Answer(false)), Command::QueryMinimized(WINDOW));
    assert_eq!(feed(&mut c, Event::Answer(false)), Command::SetWindowPos(WINDOW, start));
    assert_eq!(feed(&mut c, Event::Done), Command::Finish);
    // Nothing left to restore: a second restore does nothing.
    assert_eq!(apply_action(&mut c, WINDOW, Action::RestoreOriginal), Command::Finish);
}

#[test]
fn maximize_toggle_saves_rect_and_ends_cycle() {
    let mut c = Controller::new();
    let start = Rect::new(10, 10, 500, 400);
    press_halve_left(&mut c, MAIN, start);
    assert_eq!(apply_action(&mut c, WINDOW, Action::Maximize), Command::QueryMaximized(WINDOW));
    assert_eq!(feed(&mut c, Event::Answer(false)), Command::QueryWindowRect(WINDOW));
    let halved = Rect::new(0, 0, 960, 1040);
    assert_eq!(feed(&mut c, Event::WindowRect(halved)), Command::ShowMaximize(WINDOW));
    assert_eq!(feed(&mut c, Event::Done), Command::Finish);
    // The cycle ended: the next halve applies on the current monitor again.
    let again = press_halve_left(&mut c, MAIN, halved);
    assert_eq!(again, Some(Command::SetWindowPos(WINDOW, Rect::new(0, 0, 960, 1040))));
    // Maximize of a maximized window shows it restored.
    assert_eq!(apply_action(&mut c, WINDOW, Action::Maximize), Command::QueryMaximized(WINDOW));
    assert_eq!(feed(&mut c, Event::Answer(true)), Command::ShowRestore(WINDOW));
    assert_eq!(feed(&mut c, Event::Done), Command::Finish);
}

#[test]
fn maximized_window_is_restored_before_moving() {
    let mut c = Controller::new();
    assert_eq!(apply_action(&mut c, WINDOW, Action::Center), Command::QueryMonitor(WINDOW));
    assert_eq!(feed(&mut c, Event::Monitor(MAIN)), Command::QueryWorkArea(MAIN));
    assert_eq!(feed(&mut c, Event::WorkArea(main_area())), Command::QueryWindowRect(WINDOW));
    let current = Rect::new(0, 0, 800, 600);
    assert_eq!(feed(&mut c, Event::WindowRect(current)), Command::QueryMaximized(WINDOW));
    assert_eq!(feed(&mut c, Event::Answer(true)), Command::ShowRestore(WINDOW));
    assert_eq!(feed(&mut c, Event::Done), Command::QueryWindowRect(WINDOW));
    assert_eq!(feed(&mut c, Event::WindowRect(current)), Command::SetWindowPos(WINDOW, Rect::new(560, 220, 800, 600)));
    assert_eq!(feed(&mut c, Event::Done), Command::Finish);
}

#[test]
fn missing_or_invalid_target_is_a_no_op() {
    let mut c = Controller::new();
    assert_eq!(dispatch_binding_index(&mut c, 9, DispatchSource::Hotkey), Command::QueryForegroundWindow);
    assert_eq!(feed(&mut c, Event::Window(None)), Command::Finish);
    assert_eq!(dispatch_binding_index(&mut c, 9, DispatchSource::TrayMenu), Command::QueryLastRealForeground);
    assert_eq!(feed(&mut c, Event::Window(Some(WINDOW))), Command::QueryIsWindow(WINDOW));
    assert_eq!(feed(&mut c, Event::Answer(false)), Command::Finish);
    assert!(!c.accepts(&Event::Done));
}

#[test]
fn failed_call_stops_dispatch() {
    let mut c = Controller::new();
    assert_eq!(apply_action(&mut c, WINDOW, Action::Halve(Half::Right)), Command::QueryMonitor(WINDOW));
    assert_eq!(feed(&mut c, Event::Monitor(MAIN)), Command::QueryWorkArea(MAIN));
    assert!(!c.accepts(&Event::Done));
    assert_eq!(feed(&mut c, Event::Failed), Command::Fail);
    // Nothing was recorded: Restore finds nothing saved.
    assert_eq!(apply_action(&mut c, WINDOW, Action::RestoreOriginal), Command::Finish);
}

#[test]
fn overflowing_placement_is_not_accepted() {
    let mut c = Controller::new();
    apply_action(&mut c, WINDOW, Action::Halve(Half::Right));
    feed(&mut c, Event::Monitor(MAIN));
    feed(&mut c, Event::WorkArea(Rect::new(i32::MAX - 10, 0, 100, 100)));
    assert!(!c.accepts(&Event::WindowRect(Rect::new(0, 0, 10, 10))));
    assert!(c.accepts(&Event::Failed));
}

#[test]
fn failed_restore_keeps_saved_rect_for_retry() {
    let mut c = Controller::new();
    let start = Rect::new(300, 200, 800, 600);
    press_halve_left(&mut c, MAIN, start);
    // First restore: the move fails.
    assert_eq!(apply_action(&mut c, WINDOW, Action::RestoreOriginal), Command::QueryMaximized(WINDOW));
    assert_eq!(feed(&mut c, Event::Answer(false)), Command::QueryMinimized(WINDOW));
    assert_eq!(feed(&mut c, Event::Answer(false)), Command::SetWindowPos(WINDOW, start));
    assert_eq!(feed(&mut c, Event::Failed), Command::Fail);
    // Retry: the rectangle is still there.
    assert_eq!(apply_action(&mut c, WINDOW, Action::RestoreOriginal), Command::QueryMaximized(WINDOW));
    assert_eq!(feed(&mut c, Event::Answer(true)), Command::ShowRestore(WINDOW));
    assert_eq!(feed(&mut c, Event::Done), Command::SetWindowPos(WINDOW, start));
    assert_eq!(feed(&mut c, Event::Done), Command::Finish);
    // Now it is gone.
    assert_eq!(apply_action(&mut c, WINDOW, Action::RestoreOriginal), Command::Finish);
}

#[test]
fn center_after_halve_ends_cycle() {
    let mut c = Controller::new();
    let start = Rect::new(300, 200, 800, 600);
    press_halve_left(&mut c, MAIN, start);
    assert_eq!(apply_action(&mut c, WINDOW, Action::Center), Command::QueryMonitor(WINDOW));
    assert_eq!(feed(&mut c, Event::Monitor(MAIN)), Command::QueryWorkArea(MAIN));
    assert_eq!(feed(&mut c, Event::WorkArea(main_area())), Command::QueryWindowRect(WINDOW));
    assert_eq!(feed(&mut c, Event::WindowRect(start)), Command::QueryMaximized(WINDOW));
    assert_eq!(feed(&mut c, Event::Answer(false)), Command::QueryMinimized(WINDOW));
    assert_eq!(feed(&mut c, Event::Answer(false)), Command::QueryWindowRect(WINDOW));
    assert_eq!(feed(&mut c, Event::WindowRect(start)), Command::SetWindowPos(WINDOW, Rect::new(560, 220, 800, 600)));
    assert_eq!(feed(&mut c, Event::Done), Command::Finish);
    // The halve applies on the current monitor again instead of moving.
    let again = press_halve_left(&mut c, MAIN, Rect::new(560, 220, 800, 600));
    assert_eq!(again, Some(Command::SetWindowPos(WINDOW, Rect::new(0, 0, 960, 1040))));
}
