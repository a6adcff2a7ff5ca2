use window_rectangle::cycle_state::{CycleDecision, CycleState, MonitorId, WindowId};
use window_rectangle::geometry::{Action, Corner, Half};

const WINDOW_A: WindowId = 100;
const WINDOW_B: WindowId = 200;
const MONITOR_MAIN: MonitorId = 1;
const MONITOR_LEFT: MonitorId = 2;

#[test]
fn first_halve_press_applies_here() {
    let state = CycleState::new();
    assert_eq!(
        state.decide(WINDOW_A, Action::Halve(Half::Left), MONITOR_MAIN),
        CycleDecision::ApplyHere
    );
}

#[test]
fn repeat_same_action_same_monitor_moves_to_adjacent() {
    let mut state = CycleState::new();
    state.record(WINDOW_A, Action::Halve(Half::Left), MONITOR_MAIN);
    assert_eq!(
        state.decide(WINDOW_A, Action::Halve(Half::Left), MONITOR_MAIN),
        CycleDecision::MoveToAdjacent
    );
}

#[test]
fn different_window_resets_cycle() {
    let mut state = CycleState::new();
    state.record(WINDOW_A, Action::Halve(Half::Left), MONITOR_MAIN);
    assert_eq!(
        state.decide(WINDOW_B, Action::Halve(Half::Left), MONITOR_MAIN),
        CycleDecision::ApplyHere
    );
}

#[test]
fn different_direction_resets_cycle() {
    let mut state = CycleState::new();
    state.record(WINDOW_A, Action::Halve(Half::Left), MONITOR_MAIN);
    assert_eq!(
        state.decide(WINDOW_A, Action::Halve(Half::Right), MONITOR_MAIN),
        CycleDecision::ApplyHere
    );
}

#[test]
fn quarter_action_does_not_cycle() {
    let mut state = CycleState::new();
    state.record(WINDOW_A, Action::Quarter(Corner::TopLeft), MONITOR_MAIN);
    assert_eq!(
        state.decide(WINDOW_A, Action::Quarter(Corner::TopLeft), MONITOR_MAIN),
        CycleDecision::ApplyHere
    );
}

#[test]
fn non_halve_action_clears_cycle_record() {
    let mut state = CycleState::new();
    state.record(WINDOW_A, Action::Halve(Half::Left), MONITOR_MAIN);
    state.record(WINDOW_A, Action::Center, MONITOR_MAIN);
    // Now even repeating the prior halve should apply here, not move.
    assert_eq!(
        state.decide(WINDOW_A, Action::Halve(Half::Left), MONITOR_MAIN),
        CycleDecision::ApplyHere
    );
}

#[test]
fn moving_to_adjacent_monitor_then_repeating_continues_cycle() {
    let mut state = CycleState::new();
    state.record(WINDOW_A, Action::Halve(Half::Left), MONITOR_MAIN);
    // After dispatcher acts on adjacent and records:
    state.record(WINDOW_A, Action::Halve(Half::Left), MONITOR_LEFT);
    // Next press should request another move (to monitor further left).
    assert_eq!(
        state.decide(WINDOW_A, Action::Halve(Half::Left), MONITOR_LEFT),
        CycleDecision::MoveToAdjacent
    );
}

#[test]
fn repeat_on_other_monitor_applies_here() {
    let mut state = CycleState::new();
    state.record(WINDOW_A, Action::Halve(Half::Top), MONITOR_MAIN);
    assert_eq!(
        state.decide(WINDOW_A, Action::Halve(Half::Top), MONITOR_LEFT),
        CycleDecision::ApplyHere
    );
}

#[test]
fn default_state_has_no_cycle() {
    let state = CycleState::default();
    assert_eq!(
        state.decide(WINDOW_A, Action::Halve(Half::Bottom), MONITOR_MAIN),
        CycleDecision::ApplyHere
    );
}
