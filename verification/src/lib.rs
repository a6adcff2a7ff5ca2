//! Window layout logic: placements inside a monitor's work area, monitor
//! adjacency, the repeat-press cycle, the hotkey table, the tray menu layout,
//! and the decisions of a dispatch, with the system calls left to the caller.
pub mod geometry;
pub mod adjacency;
pub mod cycle_state;
pub mod bindings;
pub mod menu;
pub mod window_ops;
pub mod foreground;
pub mod hotkey;
pub mod dispatcher;
pub mod dispatch_properties;
