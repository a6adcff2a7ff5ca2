# window_rectangle

A Windows tray utility that resizes the active window with global hotkeys
(halves, quarters, maximize toggle, center, restore), where pressing the same
halve again moves the window to the adjacent monitor.

- `src/` is the verified library: placements inside a work area
  (`geometry`), monitor adjacency (`adjacency`), the repeat-press cycle
  (`cycle_state`), the hotkey table (`bindings`), the tray menu layout
  (`menu`), the restore stack (`window_ops`), foreground tracking
  (`foreground`), hotkey registration results (`hotkey`), and the decisions
  of a dispatch as a state machine (`dispatcher`), with the properties of
  whole dispatches in `dispatch_properties`.
- `app/` is the Windows program: the event loop, the Win32 calls, the hook,
  hotkey registration and the tray icon. It performs the controller's
  commands and feeds back their results.
- `tests/` holds the tests of the library.
