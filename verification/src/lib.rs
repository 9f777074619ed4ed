//! Snapt: keyboard-driven window docking.
//!
//! The library holds the decisions of the program: which screen area a
//! window is docked to, which hotkey a set of pressed keys triggers, what
//! the notification-area menu commands do to the application state, and the
//! text shown in the notification tooltip. Reading the keyboard, querying
//! windows and monitors, and moving windows is done by the program around it.

pub mod window;
pub mod window_transform;
pub mod hotkeys;
pub mod snapt;
pub mod app;
