//! Window, tray and shortcut control for a background desktop utility.
//!
//! The library decides; the host shell acts. Each input event (a tray menu
//! activation, a tray icon click, a global shortcut, a close request) is turned
//! into one [`lifecycle::ShellAction`] for the host to perform, and
//! [`shell::ShellState`] models the host's window registry so that the effect
//! of every decision can be stated and proved.

pub mod window;
pub mod tray;
pub mod shortcut;
pub mod lifecycle;
pub mod shell;
pub mod laws;
