//! Decision logic of a desktop utility that reclaims the space an advertising
//! banner occupies inside a chat application's main window and closes the
//! application's advertising popups.
//!
//! The library never touches the window system itself. Callers hand it what
//! they read from the desktop as plain values and carry out what it returns.

pub mod corrector;
pub mod diagnostics;
pub mod laws;
pub mod matcher;
pub mod names;
pub mod shell_monitor;
pub mod timestamp;
pub mod window;
