//! Decision core of a tray-resident desktop shell.
//!
//! The shell keeps a single main window that hides to a system-tray icon
//! instead of closing. This crate holds the shell's decisions as verified
//! functions: what a tray click, a context-menu selection or a window
//! event leads to, how those decisions change the set of windows the
//! runtime owns, and what configuration the shell is started with. The
//! windowing runtime itself (tray icon, event loop, OS windows) lives
//! outside the crate and consults these functions from its callbacks.

pub mod events;
pub mod laws;
pub mod shell;
pub mod startup;
pub mod windows;
