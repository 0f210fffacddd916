//! The decision core of a small desktop shell: a tray icon with a menu, a
//! global shortcut that reveals a "notch" popup window, and a primary window
//! that hides instead of closing.
//!
//! The host GUI framework owns every window and the shortcut table. This
//! crate decides: each handler maps what the host reports to the list of
//! [`command::Command`]s the host has to carry out. [`host`] holds a model of
//! the host on which the effect of those commands is stated, and [`laws`]
//! proves what the shell guarantees on that model.

pub mod placement;
pub mod command;
pub mod shortcut;
pub mod shell;
pub mod reconfigure;
pub mod host;
pub mod laws;
