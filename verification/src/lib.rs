//! Event routing for the desktop shell of CoBrain.
//!
//! Tray menu selections, tray icon clicks, the global hotkey and the commands
//! invoked by the user interface are all mapped onto one small vocabulary of
//! window actions, which a single executor applies to the main window.

pub mod action;
pub mod commands;
pub mod laws;
pub mod notification;
pub mod router;
pub mod setup;
pub mod shortcut;
pub mod startup;
pub mod tray;
pub mod window;
