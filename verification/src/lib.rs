//! Window and tray lifecycle of a desktop application shell.
//!
//! The shell owns one main window and one tray icon. Closing the window hides
//! it instead of ending the process; the tray menu shows or hides the window
//! and is the only way to quit. This crate holds the decisions: given the
//! present visibility of the window and an event, it says what the window's
//! visibility becomes and what the host has to do. The host delivers the
//! events and carries out the actions.
//!
//! - [`lifecycle`]: the controller, its events and actions.
//! - [`menu`]: the tray menu's items, identifiers, labels and order.
//! - [`laws`]: what holds of the controller in every state.
//! - [`platform`]: the platform label that the shell reports.
//! - [`text`]: comparison of string slices.

pub mod laws;
pub mod lifecycle;
pub mod menu;
pub mod platform;
pub mod text;
