//! Startup configuration of a desktop application shell.
//!
//! The shell hosts a single window and a fixed set of capability plugins.
//! Everything the host glue has to decide while it starts the application is
//! decided here, on plain values: which capabilities are enabled and how the
//! autostart capability is configured, how the main window is decorated on
//! each platform, which commands the front end may invoke, and what happens
//! when startup cannot complete.
pub mod capability;
pub mod command;
pub mod lifecycle;
pub mod platform;
pub mod setup;
mod text;
