//! A terminal radio for lo-fi live streams: station catalogue, settings,
//! the application state machine and its key handling, verified with Verus.

pub mod text;
pub mod stations;
pub mod config;
pub mod clock;
pub mod lists;
pub mod player;
pub mod app;
pub mod events;
pub mod session;
pub mod ui;
pub mod laws;
pub mod ipc;
