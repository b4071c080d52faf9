//! Click-dispatch engine of a desktop auto-clicker: the shared session flag,
//! the hotkey reaction, the click worker's schedule, the controller state
//! machine and the preferences record.

pub mod session;
pub mod worker;
pub mod saved_config;
pub mod controller;
