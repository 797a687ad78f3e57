//! The vocabulary of the core.

pub mod command;
pub mod download;
pub mod event;
pub mod file;
pub mod id;
pub mod progress;
pub mod reason;
pub mod spec;
pub mod state;
pub mod status;
pub mod time;
