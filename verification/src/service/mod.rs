//! The rules of the download manager: engines, queue, retries.

pub mod engine;
pub mod manager;
pub mod retry;
