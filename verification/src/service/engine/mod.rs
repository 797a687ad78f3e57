//! The engine of one download.

pub mod attempts;
pub mod counter;
pub mod dispatch;
pub mod drain;
pub mod geometry;
pub mod held;
pub mod inputs;
pub mod laws;
pub mod piece;
pub mod steps;
pub mod streaming;
pub mod streaming_laws;
pub mod streaming_steps;
pub mod supervisor;
pub mod worker;
