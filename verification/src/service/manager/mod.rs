//! The coordinator of all downloads.

pub mod audit;
pub mod bulk;
pub mod effects;
pub mod fanin;
pub mod laws;
pub mod model;
pub mod queue;
pub mod registry;
