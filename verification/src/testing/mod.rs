//! Storage, repositories and a source that live in memory, for tests of what is built on the
//! core.

pub mod file_presence;
pub mod memory_piece_storage;
pub mod memory_queue_store;
pub mod memory_tracking;
pub mod mock_fetch;
