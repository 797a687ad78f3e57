//! What the core asks of the outside, as plain data.

pub mod http;
pub mod noop_repos;
pub mod path_policy;
pub mod prepared;
pub mod records;
