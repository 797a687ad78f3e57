//! The boundary to clients: who may call, what requests and answers look like, and how
//! errors are answered.

pub mod auth;
pub mod mapper;
pub mod proto;
pub mod service;
pub mod status;
pub mod trace;
