//! `brook`: the verified core of a download manager.
//!
//! Nothing here reads the network, the disk or a channel. Engines and the manager are machines
//! that take in events and give out actions; whoever runs them performs the actions.
//!
//! - [`domain`]: files, their statuses, identifiers and events.
//! - [`ports`]: what is known of sources, repositories and storages.
//! - [`service`]: retries, engines and the manager.
//! - [`api`]: requests and answers of clients.
//! - [`testing`]: storages and sources in memory.

pub mod api;
pub mod domain;
pub mod error;
pub mod ports;
pub mod service;
pub mod testing;
pub mod text;

pub use domain::command::FileCommand;
pub use domain::event::{FileLifecycleEvent, ProgressEvent};
pub use domain::file::File;
pub use domain::id::{AttemptId, FileId, WorkerId};
pub use domain::reason::{FailureReason, ReasonCode};
pub use domain::spec::{compute_workers, FileSpec, MAX_WORKERS};
pub use domain::status::{AttemptStatus, FileStatus, PieceStatus, WorkerStatus};
pub use error::Error;
pub use ports::http::{InspectError, InspectReport, RangeError, RangeGuard};
pub use ports::noop_repos::{NoopAttemptRepo, NoopWorkerRepo};
pub use ports::path_policy::TPathPolicy;
pub use ports::prepared::{PreparedDownload, PreparedMode};
pub use ports::records::{AttemptRecord, WorkerRecord};
pub use service::engine::inputs::{EngineConfig, EngineInputs, StreamingEngineInputs};
pub use service::engine::supervisor::DownloadEngine;
pub use service::manager::model::ManagerConfig;
pub use service::manager::registry::DownloadManager;
pub use service::retry::{CrashLoopGuard, CrashLoopState, RetryDecision, RetryPolicy};
