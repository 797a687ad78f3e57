//! How a download was prepared before its engine starts.

use vstd::prelude::*;
use super::http::RangeGuard;

verus! {

/// What preparing a download found out about its source.
#[derive(Debug, PartialEq, Eq)]
pub enum PreparedMode {
    /// The size is known, the file is fetched in pieces.
    Known {
        total_size: u64,
        /// The size of every piece but the last, which may be shorter.
        piece_size: u64,
        accepts_ranges: bool,
        guard: Option<RangeGuard>,
    },
    /// The size is not known: one worker appends what comes.
    Streaming,
}

/// A download that was prepared: what is known of its source, and the storage that its
/// engine writes to. A file of known size has piece storage, another one stream storage.
#[derive(Debug)]
pub struct PreparedDownload<S, SS> {
    pub mode: PreparedMode,
    pub piece_storage: Option<S>,
    pub stream_storage: Option<SS>,
    /// The name that the file gets.
    pub resolved_filename: String,
    /// Where redirects led, if they led anywhere.
    pub effective_url: Option<String>,
}

} // verus!
