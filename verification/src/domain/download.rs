//! A download as a client describes it, with its own headers and number of workers.

use std::path::PathBuf;
use vstd::prelude::*;
use super::id::FileId;
use super::progress::ProgressCounts;
use super::state::DownloadState;
use super::time::Moment;

verus! {

/// Identifier of a download.
pub type DownloadId = FileId;

/// The name and the value of one HTTP header. Their order matters and a name may repeat.
pub type HeaderPair = (String, String);

/// The description of one download.
#[derive(Debug, Clone, PartialEq, Eq)]
pub struct DownloadSpec {
    /// Where to download from.
    pub url: String,
    /// The directory that the file goes to.
    pub target_dir: PathBuf,
    /// The file's name, where the client chose one.
    pub filename: Option<String>,
    /// Further HTTP headers, in the order in which they are sent.
    pub headers: Vec<HeaderPair>,
    /// How many workers fetch pieces at the same time.
    pub workers: u32,
}

impl DownloadSpec {
    /// The description with everything but the address and the directory left at its default.
    pub fn new(url: &str, target_dir: PathBuf) -> (spec: DownloadSpec)
        ensures
            spec.url@ == url@,
            spec.target_dir == target_dir,
            spec.filename is None,
            spec.headers@.len() == 0,
            spec.workers == 4,
    {
        DownloadSpec {
            url: url.to_owned(),
            target_dir,
            filename: None,
            headers: Vec::new(),
            workers: default_workers(),
        }
    }
}

/// The number of workers of a download whose client chose none.
pub fn default_workers() -> (w: u32)
    ensures
        w == 4,
{
    4
}

/// A download and where it stands.
#[derive(Debug, Clone)]
pub struct Download {
    pub id: DownloadId,
    pub spec: DownloadSpec,
    pub state: DownloadState,
    pub progress: ProgressCounts,
    /// Number of the current try; it grows with every retry.
    pub attempt: u32,
    /// The text of the last error, where there was one.
    pub error: Option<String>,
    pub created_at: Moment,
    pub updated_at: Moment,
}

impl Download {
    /// A fresh download: queued, without progress, both times the moment of the call.
    pub fn new(id: DownloadId, spec: DownloadSpec) -> (d: Download)
        ensures
            d.is_fresh(id, spec, d.created_at),
            d.created_at.valid(),
    {
        Download::new_at(id, spec, Moment::now())
    }

    /// A fresh download that was made at `now`.
    pub fn new_at(id: DownloadId, spec: DownloadSpec, now: Moment) -> (d: Download)
        ensures
            d.is_fresh(id, spec, now),
    {
        Download {
            id,
            spec,
            state: DownloadState::Queued,
            progress: ProgressCounts::default(),
            attempt: 0,
            error: None,
            created_at: now,
            updated_at: now,
        }
    }

    /// A fresh download is queued, has fetched nothing, was never tried and has no error.
    pub proof fn fresh_download_is_untouched(
        self,
        id: DownloadId,
        spec: DownloadSpec,
        now: Moment,
    )
        requires
            self.is_fresh(id, spec, now),
        ensures
            self.id == id,
            self.spec == spec,
            self.state is Queued,
            self.progress.bytes_done == 0 && self.progress.bytes_total == 0,
            self.progress.pieces_done == 0 && self.progress.pieces_total == 0,
            self.attempt == 0,
            self.error is None,
            self.created_at == now,
            self.updated_at == now,
    {
    }

    /// A download that was made at `now` and has not been touched since.
    pub open spec fn is_fresh(self, id: DownloadId, spec: DownloadSpec, now: Moment) -> bool {
        self == (Download {
            id,
            spec,
            state: DownloadState::Queued,
            progress: ProgressCounts { bytes_done: 0, bytes_total: 0, pieces_done: 0, pieces_total: 0 },
            attempt: 0,
            error: None,
            created_at: now,
            updated_at: now,
        })
    }
}

} // verus!
