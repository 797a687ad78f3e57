//! Events that subscribers of a file receive.

use vstd::prelude::*;
use super::id::FileId;
use super::progress::ProgressCounts;
use super::status::FileStatus;

verus! {

/// A change of status of one file. The description holds the text of the error and
/// is there only where the new status is `Failed`.
#[derive(Debug, PartialEq, Eq)]
pub struct FileLifecycleEvent {
    pub id: FileId,
    pub status: FileStatus,
    pub description: Option<String>,
}

impl Clone for FileLifecycleEvent {
    fn clone(&self) -> (r: FileLifecycleEvent)
        ensures
            r == *self,
    {
        FileLifecycleEvent {
            id: self.id,
            status: self.status,
            description: crate::text::clone_text(&self.description),
        }
    }
}

impl FileLifecycleEvent {
    /// A change of status without a description.
    pub fn status(id: FileId, status: FileStatus) -> (e: FileLifecycleEvent)
        ensures
            e == (FileLifecycleEvent { id, status, description: None }),
    {
        FileLifecycleEvent { id, status, description: None }
    }

    /// The change to `Failed` with the text of the error.
    pub fn failed(id: FileId, error: String) -> (e: FileLifecycleEvent)
        ensures
            e == (FileLifecycleEvent { id, status: FileStatus::Failed, description: Some(error) }),
    {
        FileLifecycleEvent { id, status: FileStatus::Failed, description: Some(error) }
    }
}

/// A tick of progress. Ticks are frequent and travel apart from changes of status.
#[derive(Debug, Clone, Copy, PartialEq, Eq)]
pub enum ProgressEvent {
    Tick { id: FileId, progress: ProgressCounts },
}

} // verus!
