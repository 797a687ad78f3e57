//! What the events of engines do to the records.

use vstd::prelude::*;
use crate::domain::event::FileLifecycleEvent;
use crate::domain::id::FileId;
use crate::domain::reason::{FailureReason, ReasonCode};
use crate::domain::status::FileStatus;
use crate::domain::time::Moment;
use super::model::{ManagerModel, StatusUpdate};
use super::registry::DownloadManager;

verus! {

/// What is to be stored of a failure: its text, under the category for what has none of its
/// own.
pub open spec fn failure_update(id: FileId, error: String) -> StatusUpdate {
    StatusUpdate {
        id,
        status: FileStatus::Failed,
        reason: Some(FailureReason { code: ReasonCode::Unknown, message: Some(error) }),
    }
}

/// What is to be stored of a change of status that came without a text. A failure is not
/// stored without a reason.
pub open spec fn plain_update(id: FileId, status: FileStatus) -> StatusUpdate {
    StatusUpdate {
        id,
        status,
        reason: if status is Failed {
            Some(FailureReason { code: ReasonCode::Unknown, message: None })
        } else {
            None
        },
    }
}

impl ManagerModel {
    /// What an event of the engine of `id` changes, and what is to be stored. A failure with
    /// a text is always taken over; another status only if the record does not have it yet.
    pub open spec fn fanned_in(self, ev: FileLifecycleEvent, now: Moment) -> (
        ManagerModel,
        Option<StatusUpdate>,
    ) {
        if !self.records.contains_key(ev.id@) {
            (self, None)
        } else {
            match (ev.status, ev.description) {
                (FileStatus::Failed, Some(error)) => (
                    self.with_failure(ev.id, error, now),
                    Some(failure_update(ev.id, error)),
                ),
                _ => if self.records[ev.id@].status == ev.status {
                    (self, None)
                } else {
                    (
                        self.with_status(ev.id, ev.status, now),
                        Some(plain_update(ev.id, ev.status)),
                    )
                },
            }
        }
    }
}

impl DownloadManager {
    /// Takes in an event of an engine, which subscribers are told as well.
    pub fn fan_in(&mut self, ev: &FileLifecycleEvent, now: Moment) -> (update: Option<StatusUpdate>)
        ensures
            (final(self)@, update) == old(self)@.fanned_in(*ev, now),
    {
        match self.status_of(ev.id) {
            None => None,
            Some(current) => {
                if ev.status == FileStatus::Failed {
                    if let Some(error) = &ev.description {
                        self.set_failure(ev.id, error.clone(), now);
                        let reason = FailureReason {
                            code: ReasonCode::Unknown,
                            message: Some(error.clone()),
                        };
                        return Some(
                            StatusUpdate {
                                id: ev.id,
                                status: FileStatus::Failed,
                                reason: Some(reason),
                            },
                        );
                    }
                }
                if current == ev.status {
                    return None;
                }
                self.set_status(ev.id, ev.status, now);
                let reason = if ev.status == FileStatus::Failed {
                    Some(FailureReason::new(ReasonCode::Unknown))
                } else {
                    None
                };
                Some(StatusUpdate { id: ev.id, status: ev.status, reason })
            },
        }
    }
}

} // verus!
