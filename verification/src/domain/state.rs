//! State of a download.

use std::str::FromStr;
use vstd::prelude::*;
use crate::error::Error;
use crate::text::{concat2, same_text};

verus! {

/// State of a download.
#[derive(Debug, Clone, Copy, PartialEq, Eq, Structural, Hash)]
pub enum DownloadState {
    /// Waits for a free slot.
    Queued,
    /// Being fetched.
    Running,
    /// Paused by the user.
    Paused,
    /// Failed, waits for the next try.
    Retrying,
    /// Complete.
    Done,
    /// Failed for good.
    Failed,
    /// Cancelled by the user, its files are gone.
    Cancelled,
}

impl DownloadState {
    /// Whether nothing leads out of this state.
    pub open spec fn terminal(self) -> bool {
        self is Done || self is Failed || self is Cancelled
    }

    /// Whether the download holds connections and workers in this state.
    pub open spec fn active(self) -> bool {
        self is Running || self is Retrying
    }

    /// Whether nothing leads out of this state.
    pub fn is_terminal(self) -> (r: bool)
        ensures
            r == self.terminal(),
            r <==> self is Done || self is Failed || self is Cancelled,
    {
        matches!(self, DownloadState::Done | DownloadState::Failed | DownloadState::Cancelled)
    }

    /// Whether the download holds connections and workers in this state.
    pub fn is_active(self) -> (r: bool)
        ensures
            r == self.active(),
            r <==> self is Running || self is Retrying,
    {
        matches!(self, DownloadState::Running | DownloadState::Retrying)
    }

    /// A download has ended exactly where it is done, has failed or was cancelled; it is worked
    /// at exactly where it runs or is being tried again.
    pub proof fn ends_and_work_are_told_apart(self)
        ensures
            self.terminal() <==> self is Done || self is Failed || self is Cancelled,
            self.active() <==> self is Running || self is Retrying,
            !self.terminal() && !self.active() <==> self is Queued || self is Paused,
    {
    }

    /// A state that ends a download holds no worker.
    pub proof fn terminal_is_not_active(self)
        ensures
            !(self.terminal() && self.active()),
    {
    }

    /// The stable name, as logs and stored rows hold it.
    pub open spec fn text(self) -> Seq<char> {
        match self {
            DownloadState::Queued => "queued"@,
            DownloadState::Running => "running"@,
            DownloadState::Paused => "paused"@,
            DownloadState::Retrying => "retrying"@,
            DownloadState::Done => "done"@,
            DownloadState::Failed => "failed"@,
            DownloadState::Cancelled => "cancelled"@,
        }
    }

    /// The stable name, as logs and stored rows hold it.
    pub fn as_str(self) -> (s: &'static str)
        ensures
            s@ == self.text(),
    {
        match self {
            DownloadState::Queued => "queued",
            DownloadState::Running => "running",
            DownloadState::Paused => "paused",
            DownloadState::Retrying => "retrying",
            DownloadState::Done => "done",
            DownloadState::Failed => "failed",
            DownloadState::Cancelled => "cancelled",
        }
    }

    /// The stable name as an owned text.
    pub fn to_string(&self) -> (s: String)
        ensures
            s@ == self.text(),
    {
        self.as_str().to_owned()
    }

    /// No two values share a name.
    pub proof fn names_are_distinct(a: DownloadState, b: DownloadState)
        ensures
            a.text() == b.text() ==> a == b,
    {
        reveal_strlit("queued");
        reveal_strlit("running");
        reveal_strlit("paused");
        reveal_strlit("retrying");
        reveal_strlit("done");
        reveal_strlit("failed");
        reveal_strlit("cancelled");
        assert("queued"@.len() == 6);
        assert("running"@.len() == 7);
        assert("paused"@.len() == 6);
        assert("retrying"@.len() == 8);
        assert("done"@.len() == 4);
        assert("failed"@.len() == 6);
        assert("cancelled"@.len() == 9);
        assert("queued"@[0] != "paused"@[0]);
        assert("queued"@[0] != "failed"@[0]);
        assert("paused"@[0] != "failed"@[0]);
    }

    /// The names are stable: stored rows and logs are read by them.
    pub proof fn names_are_stable(self)
        ensures
            self is Queued <==> self.text() == "queued"@,
            self is Running <==> self.text() == "running"@,
            self is Paused <==> self.text() == "paused"@,
            self is Retrying <==> self.text() == "retrying"@,
            self is Done <==> self.text() == "done"@,
            self is Failed <==> self.text() == "failed"@,
            self is Cancelled <==> self.text() == "cancelled"@,
    {
        DownloadState::names_are_distinct(self, DownloadState::Queued);
        DownloadState::names_are_distinct(self, DownloadState::Running);
        DownloadState::names_are_distinct(self, DownloadState::Paused);
        DownloadState::names_are_distinct(self, DownloadState::Retrying);
        DownloadState::names_are_distinct(self, DownloadState::Done);
        DownloadState::names_are_distinct(self, DownloadState::Failed);
        DownloadState::names_are_distinct(self, DownloadState::Cancelled);
    }

    /// The value that a name stands for. A text that names no value is refused.
    pub fn parse_name(s: &str) -> (r: Result<DownloadState, Error>)
        ensures
            forall|v: DownloadState| s@ == #[trigger] v.text() ==> (r matches Ok(w) && w == v),
            r matches Ok(v) ==> s@ == v.text(),
            r matches Err(e) ==> e is Other && e.text() == "unknown state: "@ + s@,
    {
        let r = if same_text(s, "queued") {
            Ok(DownloadState::Queued)
        } else if same_text(s, "running") {
            Ok(DownloadState::Running)
        } else if same_text(s, "paused") {
            Ok(DownloadState::Paused)
        } else if same_text(s, "retrying") {
            Ok(DownloadState::Retrying)
        } else if same_text(s, "done") {
            Ok(DownloadState::Done)
        } else if same_text(s, "failed") {
            Ok(DownloadState::Failed)
        } else if same_text(s, "cancelled") {
            Ok(DownloadState::Cancelled)
        } else {
            Err(Error::Other(concat2("unknown state: ", s)))
        };
        proof {
            if let Ok(v) = r {
                assert forall|w: DownloadState| s@ == #[trigger] w.text() implies w == v by {
                    DownloadState::names_are_distinct(v, w);
                }
            }
        }
        r
    }
}

impl FromStr for DownloadState {
    type Err = Error;

    /// The value that a name stands for. A text that names no value is refused.
    fn from_str(s: &str) -> (r: Result<DownloadState, Error>)
        ensures
            forall|v: DownloadState| s@ == #[trigger] v.text() ==> (r matches Ok(w) && w == v),
            r matches Ok(v) ==> s@ == v.text(),
            r matches Err(e) ==> e is Other && e.text() == "unknown state: "@ + s@,
    {
        DownloadState::parse_name(s)
    }
}

} // verus!
