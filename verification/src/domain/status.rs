//! One vocabulary of statuses for files, workers, pieces and attempts.

use std::str::FromStr;
use vstd::prelude::*;
use crate::error::Error;
use crate::text::{concat2, same_text};

verus! {

/// Status of a file.
#[derive(Debug, Clone, Copy, PartialEq, Eq, Structural, Hash)]
pub enum FileStatus {
    /// Queued, waits for an engine.
    Pending,
    /// An engine is fetching it.
    Running,
    /// Paused by the user.
    Paused,
    /// Failed, waits for the next try.
    Retrying,
    /// Complete.
    Done,
    /// Failed for good.
    Failed,
    /// Cancelled by the user, its bytes are gone.
    Cancelled,
}

impl FileStatus {
    /// Whether nothing leads out of this state.
    pub open spec fn terminal(self) -> bool {
        self is Done || self is Failed || self is Cancelled
    }

    /// Whether the download holds connections and workers in this state.
    pub open spec fn active(self) -> bool {
        self is Running || self is Retrying
    }

    /// Whether nothing leads out of this state.
    pub fn is_terminal(self) -> (r: bool)
        ensures
            r == self.terminal(),
            r <==> self is Done || self is Failed || self is Cancelled,
    {
        matches!(self, FileStatus::Done | FileStatus::Failed | FileStatus::Cancelled)
    }

    /// Whether the download holds connections and workers in this state.
    pub fn is_active(self) -> (r: bool)
        ensures
            r == self.active(),
            r <==> self is Running || self is Retrying,
    {
        matches!(self, FileStatus::Running | FileStatus::Retrying)
    }

    /// A file has ended exactly where it is done, has failed or was cancelled; it is worked at
    /// exactly where it runs or is being tried again.
    pub proof fn ends_and_work_are_told_apart(self)
        ensures
            self.terminal() <==> self is Done || self is Failed || self is Cancelled,
            self.active() <==> self is Running || self is Retrying,
            !self.terminal() && !self.active() <==> self is Pending || self is Paused,
    {
    }

    /// A state that ends a download holds no worker.
    pub proof fn terminal_is_not_active(self)
        ensures
            !(self.terminal() && self.active()),
    {
    }

    /// The stable name, as logs and stored rows hold it.
    pub open spec fn text(self) -> Seq<char> {
        match self {
            FileStatus::Pending => "pending"@,
            FileStatus::Running => "running"@,
            FileStatus::Paused => "paused"@,
            FileStatus::Retrying => "retrying"@,
            FileStatus::Done => "done"@,
            FileStatus::Failed => "failed"@,
            FileStatus::Cancelled => "cancelled"@,
        }
    }

    /// The stable name, as logs and stored rows hold it.
    pub fn as_str(self) -> (s: &'static str)
        ensures
            s@ == self.text(),
    {
        match self {
            FileStatus::Pending => "pending",
            FileStatus::Running => "running",
            FileStatus::Paused => "paused",
            FileStatus::Retrying => "retrying",
            FileStatus::Done => "done",
            FileStatus::Failed => "failed",
            FileStatus::Cancelled => "cancelled",
        }
    }

    /// The stable name as an owned text.
    pub fn to_string(&self) -> (s: String)
        ensures
            s@ == self.text(),
    {
        self.as_str().to_owned()
    }

    /// No two values share a name.
    pub proof fn names_are_distinct(a: FileStatus, b: FileStatus)
        ensures
            a.text() == b.text() ==> a == b,
    {
        reveal_strlit("pending");
        reveal_strlit("running");
        reveal_strlit("paused");
        reveal_strlit("retrying");
        reveal_strlit("done");
        reveal_strlit("failed");
        reveal_strlit("cancelled");
        assert("pending"@.len() == 7);
        assert("running"@.len() == 7);
        assert("paused"@.len() == 6);
        assert("retrying"@.len() == 8);
        assert("done"@.len() == 4);
        assert("failed"@.len() == 6);
        assert("cancelled"@.len() == 9);
        assert("pending"@[0] != "running"@[0]);
        assert("paused"@[0] != "failed"@[0]);
    }

    /// The names are stable: stored rows and logs are read by them.
    pub proof fn names_are_stable(self)
        ensures
            self is Pending <==> self.text() == "pending"@,
            self is Running <==> self.text() == "running"@,
            self is Paused <==> self.text() == "paused"@,
            self is Retrying <==> self.text() == "retrying"@,
            self is Done <==> self.text() == "done"@,
            self is Failed <==> self.text() == "failed"@,
            self is Cancelled <==> self.text() == "cancelled"@,
    {
        FileStatus::names_are_distinct(self, FileStatus::Pending);
        FileStatus::names_are_distinct(self, FileStatus::Running);
        FileStatus::names_are_distinct(self, FileStatus::Paused);
        FileStatus::names_are_distinct(self, FileStatus::Retrying);
        FileStatus::names_are_distinct(self, FileStatus::Done);
        FileStatus::names_are_distinct(self, FileStatus::Failed);
        FileStatus::names_are_distinct(self, FileStatus::Cancelled);
    }

    /// The value that a name stands for. A text that names no value is refused.
    pub fn parse_name(s: &str) -> (r: Result<FileStatus, Error>)
        ensures
            forall|v: FileStatus| s@ == #[trigger] v.text() ==> (r matches Ok(w) && w == v),
            r matches Ok(v) ==> s@ == v.text(),
            r matches Err(e) ==> e is Other && e.text() == "unknown file status: "@ + s@,
    {
        let r = if same_text(s, "pending") {
            Ok(FileStatus::Pending)
        } else if same_text(s, "running") {
            Ok(FileStatus::Running)
        } else if same_text(s, "paused") {
            Ok(FileStatus::Paused)
        } else if same_text(s, "retrying") {
            Ok(FileStatus::Retrying)
        } else if same_text(s, "done") {
            Ok(FileStatus::Done)
        } else if same_text(s, "failed") {
            Ok(FileStatus::Failed)
        } else if same_text(s, "cancelled") {
            Ok(FileStatus::Cancelled)
        } else {
            Err(Error::Other(concat2("unknown file status: ", s)))
        };
        proof {
            if let Ok(v) = r {
                assert forall|w: FileStatus| s@ == #[trigger] w.text() implies w == v by {
                    FileStatus::names_are_distinct(v, w);
                }
            }
        }
        r
    }
}

impl FromStr for FileStatus {
    type Err = Error;

    /// The value that a name stands for. A text that names no value is refused.
    fn from_str(s: &str) -> (r: Result<FileStatus, Error>)
        ensures
            forall|v: FileStatus| s@ == #[trigger] v.text() ==> (r matches Ok(w) && w == v),
            r matches Ok(v) ==> s@ == v.text(),
            r matches Err(e) ==> e is Other && e.text() == "unknown file status: "@ + s@,
    {
        FileStatus::parse_name(s)
    }
}

/// Status of one worker within one engine session.
#[derive(Debug, Clone, Copy, PartialEq, Eq, Structural, Hash)]
pub enum WorkerStatus {
    Running,
    Paused,
    Done,
    Failed,
    Cancelled,
}

impl WorkerStatus {

    /// The stable name, as logs and stored rows hold it.
    pub open spec fn text(self) -> Seq<char> {
        match self {
            WorkerStatus::Running => "running"@,
            WorkerStatus::Paused => "paused"@,
            WorkerStatus::Done => "done"@,
            WorkerStatus::Failed => "failed"@,
            WorkerStatus::Cancelled => "cancelled"@,
        }
    }

    /// The stable name, as logs and stored rows hold it.
    pub fn as_str(self) -> (s: &'static str)
        ensures
            s@ == self.text(),
    {
        match self {
            WorkerStatus::Running => "running",
            WorkerStatus::Paused => "paused",
            WorkerStatus::Done => "done",
            WorkerStatus::Failed => "failed",
            WorkerStatus::Cancelled => "cancelled",
        }
    }

    /// The stable name as an owned text.
    pub fn to_string(&self) -> (s: String)
        ensures
            s@ == self.text(),
    {
        self.as_str().to_owned()
    }

    /// No two values share a name.
    pub proof fn names_are_distinct(a: WorkerStatus, b: WorkerStatus)
        ensures
            a.text() == b.text() ==> a == b,
    {
        reveal_strlit("running");
        reveal_strlit("paused");
        reveal_strlit("done");
        reveal_strlit("failed");
        reveal_strlit("cancelled");
        assert("running"@.len() == 7);
        assert("paused"@.len() == 6);
        assert("done"@.len() == 4);
        assert("failed"@.len() == 6);
        assert("cancelled"@.len() == 9);
        assert("paused"@[0] != "failed"@[0]);
    }

    /// The names are stable: stored rows and logs are read by them.
    pub proof fn names_are_stable(self)
        ensures
            self is Running <==> self.text() == "running"@,
            self is Paused <==> self.text() == "paused"@,
            self is Done <==> self.text() == "done"@,
            self is Failed <==> self.text() == "failed"@,
            self is Cancelled <==> self.text() == "cancelled"@,
    {
        WorkerStatus::names_are_distinct(self, WorkerStatus::Running);
        WorkerStatus::names_are_distinct(self, WorkerStatus::Paused);
        WorkerStatus::names_are_distinct(self, WorkerStatus::Done);
        WorkerStatus::names_are_distinct(self, WorkerStatus::Failed);
        WorkerStatus::names_are_distinct(self, WorkerStatus::Cancelled);
    }

    /// The value that a name stands for. A text that names no value is refused.
    pub fn parse_name(s: &str) -> (r: Result<WorkerStatus, Error>)
        ensures
            forall|v: WorkerStatus| s@ == #[trigger] v.text() ==> (r matches Ok(w) && w == v),
            r matches Ok(v) ==> s@ == v.text(),
            r matches Err(e) ==> e is Other && e.text() == "unknown worker status: "@ + s@,
    {
        let r = if same_text(s, "running") {
            Ok(WorkerStatus::Running)
        } else if same_text(s, "paused") {
            Ok(WorkerStatus::Paused)
        } else if same_text(s, "done") {
            Ok(WorkerStatus::Done)
        } else if same_text(s, "failed") {
            Ok(WorkerStatus::Failed)
        } else if same_text(s, "cancelled") {
            Ok(WorkerStatus::Cancelled)
        } else {
            Err(Error::Other(concat2("unknown worker status: ", s)))
        };
        proof {
            if let Ok(v) = r {
                assert forall|w: WorkerStatus| s@ == #[trigger] w.text() implies w == v by {
                    WorkerStatus::names_are_distinct(v, w);
                }
            }
        }
        r
    }
}

impl FromStr for WorkerStatus {
    type Err = Error;

    /// The value that a name stands for. A text that names no value is refused.
    fn from_str(s: &str) -> (r: Result<WorkerStatus, Error>)
        ensures
            forall|v: WorkerStatus| s@ == #[trigger] v.text() ==> (r matches Ok(w) && w == v),
            r matches Ok(v) ==> s@ == v.text(),
            r matches Err(e) ==> e is Other && e.text() == "unknown worker status: "@ + s@,
    {
        WorkerStatus::parse_name(s)
    }
}

/// Status of a piece. Only `Pending` and `Done` are ever stored.
#[derive(Debug, Clone, Copy, PartialEq, Eq, Structural, Hash)]
pub enum PieceStatus {
    Pending,
    Running,
    Done,
}

impl PieceStatus {

    /// The stable name, as logs and stored rows hold it.
    pub open spec fn text(self) -> Seq<char> {
        match self {
            PieceStatus::Pending => "pending"@,
            PieceStatus::Running => "running"@,
            PieceStatus::Done => "done"@,
        }
    }

    /// The stable name, as logs and stored rows hold it.
    pub fn as_str(self) -> (s: &'static str)
        ensures
            s@ == self.text(),
    {
        match self {
            PieceStatus::Pending => "pending",
            PieceStatus::Running => "running",
            PieceStatus::Done => "done",
        }
    }

    /// The stable name as an owned text.
    pub fn to_string(&self) -> (s: String)
        ensures
            s@ == self.text(),
    {
        self.as_str().to_owned()
    }

    /// No two values share a name.
    pub proof fn names_are_distinct(a: PieceStatus, b: PieceStatus)
        ensures
            a.text() == b.text() ==> a == b,
    {
        reveal_strlit("pending");
        reveal_strlit("running");
        reveal_strlit("done");
        assert("pending"@.len() == 7);
        assert("running"@.len() == 7);
        assert("done"@.len() == 4);
        assert("pending"@[0] != "running"@[0]);
    }

    /// The names are stable: stored rows and logs are read by them.
    pub proof fn names_are_stable(self)
        ensures
            self is Pending <==> self.text() == "pending"@,
            self is Running <==> self.text() == "running"@,
            self is Done <==> self.text() == "done"@,
    {
        PieceStatus::names_are_distinct(self, PieceStatus::Pending);
        PieceStatus::names_are_distinct(self, PieceStatus::Running);
        PieceStatus::names_are_distinct(self, PieceStatus::Done);
    }

    /// The value that a name stands for. A text that names no value is refused.
    pub fn parse_name(s: &str) -> (r: Result<PieceStatus, Error>)
        ensures
            forall|v: PieceStatus| s@ == #[trigger] v.text() ==> (r matches Ok(w) && w == v),
            r matches Ok(v) ==> s@ == v.text(),
            r matches Err(e) ==> e is Other && e.text() == "unknown piece status: "@ + s@,
    {
        let r = if same_text(s, "pending") {
            Ok(PieceStatus::Pending)
        } else if same_text(s, "running") {
            Ok(PieceStatus::Running)
        } else if same_text(s, "done") {
            Ok(PieceStatus::Done)
        } else {
            Err(Error::Other(concat2("unknown piece status: ", s)))
        };
        proof {
            if let Ok(v) = r {
                assert forall|w: PieceStatus| s@ == #[trigger] w.text() implies w == v by {
                    PieceStatus::names_are_distinct(v, w);
                }
            }
        }
        r
    }
}

impl FromStr for PieceStatus {
    type Err = Error;

    /// The value that a name stands for. A text that names no value is refused.
    fn from_str(s: &str) -> (r: Result<PieceStatus, Error>)
        ensures
            forall|v: PieceStatus| s@ == #[trigger] v.text() ==> (r matches Ok(w) && w == v),
            r matches Ok(v) ==> s@ == v.text(),
            r matches Err(e) ==> e is Other && e.text() == "unknown piece status: "@ + s@,
    {
        PieceStatus::parse_name(s)
    }
}

/// Status of one attempt of one worker to fetch one piece.
#[derive(Debug, Clone, Copy, PartialEq, Eq, Structural, Hash)]
pub enum AttemptStatus {
    Running,
    Paused,
    Done,
    Failed,
    Cancelled,
}

impl AttemptStatus {

    /// The stable name, as logs and stored rows hold it.
    pub open spec fn text(self) -> Seq<char> {
        match self {
            AttemptStatus::Running => "running"@,
            AttemptStatus::Paused => "paused"@,
            AttemptStatus::Done => "done"@,
            AttemptStatus::Failed => "failed"@,
            AttemptStatus::Cancelled => "cancelled"@,
        }
    }

    /// The stable name, as logs and stored rows hold it.
    pub fn as_str(self) -> (s: &'static str)
        ensures
            s@ == self.text(),
    {
        match self {
            AttemptStatus::Running => "running",
            AttemptStatus::Paused => "paused",
            AttemptStatus::Done => "done",
            AttemptStatus::Failed => "failed",
            AttemptStatus::Cancelled => "cancelled",
        }
    }

    /// The stable name as an owned text.
    pub fn to_string(&self) -> (s: String)
        ensures
            s@ == self.text(),
    {
        self.as_str().to_owned()
    }

    /// No two values share a name.
    pub proof fn names_are_distinct(a: AttemptStatus, b: AttemptStatus)
        ensures
            a.text() == b.text() ==> a == b,
    {
        reveal_strlit("running");
        reveal_strlit("paused");
        reveal_strlit("done");
        reveal_strlit("failed");
        reveal_strlit("cancelled");
        assert("running"@.len() == 7);
        assert("paused"@.len() == 6);
        assert("done"@.len() == 4);
        assert("failed"@.len() == 6);
        assert("cancelled"@.len() == 9);
        assert("paused"@[0] != "failed"@[0]);
    }

    /// The names are stable: stored rows and logs are read by them.
    pub proof fn names_are_stable(self)
        ensures
            self is Running <==> self.text() == "running"@,
            self is Paused <==> self.text() == "paused"@,
            self is Done <==> self.text() == "done"@,
            self is Failed <==> self.text() == "failed"@,
            self is Cancelled <==> self.text() == "cancelled"@,
    {
        AttemptStatus::names_are_distinct(self, AttemptStatus::Running);
        AttemptStatus::names_are_distinct(self, AttemptStatus::Paused);
        AttemptStatus::names_are_distinct(self, AttemptStatus::Done);
        AttemptStatus::names_are_distinct(self, AttemptStatus::Failed);
        AttemptStatus::names_are_distinct(self, AttemptStatus::Cancelled);
    }

    /// The value that a name stands for. A text that names no value is refused.
    pub fn parse_name(s: &str) -> (r: Result<AttemptStatus, Error>)
        ensures
            forall|v: AttemptStatus| s@ == #[trigger] v.text() ==> (r matches Ok(w) && w == v),
            r matches Ok(v) ==> s@ == v.text(),
            r matches Err(e) ==> e is Other && e.text() == "unknown attempt status: "@ + s@,
    {
        let r = if same_text(s, "running") {
            Ok(AttemptStatus::Running)
        } else if same_text(s, "paused") {
            Ok(AttemptStatus::Paused)
        } else if same_text(s, "done") {
            Ok(AttemptStatus::Done)
        } else if same_text(s, "failed") {
            Ok(AttemptStatus::Failed)
        } else if same_text(s, "cancelled") {
            Ok(AttemptStatus::Cancelled)
        } else {
            Err(Error::Other(concat2("unknown attempt status: ", s)))
        };
        proof {
            if let Ok(v) = r {
                assert forall|w: AttemptStatus| s@ == #[trigger] w.text() implies w == v by {
                    AttemptStatus::names_are_distinct(v, w);
                }
            }
        }
        r
    }
}

impl FromStr for AttemptStatus {
    type Err = Error;

    /// The value that a name stands for. A text that names no value is refused.
    fn from_str(s: &str) -> (r: Result<AttemptStatus, Error>)
        ensures
            forall|v: AttemptStatus| s@ == #[trigger] v.text() ==> (r matches Ok(w) && w == v),
            r matches Ok(v) ==> s@ == v.text(),
            r matches Err(e) ==> e is Other && e.text() == "unknown attempt status: "@ + s@,
    {
        AttemptStatus::parse_name(s)
    }
}

} // verus!
