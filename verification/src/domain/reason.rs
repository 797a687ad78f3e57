//! Why a status changed.

use std::str::FromStr;
use vstd::prelude::*;
use crate::error::Error;
use crate::text::{concat2, same_text};

verus! {

/// Category of the reason for a change of status.
#[derive(Debug, Clone, Copy, PartialEq, Eq, Structural, Hash)]
pub enum ReasonCode {
    /// Connection, read, TLS or name resolution failed.
    Network,
    /// The request took too long.
    Timeout,
    /// The server answered with a 4xx code.
    Http4xx,
    /// The server answered with a 5xx code.
    Http5xx,
    /// The source changed between requests.
    SourceMutated,
    /// No space is left on the device.
    DiskFull,
    /// The server's answer was cut short or malformed.
    InvalidResponse,
    /// A finished file is no longer on disk.
    FileMissing,
    /// The user asked for it.
    CancelledByUser,
    /// None of the above.
    Unknown,
}

impl ReasonCode {
    /// The category of an error of the core: a full disk by its system code,
    /// any other failed system call as a network failure.
    pub open spec fn of_error(err: Error) -> ReasonCode {
        match err {
            Error::Io { os_code, message } => if os_code == Some(28i32) {
                ReasonCode::DiskFull
            } else {
                ReasonCode::Network
            },
            Error::SourceMutated => ReasonCode::SourceMutated,
            Error::TruncatedResponse => ReasonCode::InvalidResponse,
            _ => ReasonCode::Unknown,
        }
    }

    /// The category of an error of the core.
    pub fn from_error(err: &Error) -> (r: ReasonCode)
        ensures
            r == ReasonCode::of_error(*err),
            r is DiskFull <==> (*err matches Error::Io { os_code: Some(code), .. } && code == 28),
            r is Network <==> *err is Io && !(r is DiskFull),
            r is SourceMutated <==> *err is SourceMutated,
            r is InvalidResponse <==> *err is TruncatedResponse,
    {
        match err {
            Error::Io { os_code: Some(code), message: _ } => if *code == 28 {
                ReasonCode::DiskFull
            } else {
                ReasonCode::Network
            },
            Error::Io { os_code: None, message: _ } => ReasonCode::Network,
            Error::SourceMutated => ReasonCode::SourceMutated,
            Error::TruncatedResponse => ReasonCode::InvalidResponse,
            _ => ReasonCode::Unknown,
        }
    }

    /// The stable name, as logs and stored rows hold it.
    pub open spec fn text(self) -> Seq<char> {
        match self {
            ReasonCode::Network => "network"@,
            ReasonCode::Timeout => "timeout"@,
            ReasonCode::Http4xx => "http_4xx"@,
            ReasonCode::Http5xx => "http_5xx"@,
            ReasonCode::SourceMutated => "source_mutated"@,
            ReasonCode::DiskFull => "disk_full"@,
            ReasonCode::InvalidResponse => "invalid_response"@,
            ReasonCode::FileMissing => "file_missing"@,
            ReasonCode::CancelledByUser => "cancelled_by_user"@,
            ReasonCode::Unknown => "unknown"@,
        }
    }

    /// The stable name, as logs and stored rows hold it.
    pub fn as_str(self) -> (s: &'static str)
        ensures
            s@ == self.text(),
    {
        match self {
            ReasonCode::Network => "network",
            ReasonCode::Timeout => "timeout",
            ReasonCode::Http4xx => "http_4xx",
            ReasonCode::Http5xx => "http_5xx",
            ReasonCode::SourceMutated => "source_mutated",
            ReasonCode::DiskFull => "disk_full",
            ReasonCode::InvalidResponse => "invalid_response",
            ReasonCode::FileMissing => "file_missing",
            ReasonCode::CancelledByUser => "cancelled_by_user",
            ReasonCode::Unknown => "unknown",
        }
    }

    /// The stable name as an owned text.
    pub fn to_string(&self) -> (s: String)
        ensures
            s@ == self.text(),
    {
        self.as_str().to_owned()
    }

    /// No two values share a name.
    pub proof fn names_are_distinct(a: ReasonCode, b: ReasonCode)
        ensures
            a.text() == b.text() ==> a == b,
    {
        reveal_strlit("network");
        reveal_strlit("timeout");
        reveal_strlit("http_4xx");
        reveal_strlit("http_5xx");
        reveal_strlit("source_mutated");
        reveal_strlit("disk_full");
        reveal_strlit("invalid_response");
        reveal_strlit("file_missing");
        reveal_strlit("cancelled_by_user");
        reveal_strlit("unknown");
        assert("network"@.len() == 7);
        assert("timeout"@.len() == 7);
        assert("http_4xx"@.len() == 8);
        assert("http_5xx"@.len() == 8);
        assert("source_mutated"@.len() == 14);
        assert("disk_full"@.len() == 9);
        assert("invalid_response"@.len() == 16);
        assert("file_missing"@.len() == 12);
        assert("cancelled_by_user"@.len() == 17);
        assert("unknown"@.len() == 7);
        assert("network"@[0] != "timeout"@[0]);
        assert("network"@[0] != "unknown"@[0]);
        assert("timeout"@[0] != "unknown"@[0]);
        assert("http_4xx"@[5] != "http_5xx"@[5]);
    }

    /// The names are stable: stored rows and logs are read by them.
    pub proof fn names_are_stable(self)
        ensures
            self is Network <==> self.text() == "network"@,
            self is Timeout <==> self.text() == "timeout"@,
            self is Http4xx <==> self.text() == "http_4xx"@,
            self is Http5xx <==> self.text() == "http_5xx"@,
            self is SourceMutated <==> self.text() == "source_mutated"@,
            self is DiskFull <==> self.text() == "disk_full"@,
            self is InvalidResponse <==> self.text() == "invalid_response"@,
            self is FileMissing <==> self.text() == "file_missing"@,
            self is CancelledByUser <==> self.text() == "cancelled_by_user"@,
            self is Unknown <==> self.text() == "unknown"@,
    {
        ReasonCode::names_are_distinct(self, ReasonCode::Network);
        ReasonCode::names_are_distinct(self, ReasonCode::Timeout);
        ReasonCode::names_are_distinct(self, ReasonCode::Http4xx);
        ReasonCode::names_are_distinct(self, ReasonCode::Http5xx);
        ReasonCode::names_are_distinct(self, ReasonCode::SourceMutated);
        ReasonCode::names_are_distinct(self, ReasonCode::DiskFull);
        ReasonCode::names_are_distinct(self, ReasonCode::InvalidResponse);
        ReasonCode::names_are_distinct(self, ReasonCode::FileMissing);
        ReasonCode::names_are_distinct(self, ReasonCode::CancelledByUser);
        ReasonCode::names_are_distinct(self, ReasonCode::Unknown);
    }

    /// The value that a name stands for. A text that names no value is refused.
    pub fn parse_name(s: &str) -> (r: Result<ReasonCode, Error>)
        ensures
            forall|v: ReasonCode| s@ == #[trigger] v.text() ==> (r matches Ok(w) && w == v),
            r matches Ok(v) ==> s@ == v.text(),
            r matches Err(e) ==> e is Other && e.text() == "unknown reason code: "@ + s@,
    {
        let r = if same_text(s, "network") {
            Ok(ReasonCode::Network)
        } else if same_text(s, "timeout") {
            Ok(ReasonCode::Timeout)
        } else if same_text(s, "http_4xx") {
            Ok(ReasonCode::Http4xx)
        } else if same_text(s, "http_5xx") {
            Ok(ReasonCode::Http5xx)
        } else if same_text(s, "source_mutated") {
            Ok(ReasonCode::SourceMutated)
        } else if same_text(s, "disk_full") {
            Ok(ReasonCode::DiskFull)
        } else if same_text(s, "invalid_response") {
            Ok(ReasonCode::InvalidResponse)
        } else if same_text(s, "file_missing") {
            Ok(ReasonCode::FileMissing)
        } else if same_text(s, "cancelled_by_user") {
            Ok(ReasonCode::CancelledByUser)
        } else if same_text(s, "unknown") {
            Ok(ReasonCode::Unknown)
        } else {
            Err(Error::Other(concat2("unknown reason code: ", s)))
        };
        proof {
            if let Ok(v) = r {
                assert forall|w: ReasonCode| s@ == #[trigger] w.text() implies w == v by {
                    ReasonCode::names_are_distinct(v, w);
                }
            }
        }
        r
    }
}

impl FromStr for ReasonCode {
    type Err = Error;

    /// The value that a name stands for. A text that names no value is refused.
    fn from_str(s: &str) -> (r: Result<ReasonCode, Error>)
        ensures
            forall|v: ReasonCode| s@ == #[trigger] v.text() ==> (r matches Ok(w) && w == v),
            r matches Ok(v) ==> s@ == v.text(),
            r matches Err(e) ==> e is Other && e.text() == "unknown reason code: "@ + s@,
    {
        ReasonCode::parse_name(s)
    }
}

/// Why a status changed: a category and, where there is more to say, a text.
#[derive(Debug, Clone, PartialEq, Eq)]
pub struct FailureReason {
    pub code: ReasonCode,
    pub message: Option<String>,
}

impl FailureReason {
    /// The reason as people read it.
    pub open spec fn text(&self) -> Seq<char> {
        match self.message {
            Some(m) => self.code.text() + ": "@ + m@,
            None => self.code.text(),
        }
    }

    /// A reason without a text.
    pub fn new(code: ReasonCode) -> (r: FailureReason)
        ensures
            r == (FailureReason { code, message: None }),
    {
        FailureReason { code, message: None }
    }

    /// A reason with a text.
    pub fn with_message(code: ReasonCode, message: &str) -> (r: FailureReason)
        ensures
            r.code == code,
            r.message matches Some(m) && m@ == message@,
    {
        FailureReason { code, message: Some(message.to_owned()) }
    }

    /// The reason that an error of the core amounts to: its category and its text.
    pub fn from_error(err: &Error) -> (r: FailureReason)
        ensures
            r.code == ReasonCode::of_error(*err),
            r.message matches Some(m) && m@ == err.text(),
    {
        FailureReason { code: ReasonCode::from_error(err), message: Some(err.to_string()) }
    }

    /// The reason as people read it.
    pub fn to_string(&self) -> (s: String)
        ensures
            s@ == self.text(),
    {
        match &self.message {
            Some(m) => concat2(concat2(self.code.as_str(), ": ").as_str(), m.as_str()),
            None => self.code.as_str().to_owned(),
        }
    }
}

/// A failure is stored under the category of its cause: a full disk is told from other failed
/// calls by the code of the system, and what has no category of its own is unknown.
pub proof fn failures_keep_their_category(e: Error)
    ensures
        ReasonCode::of_error(e) is DiskFull <==> (e matches Error::Io { os_code: Some(code), .. }
            && code == 28),
        ReasonCode::of_error(e) is Network <==> e is Io && !(e matches Error::Io {
            os_code: Some(code),
            ..
        } && code == 28),
        ReasonCode::of_error(e) is SourceMutated <==> e is SourceMutated,
        ReasonCode::of_error(e) is InvalidResponse <==> e is TruncatedResponse,
        ReasonCode::of_error(e) is Unknown <==> e is NotFound || e is FileExists || e
            is PathEscapesRoot || e is Other,
{
}

/// A reason reads as its category, followed by its text where it has one.
pub proof fn reasons_tell_category_and_text(r: FailureReason, m: String)
    ensures
        r.message is None ==> r.text() == r.code.text(),
        r.message == Some(m) ==> r.text() == r.code.text() + ": "@ + m@,
{
}

} // verus!
