//! What the core knows of a source, and how requests to it fail.

use vstd::prelude::*;
use crate::text::{concat2, decimal, decimal_text};

verus! {

/// What the headers of a source told before anything was fetched.
#[derive(Debug, Clone, PartialEq, Eq)]
pub struct InspectReport {
    /// The size, where the server sent `Content-Length`.
    pub total_size: Option<u64>,
    /// Whether the server takes requests for a range of bytes.
    pub accepts_ranges: bool,
    /// The `ETag` header, weak ones among them.
    pub etag: Option<String>,
    /// The `Last-Modified` header as it was sent.
    pub last_modified: Option<String>,
    /// The name of the file by `Content-Disposition` or by the address.
    pub filename: Option<String>,
}

/// The header that makes a request for a range fail when the source has changed.
#[derive(Debug, PartialEq, Eq)]
pub enum RangeGuard {
    /// Sent as `If-Match`.
    Etag(String),
    /// Sent as `If-Unmodified-Since`.
    LastModified(String),
}

impl Clone for RangeGuard {
    fn clone(&self) -> (r: RangeGuard)
        ensures
            r == *self,
    {
        match self {
            RangeGuard::Etag(s) => RangeGuard::Etag(s.clone()),
            RangeGuard::LastModified(s) => RangeGuard::LastModified(s.clone()),
        }
    }
}

impl RangeGuard {
    /// The guard that a report gives: its `ETag`, failing that its `Last-Modified`.
    pub fn from_report(report: &InspectReport) -> (g: Option<RangeGuard>)
        ensures
            g == match (report.etag, report.last_modified) {
                (Some(etag), _) => Some(RangeGuard::Etag(etag)),
                (None, Some(date)) => Some(RangeGuard::LastModified(date)),
                (None, None) => None,
            },
    {
        match &report.etag {
            Some(etag) => Some(RangeGuard::Etag(etag.clone())),
            None => match &report.last_modified {
                Some(date) => Some(RangeGuard::LastModified(date.clone())),
                None => None,
            },
        }
    }
}

/// Whether an HTTP status speaks of trouble that may pass: `408`, `429` and `5xx`.
pub open spec fn transient_status(code: u16) -> bool {
    code == 408 || code == 429 || 500 <= code <= 599
}

/// Whether an HTTP status speaks of trouble that may pass.
pub fn is_transient_status(code: u16) -> (r: bool)
    ensures
        r == transient_status(code),
        r <==> code == 408 || code == 429 || (500 <= code && code <= 599),
{
    code == 408 || code == 429 || (500 <= code && code <= 599)
}

/// Why a source could not be inspected.
#[derive(Debug, PartialEq, Eq)]
pub enum InspectError {
    /// The connection failed.
    Network(String),
    /// The request took too long.
    Timeout,
    /// The address is neither `http` nor `https`.
    InvalidScheme(String),
    /// The server answered with an unexpected status.
    UnexpectedStatus { code: u16 },
    /// The answer is malformed.
    Malformed(String),
}

impl InspectError {
    /// Whether another try may succeed.
    pub open spec fn transient(&self) -> bool {
        match self {
            InspectError::Network(_) => true,
            InspectError::Timeout => true,
            InspectError::UnexpectedStatus { code } => transient_status(*code),
            _ => false,
        }
    }

    /// The error as people read it.
    pub open spec fn text(&self) -> Seq<char> {
        match self {
            InspectError::Network(m) => "network error: "@ + m@,
            InspectError::Timeout => "timeout"@,
            InspectError::InvalidScheme(m) => "invalid URL scheme: "@ + m@,
            InspectError::UnexpectedStatus { code } => "unexpected HTTP status "@ + decimal(
                *code as nat,
            ),
            InspectError::Malformed(m) => "malformed response: "@ + m@,
        }
    }

    /// Whether another try may succeed.
    pub fn is_transient(&self) -> (r: bool)
        ensures
            r == self.transient(),
            self is Network || self is Timeout ==> r,
            self is InvalidScheme || self is Malformed ==> !r,
            *self matches InspectError::UnexpectedStatus { code } ==> (r <==> code == 408 || code
                == 429 || (500 <= code && code <= 599)),
    {
        match self {
            InspectError::Network(_) => true,
            InspectError::Timeout => true,
            InspectError::UnexpectedStatus { code } => is_transient_status(*code),
            InspectError::InvalidScheme(_) => false,
            InspectError::Malformed(_) => false,
        }
    }

    /// The error as people read it.
    pub fn to_string(&self) -> (s: String)
        ensures
            s@ == self.text(),
    {
        match self {
            InspectError::Network(m) => concat2("network error: ", m.as_str()),
            InspectError::Timeout => "timeout".to_owned(),
            InspectError::InvalidScheme(m) => concat2("invalid URL scheme: ", m.as_str()),
            InspectError::UnexpectedStatus { code } => concat2(
                "unexpected HTTP status ",
                decimal_text(*code as u64).as_str(),
            ),
            InspectError::Malformed(m) => concat2("malformed response: ", m.as_str()),
        }
    }
}

/// Why bytes could not be fetched.
#[derive(Debug, PartialEq, Eq)]
pub enum RangeError {
    /// The connection failed.
    Network(String),
    /// The request took too long.
    Timeout,
    /// The address is neither `http` nor `https`.
    InvalidScheme(String),
    /// The guard no longer matches: the source has changed.
    SourceMutated,
    /// The server answered a request for a range with the whole body.
    RangeNotSupported,
    /// The body ended before the bytes that were asked for had come.
    TruncatedResponse,
    /// The server answered with an unexpected status.
    UnexpectedStatus { code: u16 },
}

impl Clone for RangeError {
    fn clone(&self) -> (r: RangeError)
        ensures
            r == *self,
    {
        match self {
            RangeError::Network(m) => RangeError::Network(m.clone()),
            RangeError::Timeout => RangeError::Timeout,
            RangeError::InvalidScheme(m) => RangeError::InvalidScheme(m.clone()),
            RangeError::SourceMutated => RangeError::SourceMutated,
            RangeError::RangeNotSupported => RangeError::RangeNotSupported,
            RangeError::TruncatedResponse => RangeError::TruncatedResponse,
            RangeError::UnexpectedStatus { code } => RangeError::UnexpectedStatus { code: *code },
        }
    }
}

impl RangeError {
    /// Whether another try may succeed.
    pub open spec fn transient(&self) -> bool {
        match self {
            RangeError::Network(_) => true,
            RangeError::Timeout => true,
            RangeError::TruncatedResponse => true,
            RangeError::UnexpectedStatus { code } => transient_status(*code),
            _ => false,
        }
    }

    /// The error as people read it.
    pub open spec fn text(&self) -> Seq<char> {
        match self {
            RangeError::Network(m) => "network error: "@ + m@,
            RangeError::Timeout => "timeout"@,
            RangeError::InvalidScheme(m) => "invalid URL scheme: "@ + m@,
            RangeError::SourceMutated => "source mutated since inspect"@,
            RangeError::RangeNotSupported => "server does not support range requests"@,
            RangeError::TruncatedResponse => "truncated response"@,
            RangeError::UnexpectedStatus { code } => "unexpected HTTP status "@ + decimal(
                *code as nat,
            ),
        }
    }

    /// Whether another try may succeed.
    pub fn is_transient(&self) -> (r: bool)
        ensures
            r == self.transient(),
            self is Network || self is Timeout || self is TruncatedResponse ==> r,
            self is InvalidScheme || self is SourceMutated || self is RangeNotSupported ==> !r,
            *self matches RangeError::UnexpectedStatus { code } ==> (r <==> code == 408 || code
                == 429 || (500 <= code && code <= 599)),
    {
        match self {
            RangeError::Network(_) => true,
            RangeError::Timeout => true,
            RangeError::TruncatedResponse => true,
            RangeError::UnexpectedStatus { code } => is_transient_status(*code),
            RangeError::InvalidScheme(_) => false,
            RangeError::SourceMutated => false,
            RangeError::RangeNotSupported => false,
        }
    }

    /// The error as people read it.
    pub fn to_string(&self) -> (s: String)
        ensures
            s@ == self.text(),
    {
        match self {
            RangeError::Network(m) => concat2("network error: ", m.as_str()),
            RangeError::Timeout => "timeout".to_owned(),
            RangeError::InvalidScheme(m) => concat2("invalid URL scheme: ", m.as_str()),
            RangeError::SourceMutated => "source mutated since inspect".to_owned(),
            RangeError::RangeNotSupported => "server does not support range requests".to_owned(),
            RangeError::TruncatedResponse => "truncated response".to_owned(),
            RangeError::UnexpectedStatus { code } => concat2(
                "unexpected HTTP status ",
                decimal_text(*code as u64).as_str(),
            ),
        }
    }
}

/// A status is classified alike wherever it comes from: `408`, `429` and everything from `500`
/// to `599` may pass, and nothing else.
pub proof fn statuses_are_classified_alike(code: u16)
    ensures
        (RangeError::UnexpectedStatus { code }).transient() <==> code == 408 || code == 429 || (500
            <= code && code <= 599),
        (InspectError::UnexpectedStatus { code }).transient() <==> (RangeError::UnexpectedStatus {
            code,
        }).transient(),
        transient_status(code) <==> (RangeError::UnexpectedStatus { code }).transient(),
{
}

/// A lost connection, a timeout and a body that broke off may pass. A source that changed, a
/// server without ranges and an address that is of no use do not.
pub proof fn broken_connections_may_pass(e: RangeError)
    requires
        !(e is UnexpectedStatus),
    ensures
        e.transient() <==> e is Network || e is Timeout || e is TruncatedResponse,
        !e.transient() <==> e is InvalidScheme || e is SourceMutated || e is RangeNotSupported,
{
}

/// Inspecting a source meets a lost connection and a timeout as fetching from it does.
pub proof fn inspection_is_classified_like_fetching(e: InspectError)
    requires
        !(e is UnexpectedStatus),
    ensures
        e.transient() <==> e is Network || e is Timeout,
{
}

/// An error tells what went wrong: the detail that it came with, or the status of the answer.
pub proof fn fetch_errors_tell_their_cause(e: RangeError, detail: String, code: u16)
    ensures
        e == RangeError::Network(detail) ==> e.text() == "network error: "@ + detail@,
        e == RangeError::InvalidScheme(detail) ==> e.text() == "invalid URL scheme: "@ + detail@,
        e == (RangeError::UnexpectedStatus { code }) ==> e.text() == "unexpected HTTP status "@
            + decimal(code as nat),
        e is Timeout ==> e.text() == "timeout"@,
        e is SourceMutated ==> e.text() == "source mutated since inspect"@,
        e is RangeNotSupported ==> e.text() == "server does not support range requests"@,
        e is TruncatedResponse ==> e.text() == "truncated response"@,
{
}

/// An error of an inspection tells what went wrong, in the words of an error of fetching where
/// there is one of the same kind.
pub proof fn inspect_errors_tell_their_cause(e: InspectError, detail: String, code: u16)
    ensures
        e == InspectError::Network(detail) ==> e.text() == RangeError::Network(detail).text(),
        e == InspectError::InvalidScheme(detail) ==> e.text() == RangeError::InvalidScheme(
            detail,
        ).text(),
        e == (InspectError::UnexpectedStatus { code }) ==> e.text() == (
        RangeError::UnexpectedStatus { code }).text(),
        e is Timeout ==> e.text() == RangeError::Timeout.text(),
        e == InspectError::Malformed(detail) ==> e.text() == "malformed response: "@ + detail@,
{
}

} // verus!
