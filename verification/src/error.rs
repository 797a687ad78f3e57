//! Errors of the core.

use vstd::prelude::*;
use crate::text::concat2;

verus! {

/// What can go wrong in the core.
#[derive(Debug, PartialEq, Eq)]
pub enum Error {
    /// A failed system call: the code that the operating system gave, where it
    /// gave one, and the text of the failure.
    Io { os_code: Option<i32>, message: String },
    /// The source changed between requests, its `ETag` or `Last-Modified` no
    /// longer matches: the download cannot go on and has to start anew.
    SourceMutated,
    /// The server sent fewer bytes than it announced.
    TruncatedResponse,
    /// No such record.
    NotFound,
    /// The target directory already holds a file of this name. The client
    /// picks a free name and asks again.
    FileExists { filename: String },
    /// The target directory, once made canonical, lies outside the allowed root.
    PathEscapesRoot { attempted: String },
    /// Anything that has no variant of its own.
    Other(String),
}

impl Clone for Error {
    fn clone(&self) -> (r: Error)
        ensures
            r == *self,
    {
        match self {
            Error::Io { os_code, message } => Error::Io {
                os_code: *os_code,
                message: message.clone(),
            },
            Error::SourceMutated => Error::SourceMutated,
            Error::TruncatedResponse => Error::TruncatedResponse,
            Error::NotFound => Error::NotFound,
            Error::FileExists { filename } => Error::FileExists { filename: filename.clone() },
            Error::PathEscapesRoot { attempted } => Error::PathEscapesRoot {
                attempted: attempted.clone(),
            },
            Error::Other(message) => Error::Other(message.clone()),
        }
    }
}

impl Error {
    /// The text that people see.
    pub open spec fn text(&self) -> Seq<char> {
        match self {
            Error::Io { os_code, message } => "i/o: "@ + message@,
            Error::SourceMutated => "source mutated"@,
            Error::TruncatedResponse => "truncated response"@,
            Error::NotFound => "not found"@,
            Error::FileExists { filename } => "file already exists: "@ + filename@,
            Error::PathEscapesRoot { attempted } => "path escapes sandbox root: "@ + attempted@,
            Error::Other(message) => message@,
        }
    }

    /// The error as people read it.
    pub fn to_string(&self) -> (s: String)
        ensures
            s@ == self.text(),
    {
        match self {
            Error::Io { os_code: _, message } => concat2("i/o: ", message.as_str()),
            Error::SourceMutated => "source mutated".to_owned(),
            Error::TruncatedResponse => "truncated response".to_owned(),
            Error::NotFound => "not found".to_owned(),
            Error::FileExists { filename } => concat2("file already exists: ", filename.as_str()),
            Error::PathEscapesRoot { attempted } => concat2(
                "path escapes sandbox root: ",
                attempted.as_str(),
            ),
            Error::Other(message) => message.clone(),
        }
    }

    /// Whether the failure is a clash of file names.
    pub fn is_file_exists(&self) -> (r: bool)
        ensures
            r == (self is FileExists),
    {
        match self {
            Error::FileExists { filename: _ } => true,
            _ => false,
        }
    }
}

/// An error tells what it is about: the name that is taken, the path that is refused, the text
/// of a failed call or of anything else.
pub proof fn errors_tell_what_they_are_about(e: Error, about: String, os_code: Option<i32>)
    ensures
        e == (Error::FileExists { filename: about }) ==> e.text() == "file already exists: "@
            + about@,
        e == (Error::PathEscapesRoot { attempted: about }) ==> e.text()
            == "path escapes sandbox root: "@ + about@,
        e == (Error::Io { os_code, message: about }) ==> e.text() == "i/o: "@ + about@,
        e == Error::Other(about) ==> e.text() == about@,
        e is NotFound ==> e.text() == "not found"@,
        e is SourceMutated ==> e.text() == "source mutated"@,
        e is TruncatedResponse ==> e.text() == "truncated response"@,
{
}

} // verus!
