//! How a call is answered that fails.

use vstd::prelude::*;

verus! {

/// The kind of a failure, as a client tells it.
#[derive(Debug, Clone, Copy, PartialEq, Eq, Structural)]
pub enum Code {
    InvalidArgument,
    NotFound,
    AlreadyExists,
    PermissionDenied,
    FailedPrecondition,
    Aborted,
    Internal,
    DataLoss,
    Unauthenticated,
}

/// The answer to a call that fails.
#[derive(Debug, Clone, PartialEq, Eq)]
pub struct Status {
    pub code: Code,
    pub message: String,
}

impl Status {
    /// An answer of a kind with a text.
    pub fn new(code: Code, message: &str) -> (s: Status)
        ensures
            s.says(code, message@),
    {
        Status { code, message: message.to_owned() }
    }

    /// The kind of the failure.
    pub fn code(&self) -> (c: Code)
        ensures
            c == self.code,
    {
        self.code
    }

    /// Whether the answer is of this kind and has this text.
    pub open spec fn says(self, code: Code, message: Seq<char>) -> bool {
        self.code == code && self.message@ == message
    }
}

/// An answer says its own kind and its own text, and no other.
pub proof fn answer_says_what_it_holds(s: Status, code: Code, message: Seq<char>)
    ensures
        s.says(s.code, s.message@),
        s.says(code, message) ==> s.code == code && s.message@ == message,
{
}

} // verus!
