//! Identifiers: 128-bit values, written and read as UUIDs.

use std::str::FromStr;
use uuid::Uuid;
use vstd::prelude::*;

verus! {

/// The lower case hexadecimal digit of the value `d`.
pub open spec fn hex_char(d: int) -> char {
    if d < 10 {
        (48 + d) as char
    } else {
        (87 + d) as char
    }
}

/// The `k`-th of the 32 hexadecimal digits of `v`, the most significant first.
pub open spec fn nibble(v: u128, k: int) -> int {
    ((v >> ((4 * (31 - k)) as u128)) & 15) as int
}

/// `v` as 32 hexadecimal digits in groups of 8, 4, 4, 4 and 12 with hyphens between.
pub open spec fn hyphenated(v: u128) -> Seq<char> {
    Seq::new(
        36,
        |i: int|
            if i == 8 || i == 13 || i == 18 || i == 23 {
                '-'
            } else if i < 8 {
                hex_char(nibble(v, i))
            } else if i < 13 {
                hex_char(nibble(v, i - 1))
            } else if i < 18 {
                hex_char(nibble(v, i - 2))
            } else if i < 23 {
                hex_char(nibble(v, i - 3))
            } else {
                hex_char(nibble(v, i - 4))
            },
    )
}

/// Whether `v` carries the version and variant bits of a random UUID.
pub open spec fn is_random_uuid(v: u128) -> bool {
    nibble(v, 12) == 4 && 8 <= nibble(v, 16) <= 11
}

/// What `Uuid::parse_str` makes of a text: the value that it reads, or the text
/// of its error.
pub uninterp spec fn uuid_parsed(s: Seq<char>) -> Result<u128, Seq<char>>;

/// A result with its error text taken by its view.
pub open spec fn result_view(r: Result<u128, String>) -> Result<u128, Seq<char>> {
    match r {
        Ok(v) => Ok(v),
        Err(e) => Err(e@),
    }
}

/// Whether `r` is the value that `s` was written from, where `s` was written by `hyphenated`.
pub open spec fn reads_back(r: Result<u128, String>, s: Seq<char>) -> bool {
    forall|v: u128| s == #[trigger] hyphenated(v) ==> (r matches Ok(w) && w == v)
}

/// Calls `Uuid::new_v4`. The value is random; of every outcome the version and
/// variant bits are known.
#[verifier::external_body]
pub(crate) fn random_uuid() -> (v: u128)
    ensures
        is_random_uuid(v),
{
    Uuid::new_v4().as_u128()
}

/// Calls `to_string` of `Uuid`, which writes the value with lower case digits and hyphens.
#[verifier::external_body]
pub(crate) fn uuid_text(v: u128) -> (s: String)
    ensures
        s@ == hyphenated(v),
{
    Uuid::from_u128(v).to_string()
}

/// Calls `Uuid::parse_str`, which reads several notations. Among them is the one
/// that `to_string` writes, and it is read back as the value it was written from.
#[verifier::external_body]
fn parse_uuid(s: &str) -> (r: Result<u128, String>)
    ensures
        result_view(r) == uuid_parsed(s@),
        reads_back(r, s@),
{
    match Uuid::parse_str(s) {
        Ok(u) => Ok(u.as_u128()),
        Err(e) => Err(e.to_string()),
    }
}

/// A text that is no identifier.
#[derive(Debug, Clone, PartialEq, Eq)]
pub struct ParseIdError {
    pub message: String,
}

/// Identifier of a file.
#[derive(Debug, Clone, Copy, PartialEq, Eq, Structural, Hash, PartialOrd, Ord)]
pub struct FileId {
    value: u128,
}

impl FileId {
    /// The 128-bit value.
    pub closed spec fn view(&self) -> u128 {
        self.value
    }

    /// Identifiers with the same value are the same.
    pub broadcast proof fn same_value(a: FileId, b: FileId)
        ensures
            #[trigger] a.view() == #[trigger] b.view() ==> a == b,
    {
    }

    /// A fresh random identifier.
    pub fn new() -> (id: FileId)
        ensures
            is_random_uuid(id@),
    {
        FileId { value: random_uuid() }
    }

    /// The identifier of a given value.
    pub fn from_value(value: u128) -> (id: FileId)
        ensures
            id@ == value,
    {
        FileId { value }
    }

    /// The value, for instance to store it.
    pub fn as_uuid(&self) -> (v: u128)
        ensures
            v == self@,
    {
        self.value
    }

    /// The identifier as people read it.
    pub fn to_string(&self) -> (s: String)
        ensures
            s@ == hyphenated(self@),
    {
        uuid_text(self.value)
    }

    /// Reads an identifier; what `to_string` wrote is read back.
    pub fn parse_text(s: &str) -> (r: Result<FileId, ParseIdError>)
        ensures
            match r {
                Ok(id) => (uuid_parsed(s@) matches Ok(u) && u == id@),
                Err(e) => (uuid_parsed(s@) matches Err(t) && t == e.message@),
            },
            forall|id: FileId| s@ == hyphenated(#[trigger] id@) ==> (r matches Ok(w) && w == id),
    {
        match parse_uuid(s) {
            Ok(value) => Ok(FileId { value }),
            Err(message) => Err(ParseIdError { message }),
        }
    }
}

impl Default for FileId {
    /// A fresh random identifier.
    fn default() -> (id: FileId)
        ensures
            is_random_uuid(id@),
    {
        FileId::new()
    }
}

impl FromStr for FileId {
    type Err = ParseIdError;

    /// Reads an identifier; what `to_string` wrote is read back.
    fn from_str(s: &str) -> (r: Result<FileId, ParseIdError>)
        ensures
            match r {
                Ok(id) => (uuid_parsed(s@) matches Ok(u) && u == id@),
                Err(e) => (uuid_parsed(s@) matches Err(t) && t == e.message@),
            },
            forall|id: FileId| s@ == hyphenated(#[trigger] id@) ==> (r matches Ok(w) && w == id),
    {
        FileId::parse_text(s)
    }
}

/// Identifier of one worker within one engine session.
#[derive(Debug, Clone, Copy, PartialEq, Eq, Structural, Hash, PartialOrd, Ord)]
pub struct WorkerId {
    value: u128,
}

impl WorkerId {
    /// The 128-bit value.
    pub closed spec fn view(&self) -> u128 {
        self.value
    }

    /// Identifiers with the same value are the same.
    pub broadcast proof fn same_value(a: WorkerId, b: WorkerId)
        ensures
            #[trigger] a.view() == #[trigger] b.view() ==> a == b,
    {
    }

    /// A fresh random identifier.
    pub fn new() -> (id: WorkerId)
        ensures
            is_random_uuid(id@),
    {
        WorkerId { value: random_uuid() }
    }

    /// The identifier of a given value.
    pub fn from_value(value: u128) -> (id: WorkerId)
        ensures
            id@ == value,
    {
        WorkerId { value }
    }

    /// The value, for instance to store it.
    pub fn as_uuid(&self) -> (v: u128)
        ensures
            v == self@,
    {
        self.value
    }

    /// The identifier as people read it.
    pub fn to_string(&self) -> (s: String)
        ensures
            s@ == hyphenated(self@),
    {
        uuid_text(self.value)
    }

    /// Reads an identifier; what `to_string` wrote is read back.
    pub fn parse_text(s: &str) -> (r: Result<WorkerId, ParseIdError>)
        ensures
            match r {
                Ok(id) => (uuid_parsed(s@) matches Ok(u) && u == id@),
                Err(e) => (uuid_parsed(s@) matches Err(t) && t == e.message@),
            },
            forall|id: WorkerId| s@ == hyphenated(#[trigger] id@) ==> (r matches Ok(w) && w == id),
    {
        match parse_uuid(s) {
            Ok(value) => Ok(WorkerId { value }),
            Err(message) => Err(ParseIdError { message }),
        }
    }
}

impl Default for WorkerId {
    /// A fresh random identifier.
    fn default() -> (id: WorkerId)
        ensures
            is_random_uuid(id@),
    {
        WorkerId::new()
    }
}

impl FromStr for WorkerId {
    type Err = ParseIdError;

    /// Reads an identifier; what `to_string` wrote is read back.
    fn from_str(s: &str) -> (r: Result<WorkerId, ParseIdError>)
        ensures
            match r {
                Ok(id) => (uuid_parsed(s@) matches Ok(u) && u == id@),
                Err(e) => (uuid_parsed(s@) matches Err(t) && t == e.message@),
            },
            forall|id: WorkerId| s@ == hyphenated(#[trigger] id@) ==> (r matches Ok(w) && w == id),
    {
        WorkerId::parse_text(s)
    }
}

/// Identifier of one attempt of one worker to fetch one piece.
#[derive(Debug, Clone, Copy, PartialEq, Eq, Structural, Hash, PartialOrd, Ord)]
pub struct AttemptId {
    value: u128,
}

impl AttemptId {
    /// The 128-bit value.
    pub closed spec fn view(&self) -> u128 {
        self.value
    }

    /// Identifiers with the same value are the same.
    pub broadcast proof fn same_value(a: AttemptId, b: AttemptId)
        ensures
            #[trigger] a.view() == #[trigger] b.view() ==> a == b,
    {
    }

    /// A fresh random identifier.
    pub fn new() -> (id: AttemptId)
        ensures
            is_random_uuid(id@),
    {
        AttemptId { value: random_uuid() }
    }

    /// The identifier of a given value.
    pub fn from_value(value: u128) -> (id: AttemptId)
        ensures
            id@ == value,
    {
        AttemptId { value }
    }

    /// The value, for instance to store it.
    pub fn as_uuid(&self) -> (v: u128)
        ensures
            v == self@,
    {
        self.value
    }

    /// The identifier as people read it.
    pub fn to_string(&self) -> (s: String)
        ensures
            s@ == hyphenated(self@),
    {
        uuid_text(self.value)
    }

    /// Reads an identifier; what `to_string` wrote is read back.
    pub fn parse_text(s: &str) -> (r: Result<AttemptId, ParseIdError>)
        ensures
            match r {
                Ok(id) => (uuid_parsed(s@) matches Ok(u) && u == id@),
                Err(e) => (uuid_parsed(s@) matches Err(t) && t == e.message@),
            },
            forall|id: AttemptId| s@ == hyphenated(#[trigger] id@) ==> (r matches Ok(w) && w == id),
    {
        match parse_uuid(s) {
            Ok(value) => Ok(AttemptId { value }),
            Err(message) => Err(ParseIdError { message }),
        }
    }
}

impl Default for AttemptId {
    /// A fresh random identifier.
    fn default() -> (id: AttemptId)
        ensures
            is_random_uuid(id@),
    {
        AttemptId::new()
    }
}

impl FromStr for AttemptId {
    type Err = ParseIdError;

    /// Reads an identifier; what `to_string` wrote is read back.
    fn from_str(s: &str) -> (r: Result<AttemptId, ParseIdError>)
        ensures
            match r {
                Ok(id) => (uuid_parsed(s@) matches Ok(u) && u == id@),
                Err(e) => (uuid_parsed(s@) matches Err(t) && t == e.message@),
            },
            forall|id: AttemptId| s@ == hyphenated(#[trigger] id@) ==> (r matches Ok(w) && w == id),
    {
        AttemptId::parse_text(s)
    }
}

} // verus!
