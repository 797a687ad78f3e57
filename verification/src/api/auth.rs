//! Who may call: every request shows a bearer token, where one is set.

use std::sync::Arc;
use subtle::ConstantTimeEq;
use vstd::prelude::*;
use vstd::string::StringSliceAdditionalSpecFns;
use super::status::{Code, Status};

verus! {

/// Whether a byte may stand in the text of a header: printable ASCII or a tab.
pub open spec fn visible_ascii(b: u8) -> bool {
    (32 <= b && b < 127) || b == 9
}

/// An ASCII letter in lower case; other bytes as they are.
pub open spec fn lower(b: u8) -> u8 {
    if 65 <= b <= 90 {
        (b + 32) as u8
    } else {
        b
    }
}

/// The bytes with ASCII letters in lower case.
pub open spec fn lowered(s: Seq<u8>) -> Seq<u8> {
    s.map_values(|b: u8| lower(b))
}

/// What stands before the token: the word `bearer` and a blank.
pub open spec fn scheme() -> Seq<u8> {
    seq![98u8, 101u8, 97u8, 114u8, 101u8, 114u8, 32u8]
}

/// Whether a header names the scheme, in whatever case.
pub open spec fn names_scheme(raw: Seq<u8>) -> bool {
    raw.len() >= scheme().len() && lowered(raw.take(scheme().len() as int)) == scheme()
}

/// Calls `ct_eq` of `subtle` on two byte slices and turns its choice into a truth value,
/// which says whether they are equal. The time that it takes depends on their lengths alone,
/// which is not stated here.
#[verifier::external_body]
fn constant_time_eq(a: &[u8], b: &[u8]) -> (r: bool)
    ensures
        r == (a@ == b@),
{
    a.ct_eq(b).into()
}

/// Whether all bytes may stand in the text of a header.
fn is_header_text(raw: &[u8]) -> (r: bool)
    ensures
        r == (forall|i: int| 0 <= i < raw@.len() ==> visible_ascii(#[trigger] raw@[i])),
{
    let mut i: usize = 0;
    while i < raw.len()
        invariant
            i <= raw@.len(),
            forall|j: int| 0 <= j < i ==> visible_ascii(#[trigger] raw@[j]),
        decreases raw@.len() - i,
    {
        let b: u8 = raw[i];
        if !((32 <= b && b < 127) || b == 9) {
            assert(!visible_ascii(raw@[i as int]));
            return false;
        }
        i = i + 1;
    }
    true
}

/// An ASCII letter in lower case; other bytes as they are.
fn to_lower(b: u8) -> (r: u8)
    ensures
        r == lower(b),
{
    if 65 <= b && b <= 90 {
        b + 32
    } else {
        b
    }
}

/// Whether a header names the scheme.
fn starts_with_scheme(raw: &[u8]) -> (r: bool)
    ensures
        r == names_scheme(raw@),
{
    if raw.len() < 7 {
        return false;
    }
    let r: bool = to_lower(raw[0]) == 98 && to_lower(raw[1]) == 101 && to_lower(raw[2]) == 97
        && to_lower(raw[3]) == 114 && to_lower(raw[4]) == 101 && to_lower(raw[5]) == 114
        && to_lower(raw[6]) == 32;
    proof {
        let low = lowered(raw@.take(7));
        if r {
            assert(low =~= scheme());
        } else {
            assert(low[0] != scheme()[0] || low[1] != scheme()[1] || low[2] != scheme()[2]
                || low[3] != scheme()[3] || low[4] != scheme()[4] || low[5] != scheme()[5] || low[6]
                != scheme()[6]);
        }
    }
    r
}

/// Whether a request with this `authorization` header may pass, where `expected` is the
/// token to be shown; and the text of the answer if it may not.
pub open spec fn bearer_refusal(header: Option<&[u8]>, expected: Seq<u8>) -> Option<Seq<char>> {
    match header {
        None => Some("missing authorization header"@),
        Some(raw) => if !(forall|i: int|
            0 <= i < raw@.len() ==> visible_ascii(#[trigger] raw@[i])) {
            Some("authorization header is not ASCII"@)
        } else if !names_scheme(raw@) {
            Some("expected `bearer <token>` scheme"@)
        } else if raw@.skip(scheme().len() as int) != expected {
            Some("invalid token"@)
        } else {
            None
        },
    }
}

/// Checks the `authorization` header of a request against the token that is expected.
pub fn check_bearer(header: Option<&[u8]>, expected: &str) -> (r: Result<(), Status>)
    ensures
        match bearer_refusal(header, expected.spec_bytes()) {
            None => r is Ok,
            Some(text) => r matches Err(s) && s.says(Code::Unauthenticated, text),
        },
        r matches Err(s) ==> s.code is Unauthenticated,
{
    let raw: &[u8] = match header {
        None => {
            return Err(Status::new(Code::Unauthenticated, "missing authorization header"));
        },
        Some(raw) => raw,
    };
    if !is_header_text(raw) {
        return Err(Status::new(Code::Unauthenticated, "authorization header is not ASCII"));
    }
    if !starts_with_scheme(raw) {
        return Err(Status::new(Code::Unauthenticated, "expected `bearer <token>` scheme"));
    }
    let token: &[u8] = vstd::slice::slice_subrange(raw, 7, raw.len());
    assert(token@ =~= raw@.skip(7));
    if !constant_time_eq(token, expected.as_bytes()) {
        return Err(Status::new(Code::Unauthenticated, "invalid token"));
    }
    Ok(())
}

/// Lets requests pass that show the token; all of them, where none is set.
#[derive(Clone, Default)]
pub struct AuthInterceptor {
    expected: Option<Arc<String>>,
}

impl AuthInterceptor {
    /// The token that requests have to show.
    pub closed spec fn view(&self) -> Option<Seq<char>> {
        match self.expected {
            Some(s) => Some((*s)@),
            None => None,
        }
    }

    /// An interceptor for a token, or for none.
    pub fn new(expected: Option<Arc<String>>) -> (a: AuthInterceptor)
        ensures
            a@ == match expected {
                Some(s) => Some((*s)@),
                None => None,
            },
    {
        AuthInterceptor { expected }
    }

    /// Whether a request with this `authorization` header may pass.
    pub fn authorize(&self, header: Option<&[u8]>) -> (r: Result<(), Status>)
        ensures
            match self@ {
                None => r is Ok,
                Some(token) => match bearer_refusal(header, vstd::utf8::encode_utf8(token)) {
                    None => r is Ok,
                    Some(text) => r matches Err(s) && s.says(Code::Unauthenticated, text),
                },
            },
    {
        match &self.expected {
            Some(expected) => check_bearer(header, expected.as_str()),
            None => Ok(()),
        }
    }
}

/// The header that a client has to send to pass: the scheme followed by the token, if the
/// token is printable ASCII.
pub proof fn right_token_passes(raw: &[u8], token: Seq<u8>)
    requires
        raw@ == scheme() + token,
        forall|i: int| 0 <= i < token.len() ==> visible_ascii(#[trigger] token[i]),
    ensures
        bearer_refusal(Some(raw), token) is None,
{
    assert(raw@.take(7) =~= scheme());
    assert(lowered(scheme()) =~= scheme());
    assert(raw@.skip(7) =~= token);
    assert forall|i: int| 0 <= i < raw@.len() implies visible_ascii(#[trigger] raw@[i]) by {
        if i >= 7 {
            assert(raw@[i] == token[i - 7]);
        }
    }
}

/// A request that shows another token, or none, does not pass.
pub proof fn wrong_token_is_refused(header: Option<&[u8]>, token: Seq<u8>)
    requires
        header matches Some(raw) ==> raw@.len() < 7 || raw@.skip(7) != token,
    ensures
        bearer_refusal(header, token) is Some,
{
}

/// A request passes exactly where its header is printable ASCII, begins with the word `bearer`, in
/// whatever case, and one blank, and goes on with the token and nothing more.
pub proof fn passing_header_is_bearer_and_token(raw: &[u8], token: Seq<u8>)
    ensures
        bearer_refusal(Some(raw), token) is None <==> {
            &&& raw@.len() == 7 + token.len()
            &&& raw@[0] == 98 || raw@[0] == 66
            &&& raw@[1] == 101 || raw@[1] == 69
            &&& raw@[2] == 97 || raw@[2] == 65
            &&& raw@[3] == 114 || raw@[3] == 82
            &&& raw@[4] == 101 || raw@[4] == 69
            &&& raw@[5] == 114 || raw@[5] == 82
            &&& raw@[6] == 32
            &&& raw@.skip(7) == token
            &&& forall|i: int|
                0 <= i < raw@.len() ==> #[trigger] raw@[i] == 9 || (32 <= raw@[i] && raw@[i] < 127)
        },
{
    let written = forall|i: int|
        0 <= i < raw@.len() ==> #[trigger] raw@[i] == 9 || (32 <= raw@[i] && raw@[i] < 127);
    if written {
        assert forall|i: int| 0 <= i < raw@.len() implies visible_ascii(#[trigger] raw@[i]) by {}
    } else {
        let i = choose|i: int|
            0 <= i < raw@.len() && !(#[trigger] raw@[i] == 9 || (32 <= raw@[i] && raw@[i] < 127));
        assert(!visible_ascii(raw@[i]));
    }
    if raw@.len() >= 7 {
        let low = lowered(raw@.take(7));
        assert forall|i: int| 0 <= i < 7 implies low[i] == lower(raw@[i]) by {}
        if lower(raw@[0]) == 98 && lower(raw@[1]) == 101 && lower(raw@[2]) == 97 && lower(raw@[3])
            == 114 && lower(raw@[4]) == 101 && lower(raw@[5]) == 114 && lower(raw@[6]) == 32 {
            assert(low =~= scheme());
        } else {
            assert(low[0] != scheme()[0] || low[1] != scheme()[1] || low[2] != scheme()[2]
                || low[3] != scheme()[3] || low[4] != scheme()[4] || low[5] != scheme()[5]
                || low[6] != scheme()[6]);
        }
    }
}

/// A refusal says what is wrong with the header, and the first thing that is: it is missing, it is
/// not ASCII, it names another scheme, or it shows another token.
pub proof fn refusals_name_the_first_fault(header: Option<&[u8]>, token: Seq<u8>)
    ensures
        header is None ==> bearer_refusal(header, token) == Some("missing authorization header"@),
        header matches Some(raw) ==> {
            let written = forall|i: int|
                0 <= i < raw@.len() ==> visible_ascii(#[trigger] raw@[i]);
            &&& !written ==> bearer_refusal(header, token) == Some(
                "authorization header is not ASCII"@,
            )
            &&& written && raw@.len() < 7 ==> bearer_refusal(header, token) == Some(
                "expected `bearer <token>` scheme"@,
            )
            &&& written && names_scheme(raw@) && raw@.skip(7) != token ==> bearer_refusal(
                header,
                token,
            ) == Some("invalid token"@)
        },
{
}

} // verus!
