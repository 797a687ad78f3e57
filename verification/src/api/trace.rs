//! Identifiers by which the work of one request is found in the logs.

use vstd::prelude::*;
use crate::domain::id::{hyphenated, is_random_uuid, random_uuid, uuid_text};

verus! {

/// The identifiers that accompany a request.
#[derive(Clone, Debug, PartialEq, Eq)]
pub struct CorrelationIds {
    pub session_id: String,
    pub request_id: String,
}

/// Whether `id` is what the client sent, or a fresh identifier where it sent none.
pub open spec fn given_or_fresh(sent: Option<String>, id: String) -> bool {
    match sent {
        Some(s) => id == s,
        None => exists|v: u128| is_random_uuid(v) && id@ == #[trigger] hyphenated(v),
    }
}

/// What the client sent, or a fresh identifier.
fn or_fresh(sent: Option<String>) -> (id: String)
    ensures
        given_or_fresh(sent, id),
{
    match sent {
        Some(s) => s,
        None => uuid_text(random_uuid()),
    }
}

/// The identifiers of a request, from its `session-id` and `request-id` headers.
pub fn correlation_ids(session_id: Option<String>, request_id: Option<String>) -> (ids:
    CorrelationIds)
    ensures
        given_or_fresh(session_id, ids.session_id),
        given_or_fresh(request_id, ids.request_id),
{
    CorrelationIds { session_id: or_fresh(session_id), request_id: or_fresh(request_id) }
}

/// Gives every request its identifiers.
#[derive(Clone, Copy, Default)]
pub struct TraceInterceptor;

impl TraceInterceptor {
    /// The identifiers of a request.
    pub fn identify(&self, session_id: Option<String>, request_id: Option<String>) -> (ids:
        CorrelationIds)
        ensures
            given_or_fresh(session_id, ids.session_id),
            given_or_fresh(request_id, ids.request_id),
    {
        correlation_ids(session_id, request_id)
    }
}

/// What a client sends as an identifier is kept; only a client that sends none gets a fresh one.
pub proof fn sent_identifiers_are_kept(sent: Option<String>, id: String)
    requires
        given_or_fresh(sent, id),
    ensures
        sent is Some ==> sent == Some(id),
        sent is None ==> exists|v: u128| is_random_uuid(v) && id@ == #[trigger] hyphenated(v),
{
}

} // verus!
