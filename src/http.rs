//! The decisions of the HTTP front: which operation a request asks for, and the reply
//! to each outcome.

use vstd::prelude::*;
use crate::keys::starts_with;
use crate::storage::StoreError;

verus! {

/// The operation that a request asks for.
#[derive(PartialEq, Eq, Structural, Clone, Copy, Debug)]
pub enum Route {
    /// `GET /`: the greeting.
    Home,
    /// `GET /health`: the health check.
    Health,
    /// `POST /msg`: store a message for delivery.
    StoreMessage,
    /// Anything else.
    NotFound,
}

/// The route of a request with this method and path.
pub open spec fn route_of(method: Seq<char>, path: Seq<char>) -> Route {
    if method == "GET"@ && path == "/"@ {
        Route::Home
    } else if method == "GET"@ && path == "/health"@ {
        Route::Health
    } else if method == "POST"@ && path == "/msg"@ {
        Route::StoreMessage
    } else {
        Route::NotFound
    }
}

/// Whether `a` and `b` hold the same text.
pub fn same_text(a: &str, b: &str) -> (r: bool)
    ensures
        r == (a@ == b@),
{
    let r = a.unicode_len() == b.unicode_len() && starts_with(a, b);
    if r {
        assert(a@ =~= b@);
    }
    r
}

/// Routes a request by its method and path.
pub fn route(method: &str, path: &str) -> (r: Route)
    ensures
        r == route_of(method@, path@),
{
    if same_text(method, "GET") && same_text(path, "/") {
        Route::Home
    } else if same_text(method, "GET") && same_text(path, "/health") {
        Route::Health
    } else if same_text(method, "POST") && same_text(path, "/msg") {
        Route::StoreMessage
    } else {
        Route::NotFound
    }
}

/// A plain-text HTTP reply.
#[derive(Debug, PartialEq, Eq, Clone)]
pub struct Reply {
    pub status: u16,
    pub body: String,
}

/// The greeting.
pub fn home_reply() -> (r: Reply)
    ensures
        r.status == 200,
        r.body@ == "Message in a Bottle\u{2122}"@,
{
    Reply { status: 200, body: String::from_str("Message in a Bottle\u{2122}") }
}

/// The reply to an unknown route.
pub fn not_found_reply() -> (r: Reply)
    ensures
        r.status == 404,
        r.body@ == "Not found"@,
{
    Reply { status: 404, body: String::from_str("Not found") }
}

/// The reply to the health check: `200` when the store accepted the probe, else `500`
/// with the store's diagnostic.
pub fn health_reply(outcome: Result<(), StoreError>) -> (r: Reply)
    ensures
        outcome is Ok ==> r.status == 200 && r.body@ == "All good!"@,
        outcome matches Err(e) ==> r.status == 500 && r.body@ == e.detail@,
{
    match outcome {
        Ok(()) => Reply { status: 200, body: String::from_str("All good!") },
        Err(e) => Reply { status: 500, body: e.detail },
    }
}

/// The reply to a message submission: `400` when the body held no message (`None`),
/// `200` once the store accepted it, `500` when the store failed.
pub fn store_reply(outcome: Option<Result<String, StoreError>>) -> (r: Reply)
    ensures
        outcome is None ==> r.status == 400 && r.body@ == "Invalid bottle"@,
        outcome matches Some(Ok(_)) ==> r.status == 200 && r.body@ == "Gotcha! ACK"@,
        outcome matches Some(Err(_)) ==> r.status == 500 && r.body@ == "Something went wrong"@,
{
    match outcome {
        None => Reply { status: 400, body: String::from_str("Invalid bottle") },
        Some(Ok(_)) => Reply { status: 200, body: String::from_str("Gotcha! ACK") },
        Some(Err(_)) => Reply { status: 500, body: String::from_str("Something went wrong") },
    }
}

} // verus!
