//! Raw queries: the body of the response, undecoded.

use crate::client::{Client, Response};
use crate::endpoint::Endpoint;
use crate::error::ApiError;
use crate::json::{json_string, parse_string};
use crate::query::{
    is_success, redirection, send, sent, status_is_success, Query, MOVED_PERMANENTLY,
};
use vstd::prelude::*;

verus! {

/// A query modifier that returns the raw data from the endpoint.
#[derive(Debug, Clone, Copy, PartialEq, Eq)]
pub struct Raw<E> {
    endpoint: E,
}

impl<E> View for Raw<E> {
    type V = E;

    /// The endpoint that is queried.
    closed spec fn view(&self) -> E {
        self.endpoint
    }
}

/// Return the raw data from the endpoint.
pub fn raw<E>(endpoint: E) -> (r: Raw<E>)
    ensures
        r@ == endpoint,
{
    Raw { endpoint }
}

/// A raw query is its endpoint and nothing more: two of them for one
/// endpoint are equal.
pub proof fn lemma_raw_is_its_endpoint<E>(a: Raw<E>, b: Raw<E>)
    requires
        a@ == b@,
    ensures
        a == b,
{
}

/// Whether `e` is the error of a raw query for a response with the status
/// `status` and the body `body`, where `message` is the text read from the
/// body if the body is one JSON string: the message where there is one, the
/// status and the bytes as they came where there is none.
pub open spec fn refused<X>(
    status: u16,
    body: Seq<u8>,
    message: Option<Seq<char>>,
    e: ApiError<X>,
) -> bool {
    match message {
        Some(msg) => e.is_message(msg),
        None => e.is_server_error(status, body),
    }
}

/// Whether `r` is what a raw query makes of the response `rsp`, where
/// `message` is the text read from its body if the body is one JSON string.
///
/// A success status yields the body as it came, with no attempt to read it.
/// Any other status is an error, as [`refused`] says.
pub open spec fn raw_outcome<X>(
    rsp: Response,
    message: Option<Seq<char>>,
    r: Result<Vec<u8>, ApiError<X>>,
) -> bool {
    if is_success(rsp.status) {
        r == Ok::<Vec<u8>, ApiError<X>>(rsp.body)
    } else {
        r is Err && refused(rsp.status, rsp.body@, message, r->Err_0)
    }
}

/// The error for a response with a status that is no success, given the
/// message that was read from its body, or `None` where the body is no
/// JSON string.
pub fn refusal<X>(status: u16, body: &Vec<u8>, message: Option<String>) -> (e: ApiError<X>)
    ensures
        refused(
            status,
            body@,
            match message {
                Some(msg) => Some(msg@),
                None => None,
            },
            e,
        ),
        message matches Some(msg) ==> e == (ApiError::<X>::Alpaca { msg }),
{
    match message {
        Some(msg) => ApiError::Alpaca { msg },
        None => ApiError::server_error(status, body),
    }
}

/// Judge a response by its status and hand out its body.
pub fn raw_response<X>(rsp: Response) -> (r: Result<Vec<u8>, ApiError<X>>)
    ensures
        raw_outcome(rsp, json_string(rsp.body@), r),
{
    let status = rsp.status;
    if !status_is_success(status) {
        let message = match parse_string(rsp.body.as_slice()) {
            Ok(msg) => Some(msg),
            Err(_) => None,
        };
        return Err(refusal(status, &rsp.body, message));
    } else if status == MOVED_PERMANENTLY {
        // No success status is a redirect: this test never holds here.
        return Err(redirection(&rsp));
    }
    Ok(rsp.body)
}

/// Whether `r` is what a raw query of `endpoint` against `client` returns:
/// an error up to the client's answer is handed on, and a response is
/// judged as [`raw_outcome`] says.
pub open spec fn answered_raw<E: Endpoint, C: Client>(
    endpoint: &E,
    client: &C,
    r: Result<Vec<u8>, ApiError<C::Error>>,
) -> bool {
    exists|answer: Result<Response, ApiError<C::Error>>|
        #![trigger sent(endpoint, client, answer)]
        sent(endpoint, client, answer) && match answer {
            Err(e) => r == Err::<Vec<u8>, ApiError<C::Error>>(e),
            Ok(rsp) => raw_outcome(rsp, json_string(rsp.body@), r),
        }
}

impl<E, C> Query<Vec<u8>, C> for Raw<E> where E: Endpoint, C: Client {
    fn query(&self, client: &C) -> (r: Result<Vec<u8>, ApiError<C::Error>>)
        ensures
            answered_raw(&self@, client, r),
    {
        match send(&self.endpoint, client) {
            Err(e) => Err(e),
            Ok(rsp) => raw_response(rsp),
        }
    }
}

/// A raw query never reports a redirect of its own: the status "moved
/// permanently" is no success, so the response is an error with the message
/// of its body, or with its status and bytes where the body has none.
pub proof fn lemma_raw_redirect_is_refused<X>(
    rsp: Response,
    message: Option<Seq<char>>,
    r: Result<Vec<u8>, ApiError<X>>,
)
    requires
        raw_outcome(rsp, message, r),
    ensures
        !(r matches Err(ApiError::MovedPermanently { .. })),
        rsp.status == MOVED_PERMANENTLY ==> r is Err && refused(
            MOVED_PERMANENTLY,
            rsp.body@,
            message,
            r->Err_0,
        ),
{
}

/// A raw query returns the body of a successful response as it came,
/// whatever the body is.
pub proof fn lemma_raw_success_is_body<X>(
    rsp: Response,
    message: Option<Seq<char>>,
    r: Result<Vec<u8>, ApiError<X>>,
)
    requires
        is_success(rsp.status),
        raw_outcome(rsp, message, r),
    ensures
        r == Ok::<Vec<u8>, ApiError<X>>(rsp.body),
{
}

} // verus!
