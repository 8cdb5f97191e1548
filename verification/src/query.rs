//! Queries: an endpoint, driven through a client.

use crate::client::{Client, Request, Response, RestClient};
use crate::endpoint::{Endpoint, Method, UrlBase};
use crate::error::{ApiError, BodyError};
use crate::headers::{location_bytes, location_of, location_text};
use crate::json::{is_json, json_document, parse_value};
use crate::params::{query_fits, with_query_pairs, QueryParams};
use crate::urls::url_text;
use serde_json::Value;
use std::borrow::Cow;
use url::Url;
use vstd::prelude::*;

verus! {

/// The status code "moved permanently".
pub const MOVED_PERMANENTLY: u16 = 301;

/// Whether `status` is a success code: 200 to 299.
pub open spec fn is_success(status: u16) -> bool {
    200 <= status < 300
}

/// Whether `status` is a success code.
pub fn status_is_success(status: u16) -> (b: bool)
    ensures
        b == is_success(status),
{
    200 <= status && status < 300
}

/// A trait which represents a query which may be made to a client.
pub trait Query<T, C: Client> {
    /// Perform the query against the client.
    fn query(&self, client: &C) -> Result<T, ApiError<C::Error>>;
}

/// The path of an endpoint, borrowed.
fn path_str<'a>(path: &'a Cow<'static, str>) -> (s: &'a str)
    ensures
        s@ == path@,
{
    match path {
        Cow::Borrowed(text) => text,
        Cow::Owned(text) => text.as_str(),
    }
}

/// Whether `request` and `data` are what a query hands to the client for an
/// endpoint with the method `method`, the parameters `params` and the body
/// `body`, once the client has resolved the endpoint's path to `url`.
pub open spec fn handed_over(
    request: Request,
    data: Vec<u8>,
    method: Method,
    url: Url,
    params: QueryParams,
    body: Option<(&'static str, Vec<u8>)>,
) -> bool {
    &&& request.method == method
    &&& url_text(request.url) == with_query_pairs(url_text(url), params@)
    &&& match body {
        Some((mime, bytes)) => request.content_type == Some(mime) && data == bytes,
        None => request.content_type is None && data@.len() == 0,
    }
}

/// Whether `r` is what comes of sending the request for `endpoint` to
/// `client`, once the client has resolved the endpoint's path to `url`.
///
/// The endpoint is asked for its parameters, its method and its body, in
/// this order. Parameters that the URL has no room for end the query with
/// the overflow error of URL parsing, a body that cannot be built with the
/// endpoint's own error; otherwise `r` is the client's answer to the request.
pub open spec fn dispatched<E: Endpoint, C: Client>(
    endpoint: &E,
    client: &C,
    url: Url,
    r: Result<Response, ApiError<C::Error>>,
) -> bool {
    exists|params: QueryParams|
        #![trigger call_ensures(E::parameters, (endpoint,), params)]
        call_ensures(E::parameters, (endpoint,), params) && if !query_fits(
            url_text(url),
            params@,
        ) {
            r == Err::<Response, ApiError<C::Error>>(
                ApiError::UrlParse { source: url::ParseError::Overflow },
            )
        } else {
            exists|method: Method, body: Result<Option<(&'static str, Vec<u8>)>, BodyError>|
                #![trigger
                    call_ensures(E::method, (endpoint,), method),
                    call_ensures(E::body, (endpoint,), body)]
                call_ensures(E::method, (endpoint,), method) && call_ensures(
                    E::body,
                    (endpoint,),
                    body,
                ) && match body {
                    Err(source) => r == Err::<Response, ApiError<C::Error>>(
                        ApiError::Body { source },
                    ),
                    Ok(body) => exists|request: Request, data: Vec<u8>|
                        #![trigger call_ensures(C::rest, (client, request, data), r)]
                        handed_over(request, data, method, url, params, body) && call_ensures(
                            C::rest,
                            (client, request, data),
                            r,
                        ),
                }
        }
}

/// Whether `r` is what comes of sending the request for `endpoint` to
/// `client`: the endpoint is asked for its URL base and its path, the client
/// resolves the path under that base, and an error there ends the query
/// before any request is built.
pub open spec fn sent<E: Endpoint, C: Client>(
    endpoint: &E,
    client: &C,
    r: Result<Response, ApiError<C::Error>>,
) -> bool {
    exists|
        base: UrlBase,
        path: Cow<'static, str>,
        asked: &str,
        resolved: Result<Url, ApiError<C::Error>>,
    |
        #![trigger
            call_ensures(E::url_base, (endpoint,), base),
            call_ensures(E::endpoint, (endpoint,), path),
            base.resolves(client, asked, resolved)]
        call_ensures(E::url_base, (endpoint,), base) && call_ensures(
            E::endpoint,
            (endpoint,),
            path,
        ) && asked@ == path@ && base.resolves(client, asked, resolved) && match resolved {
            Err(e) => r == Err::<Response, ApiError<C::Error>>(e),
            Ok(url) => dispatched(endpoint, client, url, r),
        }
}

/// Send the request for `endpoint` to `client`, once the client has
/// resolved the endpoint's path to `url`.
pub fn dispatch<E: Endpoint, C: Client>(endpoint: &E, client: &C, url: Url) -> (r: Result<
    Response,
    ApiError<C::Error>,
>)
    ensures
        dispatched(endpoint, client, url, r),
{
    let mut url = url;
    let params = endpoint.parameters();
    if !params.fits(&url) {
        return Err(ApiError::UrlParse { source: url::ParseError::Overflow });
    }
    params.add_to_url(&mut url);
    let method = endpoint.method();
    let body = endpoint.body();
    match body {
        Err(source) => {
            Err(ApiError::from(source))
        },
        Ok(content) => {
            let (request, data) = match content {
                Some((mime, data)) => (Request { method, url, content_type: Some(mime) }, data),
                None => (Request { method, url, content_type: None }, Vec::new()),
            };
            client.rest(request, data)
        },
    }
}

/// Send the request for `endpoint` to `client`.
pub fn send<E: Endpoint, C: Client>(endpoint: &E, client: &C) -> (r: Result<
    Response,
    ApiError<C::Error>,
>)
    ensures
        sent(endpoint, client, r),
{
    let base = endpoint.url_base();
    let path = endpoint.endpoint();
    let asked = path_str(&path);
    let resolved = base.endpoint_for(client, asked);
    match resolved {
        Err(e) => Err(e),
        Ok(url) => dispatch(endpoint, client, url),
    }
}

/// The error for a response that says that the resource has moved: it
/// carries the first `Location` header of the response as text, where the
/// response has one.
pub fn redirection<X>(rsp: &Response) -> (e: ApiError<X>)
    ensures
        e.is_moved(location_text(rsp.headers)),
        location_bytes(rsp.headers) matches Some(raw) ==> (vstd::utf8::valid_utf8(raw)
            ==> e.is_moved(Some(vstd::utf8::decode_utf8(raw)))),
{
    ApiError::moved_permanently(location_of(&rsp.headers))
}

/// Whether `r` is what a typed query makes of the response `rsp`, where
/// `parsed` is the JSON document read from its body, if the body is one.
///
/// A body that is no JSON document is reported as a server error with the
/// status and the bytes of the response, whatever the status. So is any
/// response whose status is no success. Every other response yields its
/// document.
pub open spec fn checked<X>(
    rsp: Response,
    parsed: Option<Value>,
    r: Result<Value, ApiError<X>>,
) -> bool {
    match parsed {
        Some(value) if is_success(rsp.status) => r == Ok::<Value, ApiError<X>>(value),
        _ => r is Err && r->Err_0.is_server_error(rsp.status, rsp.body@),
    }
}

/// Judge a response by its status, given the JSON document `parsed` that
/// was read from its body, or `None` where the body is no JSON document.
pub fn check_response<X>(rsp: &Response, parsed: Option<Value>) -> (r: Result<Value, ApiError<X>>)
    ensures
        checked(*rsp, parsed, r),
{
    let status = rsp.status;
    let value = if let Some(value) = parsed {
        value
    } else {
        return Err(ApiError::server_error(status, &rsp.body));
    };
    if !status_is_success(status) {
        return Err(ApiError::server_error(status, &rsp.body));
    } else if status == MOVED_PERMANENTLY {
        // No success status is a redirect: this test never holds here.
        return Err(redirection(rsp));
    }
    Ok(value)
}

/// Read the body of a response as a JSON document and judge the response.
pub fn read_response<X>(rsp: &Response) -> (r: Result<Value, ApiError<X>>)
    ensures
        checked(*rsp, json_document(rsp.body@), r),
{
    let parsed = match parse_value(rsp.body.as_slice()) {
        Ok(value) => Some(value),
        Err(_) => None,
    };
    check_response(rsp, parsed)
}

/// Whether `r` is what a typed query makes of `outcome`, the outcome of
/// decoding a document into the type called `typename`.
pub open spec fn decoded_as<T, X>(
    outcome: Result<T, serde_json::Error>,
    typename: &'static str,
    r: Result<T, ApiError<X>>,
) -> bool {
    match outcome {
        Ok(value) => r == Ok::<T, ApiError<X>>(value),
        Err(source) => r == Err::<T, ApiError<X>>(ApiError::DataType { source, typename }),
    }
}

/// Hand on a decoded value, or report that the document did not decode into
/// the type called `typename`.
pub fn decoded<T, X>(outcome: Result<T, serde_json::Error>, typename: &'static str) -> (r: Result<
    T,
    ApiError<X>,
>)
    ensures
        decoded_as(outcome, typename, r),
{
    match outcome {
        Ok(value) => Ok(value),
        Err(source) => Err(ApiError::data_type(source, typename)),
    }
}

/// Whether `r` is what a typed query makes of the response `rsp`, where the
/// target type is called `typename` and `decode` turns a JSON document into
/// it.
///
/// A body that is no JSON document, and a status that is no success, make a
/// server error with the status and the bytes of the response. Otherwise
/// the document of the body is decoded, and `r` is the decoded value or the
/// report that the document did not decode.
pub open spec fn replied<T, X, F: FnOnce(Value) -> Result<T, serde_json::Error>>(
    rsp: Response,
    typename: &'static str,
    decode: F,
    r: Result<T, ApiError<X>>,
) -> bool {
    match json_document(rsp.body@) {
        Some(value) if is_success(rsp.status) => exists|outcome: Result<T, serde_json::Error>|
            #![trigger call_ensures(decode, (value,), outcome)]
            call_ensures(decode, (value,), outcome) && decoded_as(outcome, typename, r),
        _ => r is Err && r->Err_0.is_server_error(rsp.status, rsp.body@),
    }
}

/// Whether `r` is what a typed query of `endpoint` against `client` returns
/// where the target type is called `typename` and `decode` turns a JSON
/// document into it: an error up to the client's answer is handed on, and a
/// response is judged and decoded as [`replied`] says.
pub open spec fn answered<
    E: Endpoint,
    C: Client,
    T,
    F: FnOnce(Value) -> Result<T, serde_json::Error>,
>(
    endpoint: &E,
    client: &C,
    typename: &'static str,
    decode: F,
    r: Result<T, ApiError<C::Error>>,
) -> bool {
    exists|answer: Result<Response, ApiError<C::Error>>|
        #![trigger sent(endpoint, client, answer)]
        sent(endpoint, client, answer) && match answer {
            Err(e) => r == Err::<T, ApiError<C::Error>>(e),
            Ok(rsp) => replied(rsp, typename, decode, r),
        }
}

/// Perform a typed query against the client: send the request for
/// `endpoint`, judge the response, and decode its JSON document with
/// `decode` into the type called `typename`.
pub fn query_with<E, C, T, F>(endpoint: &E, client: &C, typename: &'static str, decode: F) -> (r:
    Result<T, ApiError<C::Error>>) where
    E: Endpoint,
    C: Client,
    F: FnOnce(Value) -> Result<T, serde_json::Error>,

    requires
        forall|value: Value| decode.requires((value,)),
    ensures
        answered(endpoint, client, typename, decode, r),
{
    let rsp = match send(endpoint, client) {
        Ok(rsp) => rsp,
        Err(e) => return Err(e),
    };
    let value = match read_response(&rsp) {
        Ok(value) => value,
        Err(e) => return Err(e),
    };
    decoded(decode(value), typename)
}

/// A response with a success status whose body is a JSON document is
/// decoded: where the decoder takes the document of the body, the query
/// returns a value that the decoder gave for that document.
pub proof fn lemma_success_is_decoded<T, X, F: FnOnce(Value) -> Result<T, serde_json::Error>>(
    rsp: Response,
    typename: &'static str,
    decode: F,
    r: Result<T, ApiError<X>>,
)
    requires
        is_success(rsp.status),
        is_json(rsp.body@),
        forall|outcome: Result<T, serde_json::Error>|
            call_ensures(decode, (json_document(rsp.body@)->0,), outcome) ==> outcome is Ok,
        replied(rsp, typename, decode, r),
    ensures
        r is Ok,
        call_ensures(
            decode,
            (json_document(rsp.body@)->0,),
            Ok::<T, serde_json::Error>(r->Ok_0),
        ),
{
    let value = json_document(rsp.body@)->0;
    let outcome = choose|outcome: Result<T, serde_json::Error>|
        #![trigger call_ensures(decode, (value,), outcome)]
        call_ensures(decode, (value,), outcome) && decoded_as(outcome, typename, r);
    assert(outcome is Ok);
}

/// A body that is no JSON document is reported as a server error with the
/// status and the bytes of the response, whatever the status is, and be it
/// a success.
pub proof fn lemma_unreadable_body_is_server_error<
    T,
    X,
    F: FnOnce(Value) -> Result<T, serde_json::Error>,
>(rsp: Response, typename: &'static str, decode: F, r: Result<T, ApiError<X>>)
    requires
        !is_json(rsp.body@),
        replied(rsp, typename, decode, r),
    ensures
        r is Err,
        r->Err_0.is_server_error(rsp.status, rsp.body@),
{
}

/// The status "moved permanently" is no success: a typed query reports such
/// a response as a server error with that status and the bytes of the body,
/// whether or not the body is a JSON document and whatever the `Location`
/// header says, and never as a redirect.
pub proof fn lemma_redirect_is_server_error<T, X, F: FnOnce(Value) -> Result<T, serde_json::Error>>(
    rsp: Response,
    typename: &'static str,
    decode: F,
    r: Result<T, ApiError<X>>,
)
    requires
        rsp.status == MOVED_PERMANENTLY,
        replied(rsp, typename, decode, r),
    ensures
        r is Err,
        r->Err_0.is_server_error(MOVED_PERMANENTLY, rsp.body@),
        !(r->Err_0 is MovedPermanently),
{
}

/// A typed query makes no redirect error of its own, whatever the response.
pub proof fn lemma_no_redirect_from_response<
    T,
    X,
    F: FnOnce(Value) -> Result<T, serde_json::Error>,
>(
    rsp: Response,
    typename: &'static str,
    decode: F,
    r: Result<T, ApiError<X>>,
)
    requires
        replied(rsp, typename, decode, r),
    ensures
        !(r matches Err(ApiError::MovedPermanently { .. })),
{
}

} // verus!
