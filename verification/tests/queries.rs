use alpaca_api::account::TradingAccount;
use alpaca_api::client::{Client, Request, Response, RestClient};
use alpaca_api::endpoint::{Endpoint, Method, UrlBase};
use alpaca_api::error::{ApiError, BodyError};
use alpaca_api::options_contract::OptionsContract;
use alpaca_api::params::QueryParams;
use alpaca_api::query::{
    check_response, decoded, query_with, read_response, redirection, send, status_is_success,
    Query, MOVED_PERMANENTLY,
};
use alpaca_api::raw::{raw, raw_response, refusal};
use http::{HeaderMap, HeaderValue};
use std::borrow::Cow;
use std::cell::RefCell;
use std::collections::BTreeMap;
use url::Url;

#[derive(Debug, PartialEq)]
struct Down;

struct Seen {
    method: Method,
    url: String,
    content_type: Option<&'static str>,
    body: Vec<u8>,
}

/// A client that answers every request with one canned response.
struct Canned {
    status: u16,
    location: Option<&'static str>,
    body: &'static [u8],
    seen: RefCell<Vec<Seen>>,
}

impl Canned {
    fn answering(status: u16, body: &'static [u8]) -> Canned {
        Canned { status, location: None, body, seen: RefCell::new(Vec::new()) }
    }
}

impl RestClient for Canned {
    type Error = Down;

    fn rest_endpoint(&self, endpoint: &str) -> Result<Url, ApiError<Down>> {
        let root = Url::parse("https://paper-api.alpaca.markets/v2/").unwrap();
        root.join(endpoint).map_err(|source| ApiError::UrlParse { source })
    }
}

impl Client for Canned {
    fn rest(&self, request: Request, body: Vec<u8>) -> Result<Response, ApiError<Down>> {
        self.seen.borrow_mut().push(Seen {
            method: request.method,
            url: request.url.as_str().to_string(),
            content_type: request.content_type,
            body,
        });
        let mut headers = HeaderMap::new();
        if let Some(location) = self.location {
            headers.insert(http::header::LOCATION, HeaderValue::from_static(location));
        }
        Ok(Response { status: self.status, headers, body: self.body.to_vec() })
    }
}

/// A client that knows no URL base and fails the test if it is sent a request.
struct Rootless;

impl RestClient for Rootless {
    type Error = Down;

    fn rest_endpoint(&self, _endpoint: &str) -> Result<Url, ApiError<Down>> {
        Err(ApiError::unsupported_url_base(UrlBase::ApiV2))
    }
}

impl Client for Rootless {
    fn rest(&self, _request: Request, _body: Vec<u8>) -> Result<Response, ApiError<Down>> {
        panic!("a request was built for a client that resolves no URL")
    }
}

/// A client whose transport is down.
struct Offline;

impl RestClient for Offline {
    type Error = Down;

    fn rest_endpoint(&self, endpoint: &str) -> Result<Url, ApiError<Down>> {
        Canned::answering(200, b"").rest_endpoint(endpoint)
    }
}

impl Client for Offline {
    fn rest(&self, _request: Request, _body: Vec<u8>) -> Result<Response, ApiError<Down>> {
        Err(ApiError::client(Down))
    }
}

/// An endpoint with parameters and a body.
struct PlaceOrder {
    broken: bool,
}

impl Endpoint for PlaceOrder {
    fn method(&self) -> Method {
        Method::Post
    }

    fn endpoint(&self) -> Cow<'static, str> {
        "orders".into()
    }

    fn parameters(&self) -> QueryParams {
        let mut params = QueryParams::new();
        params.push("status", "open now");
        params.push("limit", "5&6");
        params
    }

    fn body(&self) -> Result<Option<(&'static str, Vec<u8>)>, BodyError> {
        if self.broken {
            let source = serde_json::from_slice::<serde_json::Value>(b"{").unwrap_err();
            return Err(BodyError::JsonEncoded { source });
        }
        Ok(Some(("application/json", b"{\"qty\":1}".to_vec())))
    }
}

#[derive(Debug, PartialEq)]
struct User {
    account_number: String,
    currency: String,
}

fn decode_user(value: serde_json::Value) -> Result<User, serde_json::Error> {
    let fields: BTreeMap<String, String> = serde_json::from_value(value)?;
    Ok(User {
        account_number: fields.get("account_number").cloned().unwrap_or_default(),
        currency: fields.get("currency").cloned().unwrap_or_default(),
    })
}

fn response(status: u16, body: &[u8]) -> Response {
    Response { status, headers: HeaderMap::new(), body: body.to_vec() }
}

fn document(text: &str) -> serde_json::Value {
    serde_json::from_str(text).unwrap()
}

#[test]
fn typed_query_decodes_the_account() {
    let client = Canned::answering(200, b"{\"account_number\":\"123\",\"currency\":\"USD\"}");
    let endpoint = TradingAccount::builder().build().unwrap();
    let user = query_with(&endpoint, &client, "User", decode_user).unwrap();
    assert_eq!(user, User { account_number: "123".to_string(), currency: "USD".to_string() });
}

#[test]
fn typed_query_hands_the_described_request_to_the_client() {
    let client = Canned::answering(200, b"{}");
    let endpoint = TradingAccount::builder().build().unwrap();
    query_with(&endpoint, &client, "Value", Ok).unwrap();
    let seen = client.seen.borrow();
    assert_eq!(seen.len(), 1);
    assert_eq!(seen[0].method, Method::Get);
    assert_eq!(seen[0].url, "https://paper-api.alpaca.markets/v2/account?");
    assert_eq!(seen[0].content_type, None);
    assert_eq!(seen[0].body, Vec::<u8>::new());
}

#[test]
fn request_carries_parameters_body_and_content_type() {
    let client = Canned::answering(200, b"[]");
    let rsp = send(&PlaceOrder { broken: false }, &client).unwrap();
    assert_eq!(rsp.status, 200);
    assert_eq!(rsp.body, b"[]".to_vec());
    let seen = client.seen.borrow();
    assert_eq!(seen.len(), 1);
    assert_eq!(seen[0].method, Method::Post);
    assert_eq!(
        seen[0].url,
        "https://paper-api.alpaca.markets/v2/orders?status=open+now&limit=5%266"
    );
    assert_eq!(seen[0].content_type, Some("application/json"));
    assert_eq!(seen[0].body, b"{\"qty\":1}".to_vec());
}

#[test]
fn typed_query_reports_unreadable_body_with_status_500() {
    let client = Canned::answering(500, b"not json");
    let endpoint = TradingAccount::builder().build().unwrap();
    let err = query_with(&endpoint, &client, "User", decode_user).unwrap_err();
    match err {
        ApiError::AlpacaService { status, data } => {
            assert_eq!(status, 500);
            assert_eq!(data, b"not json".to_vec());
        },
        other => panic!("unexpected error: {:?}", other),
    }
}

#[test]
fn typed_query_reports_unreadable_body_even_with_status_200() {
    let client = Canned::answering(200, b"not json");
    let err = query_with(&TradingAccount {}, &client, "User", decode_user).unwrap_err();
    assert!(matches!(
        err,
        ApiError::AlpacaService { status: 200, ref data } if data == b"not json"
    ));
}

#[test]
fn typed_query_reports_readable_body_of_a_failure_as_server_error() {
    let client = Canned::answering(404, b"{\"message\":\"not found\"}");
    let err = query_with(&TradingAccount {}, &client, "User", decode_user).unwrap_err();
    assert!(matches!(
        err,
        ApiError::AlpacaService { status: 404, ref data } if data == b"{\"message\":\"not found\"}"
    ));
}

#[test]
fn typed_query_reports_moved_permanently_as_server_error() {
    let mut client = Canned::answering(301, b"{\"moved\":true}");
    client.location = Some("https://elsewhere.example/v2/account");
    let err = query_with(&TradingAccount {}, &client, "User", decode_user).unwrap_err();
    assert!(matches!(
        err,
        ApiError::AlpacaService { status: 301, ref data } if data == b"{\"moved\":true}"
    ));
    let mut client = Canned::answering(301, b"<html>moved</html>");
    client.location = Some("https://elsewhere.example/v2/account");
    let err = query_with(&TradingAccount {}, &client, "User", decode_user).unwrap_err();
    assert!(matches!(
        err,
        ApiError::AlpacaService { status: 301, ref data } if data == b"<html>moved</html>"
    ));
}

#[test]
fn typed_query_reports_a_document_of_another_shape() {
    let client = Canned::answering(200, b"[1, 2, 3]");
    let err = query_with(&TradingAccount {}, &client, "User", decode_user).unwrap_err();
    match err {
        ApiError::DataType { source, typename } => {
            assert_eq!(typename, "User");
            assert!(source.is_data());
        },
        other => panic!("unexpected error: {:?}", other),
    }
}

#[test]
fn raw_query_reports_the_message_of_the_service() {
    let client = Canned::answering(403, b"\"insufficient permissions\"");
    let endpoint = OptionsContract::builder().build().unwrap();
    let err = raw(endpoint).query(&client).unwrap_err();
    match err {
        ApiError::Alpaca { msg } => assert_eq!(msg, "insufficient permissions"),
        other => panic!("unexpected error: {:?}", other),
    }
    let seen = client.seen.borrow();
    assert_eq!(seen[0].url, "https://paper-api.alpaca.markets/v2/options/contracts?");
}

#[test]
fn raw_query_reports_status_and_bytes_without_a_message() {
    let client = Canned::answering(403, b"{\"message\":\"forbidden\"}");
    let err = raw(OptionsContract {}).query(&client).unwrap_err();
    assert!(matches!(
        err,
        ApiError::AlpacaService { status: 403, ref data } if data == b"{\"message\":\"forbidden\"}"
    ));
}

#[test]
fn raw_query_returns_the_body_undecoded() {
    let client = Canned::answering(200, b"not json at all");
    let body = raw(OptionsContract {}).query(&client).unwrap();
    assert_eq!(body, b"not json at all".to_vec());
    let client = Canned::answering(204, b"");
    assert_eq!(raw(&TradingAccount {}).query(&client).unwrap(), Vec::<u8>::new());
}

#[test]
fn raw_query_reports_moved_permanently_as_refusal() {
    let mut client = Canned::answering(301, b"\"gone west\"");
    client.location = Some("https://elsewhere.example/");
    let err = raw(OptionsContract {}).query(&client).unwrap_err();
    assert!(matches!(err, ApiError::Alpaca { ref msg } if msg == "gone west"));
    let mut client = Canned::answering(301, b"gone west");
    client.location = Some("https://elsewhere.example/");
    let err = raw(OptionsContract {}).query(&client).unwrap_err();
    assert!(matches!(
        err,
        ApiError::AlpacaService { status: 301, ref data } if data == b"gone west"
    ));
}

#[test]
fn unsupported_base_ends_the_query_before_a_request_is_built() {
    let typed = query_with(&TradingAccount {}, &Rootless, "User", decode_user).unwrap_err();
    assert!(matches!(typed, ApiError::UnsupportedUrlBase { url_base: UrlBase::ApiV2 }));
    let raw_err = raw(TradingAccount {}).query(&Rootless).unwrap_err();
    assert!(matches!(raw_err, ApiError::UnsupportedUrlBase { url_base: UrlBase::ApiV2 }));
    let resolved = UrlBase::ApiV2.endpoint_for(&Rootless, "account").unwrap_err();
    assert!(matches!(resolved, ApiError::UnsupportedUrlBase { url_base: UrlBase::ApiV2 }));
}

#[test]
fn endpoint_for_hands_on_what_the_client_resolved() {
    let client = Canned::answering(200, b"");
    let url = UrlBase::ApiV2.endpoint_for(&client, "assets/AAPL").unwrap();
    assert_eq!(url.as_str(), "https://paper-api.alpaca.markets/v2/assets/AAPL");
}

#[test]
fn body_error_ends_the_query_before_a_request_is_sent() {
    let client = Canned::answering(200, b"{}");
    let err = send(&PlaceOrder { broken: true }, &client).unwrap_err();
    assert!(matches!(err, ApiError::Body { source: BodyError::JsonEncoded { .. } }));
    assert_eq!(client.seen.borrow().len(), 0);
}

#[test]
fn client_error_is_handed_on() {
    let err = query_with(&TradingAccount {}, &Offline, "User", decode_user).unwrap_err();
    assert!(matches!(err, ApiError::Client { source: Down }));
    let err = raw(TradingAccount {}).query(&Offline).unwrap_err();
    assert!(matches!(err, ApiError::Client { source: Down }));
}

#[test]
fn success_is_200_to_299() {
    assert!(!status_is_success(199));
    assert!(status_is_success(200));
    assert!(status_is_success(204));
    assert!(status_is_success(299));
    assert!(!status_is_success(300));
    assert!(!status_is_success(MOVED_PERMANENTLY));
    assert!(!status_is_success(500));
    assert_eq!(MOVED_PERMANENTLY, 301);
}

#[test]
fn check_response_follows_the_order_of_the_tests() {
    let ok: Result<serde_json::Value, ApiError<Down>> =
        check_response(&response(200, b"{\"a\":1}"), Some(document("{\"a\":1}")));
    assert_eq!(ok.unwrap(), document("{\"a\":1}"));
    let unread: Result<serde_json::Value, ApiError<Down>> =
        check_response(&response(200, b"oops"), None);
    assert!(matches!(
        unread.unwrap_err(),
        ApiError::AlpacaService { status: 200, ref data } if data == b"oops"
    ));
    let failed: Result<serde_json::Value, ApiError<Down>> =
        check_response(&response(502, b"{}"), Some(document("{}")));
    assert!(matches!(
        failed.unwrap_err(),
        ApiError::AlpacaService { status: 502, ref data } if data == b"{}"
    ));
}

#[test]
fn read_response_parses_the_body() {
    let ok: Result<serde_json::Value, ApiError<Down>> = read_response(&response(201, b" [true] "));
    assert_eq!(ok.unwrap(), document("[true]"));
    let bad: Result<serde_json::Value, ApiError<Down>> = read_response(&response(201, b"[true"));
    assert!(matches!(
        bad.unwrap_err(),
        ApiError::AlpacaService { status: 201, ref data } if data == b"[true"
    ));
}

#[test]
fn decoded_names_the_type_that_failed() {
    let good: Result<u8, ApiError<Down>> = decoded(Ok(7), "u8");
    assert_eq!(good.unwrap(), 7);
    let source = serde_json::from_str::<u8>("300").unwrap_err();
    let text = source.to_string();
    let bad: Result<u8, ApiError<Down>> = decoded(Err(source), "u8");
    match bad.unwrap_err() {
        ApiError::DataType { source, typename } => {
            assert_eq!(typename, "u8");
            assert_eq!(source.to_string(), text);
        },
        other => panic!("unexpected error: {:?}", other),
    }
}

#[test]
fn refusal_prefers_the_message() {
    let e: ApiError<Down> = refusal(403, &b"\"no\"".to_vec(), Some("no".to_string()));
    assert!(matches!(e, ApiError::Alpaca { ref msg } if msg == "no"));
    let e: ApiError<Down> = refusal(403, &b"no".to_vec(), None);
    assert!(matches!(e, ApiError::AlpacaService { status: 403, ref data } if data == b"no"));
}

#[test]
fn raw_response_reads_a_json_string_only() {
    let r: Result<Vec<u8>, ApiError<Down>> = raw_response(response(400, b"\"bad \\\"id\\\"\""));
    assert!(matches!(r.unwrap_err(), ApiError::Alpaca { ref msg } if msg == "bad \"id\""));
    let r: Result<Vec<u8>, ApiError<Down>> = raw_response(response(400, b"17"));
    assert!(matches!(
        r.unwrap_err(),
        ApiError::AlpacaService { status: 400, ref data } if data == b"17"
    ));
    let r: Result<Vec<u8>, ApiError<Down>> = raw_response(response(299, b"17"));
    assert_eq!(r.unwrap(), b"17".to_vec());
}

#[test]
fn redirection_carries_the_first_location() {
    let mut rsp = response(301, b"");
    let e: ApiError<Down> = redirection(&rsp);
    assert!(matches!(e, ApiError::MovedPermanently { location: None }));
    rsp.headers.append("Location", HeaderValue::from_static("https://one.example/"));
    rsp.headers.append("location", HeaderValue::from_static("https://two.example/"));
    rsp.headers.append("x-other", HeaderValue::from_static("https://three.example/"));
    let e: ApiError<Down> = redirection(&rsp);
    match e {
        ApiError::MovedPermanently { location } => {
            assert_eq!(location, Some("https://one.example/".to_string()))
        },
        other => panic!("unexpected error: {:?}", other),
    }
}

/// An endpoint with one parameter of `len` bytes.
struct Flood {
    len: usize,
}

impl Endpoint for Flood {
    fn method(&self) -> Method {
        panic!("the method is asked for only once the parameters fit")
    }

    fn endpoint(&self) -> Cow<'static, str> {
        "flood".into()
    }

    fn parameters(&self) -> QueryParams {
        let mut params = QueryParams::new();
        params.push("", &"a".repeat(self.len));
        params
    }
}

#[test]
fn parameters_without_room_end_the_query_with_overflow() {
    let client = Canned::answering(200, b"{}");
    let err = send(&Flood { len: 1_431_655_760 }, &client).unwrap_err();
    assert!(matches!(err, ApiError::UrlParse { source: url::ParseError::Overflow }));
    assert_eq!(client.seen.borrow().len(), 0);
}
