use alpaca_api::error::ApiError;
use alpaca_api::urls::{rest_endpoint_url, rest_root};
use url::Url;

#[derive(Debug)]
struct Down;

#[test]
fn rest_root_is_the_versioned_root_of_the_host() {
    let root = rest_root("paper-api.alpaca.markets").unwrap();
    assert_eq!(root.as_str(), "https://paper-api.alpaca.markets/v2/");
    let root = rest_root("LOCALHOST:8080").unwrap();
    assert_eq!(root.as_str(), "https://localhost:8080/v2/");
}

#[test]
fn rest_root_refuses_what_is_no_host() {
    assert!(rest_root("exa mple.com").is_err());
    assert_eq!(rest_root("example.com:port").unwrap_err(), url::ParseError::InvalidPort);
    assert_eq!(rest_root("example.com:99999").unwrap_err(), url::ParseError::InvalidPort);
}

#[test]
fn rest_root_is_what_the_text_parses_to() {
    for host in ["", "a", "example.com", "exa mple.com", "[::1]", "[::1", "user@host", "h/../x"] {
        assert_eq!(rest_root(host), Url::parse(&format!("https://{}/v2/", host)));
    }
    assert_eq!(rest_root("").unwrap().as_str(), "https://v2/");
}

#[test]
fn endpoints_are_joined_onto_the_root() {
    let root = rest_root("paper-api.alpaca.markets").unwrap();
    let url = rest_endpoint_url::<Down>(&root, "account").unwrap();
    assert_eq!(url.as_str(), "https://paper-api.alpaca.markets/v2/account");
    let url = rest_endpoint_url::<Down>(&root, "options/contracts").unwrap();
    assert_eq!(url.as_str(), "https://paper-api.alpaca.markets/v2/options/contracts");
    let url = rest_endpoint_url::<Down>(&root, "assets/BRK B").unwrap();
    assert_eq!(url.as_str(), "https://paper-api.alpaca.markets/v2/assets/BRK%20B");
    let url = rest_endpoint_url::<Down>(&root, "/v1/clock").unwrap();
    assert_eq!(url.as_str(), "https://paper-api.alpaca.markets/v1/clock");
}

#[test]
fn a_path_that_cannot_be_joined_is_a_url_parse_error() {
    let root = rest_root("paper-api.alpaca.markets").unwrap();
    let err = rest_endpoint_url::<Down>(&root, "https://exa mple.com/").unwrap_err();
    let expected = root.join("https://exa mple.com/").unwrap_err();
    assert!(matches!(err, ApiError::UrlParse { source } if source == expected));
    let err = rest_endpoint_url::<Down>(&root, "//example.com:port/").unwrap_err();
    assert!(matches!(err, ApiError::UrlParse { source: url::ParseError::InvalidPort }));
    let opaque = Url::parse("mailto:desk@example.com").unwrap();
    let err = rest_endpoint_url::<Down>(&opaque, "account").unwrap_err();
    assert!(matches!(
        err,
        ApiError::UrlParse { source: url::ParseError::RelativeUrlWithCannotBeABaseBase }
    ));
}

#[test]
fn urls_become_uris() {
    let url = Url::parse("https://paper-api.alpaca.markets/v2/assets?symbols=A%2CB").unwrap();
    let uri = alpaca_api::urls::try_url_to_http_uri(url.clone()).unwrap();
    assert_eq!(uri.scheme_str(), Some("https"));
    assert_eq!(uri.host(), Some("paper-api.alpaca.markets"));
    assert_eq!(uri.path(), "/v2/assets");
    assert_eq!(uri.query(), Some("symbols=A%2CB"));
    assert_eq!(alpaca_api::urls::url_to_http_uri(url), uri);
}

#[test]
fn a_url_beyond_the_length_of_a_uri_is_none() {
    let long = format!("https://example.net/{}", "a".repeat(65_534 - 20));
    assert_eq!(long.len(), 65_534);
    assert!(alpaca_api::urls::try_url_to_http_uri(Url::parse(&long).unwrap()).is_some());
    let longer = format!("https://example.net/{}", "a".repeat(65_535 - 20));
    assert!(alpaca_api::urls::try_url_to_http_uri(Url::parse(&longer).unwrap()).is_none());
}
