//! URLs of the `url` crate: the root of the API and the endpoints under it.

use crate::error::ApiError;
use http::Uri;
use url::Url;
use vstd::prelude::*;

verus! {

/// A parsed, absolute URL of the `url` crate.
#[verifier::external_type_specification]
#[verifier::external_body]
pub struct ExUrl(url::Url);

/// A URI of the `http` crate.
#[verifier::external_type_specification]
#[verifier::external_body]
pub struct ExUri(http::Uri);

/// The error of `http` for text that is no URI.
#[verifier::external_type_specification]
#[verifier::external_body]
pub struct ExInvalidUri(http::uri::InvalidUri);

/// The text of a URL: what `Url::as_str` returns.
pub uninterp spec fn url_text(url: Url) -> Seq<char>;

/// What `Url::parse` makes of `text`: the text of the URL, or the reason
/// why `text` is none.
pub uninterp spec fn parsed_url(text: Seq<char>) -> Result<Seq<char>, url::ParseError>;

/// What `Url::join` makes of `reference` against the URL whose text is
/// `base`: the text of the URL that `reference` stands for, or the reason
/// why it stands for none.
pub uninterp spec fn joined_url(base: Seq<char>, reference: Seq<char>) -> Result<
    Seq<char>,
    url::ParseError,
>;

/// The URI that `http` reads from `text`, and `None` where `text` is no URI
/// for it.
pub uninterp spec fn parsed_uri(text: Seq<char>) -> Option<Uri>;

/// `Url::as_str`: the text of the URL.
#[verifier::external_body]
pub(crate) fn url_str(url: &Url) -> (s: &str)
    ensures
        s@ == url_text(*url),
{
    url.as_str()
}

/// `Url::parse`: the URL that `text` is, or the reason why it is none.
#[verifier::external_body]
fn parse_url(text: &str) -> (r: Result<Url, url::ParseError>)
    ensures
        match r {
            Ok(url) => parsed_url(text@) == Ok::<Seq<char>, url::ParseError>(url_text(url)),
            Err(e) => parsed_url(text@) == Err::<Seq<char>, url::ParseError>(e),
        },
{
    Url::parse(text)
}

/// `Url::join`: the URL that `reference` stands for against `base`, or the
/// reason why it stands for none.
#[verifier::external_body]
fn join_url(base: &Url, reference: &str) -> (r: Result<Url, url::ParseError>)
    ensures
        match r {
            Ok(url) => joined_url(url_text(*base), reference@) == Ok::<Seq<char>, url::ParseError>(
                url_text(url),
            ),
            Err(e) => joined_url(url_text(*base), reference@) == Err::<Seq<char>, url::ParseError>(
                e,
            ),
        },
{
    base.join(reference)
}

/// `str::parse` for `http::Uri`: the URI that `text` is, or the reason why
/// it is none.
#[verifier::external_body]
fn parse_uri(text: &str) -> (r: Result<Uri, http::uri::InvalidUri>)
    ensures
        match r {
            Ok(uri) => parsed_uri(text@) == Some(uri),
            Err(_) => parsed_uri(text@) is None,
        },
{
    text.parse::<Uri>()
}

/// The URL of a request as the URI that `http` wants.
///
/// Not every URL is a URI for `http`, which takes no more than 65534
/// bytes: [`try_url_to_http_uri`] tells.
pub fn url_to_http_uri(url: Url) -> (uri: Uri)
    requires
        parsed_uri(url_text(url)) is Some,
    ensures
        parsed_uri(url_text(url)) == Some(uri),
{
    match parse_uri(url_str(&url)) {
        Ok(uri) => uri,
        Err(_) => vstd::pervasive::unreached(),
    }
}

/// The URL of a request as the URI that `http` wants, or `None` where
/// `http` does not take it.
pub fn try_url_to_http_uri(url: Url) -> (r: Option<Uri>)
    ensures
        r == parsed_uri(url_text(url)),
{
    if parse_uri(url_str(&url)).is_ok() {
        Some(url_to_http_uri(url))
    } else {
        None
    }
}

/// The number of bytes of `text` in UTF-8.
pub open spec fn byte_len(text: Seq<char>) -> nat {
    vstd::utf8::encode_utf8(text).len()
}

/// The text of the API root of `host`.
pub open spec fn rest_root_text(host: Seq<char>) -> Seq<char> {
    "https://"@ + host + "/v2/"@
}

/// The root of the REST API of `host`: `https://{host}/v2/`.
pub fn rest_root(host: &str) -> (r: Result<Url, url::ParseError>)
    ensures
        match r {
            Ok(url) => parsed_url(rest_root_text(host@)) == Ok::<Seq<char>, url::ParseError>(
                url_text(url),
            ),
            Err(e) => parsed_url(rest_root_text(host@)) == Err::<Seq<char>, url::ParseError>(e),
        },
{
    let text = String::from_str("https://").concat(host).concat("/v2/");
    parse_url(text.as_str())
}

/// The URL of `endpoint` under `root`: the path is joined onto the root, and
/// a path that cannot be joined is a URL parse error.
pub fn rest_endpoint_url<X>(root: &Url, endpoint: &str) -> (r: Result<Url, ApiError<X>>)
    ensures
        match r {
            Ok(url) => joined_url(url_text(*root), endpoint@) == Ok::<Seq<char>, url::ParseError>(
                url_text(url),
            ),
            Err(e) => e matches ApiError::UrlParse { source } && joined_url(
                url_text(*root),
                endpoint@,
            ) == Err::<Seq<char>, url::ParseError>(source),
        },
{
    match join_url(root, endpoint) {
        Ok(url) => Ok(url),
        Err(source) => Err(ApiError::from(source)),
    }
}

} // verus!
