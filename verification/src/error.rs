//! The errors of the API layer.

use crate::auth::AuthError;
use crate::endpoint::UrlBase;
use crate::headers::{lossy_text, utf8_lossy};
use std::borrow::Cow;
use vstd::prelude::*;

verus! {

/// The error of `serde_json`, for encoding and for decoding.
#[verifier::external_type_specification]
#[verifier::external_body]
pub struct ExJsonError(serde_json::Error);

/// The error of `url` for text that is no URL.
#[verifier::external_type_specification]
pub struct ExUrlParseError(url::ParseError);

/// The error of `serde_urlencoded` for values that cannot be form-encoded.
#[verifier::external_type_specification]
#[verifier::external_body]
pub struct ExUrlEncodeError(serde_urlencoded::ser::Error);

/// Errors which may occur when creating the body of a request.
#[derive(Debug)]
#[non_exhaustive]
#[allow(inconsistent_fields)]
pub enum BodyError {
    /// Body data could not be serialized from form parameters.
    UrlEncoded {
        /// The source of the error.
        source: serde_urlencoded::ser::Error,
    },
    /// Body data could not be serialized to JSON from form parameters.
    JsonEncoded {
        /// The source of the error.
        source: serde_json::Error,
    },
}

/// Errors which may occur when using API endpoints.
///
/// `E` is the error type of the client that carried the request.
#[derive(Debug)]
#[non_exhaustive]
#[allow(inconsistent_fields)]
pub enum ApiError<E> {
    /// The client encountered an error.
    Client {
        /// The client error.
        source: E,
    },
    /// Authentication failed.
    Auth {
        /// The source of the error.
        source: AuthError,
    },
    /// The URL failed to parse.
    UrlParse {
        /// The source of the error.
        source: url::ParseError,
    },
    /// Body data could not be created.
    Body {
        /// The source of the error.
        source: BodyError,
    },
    /// The service answered with an error that carries no message.
    AlpacaService {
        /// The status code of the response.
        status: u16,
        /// The body of the response, as it came.
        data: Vec<u8>,
    },
    /// JSON deserialization failed.
    Json {
        /// The source of the error.
        source: serde_json::Error,
    },
    /// The resource has been moved permanently.
    MovedPermanently {
        /// The new location for the resource.
        location: Option<String>,
    },
    /// The service answered with an error message.
    Alpaca {
        /// The error message.
        msg: String,
    },
    /// Failed to parse an expected data type from JSON.
    DataType {
        /// The source of the error.
        source: serde_json::Error,
        /// The name of the type that could not be deserialized.
        typename: &'static str,
    },
    /// The client does not understand how to use an endpoint for the given URL base.
    UnsupportedUrlBase {
        /// The URL base that is not supported.
        url_base: UrlBase,
    },
}

/// A failure to form-encode is a body error.
impl From<serde_urlencoded::ser::Error> for BodyError {
    fn from(source: serde_urlencoded::ser::Error) -> Self {
        BodyError::UrlEncoded { source }
    }
}

impl vstd::std_specs::convert::FromSpecImpl<serde_urlencoded::ser::Error> for BodyError {
    open spec fn obeys_from_spec() -> bool {
        true
    }

    open spec fn from_spec(source: serde_urlencoded::ser::Error) -> Self {
        BodyError::UrlEncoded { source }
    }
}

/// A failure to encode JSON is a body error.
impl From<serde_json::Error> for BodyError {
    fn from(source: serde_json::Error) -> Self {
        BodyError::JsonEncoded { source }
    }
}

impl vstd::std_specs::convert::FromSpecImpl<serde_json::Error> for BodyError {
    open spec fn obeys_from_spec() -> bool {
        true
    }

    open spec fn from_spec(source: serde_json::Error) -> Self {
        BodyError::JsonEncoded { source }
    }
}

/// A failure to authenticate is an API error.
impl<E> From<AuthError> for ApiError<E> {
    fn from(source: AuthError) -> Self {
        ApiError::Auth { source }
    }
}

impl<E> vstd::std_specs::convert::FromSpecImpl<AuthError> for ApiError<E> {
    open spec fn obeys_from_spec() -> bool {
        true
    }

    open spec fn from_spec(source: AuthError) -> Self {
        ApiError::Auth { source }
    }
}

/// A failure to parse a URL is an API error.
impl<E> From<url::ParseError> for ApiError<E> {
    fn from(source: url::ParseError) -> Self {
        ApiError::UrlParse { source }
    }
}

impl<E> vstd::std_specs::convert::FromSpecImpl<url::ParseError> for ApiError<E> {
    open spec fn obeys_from_spec() -> bool {
        true
    }

    open spec fn from_spec(source: url::ParseError) -> Self {
        ApiError::UrlParse { source }
    }
}

/// A failure to build a body is an API error.
impl<E> From<BodyError> for ApiError<E> {
    fn from(source: BodyError) -> Self {
        ApiError::Body { source }
    }
}

impl<E> vstd::std_specs::convert::FromSpecImpl<BodyError> for ApiError<E> {
    open spec fn obeys_from_spec() -> bool {
        true
    }

    open spec fn from_spec(source: BodyError) -> Self {
        ApiError::Body { source }
    }
}

/// A failure to read JSON is an API error.
impl<E> From<serde_json::Error> for ApiError<E> {
    fn from(source: serde_json::Error) -> Self {
        ApiError::Json { source }
    }
}

impl<E> vstd::std_specs::convert::FromSpecImpl<serde_json::Error> for ApiError<E> {
    open spec fn obeys_from_spec() -> bool {
        true
    }

    open spec fn from_spec(source: serde_json::Error) -> Self {
        ApiError::Json { source }
    }
}

impl<E> ApiError<E> {
    /// Whether this is the error for a response with the status `status`
    /// whose body `data` carried no message.
    pub open spec fn is_server_error(self, status: u16, data: Seq<u8>) -> bool {
        self matches ApiError::AlpacaService { status: s, data: d } && s == status && d@ == data
    }

    /// Whether this is the error for a response that carried the message `msg`.
    pub open spec fn is_message(self, msg: Seq<char>) -> bool {
        self matches ApiError::Alpaca { msg: m } && m@ == msg
    }

    /// Whether this is the error for a resource that moved to `location`.
    pub open spec fn is_moved(self, location: Option<Seq<char>>) -> bool {
        self matches ApiError::MovedPermanently { location: l } && match l {
            Some(text) => location == Some(text@),
            None => location is None,
        }
    }

    /// The same error seen by a layer whose client errors are `W`: a client
    /// error carries the image of its payload under `g`, every other error
    /// keeps its variant and its fields.
    pub open spec fn map_client_spec<W>(self, g: spec_fn(E) -> W) -> ApiError<W> {
        match self {
            ApiError::Client { source } => ApiError::Client { source: g(source) },
            ApiError::Auth { source } => ApiError::Auth { source },
            ApiError::UrlParse { source } => ApiError::UrlParse { source },
            ApiError::Body { source } => ApiError::Body { source },
            ApiError::AlpacaService { status, data } => ApiError::AlpacaService { status, data },
            ApiError::Json { source } => ApiError::Json { source },
            ApiError::MovedPermanently { location } => ApiError::MovedPermanently { location },
            ApiError::Alpaca { msg } => ApiError::Alpaca { msg },
            ApiError::DataType { source, typename } => ApiError::DataType { source, typename },
            ApiError::UnsupportedUrlBase { url_base } => ApiError::UnsupportedUrlBase { url_base },
        }
    }

    /// Create an API error in a client error.
    pub fn client(source: E) -> (r: Self)
        ensures
            r == (ApiError::<E>::Client { source }),
    {
        ApiError::Client { source }
    }

    /// Wrap a client error in another wrapper.
    ///
    /// `f` is applied to the payload of a client error and to nothing else.
    pub fn map_client<F, W>(self, f: F) -> (r: ApiError<W>) where F: FnOnce(E) -> W
        requires
            self is Client ==> f.requires((self->Client_source,)),
        ensures
            self is Client ==> r is Client && f.ensures(
                (self->Client_source,),
                r->Client_source,
            ),
            forall|g: spec_fn(E) -> W|
                (self is Client ==> g(self->Client_source) == r->Client_source) ==> r
                    == #[trigger] self.map_client_spec(g),
    {
        match self {
            ApiError::Client { source } => ApiError::client(f(source)),
            ApiError::UrlParse { source } => ApiError::UrlParse { source },
            ApiError::Auth { source } => ApiError::Auth { source },
            ApiError::Body { source } => ApiError::Body { source },
            ApiError::Json { source } => ApiError::Json { source },
            ApiError::MovedPermanently { location } => ApiError::MovedPermanently { location },
            ApiError::AlpacaService { status, data } => ApiError::AlpacaService { status, data },
            ApiError::DataType { source, typename } => ApiError::DataType { source, typename },
            ApiError::UnsupportedUrlBase { url_base } => ApiError::UnsupportedUrlBase { url_base },
            ApiError::Alpaca { msg } => ApiError::Alpaca { msg },
        }
    }

    /// An error for a resource that has moved, from the bytes of the
    /// `Location` header of the response, where it had one.
    ///
    /// Bytes that are UTF-8 give the text that they encode; any others are
    /// replaced by the replacement character.
    pub fn moved_permanently(raw_location: Option<Vec<u8>>) -> (r: Self)
        ensures
            r.is_moved(
                match raw_location {
                    Some(bytes) => Some(utf8_lossy(bytes@)),
                    None => None,
                },
            ),
            raw_location matches Some(raw) ==> (vstd::utf8::valid_utf8(raw@) ==> r.is_moved(
                Some(vstd::utf8::decode_utf8(raw@)),
            )),
    {
        let location = match raw_location {
            Some(bytes) => Some(
                match lossy_text(bytes.as_slice()) {
                    Cow::Borrowed(text) => text.to_owned(),
                    Cow::Owned(text) => text,
                },
            ),
            None => None,
        };
        ApiError::MovedPermanently { location }
    }

    /// An error for a value that did not decode into the type called `typename`.
    pub fn data_type(source: serde_json::Error, typename: &'static str) -> (r: Self)
        ensures
            r == (ApiError::<E>::DataType { source, typename }),
    {
        ApiError::DataType { source, typename }
    }

    /// An error for a response with the status `status` whose body carried no message.
    pub fn server_error(status: u16, body: &Vec<u8>) -> (r: Self)
        ensures
            r.is_server_error(status, body@),
    {
        let data = body.clone();
        ApiError::AlpacaService { status, data }
    }

    /// An error for a URL base that the client has no root for.
    pub fn unsupported_url_base(url_base: UrlBase) -> (r: Self)
        ensures
            r == (ApiError::<E>::UnsupportedUrlBase { url_base }),
    {
        ApiError::UnsupportedUrlBase { url_base }
    }
}

/// Mapping the client payload with the identity gives back the error itself,
/// equal in its variant and in every field.
pub proof fn lemma_map_client_identity<E>(e: ApiError<E>)
    ensures
        e.map_client_spec(|x: E| x) == e,
{
}

/// Mapping twice is mapping once with the composed function.
pub proof fn lemma_map_client_compose<E, V, W>(
    e: ApiError<E>,
    g: spec_fn(E) -> V,
    h: spec_fn(V) -> W,
)
    ensures
        e.map_client_spec(g).map_client_spec(h) == e.map_client_spec(|x: E| h(g(x))),
{
}

/// Only the payload of a client error is touched: the variant stays, and an
/// error of any other variant is the same for every mapping function.
pub proof fn lemma_map_client_keeps_variant<E, W>(
    e: ApiError<E>,
    g: spec_fn(E) -> W,
    h: spec_fn(E) -> W,
)
    ensures
        e is Client <==> e.map_client_spec(g) is Client,
        e is Auth <==> e.map_client_spec(g) is Auth,
        e is UrlParse <==> e.map_client_spec(g) is UrlParse,
        e is Body <==> e.map_client_spec(g) is Body,
        e is AlpacaService <==> e.map_client_spec(g) is AlpacaService,
        e is Json <==> e.map_client_spec(g) is Json,
        e is MovedPermanently <==> e.map_client_spec(g) is MovedPermanently,
        e is Alpaca <==> e.map_client_spec(g) is Alpaca,
        e is DataType <==> e.map_client_spec(g) is DataType,
        e is UnsupportedUrlBase <==> e.map_client_spec(g) is UnsupportedUrlBase,
        !(e is Client) ==> e.map_client_spec(g) == e.map_client_spec(h),
{
}

} // verus!
