//! Endpoint descriptions.

use crate::client::RestClient;
use crate::error::{ApiError, BodyError};
use crate::params::QueryParams;
use std::borrow::Cow;
use url::Url;
use vstd::prelude::*;

verus! {

/// URL bases for endpoints.
#[derive(Debug, Clone, Copy, PartialEq, Eq, Structural)]
#[non_exhaustive]
pub enum UrlBase {
    /// The versioned API root.
    ApiV2,
}

impl UrlBase {
    /// Whether `r` is what `client` answered when asked for the URL of
    /// `endpoint` under this base.
    pub open spec fn resolves<C: RestClient>(
        self,
        client: &C,
        endpoint: &str,
        r: Result<Url, ApiError<C::Error>>,
    ) -> bool {
        match self {
            UrlBase::ApiV2 => call_ensures(C::rest_endpoint, (client, endpoint), r),
        }
    }

    /// Get the endpoint for a given URL base.
    ///
    /// The versioned API root is resolved by the client; what the client
    /// answers, a URL or an error, is handed on as it is.
    pub fn endpoint_for<C: RestClient>(&self, client: &C, endpoint: &str) -> (r: Result<
        Url,
        ApiError<C::Error>,
    >)
        ensures
            self.resolves(client, endpoint, r),
    {
        match self {
            UrlBase::ApiV2 => client.rest_endpoint(endpoint),
        }
    }
}

/// The HTTP method of a request.
#[derive(Debug, Clone, Copy, PartialEq, Eq, Structural)]
pub enum Method {
    /// GET
    Get,
    /// POST
    Post,
    /// PUT
    Put,
    /// DELETE
    Delete,
    /// HEAD
    Head,
    /// OPTIONS
    Options,
    /// CONNECT
    Connect,
    /// PATCH
    Patch,
    /// TRACE
    Trace,
}

/// The description of a single REST API endpoint.
pub trait Endpoint {
    /// The HTTP method to use for the endpoint.
    fn method(&self) -> Method;

    /// The path to the endpoint.
    fn endpoint(&self) -> Cow<'static, str>;

    /// The URL base of the API endpoint.
    fn url_base(&self) -> (r: UrlBase)
        default_ensures
            r == UrlBase::ApiV2,
    {
        UrlBase::ApiV2
    }

    /// Query parameters for the endpoint.
    fn parameters(&self) -> (r: QueryParams)
        default_ensures
            r@.len() == 0,
    {
        QueryParams::default()
    }

    /// The body for the endpoint.
    ///
    /// Returns the content type of the data as well as the data itself.
    fn body(&self) -> (r: Result<Option<(&'static str, Vec<u8>)>, BodyError>)
        default_ensures
            r matches Ok(None),
    {
        Ok(None)
    }
}

/// A reference to an endpoint is an endpoint: each answer is the answer of
/// the endpoint behind it.
impl<E: Endpoint> Endpoint for &E {
    fn method(&self) -> (r: Method)
        ensures
            call_ensures(E::method, (*self,), r),
    {
        (*self).method()
    }

    fn endpoint(&self) -> (r: Cow<'static, str>)
        ensures
            call_ensures(E::endpoint, (*self,), r),
    {
        (*self).endpoint()
    }

    fn url_base(&self) -> (r: UrlBase)
        ensures
            call_ensures(E::url_base, (*self,), r),
    {
        (*self).url_base()
    }

    fn parameters(&self) -> (r: QueryParams)
        ensures
            call_ensures(E::parameters, (*self,), r),
    {
        (*self).parameters()
    }

    fn body(&self) -> (r: Result<Option<(&'static str, Vec<u8>)>, BodyError>)
        ensures
            call_ensures(E::body, (*self,), r),
    {
        (*self).body()
    }
}

/// Why a builder could not make its endpoint.
#[derive(Debug)]
#[non_exhaustive]
pub enum BuilderError {
    /// A field that has no default was not set.
    UninitializedField(&'static str),
    /// The fields that were set do not go together.
    ValidationError(String),
}

} // verus!
