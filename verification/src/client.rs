//! What a transport offers to the queries.

use crate::endpoint::Method;
use crate::error::ApiError;
use http::{HeaderMap, HeaderValue};
use url::Url;
use vstd::prelude::*;

verus! {

/// The head of a request, as a query hands it to the client.
#[derive(Debug)]
pub struct Request {
    /// The HTTP method.
    pub method: Method,
    /// The URL, with the query parameters of the endpoint.
    pub url: Url,
    /// The content type of the body, where the endpoint has one.
    pub content_type: Option<&'static str>,
}

/// A response, as the client hands it back.
#[derive(Debug)]
pub struct Response {
    /// The status code.
    pub status: u16,
    /// The headers.
    pub headers: HeaderMap<HeaderValue>,
    /// The body, undecoded.
    pub body: Vec<u8>,
}

/// A trait representing a client which can communicate with an Alpaca instance via REST.
pub trait RestClient {
    /// The errors which may occur for this client.
    type Error;

    /// Get the URL for an endpoint of the client's API root.
    ///
    /// This method adds the hostname for the client's target instance.
    fn rest_endpoint(&self, endpoint: &str) -> Result<Url, ApiError<Self::Error>>;
}

/// A trait representing a client which can communicate with an Alpaca instance.
pub trait Client: RestClient {
    /// Send a REST query.
    fn rest(&self, request: Request, body: Vec<u8>) -> Result<Response, ApiError<Self::Error>>;
}

} // verus!
