//! A typed client layer for the Alpaca REST API.
//!
//! An [`endpoint::Endpoint`] describes one call of the API: its method, its
//! path, its query parameters and its body. A [`client::Client`] resolves
//! paths to URLs and carries requests. A query drives an endpoint through a
//! client and judges the response: [`query::query_with`] decodes the JSON
//! document of the body, [`raw::raw`] hands the body out as it came. Every
//! failure on the way is one [`error::ApiError`].
//!
//! The functions of this crate are verified with Verus. Their contracts
//! speak of what endpoints and clients answer through `call_ensures`, so
//! they hold of every implementation of the two traits. The crates `url`,
//! `http` and `serde_json` are called through a few functions whose
//! contracts are believed, not proved; each says which function of which
//! crate it stands for.

pub mod account;
pub mod asset;
pub mod auth;
pub mod client;
pub mod endpoint;
pub mod error;
pub mod headers;
pub mod json;
pub mod options_contract;
pub mod params;
pub mod query;
pub mod raw;
pub mod urls;
