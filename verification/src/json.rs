//! JSON, read with `serde_json`.

use vstd::prelude::*;

verus! {

/// A JSON document of `serde_json`.
#[verifier::external_type_specification]
#[verifier::external_body]
pub struct ExJsonValue(serde_json::Value);

/// The JSON document that `serde_json` reads from `bytes`, and `None` where
/// they are no JSON document.
pub uninterp spec fn json_document(bytes: Seq<u8>) -> Option<serde_json::Value>;

/// Whether `bytes` are one JSON document.
pub open spec fn is_json(bytes: Seq<u8>) -> bool {
    json_document(bytes) is Some
}

/// The text that `serde_json` reads from `bytes` where they are one JSON
/// string, and `None` where they are anything else.
pub uninterp spec fn json_string(bytes: Seq<u8>) -> Option<Seq<char>>;

/// `serde_json::from_slice` for a document of any shape.
#[verifier::external_body]
pub(crate) fn parse_value(bytes: &[u8]) -> (r: Result<serde_json::Value, serde_json::Error>)
    ensures
        match r {
            Ok(value) => json_document(bytes@) == Some(value),
            Err(_) => json_document(bytes@) is None,
        },
{
    serde_json::from_slice(bytes)
}

/// `serde_json::from_slice` for a JSON string.
#[verifier::external_body]
pub(crate) fn parse_string(bytes: &[u8]) -> (r: Result<String, serde_json::Error>)
    ensures
        match r {
            Ok(s) => json_string(bytes@) == Some(s@),
            Err(_) => json_string(bytes@) is None,
        },
{
    serde_json::from_slice(bytes)
}

} // verus!
