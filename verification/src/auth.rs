//! Credentials and how they are attached to a request.

use crate::headers::{
    has_room, header_entries, header_key, header_value_from_str, is_header_name,
    is_header_text, is_name_char, is_value_char, mark_sensitive, try_insert_header,
};
use http::{HeaderMap, HeaderValue};
use vstd::prelude::*;

verus! {

/// The error of `http` for text that cannot stand in a header value.
#[verifier::external_type_specification]
#[verifier::external_body]
pub struct ExInvalidHeaderValue(http::header::InvalidHeaderValue);

/// The error of `http` for a header map that cannot grow.
#[verifier::external_type_specification]
#[verifier::external_body]
pub struct ExMaxSizeReached(http::header::MaxSizeReached);

/// Errors which may occur while building the credential headers.
#[derive(Debug)]
#[non_exhaustive]
#[allow(inconsistent_fields)]
pub enum AuthError {
    /// A credential cannot be written as a header value.
    HeaderValue {
        /// The source of the error.
        source: http::header::InvalidHeaderValue,
    },
    /// The header map has no room for the credentials.
    Capacity {
        /// The source of the error.
        source: http::header::MaxSizeReached,
    },
}

/// Text that cannot be a header value is an authentication error.
impl From<http::header::InvalidHeaderValue> for AuthError {
    fn from(source: http::header::InvalidHeaderValue) -> Self {
        AuthError::HeaderValue { source }
    }
}

impl vstd::std_specs::convert::FromSpecImpl<http::header::InvalidHeaderValue> for AuthError {
    open spec fn obeys_from_spec() -> bool {
        true
    }

    open spec fn from_spec(source: http::header::InvalidHeaderValue) -> Self {
        AuthError::HeaderValue { source }
    }
}

/// A header map that cannot grow is an authentication error.
impl From<http::header::MaxSizeReached> for AuthError {
    fn from(source: http::header::MaxSizeReached) -> Self {
        AuthError::Capacity { source }
    }
}

impl vstd::std_specs::convert::FromSpecImpl<http::header::MaxSizeReached> for AuthError {
    open spec fn obeys_from_spec() -> bool {
        true
    }

    open spec fn from_spec(source: http::header::MaxSizeReached) -> Self {
        AuthError::Capacity { source }
    }
}

/// The credentials of a client.
#[derive(Debug, Clone)]
#[non_exhaustive]
pub enum Auth {
    /// An API key and its secret.
    SecretTokens(String, String),
}

/// The header that carries the API key.
pub const KEY_HEADER: &'static str = "APCA-API-KEY-ID";

/// The header that carries the secret.
pub const SECRET_HEADER: &'static str = "APCA-API-SECRET-KEY";

/// The header that names the content type that is asked for.
pub const ACCEPT_HEADER: &'static str = "accept";

/// The content type that is asked for.
pub const ACCEPT_VALUE: &'static str = "application/json";

/// The one value `text`, marked as sensitive or not, as a header map keeps it.
pub open spec fn single(text: Seq<char>, sensitive: bool) -> Seq<(Seq<u8>, bool)> {
    seq![(vstd::utf8::encode_utf8(text), sensitive)]
}

/// What `entries` become once the first `n` of the three credential headers
/// are set: the key, the secret, and the content type that is asked for.
pub open spec fn with_credentials(
    entries: Map<Seq<char>, Seq<(Seq<u8>, bool)>>,
    api_key: Seq<char>,
    secret_key: Seq<char>,
    n: nat,
) -> Map<Seq<char>, Seq<(Seq<u8>, bool)>> {
    let one = if n >= 1 {
        entries.insert(header_key(KEY_HEADER@), single(api_key, true))
    } else {
        entries
    };
    let two = if n >= 2 {
        one.insert(header_key(SECRET_HEADER@), single(secret_key, true))
    } else {
        one
    };
    if n >= 3 {
        two.insert(header_key(ACCEPT_HEADER@), single(ACCEPT_VALUE@, false))
    } else {
        two
    }
}

/// The three header names are header names, and the content type is header text.
pub proof fn lemma_credential_headers_are_valid()
    ensures
        is_header_name(KEY_HEADER@),
        is_header_name(SECRET_HEADER@),
        is_header_name(ACCEPT_HEADER@),
        is_header_text(ACCEPT_VALUE@),
{
    reveal_strlit("APCA-API-KEY-ID");
    reveal_strlit("APCA-API-SECRET-KEY");
    reveal_strlit("accept");
    reveal_strlit("application/json");
    assert forall|i: int| 0 <= i < KEY_HEADER@.len() implies is_name_char(
        #[trigger] KEY_HEADER@[i],
    ) by {
        lemma_small_index(i, 15);
    }
    assert forall|i: int| 0 <= i < SECRET_HEADER@.len() implies is_name_char(
        #[trigger] SECRET_HEADER@[i],
    ) by {
        lemma_small_index(i, 19);
    }
    assert forall|i: int| 0 <= i < ACCEPT_HEADER@.len() implies is_name_char(
        #[trigger] ACCEPT_HEADER@[i],
    ) by {
        lemma_small_index(i, 6);
    }
    assert forall|i: int| 0 <= i < ACCEPT_VALUE@.len() implies is_value_char(
        #[trigger] ACCEPT_VALUE@[i],
    ) by {
        lemma_small_index(i, 16);
    }
}

/// The names under which a header map keeps the credentials are the three
/// header names in lower case, and no two of them are the same.
pub proof fn lemma_credential_keys()
    ensures
        header_key(KEY_HEADER@) == "apca-api-key-id"@,
        header_key(SECRET_HEADER@) == "apca-api-secret-key"@,
        header_key(ACCEPT_HEADER@) == "accept"@,
        header_key(KEY_HEADER@) != header_key(SECRET_HEADER@),
        header_key(KEY_HEADER@) != header_key(ACCEPT_HEADER@),
        header_key(SECRET_HEADER@) != header_key(ACCEPT_HEADER@),
{
    reveal_strlit("APCA-API-KEY-ID");
    reveal_strlit("APCA-API-SECRET-KEY");
    reveal_strlit("accept");
    reveal_strlit("apca-api-key-id");
    reveal_strlit("apca-api-secret-key");
    assert(header_key(KEY_HEADER@) =~= "apca-api-key-id"@) by {
        assert forall|i: int| 0 <= i < 15 implies #[trigger] header_key(KEY_HEADER@)[i]
            == "apca-api-key-id"@[i] by {
            lemma_small_index(i, 15);
        }
    }
    assert(header_key(SECRET_HEADER@) =~= "apca-api-secret-key"@) by {
        assert forall|i: int| 0 <= i < 19 implies #[trigger] header_key(SECRET_HEADER@)[i]
            == "apca-api-secret-key"@[i] by {
            lemma_small_index(i, 19);
        }
    }
    assert(header_key(ACCEPT_HEADER@) =~= "accept"@) by {
        assert forall|i: int| 0 <= i < 6 implies #[trigger] header_key(ACCEPT_HEADER@)[i]
            == "accept"@[i] by {
            lemma_small_index(i, 6);
        }
    }
    assert(header_key(KEY_HEADER@).len() == 15);
    assert(header_key(SECRET_HEADER@).len() == 19);
    assert(header_key(ACCEPT_HEADER@).len() == 6);
}

/// Once all three credential headers are set, the map holds under each of
/// their names the one value that was set, key and secret marked as
/// sensitive, and under every other name what it held before.
pub proof fn lemma_credentials_are_set(
    entries: Map<Seq<char>, Seq<(Seq<u8>, bool)>>,
    api_key: Seq<char>,
    secret_key: Seq<char>,
)
    ensures
        ({
            let filled = with_credentials(entries, api_key, secret_key, 3);
            &&& filled.dom().contains("apca-api-key-id"@)
            &&& filled.dom().contains("apca-api-secret-key"@)
            &&& filled.dom().contains("accept"@)
            &&& filled["apca-api-key-id"@] == single(api_key, true)
            &&& filled["apca-api-secret-key"@] == single(secret_key, true)
            &&& filled["accept"@] == single(ACCEPT_VALUE@, false)
            &&& forall|name: Seq<char>|
                name != "apca-api-key-id"@ && name != "apca-api-secret-key"@ && name
                    != "accept"@ ==> (#[trigger] filled.dom().contains(name)
                    == entries.dom().contains(name)) && filled[name] == entries[name]
        }),
{
    lemma_credential_keys();
}

/// An index below a small bound is one of the numbers below it.
proof fn lemma_small_index(i: int, n: int)
    requires
        0 <= i < n <= 19,
    ensures
        i == 0 || i == 1 || i == 2 || i == 3 || i == 4 || i == 5 || i == 6 || i == 7 || i == 8
            || i == 9 || i == 10 || i == 11 || i == 12 || i == 13 || i == 14 || i == 15 || i
            == 16 || i == 17 || i == 18,
{
}

impl Auth {
    /// Add the appropriate headers to the map: the key and the secret, both
    /// marked as sensitive, and the content type that is asked for. Each
    /// replaces what the map held under its name.
    ///
    /// Where the key or the secret cannot be a header value, nothing is
    /// added. A map that cannot grow keeps what was added before it refused;
    /// a map with room for three more names never refuses.
    pub fn set_header<'a>(&self, headers: &'a mut HeaderMap<HeaderValue>) -> (r: Result<
        &'a mut HeaderMap<HeaderValue>,
        AuthError,
    >)
        ensures
            match *self {
                Auth::SecretTokens(api_key, secret_key) => is_header_text(api_key@)
                    && is_header_text(secret_key@) && has_room(header_entries(*old(headers)), 3)
                    ==> r is Ok,
            },
            match *self {
                Auth::SecretTokens(api_key, secret_key) => match r {
                    Ok(filled) => is_header_text(api_key@) && is_header_text(secret_key@)
                        && header_entries(*filled) == with_credentials(
                        header_entries(*old(headers)),
                        api_key@,
                        secret_key@,
                        3,
                    ) && *final(headers) == *final(filled),
                    Err(AuthError::HeaderValue { .. }) => !(is_header_text(api_key@)
                        && is_header_text(secret_key@)) && header_entries(*final(headers))
                        == header_entries(*old(headers)),
                    Err(AuthError::Capacity { .. }) => is_header_text(api_key@) && is_header_text(
                        secret_key@,
                    ) && exists|n: nat|
                        n < 3 && header_entries(*final(headers)) == #[trigger] with_credentials(
                            header_entries(*old(headers)),
                            api_key@,
                            secret_key@,
                            n,
                        ),
                },
            },
    {
        proof {
            lemma_credential_headers_are_valid();
        }
        let ghost before = header_entries(*headers);
        match self {
            Auth::SecretTokens(api_key, secret_key) => {
                let mut api_key_header_value = match header_value_from_str(api_key.as_str()) {
                    Ok(value) => value,
                    Err(source) => return Err(AuthError::from(source)),
                };
                let mut secret_key_header_value = match header_value_from_str(
                    secret_key.as_str(),
                ) {
                    Ok(value) => value,
                    Err(source) => return Err(AuthError::from(source)),
                };
                let accept_header_value = match header_value_from_str(ACCEPT_VALUE) {
                    Ok(value) => value,
                    Err(source) => return Err(AuthError::from(source)),
                };
                mark_sensitive(&mut api_key_header_value, true);
                mark_sensitive(&mut secret_key_header_value, true);
                if let Err(source) = try_insert_header(headers, KEY_HEADER, api_key_header_value) {
                    assert(header_entries(*headers) == with_credentials(
                        before,
                        api_key@,
                        secret_key@,
                        0,
                    ));
                    return Err(AuthError::from(source));
                }
                if let Err(source) = try_insert_header(
                    headers,
                    SECRET_HEADER,
                    secret_key_header_value,
                ) {
                    assert(header_entries(*headers) == with_credentials(
                        before,
                        api_key@,
                        secret_key@,
                        1,
                    ));
                    return Err(AuthError::from(source));
                }
                if let Err(source) = try_insert_header(
                    headers,
                    ACCEPT_HEADER,
                    accept_header_value,
                ) {
                    assert(header_entries(*headers) == with_credentials(
                        before,
                        api_key@,
                        secret_key@,
                        2,
                    ));
                    return Err(AuthError::from(source));
                }
            },
        }
        Ok(headers)
    }
}

} // verus!
