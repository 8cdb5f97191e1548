//! Header maps of the `http` crate, as far as this layer reads and fills them.

use http::{HeaderMap, HeaderValue};
use std::borrow::Cow;
use vstd::prelude::*;

verus! {

/// One header value of the `http` crate: bytes, and a mark for secrets.
#[verifier::external_type_specification]
#[verifier::external_body]
pub struct ExHeaderValue(http::HeaderValue);

/// The header map of the `http` crate: several values under one name.
#[verifier::external_type_specification]
#[verifier::external_body]
#[verifier::reject_recursive_types(T)]
pub struct ExHeaderMap<T>(http::HeaderMap<T>);

/// What a header map holds: under each name that has a value, the values in
/// the order in which they were added, each with its bytes and whether it
/// is marked as sensitive. Names are in lower case.
pub uninterp spec fn header_entries(headers: HeaderMap<HeaderValue>) -> Map<
    Seq<char>,
    Seq<(Seq<u8>, bool)>,
>;

/// The bytes of a header value.
pub uninterp spec fn header_value_bytes(value: HeaderValue) -> Seq<u8>;

/// Whether a header value is marked as sensitive.
pub uninterp spec fn header_value_is_sensitive(value: HeaderValue) -> bool;

/// The text that `String::from_utf8_lossy` makes of `bytes`.
pub uninterp spec fn utf8_lossy(bytes: Seq<u8>) -> Seq<char>;

/// `HeaderMap::get` with `http::header::LOCATION`: the bytes of the first
/// value under `location`, if there is one.
#[verifier::external_body]
pub(crate) fn location_of(headers: &HeaderMap<HeaderValue>) -> (r: Option<Vec<u8>>)
    ensures
        r is Some == header_entries(*headers).dom().contains("location"@),
        r matches Some(bytes) ==> bytes@ == header_entries(*headers)["location"@][0].0,
{
    headers.get(http::header::LOCATION).map(|v| v.as_bytes().to_vec())
}

/// `String::from_utf8_lossy`: the text of `bytes`, with the replacement
/// character where they are not UTF-8. Bytes that are UTF-8 are handed
/// back as the text that they encode.
#[verifier::external_body]
pub(crate) fn lossy_text(bytes: &[u8]) -> (r: Cow<'_, str>)
    ensures
        r@ == utf8_lossy(bytes@),
        vstd::utf8::valid_utf8(bytes@) ==> r@ == vstd::utf8::decode_utf8(bytes@),
{
    String::from_utf8_lossy(bytes)
}

/// The bytes of the location that a response names: those of its first
/// `Location` header.
pub open spec fn location_bytes(headers: HeaderMap<HeaderValue>) -> Option<Seq<u8>> {
    if header_entries(headers).dom().contains("location"@) {
        Some(header_entries(headers)["location"@][0].0)
    } else {
        None
    }
}

/// The location that a response names, as text.
pub open spec fn location_text(headers: HeaderMap<HeaderValue>) -> Option<Seq<char>> {
    match location_bytes(headers) {
        Some(bytes) => Some(utf8_lossy(bytes)),
        None => None,
    }
}

/// The number of names below which a header map never refuses another
/// name: the table of a map grows up to 32768 slots, and a map that holds
/// fewer names than a fifth of them never has to grow beyond that.
pub const ROOMY: usize = 6554;

/// Whether a map that holds `entries` surely takes `more` further names.
pub open spec fn has_room(entries: Map<Seq<char>, Seq<(Seq<u8>, bool)>>, more: nat) -> bool {
    entries.dom().finite() && entries.dom().len() + more <= ROOMY
}

/// Whether `c` may stand in the text of a header value: a tab, or any
/// character but the other ASCII control characters.
pub open spec fn is_value_char(c: char) -> bool {
    (c as u32 >= 32 && c as u32 != 127) || c as u32 == 9
}

/// Whether `text` can be a header value.
pub open spec fn is_header_text(text: Seq<char>) -> bool {
    forall|i: int| 0 <= i < text.len() ==> is_value_char(#[trigger] text[i])
}

/// Whether `c` may stand in a header name: an ASCII letter, a digit, or one
/// of the signs that HTTP allows in a token.
pub open spec fn is_name_char(c: char) -> bool {
    let n = c as u32;
    (97 <= n <= 122) || (65 <= n <= 90) || (48 <= n <= 57) || n == 33 || (35 <= n <= 39) || n
        == 42 || n == 43 || n == 45 || n == 46 || (94 <= n <= 96) || n == 124 || n == 126
}

/// Whether `name` is a header name of at most 64 characters.
pub open spec fn is_header_name(name: Seq<char>) -> bool {
    &&& 1 <= name.len() <= 64
    &&& forall|i: int| 0 <= i < name.len() ==> is_name_char(#[trigger] name[i])
}

/// `c` in lower case, where it is an ASCII capital.
pub open spec fn lower_char(c: char) -> char {
    if 65 <= c as u32 <= 90 {
        ((c as u32 + 32) as u8) as char
    } else {
        c
    }
}

/// The name under which a header map keeps the values of `name`.
pub open spec fn header_key(name: Seq<char>) -> Seq<char> {
    name.map_values(|c: char| lower_char(c))
}

/// `HeaderValue::from_str`: a header value with the bytes of `text`, not
/// marked as sensitive. It is refused where a byte of `text` is an ASCII
/// control character other than the tab; the bytes of a character beyond
/// ASCII are all 128 or more, and pass.
#[verifier::external_body]
pub(crate) fn header_value_from_str(text: &str) -> (r: Result<
    HeaderValue,
    http::header::InvalidHeaderValue,
>)
    ensures
        r is Ok == is_header_text(text@),
        r matches Ok(value) ==> header_value_bytes(value) == vstd::utf8::encode_utf8(text@)
            && !header_value_is_sensitive(value),
{
    HeaderValue::from_str(text)
}

/// `HeaderValue::set_sensitive`: the mark is set, the bytes stay.
#[verifier::external_body]
pub(crate) fn mark_sensitive(value: &mut HeaderValue, sensitive: bool)
    ensures
        header_value_is_sensitive(*final(value)) == sensitive,
        header_value_bytes(*final(value)) == header_value_bytes(*old(value)),
{
    value.set_sensitive(sensitive);
}

/// `HeaderMap::try_insert`: `value` becomes the one value under `name`,
/// whatever was there, and the other names keep theirs. A map that cannot
/// grow refuses, and then holds what it held. It refuses only where its
/// table would have to grow past 32768 slots or hold as many names, which
/// a map of fewer than 6554 names never needs.
#[verifier::external_body]
pub(crate) fn try_insert_header(
    headers: &mut HeaderMap<HeaderValue>,
    name: &'static str,
    value: HeaderValue,
) -> (r: Result<(), http::header::MaxSizeReached>)
    requires
        is_header_name(name@),
    ensures
        has_room(header_entries(*old(headers)), 1) ==> r is Ok,
        r is Ok ==> header_entries(*final(headers)) == header_entries(*old(headers)).insert(
            header_key(name@),
            seq![(header_value_bytes(value), header_value_is_sensitive(value))],
        ),
        r is Err ==> header_entries(*final(headers)) == header_entries(*old(headers)),
{
    headers.try_insert(name, value).map(|_| ())
}

} // verus!
