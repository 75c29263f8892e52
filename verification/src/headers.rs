//! The header types of the web framework, and what is taken on trust of them.
//!
//! A header map is modelled by its entries: for each header name, written in
//! lower case, the values held under it, first to last, each as its bytes.
//! Nothing in this module is proved. Each contract restates what the
//! framework's code does, and the rest of the library is proved from them.

use actix_web::http::header::{HeaderMap, HeaderName, HeaderValue, InvalidHeaderValue, ToStrError};
use vstd::prelude::*;
use vstd::utf8::encode_utf8;

verus! {

/// The framework's header map: several values may stand under one name.
#[verifier::external_type_specification]
#[verifier::external_body]
pub struct ExHeaderMap(actix_web::http::header::HeaderMap);

/// A header name. Names are kept in lower case, so two names are equal
/// exactly if their texts are.
#[verifier::external_type_specification]
#[verifier::external_body]
pub struct ExHeaderName(actix_web::http::header::HeaderName);

/// A header value: a string of bytes, not necessarily text.
#[verifier::external_type_specification]
#[verifier::external_body]
pub struct ExHeaderValue(actix_web::http::header::HeaderValue);

/// The error of `HeaderValue::from_str`. It carries nothing.
#[verifier::external_type_specification]
#[verifier::external_body]
pub struct ExInvalidHeaderValue(actix_web::http::header::InvalidHeaderValue);

/// The error of `HeaderValue::to_str`. It carries nothing.
#[verifier::external_type_specification]
#[verifier::external_body]
pub struct ExToStrError(actix_web::http::header::ToStrError);

/// The entries of a header map: under each name the values it holds, in the
/// order in which `HeaderMap::get_all` yields them.
pub uninterp spec fn header_entries(map: HeaderMap) -> Map<Seq<char>, Seq<Seq<u8>>>;

/// The text of a header name, as `HeaderName::as_str` gives it.
pub uninterp spec fn header_name_text(name: HeaderName) -> Seq<char>;

/// The bytes of a header value, as `HeaderValue::as_bytes` gives them.
pub uninterp spec fn header_value_bytes(value: HeaderValue) -> Seq<u8>;

/// A byte that may stand in a header value read as text: visible ASCII, a
/// space or a tab.
pub open spec fn is_text_byte(b: u8) -> bool {
    32 <= b < 127 || b == 9
}

/// A byte that may stand in a header value at all: anything but the ASCII
/// control characters, the tab excepted.
pub open spec fn is_field_byte(b: u8) -> bool {
    (32 <= b && b != 127) || b == 9
}

/// Every byte is a text byte.
pub open spec fn is_text(bytes: Seq<u8>) -> bool {
    forall|i: int| 0 <= i < bytes.len() ==> is_text_byte(#[trigger] bytes[i])
}

/// Every byte is a field byte.
pub open spec fn is_field(bytes: Seq<u8>) -> bool {
    forall|i: int| 0 <= i < bytes.len() ==> is_field_byte(#[trigger] bytes[i])
}

/// A header name that `HeaderName::from_static` takes as it is: lower-case
/// letters, digits and hyphens, between 1 and 64 of them.
pub open spec fn is_plain_name(text: Seq<char>) -> bool {
    &&& 1 <= text.len() <= 64
    &&& forall|i: int|
        0 <= i < text.len() ==> {
            let c = #[trigger] text[i];
            'a' <= c <= 'z' || '0' <= c <= '9' || c == '-'
        }
}

/// `HeaderName::from_static` panics on a string that is no header name in
/// lower case, so only a plain name is let through. The name it builds reads
/// back as the string given.
pub assume_specification[ HeaderName::from_static ](text: &'static str) -> (name: HeaderName)
    requires
        is_plain_name(text@),
    ensures
        header_name_text(name) == text@,
;

/// `HeaderValue::to_str` succeeds exactly on a value made of text bytes, and
/// then hands out those bytes as a string.
pub assume_specification<'a>[ HeaderValue::to_str ](value: &'a HeaderValue) -> (text: Result<
    &'a str,
    ToStrError,
>)
    ensures
        text is Ok <==> is_text(header_value_bytes(*value)),
        text matches Ok(s) ==> encode_utf8(s@) == header_value_bytes(*value),
;

/// `HeaderValue::from_str` succeeds exactly on a string whose UTF-8 bytes are
/// all field bytes, and the value then holds those bytes.
pub assume_specification[ HeaderValue::from_str ](text: &str) -> (value: Result<
    HeaderValue,
    InvalidHeaderValue,
>)
    ensures
        value is Ok <==> is_field(encode_utf8(text@)),
        value matches Ok(v) ==> header_value_bytes(v) == encode_utf8(text@),
;

/// `HeaderMap::get` with a header name: the first value held under that name,
/// if the map holds any.
#[verifier::external_body]
pub(crate) fn first_value<'a>(map: &'a HeaderMap, name: &HeaderName) -> (value: Option<
    &'a HeaderValue,
>)
    ensures
        value is Some <==> header_entries(*map).contains_key(header_name_text(*name)),
        value matches Some(v) ==> {
            let held = header_entries(*map)[header_name_text(*name)];
            held.len() > 0 && held[0] == header_value_bytes(*v)
        },
{
    map.get(name)
}

/// `HeaderMap::insert`: whatever the map held under the name is gone, the
/// one value given stands in its place, and no other name is touched.
#[verifier::external_body]
pub(crate) fn replace_values(map: &mut HeaderMap, name: HeaderName, value: HeaderValue)
    ensures
        header_entries(*final(map)) == header_entries(*old(map)).insert(
            header_name_text(name),
            seq![header_value_bytes(value)],
        ),
{
    map.insert(name, value);
}

} // verus!
