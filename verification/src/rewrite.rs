//! The rewrite itself: from the request's path and headers to the value that
//! goes into the response's `Location`.

use crate::headers::{
    first_value, header_entries, header_name_text, header_value_bytes, is_text, replace_values,
};
use crate::text::{ascii_text, is_encodable, lemma_encodable_bytes, lemma_text_decodes};
use actix_web::http::header::{HeaderMap, HeaderName, HeaderValue};
use vstd::prelude::*;
use vstd::utf8::{encode_utf8, encode_utf8_decode_utf8};

verus! {

/// The request header in which a reverse proxy announces the path prefix that
/// it serves the application under.
pub const X_FORWARDED_PREFIX: &'static str = "x-forwarded-prefix";

/// The response header that carries the rewrite target.
pub const LOCATION: &'static str = "location";

/// Why a response could not be given its `Location`.
#[derive(Debug, Clone, Copy, PartialEq, Eq)]
pub enum RewriteError {
    /// The rewrite target holds a character that no header value may hold: an
    /// ASCII control character other than the tab.
    UnencodableHeaderValue,
}

impl RewriteError {
    /// What went wrong, in words.
    pub fn message(&self) -> (text: String)
        ensures
            text@ == "the rewrite target cannot be written as a header value"@,
    {
        match self {
            RewriteError::UnencodableHeaderValue => {
                "the rewrite target cannot be written as a header value".to_owned()
            },
        }
    }
}

/// The forwarded prefix that a request's headers announce: the first value
/// of the header, read as text. Where the header is absent, or that value is
/// not text, the prefix is empty.
pub open spec fn prefix_text(request: Map<Seq<char>, Seq<Seq<u8>>>) -> Seq<char> {
    if request.contains_key(X_FORWARDED_PREFIX@) && is_text(request[X_FORWARDED_PREFIX@][0]) {
        ascii_text(request[X_FORWARDED_PREFIX@][0])
    } else {
        Seq::empty()
    }
}

/// The rewrite target as text: the forwarded prefix followed by the request
/// path, joined as they are. No slash is added, removed or merged, and an
/// empty prefix leaves the path as it is.
pub open spec fn target_text(prefix: Seq<char>, path: Seq<char>) -> Seq<char> {
    prefix + path
}

/// The rewrite target of a request, from its path and the entries of its
/// headers.
pub open spec fn location_text(path: Seq<char>, request: Map<Seq<char>, Seq<Seq<u8>>>) -> Seq<
    char,
> {
    target_text(prefix_text(request), path)
}

/// The entries of a response's headers once `Location` carries the target:
/// exactly one value under `Location`, every other name as it was.
pub open spec fn with_location(response: Map<Seq<char>, Seq<Seq<u8>>>, target: Seq<char>) -> Map<
    Seq<char>,
    Seq<Seq<u8>>,
> {
    response.insert(LOCATION@, seq![encode_utf8(target)])
}

/// The name under which request headers hold the forwarded prefix.
pub fn forwarded_prefix_name() -> (name: HeaderName)
    ensures
        header_name_text(name) == X_FORWARDED_PREFIX@,
{
    proof {
        reveal_strlit("x-forwarded-prefix");
    }
    HeaderName::from_static(X_FORWARDED_PREFIX)
}

/// The name under which response headers hold the rewrite target.
pub fn location_name() -> (name: HeaderName)
    ensures
        header_name_text(name) == LOCATION@,
{
    proof {
        reveal_strlit("location");
    }
    HeaderName::from_static(LOCATION)
}

/// Reads the forwarded prefix from a request's headers. A request without
/// the header has the empty prefix, and so has one whose header is not text.
pub fn forwarded_prefix(headers: &HeaderMap) -> (prefix: String)
    ensures
        prefix@ == prefix_text(header_entries(*headers)),
{
    let name = forwarded_prefix_name();
    match first_value(headers, &name) {
        None => String::new(),
        Some(value) => match value.to_str() {
            Ok(text) => {
                proof {
                    encode_utf8_decode_utf8(text@);
                    lemma_text_decodes(header_value_bytes(*value));
                }
                text.to_owned()
            },
            Err(_) => String::new(),
        },
    }
}

/// Computes the rewrite target for a request path under a forwarded prefix.
pub fn rewrite_target(prefix: &str, path: &str) -> (target: String)
    ensures
        target@ == target_text(prefix@, path@),
{
    if prefix.is_empty() {
        assert(prefix@ + path@ =~= path@);
        path.to_owned()
    } else {
        prefix.to_owned().concat(path)
    }
}

/// Computes the rewrite target of a request from its path and its headers.
pub fn location(path: &str, headers: &HeaderMap) -> (target: String)
    ensures
        target@ == location_text(path@, header_entries(*headers)),
{
    let prefix = forwarded_prefix(headers);
    rewrite_target(prefix.as_str(), path)
}

/// Writes the rewrite target into a response's headers. Whatever the headers
/// held under `Location` is replaced. A target that no header value can hold
/// is refused, and the headers stay as they were.
pub fn set_location(headers: &mut HeaderMap, target: &str) -> (done: Result<(), RewriteError>)
    ensures
        is_encodable(target@) ==> done is Ok && header_entries(*final(headers)) == with_location(
            header_entries(*old(headers)),
            target@,
        ),
        !is_encodable(target@) ==> done == Err::<(), RewriteError>(
            RewriteError::UnencodableHeaderValue,
        ) && *final(headers) == *old(headers),
{
    proof {
        lemma_encodable_bytes(target@);
    }
    match HeaderValue::from_str(target) {
        Ok(value) => {
            let name = location_name();
            replace_values(headers, name, value);
            Ok(())
        },
        Err(_) => Err(RewriteError::UnencodableHeaderValue),
    }
}

} // verus!
