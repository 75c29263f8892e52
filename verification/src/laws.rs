//! What holds of the rewrite for every request and every response.
//!
//! Requests and responses are given by the entries of their header maps:
//! under each header name, in lower case, the values held, each as its bytes.

use crate::headers::{header_entries, is_text};
use crate::middleware::{settles, Failure, Response};
use crate::rewrite::{location_text, prefix_text, with_location, LOCATION, X_FORWARDED_PREFIX};
use crate::text::{ascii_text, is_encodable, lemma_encodable_concat, lemma_text_decodes};
use vstd::prelude::*;
use vstd::utf8::encode_utf8;

verus! {

/// Without a forwarded prefix the target is the path: a request that has no
/// `X-Forwarded-Prefix` header gives a `Location` that holds the request
/// path and nothing else.
pub proof fn law_no_prefix_identity(
    path: Seq<char>,
    request: Map<Seq<char>, Seq<Seq<u8>>>,
    response: Map<Seq<char>, Seq<Seq<u8>>>,
)
    requires
        !request.contains_key(X_FORWARDED_PREFIX@),
    ensures
        location_text(path, request) == path,
        with_location(response, location_text(path, request))[LOCATION@] == seq![encode_utf8(path)],
{
    assert(Seq::<char>::empty() + path =~= path);
}

/// With a forwarded prefix the target is the prefix followed by the path,
/// joined as they are: a request whose `X-Forwarded-Prefix` header holds the
/// text `prefix` gives a `Location` that holds `prefix + path`. The prefix
/// has to be text, that is visible ASCII, spaces and tabs: a header that
/// holds anything else counts as absent.
pub proof fn law_prefix_concatenation(
    path: Seq<char>,
    prefix: Seq<char>,
    request: Map<Seq<char>, Seq<Seq<u8>>>,
    response: Map<Seq<char>, Seq<Seq<u8>>>,
)
    requires
        request.contains_key(X_FORWARDED_PREFIX@),
        request[X_FORWARDED_PREFIX@][0] == encode_utf8(prefix),
        is_text(encode_utf8(prefix)),
    ensures
        location_text(path, request) == prefix + path,
        with_location(response, location_text(path, request))[LOCATION@] == seq![
            encode_utf8(prefix + path),
        ],
{
    lemma_text_decodes(encode_utf8(prefix));
    vstd::utf8::encode_utf8_decode_utf8(prefix);
    assert(ascii_text(encode_utf8(prefix)) == prefix);
}

/// The target replaces whatever `Location` the response had: afterwards the
/// header holds the target as its one value, whether it held none, one or
/// several before, and every other header is as it was. Writing the same
/// target twice is the same as writing it once, and of two targets written
/// in turn only the second is left.
pub proof fn law_overwrite(
    response: Map<Seq<char>, Seq<Seq<u8>>>,
    earlier: Seq<char>,
    target: Seq<char>,
)
    ensures
        with_location(response, target).contains_key(LOCATION@),
        with_location(response, target)[LOCATION@] == seq![encode_utf8(target)],
        forall|name: Seq<char>|
            name != LOCATION@ ==> (#[trigger] with_location(response, target).contains_key(name)
                <==> response.contains_key(name)),
        forall|name: Seq<char>|
            name != LOCATION@ && response.contains_key(name) ==> #[trigger] with_location(
                response,
                target,
            )[name] == response[name],
        with_location(with_location(response, target), target) == with_location(response, target),
        with_location(with_location(response, earlier), target) == with_location(response, target),
{
    assert(with_location(with_location(response, target), target) =~= with_location(
        response,
        target,
    ));
    assert(with_location(with_location(response, earlier), target) =~= with_location(
        response,
        target,
    ));
}

/// The rewrite does not look at the status code: two responses that differ
/// in nothing but their status are settled alike. Either both are refused,
/// or both come back with their own status and body and with the same
/// headers, `Location` included.
pub proof fn law_status_independence<B, E>(
    target: Seq<char>,
    one: Response<B>,
    other: Response<B>,
    one_settled: Result<Response<B>, Failure<E>>,
    other_settled: Result<Response<B>, Failure<E>>,
)
    requires
        header_entries(one.headers) == header_entries(other.headers),
        settles(target, Ok::<Response<B>, E>(one), one_settled),
        settles(target, Ok::<Response<B>, E>(other), other_settled),
    ensures
        one_settled is Ok <==> other_settled is Ok,
        one_settled is Ok <==> is_encodable(target),
        one_settled matches Ok(a) ==> a.status == one.status && a.body == one.body,
        other_settled matches Ok(b) ==> b.status == other.status && b.body == other.body,
        one_settled matches Ok(a) ==> other_settled matches Ok(b) ==> header_entries(a.headers)
            == header_entries(b.headers),
        one_settled matches Ok(a) ==> header_entries(a.headers)[LOCATION@] == seq![
            encode_utf8(target),
        ],
{
}

/// A forwarded prefix that is present but empty counts as absent: the two
/// requests have the same target.
pub proof fn law_empty_prefix_is_absent(
    path: Seq<char>,
    with_empty: Map<Seq<char>, Seq<Seq<u8>>>,
    without: Map<Seq<char>, Seq<Seq<u8>>>,
)
    requires
        with_empty.contains_key(X_FORWARDED_PREFIX@),
        with_empty[X_FORWARDED_PREFIX@][0] == Seq::<u8>::empty(),
        !without.contains_key(X_FORWARDED_PREFIX@),
    ensures
        location_text(path, with_empty) == location_text(path, without),
        location_text(path, with_empty) == path,
{
    assert(prefix_text(with_empty) =~= Seq::<char>::empty());
    assert(Seq::<char>::empty() + path =~= path);
}

/// A failure of the wrapped handler goes through unchanged: the outcome is
/// that failure, and no response, so no `Location`, comes out.
pub proof fn law_downstream_failure_propagates<B, E>(
    target: Seq<char>,
    error: E,
    settled: Result<Response<B>, Failure<E>>,
)
    requires
        settles(target, Err::<Response<B>, E>(error), settled),
    ensures
        settled == Err::<Response<B>, Failure<E>>(Failure::Downstream(error)),
        !(settled is Ok),
{
}

/// The forwarded prefix never stands in the way of the rewrite: whatever the
/// request's headers hold, the target can be written into a header exactly
/// if the path can.
pub proof fn law_target_encodable(path: Seq<char>, request: Map<Seq<char>, Seq<Seq<u8>>>)
    ensures
        is_encodable(location_text(path, request)) <==> is_encodable(path),
{
    if request.contains_key(X_FORWARDED_PREFIX@) && is_text(request[X_FORWARDED_PREFIX@][0]) {
        lemma_text_decodes(request[X_FORWARDED_PREFIX@][0]);
    }
    lemma_encodable_concat(prefix_text(request), path);
}

} // verus!
