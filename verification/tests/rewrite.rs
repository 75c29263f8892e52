use actix_forward_prefix::rewrite::{forwarded_prefix_name, location_name};
use actix_forward_prefix::{
    forwarded_prefix, location, rewrite_target, set_location, RewriteError, LOCATION,
    X_FORWARDED_PREFIX,
};
use actix_web::http::header::{self, HeaderMap, HeaderName, HeaderValue};

fn headers_with_prefix(value: &[u8]) -> HeaderMap {
    let mut headers = HeaderMap::new();
    headers.insert(
        HeaderName::from_static("x-forwarded-prefix"),
        HeaderValue::from_bytes(value).unwrap(),
    );
    headers
}

fn values_of(headers: &HeaderMap, name: &str) -> Vec<Vec<u8>> {
    headers
        .get_all(name)
        .map(|value| value.as_bytes().to_vec())
        .collect()
}

#[test]
fn header_names_are_the_lower_case_ones() {
    assert_eq!(X_FORWARDED_PREFIX, "x-forwarded-prefix");
    assert_eq!(LOCATION, "location");
    assert_eq!(forwarded_prefix_name().as_str(), "x-forwarded-prefix");
    assert_eq!(location_name().as_str(), "location");
    assert_eq!(location_name(), header::LOCATION);
}

#[test]
fn target_is_the_path_without_a_prefix() {
    assert_eq!(rewrite_target("", "/products"), "/products");
    assert_eq!(rewrite_target("", ""), "");
}

#[test]
fn target_is_prefix_then_path() {
    assert_eq!(rewrite_target("/api", "/products"), "/api/products");
}

#[test]
fn target_is_joined_without_touching_slashes() {
    assert_eq!(rewrite_target("/api/", "/products"), "/api//products");
    assert_eq!(rewrite_target("api", "products"), "apiproducts");
    assert_eq!(rewrite_target("/api", ""), "/api");
    assert_eq!(rewrite_target("/a b", "/c?d=e&f"), "/a b/c?d=e&f");
}

#[test]
fn prefix_is_empty_without_the_header() {
    assert_eq!(forwarded_prefix(&HeaderMap::new()), "");
    let mut headers = HeaderMap::new();
    headers.insert(header::HOST, HeaderValue::from_static("example.com"));
    assert_eq!(forwarded_prefix(&headers), "");
}

#[test]
fn prefix_is_the_header_as_it_stands() {
    assert_eq!(forwarded_prefix(&headers_with_prefix(b"/api")), "/api");
    assert_eq!(forwarded_prefix(&headers_with_prefix(b" /a\tb/ ")), " /a\tb/ ");
    assert_eq!(forwarded_prefix(&headers_with_prefix(b"")), "");
}

#[test]
fn prefix_header_is_found_whatever_the_case_it_was_sent_in() {
    let mut headers = HeaderMap::new();
    headers.insert(
        HeaderName::from_bytes(b"X-Forwarded-Prefix").unwrap(),
        HeaderValue::from_static("/api"),
    );
    assert_eq!(forwarded_prefix(&headers), "/api");
}

#[test]
fn prefix_is_the_first_of_several_values() {
    let mut headers = headers_with_prefix(b"/first");
    headers.append(
        HeaderName::from_static("x-forwarded-prefix"),
        HeaderValue::from_static("/second"),
    );
    assert_eq!(forwarded_prefix(&headers), "/first");
    assert_eq!(location("/products", &headers), "/first/products");
}

#[test]
fn prefix_that_is_not_text_counts_as_absent() {
    assert_eq!(forwarded_prefix(&headers_with_prefix(b"/caf\xc3\xa9")), "");
    assert_eq!(forwarded_prefix(&headers_with_prefix(b"/api\xff")), "");
    assert_eq!(
        location("/products", &headers_with_prefix(b"/caf\xc3\xa9")),
        "/products"
    );
}

#[test]
fn location_without_prefix_is_the_path() {
    assert_eq!(location("/products", &HeaderMap::new()), "/products");
}

#[test]
fn location_with_prefix_is_prefix_then_path() {
    assert_eq!(
        location("/products", &headers_with_prefix(b"/api")),
        "/api/products"
    );
}

#[test]
fn location_with_empty_prefix_is_that_without() {
    assert_eq!(
        location("/products", &headers_with_prefix(b"")),
        location("/products", &HeaderMap::new())
    );
}

#[test]
fn set_location_adds_the_header() {
    let mut headers = HeaderMap::new();
    assert_eq!(set_location(&mut headers, "/api/products"), Ok(()));
    assert_eq!(values_of(&headers, "location"), vec![b"/api/products".to_vec()]);
    assert_eq!(headers.len(), 1);
}

#[test]
fn set_location_replaces_every_earlier_value() {
    let mut headers = HeaderMap::new();
    headers.append(header::LOCATION, HeaderValue::from_static("/one"));
    headers.append(header::LOCATION, HeaderValue::from_static("/two"));
    headers.append(header::SET_COOKIE, HeaderValue::from_static("a=1"));
    headers.append(header::SET_COOKIE, HeaderValue::from_static("b=2"));
    assert_eq!(set_location(&mut headers, "/api/products"), Ok(()));
    assert_eq!(values_of(&headers, "location"), vec![b"/api/products".to_vec()]);
    assert_eq!(
        values_of(&headers, "set-cookie"),
        vec![b"a=1".to_vec(), b"b=2".to_vec()]
    );
    assert_eq!(headers.len(), 3);
}

#[test]
fn set_location_twice_is_set_location_once() {
    let mut once = HeaderMap::new();
    set_location(&mut once, "/api/products").unwrap();
    let mut twice = HeaderMap::new();
    set_location(&mut twice, "/earlier").unwrap();
    set_location(&mut twice, "/api/products").unwrap();
    set_location(&mut twice, "/api/products").unwrap();
    assert_eq!(values_of(&once, "location"), values_of(&twice, "location"));
    assert_eq!(twice.len(), 1);
}

#[test]
fn set_location_takes_text_beyond_ascii() {
    let mut headers = HeaderMap::new();
    assert_eq!(set_location(&mut headers, "/caf\u{e9}/\u{1f980}"), Ok(()));
    assert_eq!(
        values_of(&headers, "location"),
        vec!["/caf\u{e9}/\u{1f980}".as_bytes().to_vec()]
    );
}

#[test]
fn set_location_takes_spaces_and_tabs() {
    let mut headers = HeaderMap::new();
    assert_eq!(set_location(&mut headers, "/a b\tc"), Ok(()));
    assert_eq!(values_of(&headers, "location"), vec![b"/a b\tc".to_vec()]);
}

#[test]
fn set_location_takes_the_empty_target() {
    let mut headers = HeaderMap::new();
    assert_eq!(set_location(&mut headers, ""), Ok(()));
    assert_eq!(values_of(&headers, "location"), vec![Vec::<u8>::new()]);
}

#[test]
fn set_location_refuses_control_characters() {
    for target in ["/a\nb", "/a\rb", "\0", "/a\u{7f}", "/a\u{1f}", "\u{8}"] {
        let mut headers = HeaderMap::new();
        headers.insert(header::LOCATION, HeaderValue::from_static("/kept"));
        assert_eq!(
            set_location(&mut headers, target),
            Err(RewriteError::UnencodableHeaderValue)
        );
        assert_eq!(values_of(&headers, "location"), vec![b"/kept".to_vec()]);
        assert_eq!(headers.len(), 1);
    }
}

#[test]
fn error_says_what_went_wrong() {
    assert_eq!(
        RewriteError::UnencodableHeaderValue.message(),
        "the rewrite target cannot be written as a header value"
    );
}
