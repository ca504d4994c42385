use bolt_core::dispatch::plan;
use bolt_core::model::{HeaderEntry, HttpRequest, Method};
use bolt_core::request::{attach_headers, normalize_url, prepare_request, PendingCall};
use bolt_core::text::contains;

fn request(url: &str, method: Method, body: &str, headers: Vec<HeaderEntry>) -> HttpRequest {
    HttpRequest {
        url: url.to_string(),
        method,
        body: body.to_string(),
        headers,
        request_index: 0,
    }
}

#[test]
fn url_without_http_gets_the_prefix() {
    assert_eq!(normalize_url("example.com"), "http://example.com");
}

#[test]
fn url_with_scheme_is_unchanged() {
    assert_eq!(normalize_url("http://example.com"), "http://example.com");
    assert_eq!(normalize_url("https://example.com/a?b=c"), "https://example.com/a?b=c");
}

#[test]
fn url_with_http_inside_is_unchanged() {
    assert_eq!(normalize_url("myhttpserver.com"), "myhttpserver.com");
    assert_eq!(normalize_url("example.com/http"), "example.com/http");
}

#[test]
fn url_test_is_case_sensitive() {
    assert_eq!(normalize_url("HTTP://example.com"), "http://HTTP://example.com");
}

#[test]
fn empty_url_becomes_the_bare_prefix() {
    assert_eq!(normalize_url(""), "http://");
}

#[test]
fn url_with_a_broken_off_http_gets_the_prefix() {
    assert_eq!(normalize_url("htt"), "http://htt");
    assert_eq!(normalize_url("htp.example"), "http://htp.example");
}

#[test]
fn contains_finds_a_pattern_at_every_position() {
    assert!(contains("http", "http"));
    assert!(contains("xhttp", "http"));
    assert!(contains("httpx", "http"));
    assert!(contains("hthttp", "http"));
    assert!(contains("hhttp", "http"));
    assert!(!contains("htt", "http"));
    assert!(!contains("htthtp", "http"));
    assert!(!contains("", "http"));
}

#[test]
fn contains_takes_the_empty_pattern_as_found() {
    assert!(contains("abc", ""));
    assert!(contains("", ""));
}

#[test]
fn contains_counts_characters_not_bytes() {
    assert!(contains("ü→http", "http"));
    assert!(contains("é.example/ü", "e/ü"));
    assert!(!contains("é", "e"));
}

#[test]
fn method_verbs_are_the_literal_names() {
    assert_eq!(Method::GET.verb(), "GET");
    assert_eq!(Method::POST.verb(), "POST");
    assert_eq!(Method::PUT.verb(), "PUT");
    assert_eq!(Method::DELETE.verb(), "DELETE");
    assert_eq!(Method::HEAD.verb(), "HEAD");
    assert_eq!(Method::PATCH.verb(), "PATCH");
    assert_eq!(Method::OPTIONS.verb(), "OPTIONS");
    assert_eq!(Method::CONNECT.verb(), "CONNECT");
}

#[test]
fn prepared_call_has_no_headers_yet() {
    let req = request(
        "example.com",
        Method::POST,
        "payload",
        vec![HeaderEntry::new("X-Test", "1")],
    );
    let call = prepare_request(&req);
    assert_eq!(
        call,
        PendingCall {
            method: Method::POST,
            url: "http://example.com".to_string(),
            body: "payload".to_string(),
            headers: vec![],
        }
    );
}

#[test]
fn body_is_attached_whatever_the_method() {
    let methods = [
        Method::GET,
        Method::POST,
        Method::PUT,
        Method::DELETE,
        Method::HEAD,
        Method::PATCH,
        Method::OPTIONS,
        Method::CONNECT,
    ];
    for method in methods {
        let call = prepare_request(&request("http://h", method, "the body", vec![]));
        assert_eq!(call.method, method);
        assert_eq!(call.body, "the body");
        assert_eq!(call.url, "http://h");
    }
}

#[test]
fn headers_with_an_empty_name_or_value_are_dropped() {
    let headers = vec![
        HeaderEntry::new("", "v"),
        HeaderEntry::new("Accept", ""),
        HeaderEntry::new("X-Test", "1"),
    ];
    let call = prepare_request(&request("http://h", Method::GET, "", vec![]));
    let call = attach_headers(call, &headers);
    assert_eq!(call.headers, vec![HeaderEntry::new("X-Test", "1")]);
}

#[test]
fn headers_keep_their_order_and_their_duplicates() {
    let headers = vec![
        HeaderEntry::new("b", "2"),
        HeaderEntry::new("", ""),
        HeaderEntry::new("a", "1"),
        HeaderEntry::new("b", "2"),
    ];
    let call = prepare_request(&request("http://h", Method::GET, "", vec![]));
    let call = attach_headers(call, &headers);
    assert_eq!(
        call.headers,
        vec![
            HeaderEntry::new("b", "2"),
            HeaderEntry::new("a", "1"),
            HeaderEntry::new("b", "2"),
        ]
    );
}

#[test]
fn attached_headers_go_behind_those_already_there() {
    let call = prepare_request(&request("http://h", Method::GET, "", vec![]));
    let call = attach_headers(call, &vec![HeaderEntry::new("first", "1")]);
    let call = attach_headers(call, &vec![HeaderEntry::new("second", "2")]);
    assert_eq!(
        call.headers,
        vec![HeaderEntry::new("first", "1"), HeaderEntry::new("second", "2")]
    );
}

#[test]
fn plan_resolves_the_url_and_filters_the_headers() {
    let req = request(
        "example.com/items",
        Method::OPTIONS,
        "{}",
        vec![
            HeaderEntry::new("", "v"),
            HeaderEntry::new("Accept", ""),
            HeaderEntry::new("X-Test", "1"),
        ],
    );
    let call = plan(&req);
    assert_eq!(
        call,
        PendingCall {
            method: Method::OPTIONS,
            url: "http://example.com/items".to_string(),
            body: "{}".to_string(),
            headers: vec![HeaderEntry::new("X-Test", "1")],
        }
    );
}
