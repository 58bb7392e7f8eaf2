use fastly_php_runtime::harness::test_server_args;
use fastly_php_runtime::harness::{
    bytes_eq_ignore_ascii_case, bytes_equal, downstream_method, expected_header, header_present,
    response_matches, server_ready, test_url, text_equals, trim, DownstreamMethod, TestDownstreamResponse,
};

fn s(x: &str) -> String {
    x.to_string()
}

fn h(name: &str, value: &str) -> (Vec<u8>, Vec<u8>) {
    (name.as_bytes().to_vec(), value.as_bytes().to_vec())
}

#[test]
fn url_of_local_test_server() {
    assert_eq!(test_url("hello"), "http://127.0.0.1:7878/hello");
    assert_eq!(test_url(""), "http://127.0.0.1:7878/");
}

#[test]
fn methods_of_test_cases() {
    assert_eq!(downstream_method("GET"), DownstreamMethod::Get);
    assert_eq!(downstream_method("POST"), DownstreamMethod::Post);
}

#[test]
fn expected_header_is_split_and_trimmed() {
    assert_eq!(expected_header("X-Test-Header: Hello, world"), (s("X-Test-Header"), s("Hello, world")));
    assert_eq!(expected_header("  a  :  b:c  "), (s("a"), s("b:c")));
    assert_eq!(expected_header(":"), (s(""), s("")));
}

#[test]
fn trim_drops_outer_white_space() {
    assert_eq!(trim("\t x y \n"), "x y");
    assert_eq!(trim(""), "");
}

#[test]
fn text_and_byte_comparisons() {
    assert!(text_equals("abc", "abc"));
    assert!(!text_equals("abc", "abd"));
    assert!(!text_equals("abc", "ab"));
    assert!(bytes_equal(b"x", b"x"));
    assert!(!bytes_equal(b"x", b"X"));
    assert!(bytes_eq_ignore_ascii_case(b"Content-Type", b"content-type"));
    assert!(!bytes_eq_ignore_ascii_case(b"Content-Type", b"content_type"));
    assert!(!bytes_eq_ignore_ascii_case(b"[", b"{"));
}

#[test]
fn header_lookup_ignores_name_case_only() {
    let headers = vec![h("content-type", "text/html"), h("x-test-header", "Hello, world")];
    assert!(header_present("X-Test-Header", "Hello, world", &headers));
    assert!(header_present("content-type", "text/html", &headers));
    assert!(!header_present("Content-Type", "TEXT/HTML", &headers));
    assert!(!header_present("x-other", "Hello, world", &headers));
}

#[test]
fn response_checks_body_status_and_headers() {
    let headers = vec![h("x-test-header", "Hello, world")];
    let expected = TestDownstreamResponse {
        status: Some(200),
        body: Some(s("Hello")),
        headers: Some(vec![s("X-Test-Header: Hello, world")]),
    };
    assert!(response_matches(&expected, 200, &headers, "Hello"));
    assert!(!response_matches(&expected, 500, &headers, "Hello"));
    assert!(!response_matches(&expected, 200, &headers, "Bye"));
    assert!(!response_matches(&expected, 200, &vec![], "Hello"));
    let nothing = TestDownstreamResponse { status: None, body: None, headers: None };
    assert!(response_matches(&nothing, 404, &vec![], "anything"));
}

#[test]
fn server_readiness_line() {
    assert!(server_ready("INFO Listening on http://127.0.0.1:7878\n"));
    assert!(server_ready("Listening on"));
    assert!(!server_ready("Listening o"));
    assert!(!server_ready("listening on"));
    assert!(!server_ready(""));
}

#[test]
fn test_server_arguments() {
    assert_eq!(
        test_server_args("app.wasm".to_string(), Some("fastly.toml".to_string())),
        vec!["app.wasm".to_string(), "-C".to_string(), "fastly.toml".to_string()]
    );
    assert_eq!(test_server_args("app.wasm".to_string(), None), vec!["app.wasm".to_string()]);
}

#[test]
fn trim_takes_off_unicode_white_space() {
    assert_eq!(trim("\u{3000} a b \u{a0}\n"), "a b");
    assert_eq!(trim(" \t\r\n"), "");
    assert_eq!(trim("x"), "x");
    assert_eq!(trim(""), "");
}
