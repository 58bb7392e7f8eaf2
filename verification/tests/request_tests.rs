use fastly::Request;
use fastly_php_runtime::request::{HttpVersion, RequestData, RequestHandle, RequestPhase};
use fastly_php_runtime::sapi::server_variables;

fn s(x: &str) -> String {
    x.to_string()
}

fn sample_request() -> Request {
    Request::get("http://example.com/index.php?name=php&x=1")
}

fn sample_data() -> RequestData {
    RequestData {
        remote_address: Some(s("192.0.2.7")),
        version: HttpVersion::Http11,
        uri: s("http://example.com/index.php?name=php&x=1"),
        method: s("GET"),
        query: Some(s("name=php&x=1")),
        headers: vec![(s("x-test"), b"hello".to_vec()), (s("accept"), b"text/html".to_vec())],
    }
}

fn bare_data(method: &str, version: HttpVersion, headers: Vec<(String, Vec<u8>)>) -> RequestData {
    RequestData {
        remote_address: None,
        version,
        uri: s("http://example.com/"),
        method: s(method),
        query: None,
        headers,
    }
}

#[test]
fn new_request_is_not_fetched() {
    let request = RequestHandle::new();
    assert_eq!(request.phase(), RequestPhase::Uninitialized);
}

#[test]
fn fetched_request_answers_from_what_was_read() {
    let mut handle = RequestHandle::new();
    handle.initialize(sample_request(), sample_data());
    assert_eq!(handle.phase(), RequestPhase::Initialized);
    assert_eq!(handle.remote_address(), Some(s("192.0.2.7")));
    assert_eq!(handle.request_method(), "GET");
    assert_eq!(handle.request_uri(), Some(s("http://example.com/index.php?name=php&x=1")));
    assert_eq!(handle.query_string(), Some(s("name=php&x=1")));
    assert_eq!(handle.http_version(), Some(s("1.1")));
    assert!(handle.headers_readable());
    assert_eq!(
        handle.headers(),
        vec![(s("x-test"), s("hello")), (s("accept"), s("text/html"))]
    );
    // Asking again reads the same request.
    assert_eq!(handle.request_method(), "GET");
    assert_eq!(handle.phase(), RequestPhase::Initialized);
}

#[test]
fn request_without_query_or_address() {
    let mut handle = RequestHandle::new();
    handle.initialize(Request::post("http://example.com/"), bare_data("POST", HttpVersion::Http2, vec![]));
    assert_eq!(handle.remote_address(), None);
    assert_eq!(handle.request_method(), "POST");
    assert_eq!(handle.query_string(), None);
    assert_eq!(handle.http_version(), Some(s("2.0")));
    assert_eq!(handle.headers(), Vec::<(String, String)>::new());
}

#[test]
fn header_value_with_high_byte_is_not_text() {
    let mut handle = RequestHandle::new();
    handle.initialize(
        Request::get("http://example.com/"),
        bare_data("GET", HttpVersion::Http11, vec![(s("x-bin"), vec![b'a', 0xff])]),
    );
    assert!(!handle.headers_readable());
    assert_eq!(handle.request_method(), "GET");
}

#[test]
fn unfetched_request_is_not_readable() {
    let handle = RequestHandle::new();
    assert!(!handle.headers_readable());
}

#[test]
fn server_variables_describe_the_client_request() {
    let mut handle = RequestHandle::new();
    handle.initialize(sample_request(), sample_data());
    let vars = server_variables(&mut handle);
    assert_eq!(
        vars,
        vec![
            (s("REMOTE_ADDR"), s("192.0.2.7")),
            (s("SERVER_PROTOCOL"), s("HTTP/1.1")),
            (s("REQUEST_METHOD"), s("GET")),
            (s("REQUEST_URI"), s("http://example.com/index.php?name=php&x=1")),
            (s("HTTP_X_TEST"), s("hello")),
            (s("HTTP_ACCEPT"), s("text/html")),
        ]
    );
}

#[test]
fn unnamed_version_has_no_label() {
    let mut handle = RequestHandle::new();
    handle.initialize(Request::get("http://example.com/"), bare_data("GET", HttpVersion::Other, vec![]));
    assert_eq!(handle.http_version(), None);
    let vars = server_variables(&mut handle);
    assert_eq!(
        vars,
        vec![(s("REQUEST_METHOD"), s("GET")), (s("REQUEST_URI"), s("http://example.com/"))]
    );
}
