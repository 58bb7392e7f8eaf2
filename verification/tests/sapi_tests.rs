use fastly_php_runtime::request::{version_label, HttpVersion};
use fastly_php_runtime::sapi::{
    header_name_is_valid, header_value_is_valid, header_variable_name, protocol_variable_value,
    server_variable_pairs,
};
use fastly_php_runtime::text::{replace_char_in, split_once_at_pair, string_from_chars};

fn s(x: &str) -> String {
    x.to_string()
}

#[test]
fn header_variable_for_dashed_name() {
    assert_eq!(header_variable_name("content-type"), "HTTP_CONTENT_TYPE");
    assert_eq!(header_variable_name("x-forwarded-for"), "HTTP_X_FORWARDED_FOR");
    assert_eq!(header_variable_name("host"), "HTTP_HOST");
    assert_eq!(header_variable_name(""), "HTTP_");
}

#[test]
fn header_variable_uses_unicode_upper_case() {
    assert_eq!(header_variable_name("straße"), "HTTP_STRASSE");
}

#[test]
fn protocol_value_prefixes_http() {
    assert_eq!(protocol_variable_value("1.1"), "HTTP/1.1");
    assert_eq!(protocol_variable_value("2.0"), "HTTP/2.0");
}

#[test]
fn version_labels() {
    assert_eq!(version_label(HttpVersion::Http09), Some(s("0.9")));
    assert_eq!(version_label(HttpVersion::Http10), Some(s("1.0")));
    assert_eq!(version_label(HttpVersion::Http11), Some(s("1.1")));
    assert_eq!(version_label(HttpVersion::Http2), Some(s("2.0")));
    assert_eq!(version_label(HttpVersion::Http3), Some(s("3.0")));
    assert_eq!(version_label(HttpVersion::Other), None);
}

#[test]
fn server_variables_in_registration_order() {
    let vars = server_variable_pairs(
        Some(s("10.0.0.1")),
        Some(s("1.1")),
        s("POST"),
        Some(s("https://example.com/index.php?a=1")),
        vec![(s("content-type"), s("text/plain")), (s("x-test"), s("yes"))],
    );
    assert_eq!(
        vars,
        vec![
            (s("REMOTE_ADDR"), s("10.0.0.1")),
            (s("SERVER_PROTOCOL"), s("HTTP/1.1")),
            (s("REQUEST_METHOD"), s("POST")),
            (s("REQUEST_URI"), s("https://example.com/index.php?a=1")),
            (s("HTTP_CONTENT_TYPE"), s("text/plain")),
            (s("HTTP_X_TEST"), s("yes")),
        ]
    );
}

#[test]
fn server_variables_skip_missing_values() {
    let vars = server_variable_pairs(None, None, s("GET"), None, vec![]);
    assert_eq!(vars, vec![(s("REQUEST_METHOD"), s("GET"))]);
}

#[test]
fn header_line_splits_at_first_colon_space() {
    assert_eq!(split_once_at_pair("X-Test-Header: Hello, world", ':', ' '), Some((s("X-Test-Header"), s("Hello, world"))));
    assert_eq!(split_once_at_pair("a: b: c", ':', ' '), Some((s("a"), s("b: c"))));
    assert_eq!(split_once_at_pair("Status:200", ':', ' '), None);
    assert_eq!(split_once_at_pair("", ':', ' '), None);
    assert_eq!(split_once_at_pair(": ", ':', ' '), Some((s(""), s(""))));
}

#[test]
fn replace_turns_every_dash() {
    assert_eq!(replace_char_in("a-b--c", '-', '_'), "a_b__c");
    assert_eq!(replace_char_in("plain", '-', '_'), "plain");
}

#[test]
fn string_from_chars_keeps_order() {
    assert_eq!(string_from_chars(&['h', 'é', 'y']), "héy");
}

#[test]
fn header_name_validity() {
    assert!(header_name_is_valid("X-Test-Header"));
    assert!(header_name_is_valid("content-type"));
    assert!(!header_name_is_valid(""));
    assert!(!header_name_is_valid("bad name"));
    assert!(!header_name_is_valid("bad:name"));
    assert!(!header_name_is_valid("naïve"));
}

#[test]
fn header_value_validity() {
    assert!(header_value_is_valid("Hello, world"));
    assert!(header_value_is_valid("tab\there"));
    assert!(header_value_is_valid(""));
    assert!(!header_value_is_valid("line\nbreak"));
    assert!(!header_value_is_valid("del\u{7f}"));
}
