use kla::headers::{names_match, request_headers};
use kla::RequestArgsBuilder;

fn pair(name: &str, value: &str) -> (String, String) {
    (name.to_string(), value.to_string())
}

#[test]
fn default_content_type_is_json() {
    assert_eq!(request_headers(&vec![]), vec![pair("Content-Type", "application/json")]);
}

#[test]
fn explicit_content_type_replaces_default() {
    let b = RequestArgsBuilder::new()
        .args(vec!["https://example.com/".to_string()])
        .unwrap()
        .headers(Some(vec!["Content-Type: text/plain".to_string()]))
        .unwrap();
    let a = b.build().unwrap();
    assert_eq!(a.headers, vec![pair("Content-Type", "text/plain")]);
}

#[test]
fn header_names_compare_without_case() {
    let merged = request_headers(&vec![
        pair("content-type", "text/html"),
        pair("X-Trace", "1"),
        pair("x-trace", "2"),
    ]);
    assert_eq!(merged, vec![pair("Content-Type", "text/html"), pair("X-Trace", "2")]);
    assert!(names_match("Content-Type", "CONTENT-TYPE"));
    assert!(!names_match("Content-Type", "Content-Typ"));
}

#[test]
fn header_items_are_trimmed() {
    let b = RequestArgsBuilder::new()
        .headers(Some(vec!["  Accept :  text/csv  ".to_string(), "X-A:b:c".to_string()]))
        .unwrap();
    assert_eq!(b.headers, vec![pair("Accept", "text/csv"), pair("X-A", "b:c")]);
}

#[test]
fn valid_headers_pass_the_check() {
    assert_eq!(
        kla::headers::validate_headers(&vec![pair("X-Id", "a\tb"), pair("Accept", "text/plain; q=1")]),
        Ok(())
    );
}

#[test]
fn invalid_header_name_or_value_is_refused_at_build() {
    let b = RequestArgsBuilder::new()
        .args(vec!["https://example.com/".to_string()])
        .unwrap()
        .headers(Some(vec!["Bad Name: x".to_string()]))
        .unwrap();
    assert!(matches!(b.build(), Err(kla::Error::InvalidArguments(_))));
    let r = kla::headers::validate_headers(&vec![pair("X-A", "line\u{1}break")]);
    assert!(matches!(r, Err(kla::Error::InvalidArguments(_))));
    let r = kla::headers::validate_headers(&vec![pair("", "v")]);
    assert!(matches!(r, Err(kla::Error::InvalidArguments(_))));
}

#[test]
fn user_agent_values() {
    let v = kla::headers::user_agent("kla/1.0 (+https://example.com)").unwrap();
    assert_eq!(v, "kla/1.0 (+https://example.com)");
    assert!(matches!(kla::headers::user_agent("bad\nagent"), Err(kla::Error::InvalidArguments(_))));
}
