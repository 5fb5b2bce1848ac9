use rustify::errors::{ClientError, ErrorKind};
use rustify::request::build_url;

#[test]
fn build_url_path_with_trailing_slash() {
    let url = build_url("https://192.0.2.2", "foobar/", None).unwrap();
    assert_eq!(url.to_string(), "https://192.0.2.2/foobar/");
}

#[test]
fn build_url_base_without_path_and_path_without_slash() {
    let url = build_url("https://192.0.2.2", "foobar", None).unwrap();
    assert_eq!(url.to_string(), "https://192.0.2.2/foobar");
}

#[test]
fn build_url_base_without_path_and_path_with_slash() {
    let url = build_url("https://192.0.2.2", "/foobar", None).unwrap();
    assert_eq!(url.to_string(), "https://192.0.2.2/foobar");
}

#[test]
fn build_url_base_with_trailing_slash_and_path_without_slash() {
    let url = build_url("https://192.0.2.2/", "foobar", None).unwrap();
    assert_eq!(url.to_string(), "https://192.0.2.2/foobar");
}

#[test]
fn build_url_base_with_trailing_slash_and_path_with_slash() {
    let url = build_url("https://192.0.2.2/", "/foobar", None).unwrap();
    assert_eq!(url.to_string(), "https://192.0.2.2/foobar");
}

#[test]
fn build_url_base_with_path_and_path_without_slash() {
    let url = build_url("https://192.0.2.2/base/path", "foobar", None).unwrap();
    assert_eq!(url.to_string(), "https://192.0.2.2/base/path/foobar");
}

#[test]
fn build_url_base_with_path_and_path_with_slash() {
    let url = build_url("https://192.0.2.2/base/path", "/foobar", None).unwrap();
    assert_eq!(url.to_string(), "https://192.0.2.2/base/path/foobar");
}

#[test]
fn build_url_base_with_path_and_trailing_slash_and_path_without_slash() {
    let url = build_url("https://192.0.2.2/base/path/", "foobar", None).unwrap();
    assert_eq!(url.to_string(), "https://192.0.2.2/base/path/foobar");
}

#[test]
fn build_url_base_with_path_and_trailing_slash_and_path_with_slash() {
    let url = build_url("https://192.0.2.2/base/path/", "/foobar", None).unwrap();
    assert_eq!(url.to_string(), "https://192.0.2.2/base/path/foobar");
}

#[test]
fn build_url_joins_with_one_slash_in_all_four_combinations() {
    for base in ["https://h/base", "https://h/base/"] {
        for path in ["foobar", "/foobar"] {
            assert_eq!(build_url(base, path, None).unwrap(), "https://h/base/foobar");
        }
    }
    assert_eq!(build_url("https://h", "foobar", None).unwrap(), "https://h/foobar");
}

#[test]
fn build_url_without_query_has_no_question_mark() {
    let none = build_url("https://h/base", "p", None).unwrap();
    let empty = build_url("https://h/base", "p", Some(String::new())).unwrap();
    assert_eq!(none, "https://h/base/p");
    assert_eq!(empty, none);
    assert!(!none.contains('?'));
}

#[test]
fn build_url_sets_query() {
    let url = build_url("https://h", "p", Some("a=1&b=2".to_string())).unwrap();
    assert_eq!(url, "https://h/p?a=1&b=2");
}

#[test]
fn build_url_appends_to_the_query_of_the_base() {
    let url = build_url("https://h/x?k=v", "p", Some("a=1".to_string())).unwrap();
    assert_eq!(url, "https://h/x/p?k=v&a=1");
}

#[test]
fn build_url_encodes_segments() {
    let url = build_url("https://h", "a b/c%d", None).unwrap();
    assert_eq!(url, "https://h/a%20b/c%25d");
}

#[test]
fn build_url_rejects_malformed_base() {
    let err = build_url("not a url", "p", None).unwrap_err();
    assert!(matches!(err, ClientError::UrlParseError { .. }));
    assert_eq!(err.kind(), ErrorKind::UrlParse);
    assert_eq!(err.message(), "Error parsing URL");
}

#[test]
fn build_url_rejects_base_that_cannot_be_a_base() {
    let err = build_url("mailto:someone@example.com", "p", None).unwrap_err();
    assert!(matches!(err, ClientError::UrlParseError { .. }));
}

#[test]
fn build_url_rejects_what_is_no_uri() {
    let long = "a".repeat(70000);
    let err = build_url("https://h", &long, None).unwrap_err();
    assert!(matches!(err, ClientError::UrlBuildError { .. }));
}

#[test]
fn build_url_writes_the_url_as_a_uri() {
    assert_eq!(build_url("https://h", "", None).unwrap(), "https://h/");
    assert_eq!(build_url("HTTPS://EXAMPLE.com:443/a#frag", "b", None).unwrap(), "https://example.com/a/b");
}

#[test]
fn build_url_keeps_empty_segments_inside_the_path() {
    assert_eq!(build_url("https://h", "//a", None).unwrap(), "https://h/a");
    assert_eq!(build_url("https://h/x", "//a", None).unwrap(), "https://h/x//a");
    assert_eq!(build_url("https://h", "a//b", None).unwrap(), "https://h/a//b");
    assert_eq!(build_url("https://h/x/", "./a/../b", None).unwrap(), "https://h/x/a/b");
}
