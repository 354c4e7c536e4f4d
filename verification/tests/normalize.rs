use urlfinder::utils::{is_domain_match, normalize_url, UrlError};

#[test]
fn relative_resolves_against_directory() {
    let r = normalize_url("c.js", "http://example.com/a/b").unwrap();
    assert_eq!(r, "http://example.com/a/c.js");
}

#[test]
fn root_relative_gets_scheme_and_host() {
    let r = normalize_url("/x", "http://example.com/a/b").unwrap();
    assert_eq!(r, "http://example.com/x");
}

#[test]
fn scheme_relative_gets_scheme() {
    let r = normalize_url("//cdn.example.com/y", "http://example.com/a/b").unwrap();
    assert_eq!(r, "http://cdn.example.com/y");
}

#[test]
fn absolute_is_kept_unchanged() {
    let r = normalize_url("http://other.com/z", "http://example.com/a/b").unwrap();
    assert_eq!(r, "http://other.com/z");
    let r = normalize_url("https://other.com/z", "http://example.com/a/b").unwrap();
    assert_eq!(r, "https://other.com/z");
}

#[test]
fn trailing_slash_base_keeps_directory() {
    let r = normalize_url("c.js", "http://example.com/a/").unwrap();
    assert_eq!(r, "http://example.com/a/c.js");
}

#[test]
fn bad_base_is_an_error_only_when_needed() {
    assert_eq!(normalize_url("c.js", "not a url"), Err(UrlError::BadBase));
    assert_eq!(normalize_url("/x", "not a url"), Err(UrlError::BadBase));
    // An absolute input never consults the base.
    assert_eq!(
        normalize_url("http://other.com/z", "not a url"),
        Ok("http://other.com/z".to_string())
    );
}

#[test]
fn domain_match_tests_the_host() {
    assert!(is_domain_match("http://sub.example.com/x", "example"));
    assert!(is_domain_match("http://sub.example.com/x", r"^sub\."));
    assert!(!is_domain_match("http://other.org/x", "example"));
    // No host, unparseable URL, or a bad pattern: never a match.
    assert!(!is_domain_match("not a url", "example"));
    assert!(!is_domain_match("http://example.com/x", "("));
}
