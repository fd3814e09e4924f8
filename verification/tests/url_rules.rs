//! Checks of URL validation, normalization and method mapping on their own.

use cors_proxy::method::{method_name, parse_method, Method};
use cors_proxy::url::{validate_url, UrlError};

#[test]
fn bare_host_gets_https_prepended() {
    assert_eq!(
        validate_url(b"example.com"),
        Ok(b"https://example.com".to_vec())
    );
    assert_eq!(
        validate_url(b"example.com/path?q=1"),
        Ok(b"https://example.com/path?q=1".to_vec())
    );
}

#[test]
fn allowed_schemes_pass_through_unchanged() {
    assert_eq!(
        validate_url(b"https://example.com"),
        Ok(b"https://example.com".to_vec())
    );
    assert_eq!(
        validate_url(b"http://example.com/x"),
        Ok(b"http://example.com/x".to_vec())
    );
}

#[test]
fn normalization_is_idempotent_on_accepted_targets() {
    let once = validate_url(b"example.com/api").unwrap();
    let twice = validate_url(&once).unwrap();
    assert_eq!(once, twice);
}

#[test]
fn other_schemes_are_refused() {
    assert_eq!(
        validate_url(b"ftp://example.com"),
        Err(UrlError::UnsupportedProtocol)
    );
    assert_eq!(
        validate_url(b"file://etc/passwd.txt"),
        Err(UrlError::UnsupportedProtocol)
    );
    // a separator buried in the middle still names a scheme
    assert_eq!(
        validate_url(b"a.b://c.d"),
        Err(UrlError::UnsupportedProtocol)
    );
}

#[test]
fn dotless_domains_are_refused() {
    assert_eq!(validate_url(b"localhost"), Err(UrlError::InvalidDomain));
    assert_eq!(validate_url(b"foo"), Err(UrlError::InvalidDomain));
    assert_eq!(validate_url(b""), Err(UrlError::InvalidDomain));
    // the dot must fall after the last separator
    assert_eq!(
        validate_url(b"http://host"),
        Err(UrlError::InvalidDomain)
    );
}

#[test]
fn domain_is_taken_after_the_last_separator() {
    // the last "://" starts the domain portion, and it has a dot here
    assert_eq!(
        validate_url(b"http://a://b.c"),
        Ok(b"http://a://b.c".to_vec())
    );
    // ... and no dot here
    assert_eq!(
        validate_url(b"http://a.b://c"),
        Err(UrlError::InvalidDomain)
    );
}

#[test]
fn method_allowlist_is_exact() {
    assert_eq!(parse_method(b"GET"), Some(Method::Get));
    assert_eq!(parse_method(b"POST"), Some(Method::Post));
    assert_eq!(parse_method(b"PUT"), Some(Method::Put));
    assert_eq!(parse_method(b"DELETE"), Some(Method::Delete));
    assert_eq!(parse_method(b"PATCH"), None);
    assert_eq!(parse_method(b"OPTIONS"), None);
    assert_eq!(parse_method(b"HEAD"), None);
    assert_eq!(parse_method(b"get"), None);
    assert_eq!(parse_method(b""), None);
}

#[test]
fn method_names_round_trip() {
    for m in [Method::Get, Method::Post, Method::Put, Method::Delete] {
        assert_eq!(parse_method(&method_name(m)), Some(m));
    }
}
