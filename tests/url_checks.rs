use shortener::error::ApiError;
use shortener::validate::{validate_shorten_input, validate_url_format, URL_LENGTH_LIMIT};

#[test]
fn test_validate_url_format_valid_http() {
    let url = "http://doc.rust-lang.org/book/";
    assert!(validate_url_format(url).is_ok());
}

#[test]
fn test_validate_url_format_valid_https() {
    let url = "https://doc.rust-lang.org/book/";
    assert!(validate_url_format(url).is_ok());
}

#[test]
fn test_validate_url_format_empty() {
    let url = "";
    let result = validate_url_format(url);
    assert!(matches!(result, Err(ApiError::InvalidUrl(_))));
}

#[test]
fn test_validate_url_format_invalid_url() {
    let url = "not a url at all";
    let result = validate_url_format(url);
    assert!(matches!(result, Err(ApiError::InvalidUrl(_))));
}

#[test]
fn test_validate_url_format_file_scheme() {
    let url = "file://example";
    let result = validate_url_format(url);
    match result {
        Err(ApiError::UnsupportedScheme { scheme }) => assert_eq!(scheme, "file"),
        _ => panic!("Expected UnsupportedScheme error"),
    }
}

#[test]
fn scheme_is_compared_in_lower_case() {
    assert!(validate_url_format("HTTPS://example.com").is_ok());
    match validate_url_format("FTP://example.com") {
        Err(ApiError::UnsupportedScheme { scheme }) => assert_eq!(scheme, "ftp"),
        _ => panic!("expected an unsupported scheme"),
    }
}

#[test]
fn url_at_the_length_limit_is_accepted() {
    let prefix = "https://example.com/";
    let url = format!("{}{}", prefix, "a".repeat(URL_LENGTH_LIMIT - prefix.len()));
    assert_eq!(url.len(), URL_LENGTH_LIMIT);
    assert!(validate_shorten_input(&url).is_ok());
}

#[test]
fn url_over_the_length_limit_is_rejected() {
    let prefix = "https://example.com/";
    let url = format!("{}{}", prefix, "a".repeat(URL_LENGTH_LIMIT + 1 - prefix.len()));
    match validate_shorten_input(&url) {
        Err(ApiError::UrlTooLong { max }) => assert_eq!(max, 2048),
        _ => panic!("expected UrlTooLong"),
    }
}

#[test]
fn length_is_counted_in_bytes() {
    let prefix = "https://example.com/";
    let body = "é".repeat(1100);
    let url = format!("{}{}", prefix, body);
    assert!(url.chars().count() < URL_LENGTH_LIMIT);
    assert!(matches!(validate_shorten_input(&url), Err(ApiError::UrlTooLong { .. })));
}

#[test]
fn length_is_checked_before_form() {
    let url = "x".repeat(3000);
    assert!(matches!(validate_shorten_input(&url), Err(ApiError::UrlTooLong { .. })));
}
