use shortener::admin::{after_delete, after_delete_all, after_list, authenticate, AdminError};
use shortener::cache::cache_key;
use shortener::config::{split_fields, ConfigError, RateLimitConfig};
use shortener::error::ApiError;

#[test]
fn authentication_needs_both_credentials() {
    assert!(authenticate("admin", "secret", "admin", "secret").is_ok());
    assert_eq!(authenticate("admin", "wrong", "admin", "secret"), Err(AdminError::Unauthorized));
    assert_eq!(authenticate("root", "secret", "admin", "secret"), Err(AdminError::Unauthorized));
    assert_eq!(AdminError::Unauthorized.status(), 401);
}

#[test]
fn deleting_a_code_invalidates_its_entry() {
    let out = after_delete("abc123", Ok(Some("https://example.com".to_string())));
    assert_eq!(out.result, Ok("https://example.com".to_string()));
    assert_eq!(out.invalidate, Some("short:abc123".to_string()));
}

#[test]
fn deleting_an_unknown_code_is_not_found() {
    let out = after_delete("abc123", Ok(None));
    assert_eq!(out.result, Err(AdminError::NotFound));
    assert_eq!(out.invalidate, None);
    assert_eq!(AdminError::NotFound.status(), 404);
    let out = after_delete("abc123", Err("db".to_string()));
    assert_eq!(out.result, Err(AdminError::Internal));
    assert_eq!(out.invalidate, None);
    assert_eq!(AdminError::Internal.status(), 500);
}

#[test]
fn deleting_everything_reports_the_count_and_flushes() {
    let out = after_delete_all(Ok(3));
    assert_eq!(out.result, Ok("Deleted 3 rows".to_string()));
    assert!(out.flush);
    let out = after_delete_all(Ok(0));
    assert_eq!(out.result, Ok("Deleted 0 rows".to_string()));
    let out = after_delete_all(Err("db".to_string()));
    assert_eq!(out.result, Err(AdminError::Internal));
    assert!(!out.flush);
}

#[test]
fn listing_passes_rows_through() {
    let rows = vec![("a".to_string(), "https://a.example".to_string())];
    assert_eq!(after_list(Ok(rows.clone())), Ok(rows));
    assert_eq!(after_list(Err("db".to_string())), Err(AdminError::Internal));
}

#[test]
fn cache_keys_are_namespaced() {
    assert_eq!(cache_key("aZ3kT9"), "short:aZ3kT9");
}

#[test]
fn rate_limit_setting_parses() {
    let c = RateLimitConfig::parse("20:30:60", "REDIRECT_RATE_LIMIT").unwrap();
    assert_eq!(c.requests_per_second, 20);
    assert_eq!(c.burst_size, 30);
    assert_eq!(c.cleanup_interval_secs, 60);
    let c = RateLimitConfig::parse("+5:10:300", "SHORTEN_RATE_LIMIT").unwrap();
    assert_eq!(c.requests_per_second, 5);
    assert_eq!(c.cleanup_interval_secs, 300);
}

#[test]
fn rate_limit_setting_needs_three_fields() {
    for bad in ["", "1:2", "1:2:3:4", "::"] {
        match RateLimitConfig::parse(bad, "X") {
            Err(ConfigError::InvalidRateLimitFormat { env_var, value }) if bad != "::" => {
                assert_eq!(env_var, "X");
                assert_eq!(value, bad);
            }
            Err(ConfigError::ParseError { env_var, .. }) if bad == "::" => assert_eq!(env_var, "X"),
            other => panic!("unexpected {:?}", other),
        }
    }
}

#[test]
fn rate_limit_setting_needs_numbers_that_fit() {
    assert!(matches!(RateLimitConfig::parse("a:1:2", "X"), Err(ConfigError::ParseError { .. })));
    assert!(matches!(RateLimitConfig::parse("1:-2:2", "X"), Err(ConfigError::ParseError { .. })));
    assert!(matches!(
        RateLimitConfig::parse("1:4294967296:2", "X"),
        Err(ConfigError::ParseError { .. })
    ));
    assert!(RateLimitConfig::parse("1:4294967295:18446744073709551615", "X").is_ok());
    assert!(matches!(
        RateLimitConfig::parse("1:1:18446744073709551616", "X"),
        Err(ConfigError::ParseError { .. })
    ));
    assert!(matches!(RateLimitConfig::parse(" 1:1:1", "X"), Err(ConfigError::ParseError { .. })));
}

#[test]
fn default_rate_limit() {
    let c = RateLimitConfig::default();
    assert_eq!((c.requests_per_second, c.burst_size, c.cleanup_interval_secs), (5, 10, 60));
}

#[test]
fn fields_split_at_every_colon() {
    assert_eq!(split_fields("a:b::c"), vec!["a", "b", "", "c"]);
    assert_eq!(split_fields(""), vec![""]);
    assert_eq!(split_fields(":"), vec!["", ""]);
}

#[test]
fn error_responses() {
    let (s, m) = ApiError::UrlTooLong { max: 2048 }.response_parts();
    assert_eq!((s, m.as_str()), (400, "URL exceeds maximum length of 2048 characters"));
    let (s, m) = ApiError::UnsupportedScheme { scheme: "ftp".to_string() }.response_parts();
    assert_eq!((s, m.as_str()), (400, "Unsupported URL scheme: ftp"));
    let (s, m) = ApiError::NotFound.response_parts();
    assert_eq!((s, m.as_str()), (404, "URL not found"));
    let (s, m) = ApiError::TooManyCollisions.response_parts();
    assert_eq!((s, m.as_str()), (500, "Service temporarily unavailable"));
    let (s, m) = ApiError::Database("secret detail".to_string()).response_parts();
    assert_eq!((s, m.as_str()), (500, "Internal server error"));
    let (s, _) = ApiError::Cache("x".to_string()).response_parts();
    assert_eq!(s, 500);
    let (s, _) = ApiError::ClickTrackingFailed("x".to_string()).response_parts();
    assert_eq!(s, 500);
    let e = url::Url::parse("nonsense").unwrap_err();
    let (s, m) = ApiError::InvalidUrl(e).response_parts();
    assert_eq!(s, 400);
    assert_eq!(m, format!("Invalid URL format: {}", e));
}

#[test]
fn quota_needs_positive_period_and_burst() {
    let c = RateLimitConfig::parse("20:30:60", "X").unwrap();
    assert_eq!(c.quota_settings(), Some((20, 30)));
    let c = RateLimitConfig::parse("0:30:60", "X").unwrap();
    assert_eq!(c.quota_settings(), None);
    let c = RateLimitConfig::parse("5:0:60", "X").unwrap();
    assert_eq!(c.quota_settings(), None);
}
