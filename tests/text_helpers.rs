use shortener::text::{decimal_string, same_text, shortened_url_from_key, truncate};

#[test]
fn test_truncate_shorter_than_max() {
    let result = truncate("hello", 10);
    assert_eq!(result, "hello");
}

#[test]
fn test_truncate_equal_to_max() {
    let result = truncate("hello", 5);
    assert_eq!(result, "hello");
}

#[test]
fn test_truncate_longer_than_max() {
    let result = truncate("hello world", 5);
    assert_eq!(result, "hello...");
}

#[test]
fn test_truncate_empty_string() {
    let result = truncate("", 10);
    assert_eq!(result, "");
}

#[test]
fn test_truncate_zero_max() {
    let result = truncate("hello", 0);
    assert_eq!(result, "...");
}

#[test]
fn test_truncate_unicode() {
    let result = truncate("hello 世界", 7);
    assert_eq!(result, "hello 世...");
}

#[test]
fn decimal_string_of_zero_and_others() {
    assert_eq!(decimal_string(0), "0");
    assert_eq!(decimal_string(7), "7");
    assert_eq!(decimal_string(2048), "2048");
    assert_eq!(decimal_string(u64::MAX), "18446744073709551615");
}

#[test]
fn same_text_compares_characters() {
    assert!(same_text("admin", "admin"));
    assert!(!same_text("admin", "admim"));
    assert!(!same_text("admin", "admin1"));
    assert!(same_text("", ""));
}

#[test]
fn short_link_is_built_on_the_host() {
    assert_eq!(shortened_url_from_key("aZ3kT9"), "https://tg.com/aZ3kT9");
    assert_eq!(shortened_url_from_key(""), "https://tg.com/");
}
