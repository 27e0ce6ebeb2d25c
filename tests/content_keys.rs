use shortener::keys::{encode, u64_from_be_prefix};
use shortener::validate::validate_url;

#[test]
fn content_keys_match_known_digests() {
    assert_eq!(encode("https://example.com"), "1NIm5dudJe1");
    assert_eq!(encode(""), "JXzS1IOHZlk");
    assert_eq!(encode("hello"), "3rFRl63gZfq");
}

#[test]
fn content_key_is_stable() {
    assert_eq!(encode("https://example.com/a"), encode("https://example.com/a"));
    assert_ne!(encode("https://example.com/a"), encode("https://example.com/b"));
}

#[test]
fn big_endian_prefix() {
    let bytes = vec![0, 0, 0, 0, 0, 0, 1, 2, 99];
    assert_eq!(u64_from_be_prefix(&bytes), 258);
    let bytes = vec![255; 8];
    assert_eq!(u64_from_be_prefix(&bytes), u64::MAX);
    let bytes = vec![1, 0, 0, 0, 0, 0, 0, 0];
    assert_eq!(u64_from_be_prefix(&bytes), 1 << 56);
}

#[test]
fn validate_url_answers_with_status_and_message() {
    assert!(validate_url("https://example.com").is_ok());
    let (status, message) = validate_url("mailto:someone@example.com").unwrap_err();
    assert_eq!(status, 400);
    assert_eq!(message, "Only http and https schemes are accepted");
    let (status, message) = validate_url("not a url").unwrap_err();
    assert_eq!(status, 400);
    assert!(message.starts_with("Invalid URL: "));
}
