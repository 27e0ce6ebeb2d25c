use shortener::codegen::{base62_symbol, fresh_code, generate_random_base62_code, CODE_LEN};

#[test]
fn test_generate_random_base62_code_length() {
    let code = generate_random_base62_code(10);
    assert_eq!(code.len(), 10);
}

#[test]
fn test_generate_random_base62_code_is_alphanumeric() {
    let code = generate_random_base62_code(10);
    assert!(code.chars().all(|c| c.is_ascii_alphanumeric()));
}

#[test]
fn empty_code_for_length_zero() {
    assert_eq!(generate_random_base62_code(0), "");
}

#[test]
fn fresh_codes_have_the_configured_length() {
    for _ in 0..200 {
        let code = fresh_code();
        assert_eq!(code.chars().count(), CODE_LEN);
        assert!(code.chars().all(|c| c.is_ascii_alphanumeric()));
    }
}

#[test]
fn codes_vary_between_draws() {
    let first = generate_random_base62_code(32);
    let second = generate_random_base62_code(32);
    assert_ne!(first, second);
}

#[test]
fn alphabet_order_is_digits_lower_upper() {
    assert_eq!(base62_symbol(0), '0');
    assert_eq!(base62_symbol(9), '9');
    assert_eq!(base62_symbol(10), 'a');
    assert_eq!(base62_symbol(35), 'z');
    assert_eq!(base62_symbol(36), 'A');
    assert_eq!(base62_symbol(61), 'Z');
}
