use entities::token::{generate, generate_code, to_decimal, Charset};

#[test]
fn an_alphanumeric_token_has_its_length_and_charset() {
    for length in [0usize, 1, 64, 256] {
        let token = generate(length, Charset::Alphanumeric);
        assert_eq!(token.chars().count(), length);
        assert_eq!(token.len(), length);
        assert!(token.chars().all(|c| c.is_ascii_alphanumeric()));
    }
}

#[test]
fn a_digit_token_has_its_length_and_charset() {
    for length in [0usize, 1, 8, 100] {
        let token = generate(length, Charset::Digits);
        assert_eq!(token.len(), length);
        assert!(token.chars().all(|c| c.is_ascii_digit()));
    }
}

#[test]
fn two_tokens_differ() {
    let first = generate(64, Charset::Alphanumeric);
    let second = generate(64, Charset::Alphanumeric);
    assert_ne!(first, second);
}

#[test]
fn a_long_token_uses_letters_and_digits() {
    let token = generate(4096, Charset::Alphanumeric);
    assert!(token.chars().any(|c| c.is_ascii_digit()));
    assert!(token.chars().any(|c| c.is_ascii_lowercase()));
    assert!(token.chars().any(|c| c.is_ascii_uppercase()));
}

#[test]
fn a_code_lies_below_its_limit() {
    for _ in 0..200 {
        let code = generate_code(99_999_999);
        assert!(1 <= code && code < 99_999_999);
    }
    for _ in 0..50 {
        assert_eq!(generate_code(2), 1);
        let small = generate_code(4);
        assert!(1 <= small && small < 4);
    }
}

#[test]
fn decimal_digits_of_a_number() {
    assert_eq!(to_decimal(0), "0");
    assert_eq!(to_decimal(7), "7");
    assert_eq!(to_decimal(10), "10");
    assert_eq!(to_decimal(407), "407");
    assert_eq!(to_decimal(99_999_998), "99999998");
    assert_eq!(to_decimal(1_000_000_000), "1000000000");
    assert_eq!(to_decimal(u32::MAX), "4294967295");
    for n in [1u32, 9, 11, 100, 12_345, 4_000_000_000] {
        assert_eq!(to_decimal(n), n.to_string());
    }
}
