use todo_app::token::{parse_token, token_from_le_bytes, token_key, token_text};

#[test]
fn parse_token_reads_plain_digits() {
    assert_eq!(parse_token("42"), Some(42));
    assert_eq!(parse_token("0"), Some(0));
    assert_eq!(parse_token("007"), Some(7));
}

#[test]
fn parse_token_accepts_a_leading_plus() {
    assert_eq!(parse_token("+7"), Some(7));
    assert_eq!(parse_token("+"), None);
    assert_eq!(parse_token("++7"), None);
}

#[test]
fn parse_token_refuses_non_digits() {
    assert_eq!(parse_token(""), None);
    assert_eq!(parse_token("-1"), None);
    assert_eq!(parse_token("12a"), None);
    assert_eq!(parse_token(" 12"), None);
    assert_eq!(parse_token("_"), None);
    assert_eq!(parse_token("１２"), None);
}

#[test]
fn parse_token_bounds() {
    assert_eq!(
        parse_token("340282366920938463463374607431768211455"),
        Some(u128::MAX)
    );
    assert_eq!(parse_token("340282366920938463463374607431768211456"), None);
    assert_eq!(parse_token("9999999999999999999999999999999999999999x"), None);
}

#[test]
fn parse_token_agrees_with_std() {
    for text in ["1", "+1", "", "+", "-0", "18446744073709551616", "3a", "0000", "99"] {
        assert_eq!(parse_token(text), text.parse::<u128>().ok(), "{text}");
    }
}

#[test]
fn token_text_is_decimal() {
    assert_eq!(token_text(0), "0");
    assert_eq!(token_text(10), "10");
    assert_eq!(token_text(1234567890), "1234567890");
    assert_eq!(token_text(u128::MAX), u128::MAX.to_string());
}

#[test]
fn token_text_reads_back() {
    for t in [0u128, 9, 10, 99, 100, 12345678901234567890, u128::MAX - 1, u128::MAX] {
        assert_eq!(parse_token(&token_text(t)), Some(t));
    }
}

#[test]
fn token_key_is_little_endian() {
    let mut expected = vec![0u8; 16];
    expected[0] = 0x34;
    expected[1] = 0x12;
    assert_eq!(token_key(0x1234), expected);
    assert_eq!(token_key(u128::MAX), vec![0xffu8; 16]);
    let t = 0x0102_0304_0506_0708_090a_0b0c_0d0e_0f10u128;
    assert_eq!(token_key(t), t.to_le_bytes().to_vec());
}

#[test]
fn token_from_le_bytes_matches_std() {
    let bytes = [1u8, 2, 3, 4, 5, 6, 7, 8, 9, 10, 11, 12, 13, 14, 15, 16];
    assert_eq!(token_from_le_bytes(bytes), u128::from_le_bytes(bytes));
    assert_eq!(token_from_le_bytes([0u8; 16]), 0);
}

#[test]
fn token_key_reads_back() {
    for t in [0u128, 1, 255, 256, u128::MAX, 0xdead_beef_0000_1111_2222_3333_4444_5555] {
        let key = token_key(t);
        let mut bytes = [0u8; 16];
        bytes.copy_from_slice(&key);
        assert_eq!(token_from_le_bytes(bytes), t);
    }
}
