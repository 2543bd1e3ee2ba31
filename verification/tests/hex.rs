use kaylee::shared::{parse_hex, str_eq, HexParseError};

#[test]
fn test_parse_hex_bytes() {
    assert_eq!(vec![30u8, 1, 1, 244], parse_hex("1E 01 01 F4").unwrap());
    assert_eq!(vec![0u8, 255], parse_hex("0 ff").unwrap());
    assert_eq!(vec![16u8], parse_hex("10").unwrap());
}

#[test]
fn test_parse_hex_invalid_digit() {
    assert_eq!(Err(HexParseError::InvalidDigit), parse_hex("zz"));
    assert_eq!(Err(HexParseError::InvalidDigit), parse_hex("1E 0x"));
}

#[test]
fn test_parse_hex_empty_token() {
    assert_eq!(Err(HexParseError::EmptyToken), parse_hex(""));
    assert_eq!(Err(HexParseError::EmptyToken), parse_hex("1E  01"));
}

#[test]
fn test_parse_hex_overflow() {
    assert_eq!(Err(HexParseError::Overflow), parse_hex("100"));
    assert_eq!(Err(HexParseError::Overflow), parse_hex("1E fff"));
}

#[test]
fn test_str_eq() {
    assert!(str_eq("LOAD", "LOAD"));
    assert!(!str_eq("LOAD", "LOA"));
    assert!(!str_eq("LOAD", "load"));
    assert!(str_eq("", ""));
}
