use indradb_lib::{ArbitraryError, Identifier, ValidationError, MAX_IDENTIFIER_BYTES};

#[test]
fn identifier_accepts_up_to_255_bytes() {
    let s = "a".repeat(255);
    let id = Identifier::new(s.clone()).unwrap();
    assert_eq!(id.as_str(), s);
    assert_eq!(MAX_IDENTIFIER_BYTES, 255);
}

#[test]
fn identifier_refuses_256_bytes() {
    assert_eq!(Identifier::new("a".repeat(256)), Err(ValidationError::ValueTooLong));
}

#[test]
fn identifier_counts_utf8_bytes_not_chars() {
    // 'é' takes two bytes in UTF-8.
    assert!(Identifier::new("é".repeat(127)).is_ok());
    assert_eq!(Identifier::new("é".repeat(128)), Err(ValidationError::ValueTooLong));
    // '€' takes three bytes: 85 of them are 255 bytes.
    assert!(Identifier::new("€".repeat(85)).is_ok());
    assert_eq!(Identifier::new("€".repeat(86)), Err(ValidationError::ValueTooLong));
}

#[test]
fn identifier_new_accepts_empty() {
    assert_eq!(Identifier::new(String::new()).unwrap().as_str(), "");
}

#[test]
fn drawn_identifier_empty_needs_more_data() {
    assert_eq!(Identifier::from_arbitrary(String::new()), Err(ArbitraryError::NotEnoughData));
}

#[test]
fn drawn_identifier_too_long_is_ill_formed() {
    assert_eq!(Identifier::from_arbitrary("z".repeat(300)), Err(ArbitraryError::IncorrectFormat));
}

#[test]
fn drawn_identifier_valid() {
    let id = Identifier::from_arbitrary("vertex_type".to_string()).unwrap();
    assert_eq!(id.as_str(), "vertex_type");
    assert_eq!(id.clone(), id);
}
