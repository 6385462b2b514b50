use lessons::parsing::{parse_str, ParseError};

#[test]
fn parses_plain_number() {
    assert_eq!(parse_str("123"), Ok(123));
}

#[test]
fn parses_another_number() {
    assert_eq!(parse_str("53"), Ok(53));
}

#[test]
fn rejects_trailing_garbage() {
    assert_eq!(parse_str("some1"), Err(ParseError::InvalidDigit));
}

#[test]
fn rejects_wrapped_number() {
    assert_eq!(parse_str("some(123)"), Err(ParseError::InvalidDigit));
}

#[test]
fn rejects_letters() {
    assert_eq!(parse_str("abc"), Err(ParseError::InvalidDigit));
}

#[test]
fn rejects_empty_input() {
    assert_eq!(parse_str(""), Err(ParseError::Empty));
}

#[test]
fn rejects_lone_sign() {
    assert_eq!(parse_str("+"), Err(ParseError::Empty));
    assert_eq!(parse_str("-"), Err(ParseError::Empty));
}

#[test]
fn parses_signed_numbers() {
    assert_eq!(parse_str("-12"), Ok(-12));
    assert_eq!(parse_str("+17"), Ok(17));
    assert_eq!(parse_str("-0"), Ok(0));
}

#[test]
fn parses_leading_zeros() {
    assert_eq!(parse_str("00042"), Ok(42));
}

#[test]
fn accepts_extreme_values() {
    assert_eq!(parse_str("2147483647"), Ok(i32::MAX));
    assert_eq!(parse_str("-2147483648"), Ok(i32::MIN));
}

#[test]
fn rejects_values_out_of_range() {
    assert_eq!(parse_str("2147483648"), Err(ParseError::PosOverflow));
    assert_eq!(parse_str("-2147483649"), Err(ParseError::NegOverflow));
    assert_eq!(parse_str("99999999999999999999"), Err(ParseError::PosOverflow));
}

#[test]
fn rejects_inner_sign() {
    assert_eq!(parse_str("12-3"), Err(ParseError::InvalidDigit));
    assert_eq!(parse_str("--5"), Err(ParseError::InvalidDigit));
}
