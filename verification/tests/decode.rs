use expr_ast::decode::bin_str_to_int;
use expr_ast::decode::check_float_text;
use expr_ast::decode::hex_str_to_int;
use expr_ast::decode::oct_str_to_int;
use expr_ast::decode::parse_i64_radix;
use expr_ast::decode::str_to_char;
use expr_ast::decode::str_to_str_lit;
use expr_ast::errors::DecodeError;

#[test]
fn hex_literal_decodes_to_base_value() {
    assert_eq!(hex_str_to_int("0x1A"), Ok(26));
    assert_eq!(hex_str_to_int("0X1a"), Ok(26));
    assert_eq!(hex_str_to_int("0xfF"), Ok(255));
}

#[test]
fn bin_literal_decodes_to_base_value() {
    assert_eq!(bin_str_to_int("0b101"), Ok(5));
    assert_eq!(bin_str_to_int("0b0"), Ok(0));
}

#[test]
fn oct_literal_decodes_to_base_value() {
    assert_eq!(oct_str_to_int("0o17"), Ok(15));
    assert_eq!(oct_str_to_int("0o777"), Ok(511));
}

#[test]
fn dec_literal_decodes_to_base_value() {
    assert_eq!(parse_i64_radix("42", 10), Ok(42));
    assert_eq!(parse_i64_radix("0", 10), Ok(0));
    assert_eq!(parse_i64_radix("-42", 10), Ok(-42));
    assert_eq!(parse_i64_radix("+7", 10), Ok(7));
}

#[test]
fn extreme_values_round_trip() {
    assert_eq!(parse_i64_radix("9223372036854775807", 10), Ok(i64::MAX));
    assert_eq!(parse_i64_radix("-9223372036854775808", 10), Ok(i64::MIN));
}

#[test]
fn decode_failures_are_reported_exactly() {
    assert_eq!(parse_i64_radix("", 10), Err(DecodeError::Empty));
    assert_eq!(parse_i64_radix("+", 10), Err(DecodeError::InvalidDigit));
    assert_eq!(parse_i64_radix("12z", 10), Err(DecodeError::InvalidDigit));
    assert_eq!(
        parse_i64_radix("9223372036854775808", 10),
        Err(DecodeError::PosOverflow)
    );
    assert_eq!(
        parse_i64_radix("-9223372036854775809", 10),
        Err(DecodeError::NegOverflow)
    );
}

#[test]
fn prefixed_decode_failures() {
    assert_eq!(bin_str_to_int("0b"), Err(DecodeError::Empty));
    assert_eq!(bin_str_to_int("0"), Err(DecodeError::MissingPrefix));
    assert_eq!(bin_str_to_int("0b102"), Err(DecodeError::InvalidDigit));
    assert_eq!(oct_str_to_int("0o8"), Err(DecodeError::InvalidDigit));
    assert_eq!(hex_str_to_int("0xg"), Err(DecodeError::InvalidDigit));
}

#[test]
fn tag_not_text_decides_the_base() {
    // The same all-digits text reads differently under each decoder.
    assert_eq!(parse_i64_radix("101", 10), Ok(101));
    assert_eq!(bin_str_to_int("0b101"), Ok(5));
    assert_eq!(oct_str_to_int("0o101"), Ok(65));
    assert_eq!(hex_str_to_int("0x101"), Ok(257));
}

#[test]
fn string_literal_trims_outer_quotes() {
    assert_eq!(str_to_str_lit("\"abc\""), "abc");
    assert_eq!(str_to_str_lit("\"\""), "");
}

#[test]
fn string_literal_boundary_quotes_are_stripped_too() {
    // A content quote at the boundary goes with the outer quotes;
    // one in the middle stays.
    assert_eq!(str_to_str_lit("\"\"abc\"\""), "abc");
    assert_eq!(str_to_str_lit("\"a\"b\""), "a\"b");
}

#[test]
fn char_literal_decodes_first_character() {
    assert_eq!(str_to_char("'x'"), Ok('x'));
    assert_eq!(str_to_char("''"), Err(DecodeError::EmptyChar));
}

#[test]
fn float_shape_is_digits_dot_digits() {
    assert!(check_float_text("3.14"));
    assert!(check_float_text("0.0"));
    assert!(!check_float_text("314"));
    assert!(!check_float_text("3."));
    assert!(!check_float_text(".5"));
    assert!(!check_float_text("3.1.4"));
    assert!(!check_float_text(""));
}
