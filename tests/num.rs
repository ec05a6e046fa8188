use num_bigint::BigInt;
use yab_parser::lexer::code_iter::IntoCodeIterator;
use yab_parser::lexer::num::{try_parse_number, BigIntStorage, NumberLiteralValue};

/// The double-precision value of a parsed number.
fn value(v: &NumberLiteralValue) -> f64 {
    match v {
        NumberLiteralValue::Primitive(p) => {
            let magnitude = if p.radix == 10 {
                let exponent = if p.exponent.is_empty() { "0" } else { p.exponent.as_str() };
                format!("{}e{}", p.digits, exponent).parse::<f64>().unwrap()
            } else {
                p.digits
                    .chars()
                    .fold(0.0, |acc, c| acc * p.radix as f64 + c.to_digit(p.radix).unwrap() as f64)
            };
            if p.negative {
                -magnitude
            } else {
                magnitude
            }
        }
        NumberLiteralValue::BigInt(_) => panic!("not a primitive number"),
    }
}

fn parse(src: &str) -> NumberLiteralValue {
    let mut chars = src.into_code_iterator("script.js".to_string());
    try_parse_number(&mut chars).unwrap().unwrap()
}

fn error(src: &str) -> String {
    let mut chars = src.into_code_iterator("script.js".to_string());
    try_parse_number(&mut chars).unwrap_err().to_string()
}

#[test]
fn test_not_leading_digit_returns_none() {
    let src = "asdf";
    let mut chars = src.into_code_iterator("script.js".to_string());
    assert_eq!(try_parse_number(&mut chars).unwrap(), None);
    assert_eq!(chars.next(), Some('a'));
}

#[test]
fn num_test_parse_simple_integer() {
    let src = "123A";
    let mut chars = src.into_code_iterator("script.js".to_string());
    assert_eq!(value(&try_parse_number(&mut chars).unwrap().unwrap()), 123.0);
    assert_eq!(chars.next().unwrap(), 'A');
}

#[test]
fn num_test_parse_simple_float() {
    assert_eq!(value(&parse("123.01")), 123.01);
}

#[test]
fn test_scientific_notation_integer() {
    assert_eq!(value(&parse("123e4")), 123e4);
}

#[test]
fn test_scientific_notation_float() {
    assert_eq!(value(&parse("123.1e2")), 123.1e2);
}

#[test]
fn num_test_base_10_big_int() {
    assert_eq!(
        parse("123n"),
        NumberLiteralValue::BigInt(BigIntStorage {
            value: BigInt::parse_bytes(b"123", 10).unwrap(),
            lexeme: "123n".to_string(),
        })
    );
}

#[test]
fn test_try_float_big_int() {
    assert_eq!(error("123.3n"), "failed to parse '123.3' into BigInt");
}

#[test]
fn test_parse_negative_integer() {
    assert_eq!(value(&parse("-123")), -123.0);
}

#[test]
fn test_negative_big_int() {
    assert_eq!(
        parse("-123n"),
        NumberLiteralValue::BigInt(BigIntStorage {
            value: BigInt::parse_bytes(b"-123", 10).unwrap(),
            lexeme: "-123n".to_string(),
        })
    );
}

#[test]
fn test_negative_scientific_notation() {
    assert_eq!(value(&parse("123e-1")), 123e-1);
}

#[test]
fn test_zero() {
    assert_eq!(value(&parse("0")), 0.0);
}

#[test]
fn test_hexadecimal_number() {
    assert_eq!(value(&parse("0xFF")), 255.0);
}

#[test]
fn test_negative_hexadecimal_number() {
    assert_eq!(value(&parse("-0xFF")), -255.0);
}

#[test]
fn test_hexadecimal_big_int() {
    assert_eq!(
        parse("0xFFn"),
        NumberLiteralValue::BigInt(BigIntStorage {
            value: BigInt::parse_bytes(b"255", 10).unwrap(),
            lexeme: "FFn".to_string(),
        })
    );
}

#[test]
fn test_bin_number() {
    assert_eq!(value(&parse("0b101")), 5.0);
}

#[test]
fn test_strict_octal_number() {
    assert_eq!(value(&parse("0o123")), 83.0);
}

#[test]
fn test_legacy_octal_number() {
    assert_eq!(value(&parse("0123")), 83.0);
}

#[test]
fn test_num_with_underlines() {
    assert_eq!(value(&parse("1_2_3")), 123.0);
}

#[test]
fn test_hex_with_underlines() {
    assert_eq!(value(&parse("0xF_F")), 255.0);
}

#[test]
fn test_hex_with_invalid_numeric_separator() {
    assert_eq!(error("0_xF_F"), "Numeric separator can not be used after leading 0");
}

#[test]
fn test_binary_invalid_chars() {
    assert_eq!(
        error("0b2"),
        "Expected a valid binary digit after '0b' while parsing numeric literal"
    );
}

#[test]
fn test_octal_invalid_chars() {
    assert_eq!(
        error("0o8"),
        "Expected a valid octal digit while parsing octal-formatted numeric literal"
    );
}

#[test]
fn test_hex_invalid_chars() {
    assert_eq!(
        error("0xG"),
        "Expected a valid hexadecimal digit after '0x' while parsing numeric literal"
    );
}

#[test]
fn missing_exponent_digits_fail() {
    assert_eq!(error("1e+"), "Expected a number after 'e' while parsing numeric literal");
}

#[test]
fn big_int_after_exponent_fails() {
    assert_eq!(error("1e3n"), "failed to parse '1e3' into BigInt");
}

#[test]
fn upper_case_exponent_and_negative_exponent_value() {
    assert_eq!(value(&parse("-2E3")), -2000.0);
    assert_eq!(value(&parse("-10.1e-4")), -10.1e-4);
}

#[test]
fn second_dot_ends_the_number() {
    let mut chars = "1.2.3".into_code_iterator("script.js".to_string());
    assert_eq!(value(&try_parse_number(&mut chars).unwrap().unwrap()), 1.2);
    assert_eq!(chars.next(), Some('.'));
}

#[test]
fn sign_without_digit_is_no_number() {
    let mut chars = "-x".into_code_iterator("script.js".to_string());
    assert_eq!(try_parse_number(&mut chars).unwrap(), None);
    assert_eq!(chars.next(), Some('-'));
}

#[test]
fn digits_and_radix_are_kept() {
    match parse("0b1_01") {
        NumberLiteralValue::Primitive(p) => {
            assert_eq!(p.radix, 2);
            assert_eq!(p.digits, "101");
            assert_eq!(p.exponent, "");
            assert!(!p.negative);
        }
        other => panic!("unexpected {:?}", other),
    }
    match parse("12.5e-3") {
        NumberLiteralValue::Primitive(p) => {
            assert_eq!(p.radix, 10);
            assert_eq!(p.digits, "12.5");
            assert_eq!(p.exponent, "-3");
        }
        other => panic!("unexpected {:?}", other),
    }
}

#[test]
fn big_int_in_other_radices() {
    assert_eq!(
        parse("0b11n"),
        NumberLiteralValue::BigInt(BigIntStorage {
            value: BigInt::from(3),
            lexeme: "11n".to_string(),
        })
    );
    assert_eq!(
        parse("-0o17n"),
        NumberLiteralValue::BigInt(BigIntStorage {
            value: BigInt::from(-15),
            lexeme: "-17n".to_string(),
        })
    );
}
