use yab_parser::lexer::code_iter::{CodeIter, IntoCodeIterator};
use yab_parser::lexer::escape_chars::try_parse_escape;

fn cursor(src: &str) -> CodeIter {
    src.into_code_iterator("script.js".to_string())
}

#[test]
fn test_new_line_escape_sequence() {
    let mut chars = cursor(r#"n"#);
    assert_eq!(try_parse_escape(&mut chars).unwrap().unwrap(), '\n');
}

#[test]
fn test_non_escape_chars_interpreted_as_identity() {
    let mut chars = cursor(r#"a"#);
    assert_eq!(try_parse_escape(&mut chars).unwrap().unwrap(), 'a');
}

#[test]
fn test_single_escape_characters() {
    let js_single_escapes = vec![
        (r#"b"#, '\u{0008}'),
        (r#"f"#, '\u{000c}'),
        (r#"n"#, '\u{000a}'),
        (r#"r"#, '\u{000d}'),
        (r#"t"#, '\u{0009}'),
        (r#"v"#, '\u{000b}'),
        (r#"""#, '\u{0022}'),
        (r#"'"#, '\u{0027}'),
        (r#"\"#, '\u{005c}'),
    ];

    for (src, expected) in js_single_escapes {
        let mut chars = cursor(src);
        assert_eq!(try_parse_escape(&mut chars).unwrap().unwrap(), expected);
    }
}

#[test]
fn test_octal_escape_sequence() {
    let mut chars = cursor(r#"0"#);
    assert_eq!(try_parse_escape(&mut chars).unwrap().unwrap(), '\u{0000}');
}

#[test]
fn test_octal_escape_sequence_out_of_range() {
    let mut chars = cursor(r#"777"#);
    let result = try_parse_escape(&mut chars);

    assert!(result.is_err());
    assert_eq!(
        result.unwrap_err().to_string(),
        "invalid octal escape sequence: out of range: 511"
    );
}

#[test]
fn test_octal_escape_sequence_does_not_eat_trailing_characters() {
    let mut chars = cursor(r#"39"#);
    assert_eq!(try_parse_escape(&mut chars).unwrap().unwrap(), '\u{0003}');
    assert_eq!(chars.next().unwrap(), '9');
}

#[test]
fn test_hex_escape_sequence_where_no_leading_char() {
    let result = try_parse_escape(&mut cursor(r#"x"#));

    assert!(result.is_err());
    assert_eq!(
        result.unwrap_err().to_string(),
        "Invalid hexadecimal escape sequence"
    );
}

#[test]
fn test_hex_escape_sequence_where_leading_char_not_hex_digit() {
    let result = try_parse_escape(&mut cursor(r#"xG"#));

    assert!(result.is_err());
    assert_eq!(
        result.unwrap_err().to_string(),
        "Invalid hexadecimal escape sequence"
    );
}

#[test]
fn test_hex_escape_sequence_where_next_char_not_hex_digit() {
    let result = try_parse_escape(&mut cursor(r#"xFG"#));

    assert!(result.is_err());
    assert_eq!(
        result.unwrap_err().to_string(),
        "Invalid hexadecimal escape sequence"
    );
}

#[test]
fn test_valid_hex_escape_sequence() {
    let mut chars = cursor(r#"xFF"#);
    assert_eq!(try_parse_escape(&mut chars).unwrap().unwrap(), '\u{00ff}');
}

#[test]
fn test_unicode_escape_sequence_with_braces() {
    let mut chars = cursor(r#"u{1f600}"#);
    assert_eq!(try_parse_escape(&mut chars).unwrap().unwrap(), '\u{1f600}');
    assert_eq!(chars.next(), None)
}

#[test]
fn test_unicode_escape_sequence_without_braces() {
    let mut chars = cursor(r#"u1f600"#);
    assert_eq!(try_parse_escape(&mut chars).unwrap().unwrap(), '\u{1f60}');
    assert_eq!(chars.next().unwrap(), '0');
}

#[test]
fn test_unicode_escape_sequence_out_of_range() {
    let result = try_parse_escape(&mut cursor(r#"u{1f6000}"#));

    assert!(result.is_err());
    assert_eq!(
        result.unwrap_err().to_string(),
        "Undefined Unicode code-point"
    );
}

#[test]
fn test_unicode_escape_sequence_invalid_chars() {
    let result = try_parse_escape(&mut cursor(r#"u{1f6G0}"#));

    assert!(result.is_err());
    assert_eq!(
        result.unwrap_err().to_string(),
        "Invalid hexadecimal escape sequence"
    );

    let result = try_parse_escape(&mut cursor(r#"uFFG"#));

    assert!(result.is_err());
    assert_eq!(
        result.unwrap_err().to_string(),
        "Invalid hexadecimal escape sequence"
    );
}

#[test]
fn test_unicode_escape_does_not_eat_trailing_chars() {
    let mut chars = cursor(r#"u00410"#);
    assert_eq!(try_parse_escape(&mut chars).unwrap().unwrap(), 'A');
    assert_eq!(chars.next().unwrap(), '0');
}

#[test]
fn line_continuation_decodes_to_nothing() {
    for src in ["\n", "\r", "\u{2028}", "\u{2029}"] {
        let mut chars = cursor(src);
        assert_eq!(try_parse_escape(&mut chars).unwrap(), None);
        assert_eq!(chars.next(), None);
    }
}

#[test]
fn eof_after_backslash_fails() {
    let result = try_parse_escape(&mut cursor(""));
    assert_eq!(
        result.unwrap_err().to_string(),
        "Unexpected EOF while parsing escape sequence"
    );
}

#[test]
fn braced_code_point_at_the_limit() {
    let mut chars = cursor("u{10FFFF}");
    assert_eq!(try_parse_escape(&mut chars).unwrap().unwrap(), '\u{10FFFF}');
    let result = try_parse_escape(&mut cursor("u{110000}"));
    assert_eq!(result.unwrap_err().to_string(), "Undefined Unicode code-point");
    let result = try_parse_escape(&mut cursor("u{0000000000000001F600}"));
    assert_eq!(result.unwrap().unwrap(), '\u{1F600}');
    let result = try_parse_escape(&mut cursor("u{FFFFFFFFFFFF}"));
    assert_eq!(result.unwrap_err().to_string(), "Undefined Unicode code-point");
}

#[test]
fn surrogate_code_point_is_invalid() {
    let result = try_parse_escape(&mut cursor("uD800"));
    assert_eq!(result.unwrap_err().to_string(), "Invalid Unicode code-point");
}

#[test]
fn octal_escape_at_the_limit() {
    let mut chars = cursor("377");
    assert_eq!(try_parse_escape(&mut chars).unwrap().unwrap(), '\u{ff}');
    let result = try_parse_escape(&mut cursor("400"));
    assert_eq!(
        result.unwrap_err().to_string(),
        "invalid octal escape sequence: out of range: 256"
    );
}

#[test]
fn braced_escape_needs_a_digit() {
    let result = try_parse_escape(&mut cursor("u{}"));
    assert_eq!(result.unwrap_err().to_string(), "Invalid hexadecimal escape sequence");
}
