use yab_parser::lexer::code_iter::IntoCodeIterator;
use yab_parser::lexer::string::{try_parse_string, StringLiteral};

fn lit(s: &str) -> StringLiteral {
    StringLiteral::new(s.to_string())
}

#[test]
fn test_parse_double_quote_delimted_string() {
    let src = r#""hello world""#;
    let mut chars = src.into_code_iterator("script.js".to_string());

    let result = try_parse_string(&mut chars).unwrap().unwrap();

    assert_eq!(result, lit("hello world"));
    assert_eq!(chars.next(), None);
}

#[test]
fn test_parse_single_quoted_string() {
    let src = r#"'hello world'"#;
    let mut chars = src.into_code_iterator("script.js".to_string());

    let result = try_parse_string(&mut chars).unwrap().unwrap();

    assert_eq!(result, lit("hello world"));
    assert_eq!(chars.next(), None);
}

#[test]
fn test_empty_string_returns_none() {
    let src = r#""#;
    let mut chars = src.into_code_iterator("script.js".to_string());

    let result = try_parse_string(&mut chars).unwrap();

    assert_eq!(result, None);
    assert_eq!(chars.next(), None);
}

#[test]
fn test_invalid_delimiter_returns_none() {
    let src = r#"hello world"#;
    let mut chars = src.into_code_iterator("script.js".to_string());

    let result = try_parse_string(&mut chars).unwrap();

    assert_eq!(result, None);
    assert_eq!(chars.next(), Some('h'));
}

#[test]
fn test_unexpected_line_terminator_returns_err() {
    let src = r#""hello
        world""#;
    let mut chars = src.into_code_iterator("script.js".to_string());

    let result = try_parse_string(&mut chars);

    assert!(result.is_err());
    assert_eq!(
        result.unwrap_err().to_string(),
        "Unexpected line terminator while parsing string literal"
    );
}

#[test]
fn test_unexpected_eof_returns_err() {
    let src = r#""hello world"#;
    let mut chars = src.into_code_iterator("script.js".to_string());

    let result = try_parse_string(&mut chars);

    assert!(result.is_err());
    assert_eq!(
        result.unwrap_err().to_string(),
        "Unexpected EOF while parsing string literal"
    );
}

#[test]
fn string_test_escape_sequences_are_parsed() {
    let src = r#""hello\nworld \u{1f600}""#;
    let mut chars = src.into_code_iterator("script.js".to_string());
    assert_eq!(
        try_parse_string(&mut chars).unwrap().unwrap(),
        lit("hello\nworld 😀")
    );
}

#[test]
fn test_escape_sequences_eat_appropriate_leading_and_trailing_chars() {
    let src = r#""\u0041\u0042C""#;
    let mut chars = src.into_code_iterator("script.js".to_string());

    assert_eq!(try_parse_string(&mut chars).unwrap().unwrap(), lit("ABC"));
}

#[test]
fn test_escaped_line_character() {
    let src = r#""hello\
 world""#;
    let mut chars = src.into_code_iterator("script.js".to_string());

    assert_eq!(
        try_parse_string(&mut chars).unwrap().unwrap(),
        lit("hello world")
    );
}

#[test]
fn other_quote_does_not_close() {
    let mut chars = r#"'say "hi"' x"#.into_code_iterator("script.js".to_string());
    assert_eq!(try_parse_string(&mut chars).unwrap().unwrap(), lit("say \"hi\""));
    assert_eq!(chars.next(), Some(' '));
    let converted: StringLiteral = "abc".to_string().into();
    assert_eq!(converted, lit("abc"));
}

#[test]
fn bad_escape_in_string_fails() {
    let mut chars = r#""\u{110000}""#.into_code_iterator("script.js".to_string());
    assert_eq!(
        try_parse_string(&mut chars).unwrap_err().to_string(),
        "Undefined Unicode code-point"
    );
}
