use yab_parser::lexer::code_iter::IntoCodeIterator;
use yab_parser::lexer::regex::{try_parse_regex_literal, RegexLiteral};

fn regex(pattern: &str, flags: &str) -> RegexLiteral {
    RegexLiteral::new(pattern.to_string(), flags.to_string())
}

#[test]
fn test_try_parse_regex_literal() {
    let mut chars = "/foo/g".into_code_iterator("script.js".to_string());
    let result = try_parse_regex_literal(&mut chars).unwrap().unwrap();
    assert_eq!(result, regex("foo", "g"));
}

#[test]
fn test_regex_without_flags() {
    let mut chars = "/foo/".into_code_iterator("script.js".to_string());
    let result = try_parse_regex_literal(&mut chars).unwrap().unwrap();
    assert_eq!(result, regex("foo", ""));
}

#[test]
fn test_regex_with_invalid_flags() {
    let mut chars = "/foo/z".into_code_iterator("script.js".to_string());
    let result = try_parse_regex_literal(&mut chars);

    assert_eq!(
        result.unwrap_err().to_string(),
        "Invalid regular expression flag 'z'"
    );
}

#[test]
fn test_regex_with_unexpected_line_break() {
    let mut chars = "/foo\n/z".into_code_iterator("script.js".to_string());
    let result = try_parse_regex_literal(&mut chars);

    assert_eq!(
        result.unwrap_err().to_string(),
        "Unexpected line terminator while parsing regular expression"
    );
}

#[test]
fn test_regex_flags_do_not_eat_next_chars() {
    let mut chars = "/foo/g.".into_code_iterator("script.js".to_string());
    let result = try_parse_regex_literal(&mut chars).unwrap().unwrap();
    assert_eq!(result, regex("foo", "g"));
    assert_eq!(chars.next(), Some('.'));
}

#[test]
fn unterminated_regex_fails() {
    let mut chars = "/foo".into_code_iterator("script.js".to_string());
    assert_eq!(
        try_parse_regex_literal(&mut chars).unwrap_err().to_string(),
        "Unterminated regex literal"
    );
}

#[test]
fn escaped_slash_stays_in_the_pattern() {
    let mut chars = r"/a\/b/i;".into_code_iterator("script.js".to_string());
    assert_eq!(try_parse_regex_literal(&mut chars).unwrap().unwrap(), regex(r"a\/b", "i"));
    assert_eq!(chars.next(), Some(';'));
}

#[test]
fn no_regex_where_a_comment_or_class_starts() {
    for src in ["//x", "/*x", "/[a]/", "/", "/\n/"] {
        let mut chars = src.into_code_iterator("script.js".to_string());
        assert_eq!(try_parse_regex_literal(&mut chars).unwrap(), None);
        assert_eq!(chars.next(), Some('/'));
    }
}
