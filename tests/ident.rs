use yab_parser::lexer::code_iter::IntoCodeIterator;
use yab_parser::lexer::ident::{
    try_parse_identifier, IdentParseResult, Identifier, Keyword, KeywordType, ValueLiteral, ValueLiteralType,
};
use yab_parser::lexer::operator::{Operator, OperatorType};

#[test]
fn test_parse_simple_identifier() {
    let src = "hello";
    let mut chars = src.into_code_iterator("script.js".to_string());

    assert_eq!(
        try_parse_identifier(&mut chars).unwrap().unwrap(),
        IdentParseResult::Identifier(Identifier::from("hello".to_string()))
    );
}

#[test]
fn test_parse_beginning_underscore_identifier() {
    let src = "_hello";
    let mut chars = src.into_code_iterator("script.js".to_string());
    assert_eq!(
        try_parse_identifier(&mut chars).unwrap().unwrap(),
        IdentParseResult::Identifier(Identifier::from("_hello".to_string()))
    );
}

#[test]
fn test_parse_numeric_identifier() {
    let src = "_hello123";
    let mut chars = src.into_code_iterator("script.js".to_string());
    assert_eq!(
        try_parse_identifier(&mut chars).unwrap().unwrap(),
        IdentParseResult::Identifier(Identifier::from("_hello123".to_string()))
    );
}

#[test]
fn test_parse_unicode_start_id() {
    let src = r#"\u0041BC"#;
    let mut chars = src.into_code_iterator("script.js".to_string());
    assert_eq!(
        try_parse_identifier(&mut chars).unwrap().unwrap(),
        IdentParseResult::Identifier(Identifier::from("ABC".to_string()))
    );
}

#[test]
fn test_parse_unicode_mid() {
    let src = r#"A\u0042C"#;
    let mut chars = src.into_code_iterator("script.js".to_string());
    assert_eq!(
        try_parse_identifier(&mut chars).unwrap().unwrap(),
        IdentParseResult::Identifier(Identifier::from("ABC".to_string()))
    );
}

#[test]
fn test_invalid_identifer() {
    let src = r#"AB\u0043\n"#;
    let mut chars = src.into_code_iterator("script.js".to_string());
    let result = try_parse_identifier(&mut chars);

    assert!(result
        .unwrap_err()
        .to_string()
        .contains("Invalid escape sequence in identifier: \\u000A"));
}

#[test]
fn test_identifier_parser_does_not_eat_trailing_chars() {
    let src = r#"AB\u0043 "#;
    let mut chars = src.into_code_iterator("script.js".to_string());
    assert_eq!(
        try_parse_identifier(&mut chars).unwrap().unwrap(),
        IdentParseResult::Identifier(Identifier::from("ABC".to_string()))
    );
    assert_eq!(chars.next().unwrap(), ' ');
}

#[test]
fn test_keyword() {
    let src = "const a";
    let mut chars = src.into_code_iterator("script.js".to_string());
    assert_eq!(
        try_parse_identifier(&mut chars).unwrap().unwrap(),
        IdentParseResult::Keyword(Keyword::new(
            KeywordType::from_lexeme("const").expect("Could not parse keyword: const")
        ))
    );
    assert_eq!(chars.next().unwrap(), ' ');
}

#[test]
fn test_parse_value_types() {
    let value_literals = vec![
        (ValueLiteralType::Null, "null"),
        (ValueLiteralType::True, "true"),
        (ValueLiteralType::False, "false"),
    ];

    for (value_type, src) in value_literals {
        let mut chars = src.into_code_iterator("script.js".to_string());
        assert_eq!(
            try_parse_identifier(&mut chars).unwrap().unwrap(),
            IdentParseResult::ValueLiteral(ValueLiteral::new(value_type))
        );
    }
}

#[test]
fn reserved_words_are_operators() {
    for (src, kind) in [
        ("typeof", OperatorType::TypeOf),
        ("instanceof", OperatorType::InstanceOf),
        ("in", OperatorType::In),
        ("void", OperatorType::Void),
        ("yield", OperatorType::Yield),
        ("await", OperatorType::Await),
    ] {
        let mut chars = src.into_code_iterator("script.js".to_string());
        assert_eq!(
            try_parse_identifier(&mut chars).unwrap().unwrap(),
            IdentParseResult::Operator(Operator::new(kind))
        );
    }
}

#[test]
fn not_an_identifier_leaves_the_cursor() {
    let mut chars = "1abc".into_code_iterator("script.js".to_string());
    assert_eq!(try_parse_identifier(&mut chars).unwrap(), None);
    assert_eq!(chars.next(), Some('1'));
    let mut chars = "\\\nx".into_code_iterator("script.js".to_string());
    assert_eq!(
        try_parse_identifier(&mut chars).unwrap().unwrap(),
        IdentParseResult::Identifier(Identifier::new("x".to_string()))
    );
    let mut chars = "\\\n+".into_code_iterator("script.js".to_string());
    assert_eq!(try_parse_identifier(&mut chars).unwrap(), None);
    assert_eq!(chars.next(), Some('\\'));
}

#[test]
fn escaped_digit_cannot_start_an_identifier() {
    let mut chars = "\\u0031a".into_code_iterator("script.js".to_string());
    assert_eq!(
        try_parse_identifier(&mut chars).unwrap_err().to_string(),
        "Invalid escape sequence in identifier: \\u0031"
    );
}

#[test]
fn unicode_letters_and_dollar_signs() {
    let mut chars = "$été_1 x".into_code_iterator("script.js".to_string());
    assert_eq!(
        try_parse_identifier(&mut chars).unwrap().unwrap(),
        IdentParseResult::Identifier(Identifier::new("$été_1".to_string()))
    );
    assert_eq!(KeywordType::Function.lexeme(), "function");
    assert_eq!(ValueLiteralType::from_lexeme("nil"), None);
}

#[test]
fn non_ascii_digits_continue_but_do_not_start_identifiers() {
    let mut chars = "a\u{0663} ".into_code_iterator("script.js".to_string());
    assert_eq!(
        try_parse_identifier(&mut chars).unwrap().unwrap(),
        IdentParseResult::Identifier(Identifier::new("a\u{0663}".to_string()))
    );
    let mut chars = "\u{0663}a".into_code_iterator("script.js".to_string());
    assert_eq!(try_parse_identifier(&mut chars).unwrap(), None);
}

#[test]
fn no_word_leaves_the_whole_cursor() {
    let mut chars = "a 1".into_code_iterator("script.js".to_string());
    chars.next();
    chars.next();
    let before = (chars.current_position(), chars.previous_position());
    assert_eq!(try_parse_identifier(&mut chars).unwrap(), None);
    assert_eq!((chars.current_position(), chars.previous_position()), before);
}
