use yab_parser::lexer::code_iter::IntoCodeIterator;
use yab_parser::lexer::punctuation::{try_parse_punctuation, PunctuationType};

#[test]
fn test_parse_punctuation() {
    let punctuators = vec![
        (";", PunctuationType::Semicolon),
        ("(", PunctuationType::OpenParen),
        (")", PunctuationType::CloseParen),
        ("{", PunctuationType::OpenBrace),
        ("}", PunctuationType::CloseBrace),
        (".", PunctuationType::Dot),
    ];

    for p in punctuators {
        let mut chars = p.0.into_code_iterator("script.js".to_string());
        let parsed = try_parse_punctuation(&mut chars).unwrap();
        assert_eq!(parsed.kind, p.1);
    }
}

#[test]
fn test_non_existent_punctuator() {
    let mut chars = "!~~~~".into_code_iterator("script.js".to_string());
    let parsed = try_parse_punctuation(&mut chars);
    assert!(parsed.is_none());
}

#[test]
fn punctuation_takes_one_character() {
    let mut chars = "...".into_code_iterator("script.js".to_string());
    assert_eq!(try_parse_punctuation(&mut chars).unwrap().kind, PunctuationType::Dot);
    assert_eq!(chars.next(), Some('.'));
}
