use yab_parser::lexer::comment::{Comment, CommentType};
use yab_parser::lexer::ident::{Identifier, Keyword, KeywordType, ValueLiteral, ValueLiteralType};
use yab_parser::lexer::num::{NumberLiteral, NumberLiteralValue, NumericValue};
use yab_parser::lexer::operator::{Operator, OperatorType};
use yab_parser::lexer::punctuation::{Punctuation, PunctuationType};
use yab_parser::lexer::regex::RegexLiteral;
use yab_parser::lexer::string::StringLiteral;
use yab_parser::lexer::template::{TemplateLiteralExprClose, TemplateLiteralExprOpen, TemplateLiteralString};
use yab_parser::lexer::{tokenize, tokenize_file, Token};

fn ident(s: &str) -> Token {
    Token::Ident(Identifier::from(s.to_string()))
}

fn keyword(s: &str) -> Token {
    Token::Keyword(Keyword::new(KeywordType::from_lexeme(s).unwrap()))
}

fn op(kind: OperatorType) -> Token {
    Token::Operator(Operator::new(kind))
}

fn punct(kind: PunctuationType) -> Token {
    Token::Punctuation(Punctuation::new(kind))
}

fn segment(s: &str, complete: bool) -> Token {
    Token::TemplateLiteralString(TemplateLiteralString::new(s.to_string(), complete))
}

fn error(src: &str) -> String {
    tokenize(src).unwrap_err().to_string()
}

#[test]
fn test_file_tokenization() {
    let src = r#"
// This is a a comment
const a = `my template: ${b}`;

function foo() {
    return /hello/gm.test("\u0041BC") == true && 1.2e-3;
}
"#;

    let number = Token::NumericLiteral(NumberLiteral::new(NumberLiteralValue::Primitive(NumericValue {
        negative: false,
        radix: 10,
        digits: "1.2".to_string(),
        exponent: "-3".to_string(),
    })));
    assert_eq!("1.2e-3".parse::<f64>().unwrap(), 1.2e-3);
    assert_eq!(
        tokenize(src).unwrap(),
        vec![
            Token::Comment(Comment::new(CommentType::Line(" This is a a comment".to_string()))),
            keyword("const"),
            ident("a"),
            op(OperatorType::Assignment),
            segment("my template: ", false),
            Token::TemplateLiteralExprOpen(TemplateLiteralExprOpen::default()),
            ident("b"),
            Token::TemplateLiteralExprClose(TemplateLiteralExprClose::default()),
            segment("", true),
            punct(PunctuationType::Semicolon),
            keyword("function"),
            ident("foo"),
            punct(PunctuationType::OpenParen),
            punct(PunctuationType::CloseParen),
            punct(PunctuationType::OpenBrace),
            keyword("return"),
            Token::RegexLiteral(RegexLiteral::new("hello".to_string(), "gm".to_string())),
            punct(PunctuationType::Dot),
            ident("test"),
            punct(PunctuationType::OpenParen),
            Token::StringLiteral(StringLiteral::new("ABC".to_string())),
            punct(PunctuationType::CloseParen),
            op(OperatorType::LooseEquality),
            Token::ValueLiteral(ValueLiteral::new(ValueLiteralType::True)),
            op(OperatorType::LogicalAnd),
            number,
            punct(PunctuationType::Semicolon),
            punct(PunctuationType::CloseBrace),
        ]
    );
}

#[test]
fn operator_tokenization() {
    assert_eq!(tokenize("=").unwrap(), vec![op(OperatorType::Assignment)]);
    assert_eq!(tokenize("==").unwrap(), vec![op(OperatorType::LooseEquality)]);
    assert_eq!(tokenize("===").unwrap(), vec![op(OperatorType::StrictEquality)]);
    assert_eq!(tokenize("+").unwrap(), vec![op(OperatorType::Plus)]);
}

#[test]
fn string_literal_simple() {
    let src = r#""hello""#;
    assert_eq!(
        tokenize(src).unwrap(),
        vec![Token::StringLiteral(StringLiteral::new("hello".to_string()))]
    );
}

#[test]
fn string_literal_escape_sequences() {
    let src = r#""h\ello\n""#;
    assert_eq!(
        tokenize(src).unwrap(),
        vec![Token::StringLiteral(StringLiteral::new("hello\n".to_string()))]
    );

    let src = r#""hello \
there""#;
    assert_eq!(
        tokenize(src).unwrap(),
        vec![Token::StringLiteral(StringLiteral::new("hello there".to_string()))]
    );

    let src = r#""hello\u0041""#;
    assert_eq!(
        tokenize(src).unwrap(),
        vec![Token::StringLiteral(StringLiteral::new("helloA".to_string()))]
    );
}

#[test]
fn tokenize_boolean_literal() {
    assert_eq!(
        tokenize("true").unwrap(),
        vec![Token::ValueLiteral(ValueLiteral::new(ValueLiteralType::True))]
    );
    assert_eq!(
        tokenize("false").unwrap(),
        vec![Token::ValueLiteral(ValueLiteral::new(ValueLiteralType::False))]
    );
}

#[test]
fn tokenize_null_literal() {
    assert_eq!(
        tokenize("null").unwrap(),
        vec![Token::ValueLiteral(ValueLiteral::new(ValueLiteralType::Null))]
    );
}

#[test]
fn sanit_tokenizes_a_variable_declaration() {
    let src = "const a = b;";

    assert_eq!(
        tokenize(src).unwrap(),
        vec![
            keyword("const"),
            ident("a"),
            op(OperatorType::Assignment),
            ident("b"),
            punct(PunctuationType::Semicolon),
        ]
    );
}

#[test]
fn strict_equality_is_one_token() {
    assert_eq!(tokenize("===").unwrap(), vec![op(OperatorType::StrictEquality)]);
    assert_eq!(tokenize("!==").unwrap(), vec![op(OperatorType::StrictNotEquality)]);
}

#[test]
fn every_single_character_lexeme_is_one_token() {
    for (src, kind) in [
        (";", PunctuationType::Semicolon),
        (":", PunctuationType::Colon),
        ("(", PunctuationType::OpenParen),
        (")", PunctuationType::CloseParen),
        ("[", PunctuationType::OpenBracket),
        ("]", PunctuationType::CloseBracket),
        ("{", PunctuationType::OpenBrace),
        ("}", PunctuationType::CloseBrace),
        (".", PunctuationType::Dot),
        (",", PunctuationType::Comma),
    ] {
        assert_eq!(tokenize(src).unwrap(), vec![punct(kind)]);
    }
    for (src, kind) in [
        ("+", OperatorType::Plus),
        ("-", OperatorType::Minus),
        ("*", OperatorType::Multiplication),
        ("/", OperatorType::Division),
        ("%", OperatorType::Modulo),
        ("=", OperatorType::Assignment),
        ("!", OperatorType::LogicalNot),
        ("~", OperatorType::BitwiseNot),
        ("&", OperatorType::BitwiseAnd),
        ("|", OperatorType::BitwiseOr),
        ("^", OperatorType::BitwiseXOr),
        (">", OperatorType::GreaterThan),
        ("<", OperatorType::LessThan),
        ("?", OperatorType::Ternary),
    ] {
        assert_eq!(tokenize(src).unwrap(), vec![op(kind)]);
    }
}

#[test]
fn raw_newline_in_string_fails() {
    assert_eq!(
        error("\"a\nb\""),
        "Unexpected line terminator while parsing string literal"
    );
}

#[test]
fn hexadecimal_numbers_and_big_ints() {
    match tokenize("0xFF").unwrap().as_slice() {
        [Token::NumericLiteral(NumberLiteral { value: NumberLiteralValue::Primitive(p) })] => {
            assert_eq!(p.radix, 16);
            assert_eq!(u64::from_str_radix(&p.digits, p.radix).unwrap(), 255);
        }
        other => panic!("unexpected {:?}", other),
    }
    match tokenize("0xFFn").unwrap().as_slice() {
        [Token::NumericLiteral(NumberLiteral { value: NumberLiteralValue::BigInt(b) })] => {
            assert_eq!(b.value.to_string(), "255");
        }
        other => panic!("unexpected {:?}", other),
    }
}

#[test]
fn template_with_one_expression() {
    assert_eq!(
        tokenize("`hi ${x} there`").unwrap(),
        vec![
            segment("hi ", false),
            Token::TemplateLiteralExprOpen(TemplateLiteralExprOpen::default()),
            ident("x"),
            Token::TemplateLiteralExprClose(TemplateLiteralExprClose::default()),
            segment(" there", true),
        ]
    );
}

#[test]
fn template_depth_returns_to_zero() {
    // With the template closed, `}` is plain punctuation again.
    let tokens = tokenize("`a${b}c` }").unwrap();
    assert_eq!(tokens.last(), Some(&punct(PunctuationType::CloseBrace)));
    // Nested templates.
    assert_eq!(
        tokenize("`${`${x}`}`").unwrap(),
        vec![
            segment("", false),
            Token::TemplateLiteralExprOpen(TemplateLiteralExprOpen::default()),
            segment("", false),
            Token::TemplateLiteralExprOpen(TemplateLiteralExprOpen::default()),
            ident("x"),
            Token::TemplateLiteralExprClose(TemplateLiteralExprClose::default()),
            segment("", true),
            Token::TemplateLiteralExprClose(TemplateLiteralExprClose::default()),
            segment("", true),
        ]
    );
    assert_eq!(error("`a${b"), "Unexpected EOF while parsing template literal");
}

#[test]
fn regex_with_flags() {
    assert_eq!(
        tokenize("/foo/gm").unwrap(),
        vec![Token::RegexLiteral(RegexLiteral::new("foo".to_string(), "gm".to_string()))]
    );
    assert_eq!(error("/foo/gz"), "Invalid regular expression flag 'z'");
}

#[test]
fn braced_unicode_escapes_in_strings() {
    assert_eq!(
        tokenize(r#""\u{1F600}""#).unwrap(),
        vec![Token::StringLiteral(StringLiteral::new("\u{1F600}".to_string()))]
    );
    assert_eq!(error(r#""\u{110000}""#), "Undefined Unicode code-point");
}

#[test]
fn identifier_escapes() {
    assert_eq!(tokenize(r"\u0041BC").unwrap(), vec![ident("ABC")]);
    assert_eq!(
        error(r"a\u000A"),
        "Invalid escape sequence in identifier: \\u000A"
    );
}

#[test]
fn hashbang_only_first() {
    assert_eq!(
        tokenize("#!/bin/node\nx").unwrap(),
        vec![
            Token::Comment(Comment::new(CommentType::Hashbang("/bin/node".to_string()))),
            ident("x"),
        ]
    );
    assert_eq!(error("x #!y"), "Unexpected character: '#' (last token parsed: Identifier(x))");
}

#[test]
fn unexpected_character_names_the_last_token() {
    assert_eq!(error("@"), "Unexpected character: '@' (last token parsed: none)");
    assert_eq!(error("1 @"), "Unexpected character: '@' (last token parsed: NumericLiteral(1))");
    assert_eq!(error("-0xF_F @"), "Unexpected character: '@' (last token parsed: NumericLiteral(-0xFF))");
    assert_eq!(error("`a` @"), "Unexpected character: '@' (last token parsed: TemplateLiteralString(a))");
    assert_eq!(error("/p/g @"), "Unexpected character: '@' (last token parsed: RegexLiteral(/p/g))");
}

#[test]
fn errors_carry_file_and_source() {
    let err = tokenize_file("let s = 'x", "main.js").unwrap_err();
    assert_eq!(err.to_string(), "Unexpected EOF while parsing string literal");
    assert_eq!(err.span.file_path, "main.js");
    assert_eq!(err.source, "let s = 'x");
    assert_eq!(err.span.start.column, 9);
}

#[test]
fn empty_and_blank_sources() {
    assert_eq!(tokenize("").unwrap(), vec![]);
    assert_eq!(tokenize(" \t\n\r ").unwrap(), vec![]);
}

#[test]
fn signed_numbers_and_operators() {
    let tokens = tokenize("a -1").unwrap();
    assert_eq!(tokens[0], ident("a"));
    assert!(matches!(tokens[1], Token::NumericLiteral(_)));
    assert_eq!(tokenize("a - b").unwrap(), vec![ident("a"), op(OperatorType::Minus), ident("b")]);
    assert_eq!(tokens[1].kind_name(), "NumericLiteral");
}

#[test]
fn non_ascii_white_space_separates_tokens() {
    assert_eq!(tokenize("a\u{00A0}b\u{3000}c").unwrap(), vec![ident("a"), ident("b"), ident("c")]);
}

#[test]
fn error_spans_carry_lines_and_columns() {
    let err = tokenize_file("a\n 'x", "m.js").unwrap_err();
    assert_eq!(err.to_string(), "Unexpected EOF while parsing string literal");
    assert_eq!(err.span.start.line, 2);
    assert_eq!(err.span.start.column, 2);
    assert_eq!(err.span.start.index, 3);
    assert_eq!(err.span.end.line, 2);
    assert_eq!(err.span.end.column, 4);
    assert_eq!(err.span.end.index, 5);
}
