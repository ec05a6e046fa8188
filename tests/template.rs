use yab_parser::lexer::code_iter::IntoCodeIterator;
use yab_parser::lexer::template::{
    try_parse_template_literal_expr_end, try_parse_template_literal_start, TemplateLiteralExprClose,
    TemplateLiteralExprOpen, TemplateLiteralString,
};

#[test]
fn test_parse_template_literal_without_expr() {
    let src = "`hi there`";
    let mut chars = src.into_code_iterator("script.js".to_string());

    assert_eq!(
        try_parse_template_literal_start(&mut chars).unwrap().unwrap(),
        (TemplateLiteralString::new("hi there".to_string(), true), None)
    )
}

#[test]
fn test_parse_template_literal_with_expression() {
    let src = "`hi there ${`";
    let mut chars = src.into_code_iterator("script.js".to_string());

    assert_eq!(
        try_parse_template_literal_start(&mut chars).unwrap().unwrap(),
        (
            TemplateLiteralString::new("hi there ".to_string(), false),
            Some(TemplateLiteralExprOpen::default())
        )
    )
}

#[test]
fn test_unexpected_eof_while_parsing_template_literal() {
    let src = "`hi there";
    let result = try_parse_template_literal_start(&mut src.into_code_iterator("script.js".to_string()));
    assert_eq!(
        result.unwrap_err().to_string(),
        "Unexpected EOF while parsing template literal"
    );
}

#[test]
fn template_test_escape_sequences_are_parsed() {
    let src = r#"`hi ther\u0065!`"#;
    let chars = &mut src.into_code_iterator("script.js".to_string());

    assert_eq!(
        try_parse_template_literal_start(chars).unwrap().unwrap(),
        (TemplateLiteralString::new("hi there!".to_string(), true), None)
    )
}

#[test]
fn test_multi_line_template_literal() {
    let src = r#"`hi there:
        you`"#;
    let mut chars = src.into_code_iterator("script.js".to_string());

    assert_eq!(
        try_parse_template_literal_start(&mut chars).unwrap().unwrap(),
        (
            TemplateLiteralString::new("hi there:\n        you".to_string(), true),
            None
        )
    )
}

#[test]
fn test_try_parse_template_literal_expr_close() {
    let src = "} end`";
    let mut chars = src.into_code_iterator("script.js".to_string());

    assert_eq!(
        try_parse_template_literal_expr_end(&mut chars).unwrap().unwrap(),
        (
            TemplateLiteralExprClose::default(),
            TemplateLiteralString::new(" end".to_string(), true),
            None
        )
    )
}

#[test]
fn test_try_parse_template_literal_expr_with_next_expr_open() {
    let src = "} end ${`";
    let mut chars = src.into_code_iterator("script.js".to_string());

    assert_eq!(
        try_parse_template_literal_expr_end(&mut chars).unwrap().unwrap(),
        (
            TemplateLiteralExprClose::default(),
            TemplateLiteralString::new(" end ".to_string(), false),
            Some(TemplateLiteralExprOpen::default())
        )
    )
}

#[test]
fn test_expr_end_is_end_of_template_literal() {
    let src = "}`";
    let mut chars = src.into_code_iterator("script.js".to_string());

    assert_eq!(
        try_parse_template_literal_expr_end(&mut chars).unwrap().unwrap(),
        (
            TemplateLiteralExprClose::default(),
            TemplateLiteralString::new("".to_string(), true),
            None
        )
    )
}

#[test]
fn dollar_without_brace_is_text() {
    let mut chars = "`a$b`".into_code_iterator("script.js".to_string());
    assert_eq!(
        try_parse_template_literal_start(&mut chars).unwrap().unwrap(),
        (TemplateLiteralString::new("a$b".to_string(), true), None)
    );
    let mut chars = "x`".into_code_iterator("script.js".to_string());
    assert_eq!(try_parse_template_literal_start(&mut chars).unwrap(), None);
    assert_eq!(chars.next(), Some('x'));
}
