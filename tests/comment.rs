use yab_parser::lexer::code_iter::IntoCodeIterator;
use yab_parser::lexer::comment::{try_parse_comment, try_parse_hashbang_comment, Comment, CommentType};

#[test]
fn test_parse_line_comment() {
    let mut chars = "// this is a comment\nA".into_code_iterator("script.js".to_string());
    let comment = try_parse_comment(&mut chars).unwrap();
    assert_eq!(
        comment,
        Comment {
            value: CommentType::Line(" this is a comment".to_string())
        }
    );
    assert_eq!(chars.next().unwrap(), 'A');
}

#[test]
fn test_parse_block_comment() {
    let src = r#"/* this is a comment */
        A"#;
    let mut chars = src.into_code_iterator("script.js".to_string());
    assert_eq!(
        try_parse_comment(&mut chars).unwrap(),
        Comment {
            value: CommentType::Block(" this is a comment ".to_string())
        }
    );
    assert_eq!(chars.next().unwrap(), '\n');
}

#[test]
fn test_parse_hashbang_comment() {
    let src = r#"#!/usr/bin/env node"#;
    let mut chars = src.into_code_iterator("script.js".to_string());

    assert_eq!(
        try_parse_hashbang_comment(&mut chars).unwrap(),
        Comment {
            value: CommentType::Hashbang("/usr/bin/env node".to_string())
        }
    );
}

#[test]
fn no_comment_consumes_nothing() {
    let mut chars = "/x".into_code_iterator("script.js".to_string());
    assert_eq!(try_parse_comment(&mut chars), None);
    assert_eq!(chars.next(), Some('/'));
    let mut chars = "#x".into_code_iterator("script.js".to_string());
    assert_eq!(try_parse_hashbang_comment(&mut chars), None);
    assert_eq!(chars.next(), Some('#'));
}

#[test]
fn unterminated_block_comment_runs_to_the_end() {
    let mut chars = "/* open * end".into_code_iterator("script.js".to_string());
    assert_eq!(
        try_parse_comment(&mut chars).unwrap(),
        Comment::new(CommentType::Block(" open * end".to_string()))
    );
    assert_eq!(chars.next(), None);
}
