use yab_parser::lexer::code_iter::{CodeIter, IntoCodeIterator, Position, Span};

#[test]
fn test_iter() {
    let src = "ab".to_string();
    let mut iter = src.into_code_iterator("foo.js".into());

    assert_eq!(iter.next().unwrap(), 'a');
    assert_eq!(iter.next().unwrap(), 'b');
    assert_eq!(iter.next().is_none(), true);
}

#[test]
fn test_peek() {
    let src = "ab".to_string();
    let mut iter = src.into_code_iterator("foo.js".into());
    assert_eq!(iter.peek().unwrap(), 'a');
    assert_eq!(iter.peek().unwrap(), 'a');

    _ = iter.next();
    _ = iter.next();

    assert_eq!(iter.peek().is_none(), true);
}

#[test]
fn test_peek_multi() {
    let src = "abc".to_string();
    let iter = src.into_code_iterator("foo.js".into());
    assert_eq!(iter.peek_forward(2), Some('c'));
    assert_eq!(iter.peek_forward(3), None);
}

#[test]
fn positions_track_lines_and_columns() {
    let mut iter = CodeIter::new("a\nbc", "foo.js".to_string());
    assert_eq!(iter.previous_position(), Position { line: 1, column: 1, index: 0 });
    assert_eq!(iter.current_position(), Position::default());
    iter.next();
    assert_eq!(iter.current_position(), Position { line: 1, column: 2, index: 1 });
    iter.next();
    assert_eq!(iter.current_position(), Position { line: 2, column: 1, index: 2 });
    assert_eq!(iter.previous_position(), Position { line: 1, column: 2, index: 1 });
    iter.next();
    iter.next();
    let end = iter.current_position();
    assert_eq!(iter.next(), None);
    assert_eq!(iter.current_position(), end);
    assert_eq!(iter.file_path(), "foo.js");
}

#[test]
fn span_errors_carry_the_source() {
    let iter = CodeIter::new("let x", "foo.js".to_string());
    let span = Span::new(Position::default(), Position { line: 1, column: 4, index: 3 }, "foo.js");
    let err = iter.to_span_error("bad", span);
    assert_eq!(err.to_string(), "bad");
    assert_eq!(err.source, "let x");
    assert_eq!(err.span.file_path, "foo.js");
    assert_eq!(err.span.end.index, 3);
}

#[test]
fn reading_past_the_end_records_the_previous_position() {
    let mut iter = CodeIter::new("a", "foo.js".to_string());
    assert_eq!(iter.next(), Some('a'));
    assert_eq!(iter.next(), None);
    assert_eq!(iter.previous_position(), Position { line: 1, column: 2, index: 1 });
    assert_eq!(iter.current_position(), Position { line: 1, column: 2, index: 1 });
}
