use yab_parser::lexer::code_iter::IntoCodeIterator;
use yab_parser::lexer::operator::{try_parse_operator, Operator, OperatorType};

#[test]
fn test_parse_operator() {
    let operators = vec![
        ("+", OperatorType::Plus),
        ("=", OperatorType::Assignment),
        ("==", OperatorType::LooseEquality),
        ("===", OperatorType::StrictEquality),
        ("&&", OperatorType::LogicalAnd),
        ("!==", OperatorType::StrictNotEquality),
        ("await", OperatorType::Await),
    ];

    for op in operators {
        let mut chars = op.0.into_code_iterator("script.js".to_string());
        let parsed = try_parse_operator(&mut chars).unwrap();
        assert_eq!(parsed.kind, op.1);
    }
}

#[test]
fn test_non_existent_operator() {
    let mut chars = "foo".into_code_iterator("script.js".to_string());
    let parsed = try_parse_operator(&mut chars);
    assert!(parsed.is_none());
}

#[test]
fn longest_operator_wins() {
    let mut chars = ">>>=1".into_code_iterator("script.js".to_string());
    assert_eq!(
        try_parse_operator(&mut chars),
        Some(Operator::new(OperatorType::ShiftRightUnsignedAssignment))
    );
    assert_eq!(chars.next(), Some('1'));
}
