use yab_parser::lexer::code_iter::IntoCodeIterator;
use yab_parser::lexer::operator::OperatorType;
use yab_parser::lexer::punctuation::PunctuationType;
use yab_parser::lexer::utils::{is_line_terminator, try_parse_from_prefix_lookup, HasPrefixLookup};

#[test]
fn test_is_line_terminator() {
    assert!(is_line_terminator('\n'));
    assert!(is_line_terminator('\r'));
    assert!(is_line_terminator('\u{2028}'));
    assert!(is_line_terminator('\u{2029}'));
    assert!(!is_line_terminator('a'));
}

#[test]
fn test_macro_prefix_lookup() {
    assert_eq!(OperatorType::fields_starting_with("="), 3);
    assert_eq!(OperatorType::fields_starting_with("=="), 2);
    assert_eq!(OperatorType::fields_starting_with("==="), 1);
    assert_eq!(OperatorType::fields_starting_with("~!~~"), 0);
}

#[test]
fn prefix_lookup_takes_longest_lexeme() {
    let mut chars = "===x".into_code_iterator("script.js".to_string());
    let op = try_parse_from_prefix_lookup::<OperatorType>(&mut chars);
    assert_eq!(op, Some(OperatorType::StrictEquality));
    assert_eq!(chars.next(), Some('x'));
}

#[test]
fn prefix_lookup_backs_off_one_character() {
    let mut chars = "!=!".into_code_iterator("script.js".to_string());
    assert_eq!(
        try_parse_from_prefix_lookup::<OperatorType>(&mut chars),
        Some(OperatorType::LooseNotEquality)
    );
    assert_eq!(chars.next(), Some('!'));
}

#[test]
fn prefix_lookup_consumes_nothing_without_a_whole_lexeme() {
    // ".." starts "..." only, and is no operator itself.
    let mut chars = "..".into_code_iterator("script.js".to_string());
    assert_eq!(try_parse_from_prefix_lookup::<OperatorType>(&mut chars), None);
    assert_eq!(chars.next(), Some('.'));
    assert_eq!(chars.next(), Some('.'));
}

#[test]
fn prefix_lookup_counts_and_finds_members() {
    assert_eq!(PunctuationType::fields_starting_with(";"), 1);
    assert_eq!(PunctuationType::fields_starting_with("x"), 0);
    assert_eq!(OperatorType::fields_starting_with(">"), 6);
    assert_eq!(OperatorType::from_lexeme(">>>="), Some(OperatorType::ShiftRightUnsignedAssignment));
    assert_eq!(OperatorType::from_lexeme(">>>>"), None);
    assert_eq!(OperatorType::StrictEquality.lexeme(), "===");
}
