use vstd::prelude::*;

use super::code_iter::CodeIter;
use super::utils::{
    count_with_prefix, first_index_of, index_of_lexeme, lexeme_views, prefix_match, try_parse_from_prefix_lookup,
    HasPrefixLookup,
};

verus! {

/// The operators, including the reserved words that act as operators.
#[derive(Debug, Clone, Copy, PartialEq, Eq, Structural)]
pub enum OperatorType {
    Plus,
    Minus,
    Multiplication,
    Division,
    Exponentiation,
    Modulo,
    Increment,
    Decrement,
    Assignment,
    MultiplicationAssignment,
    DivisionAssignment,
    AdditionAssignment,
    SubtractionAssigment,
    ShiftLeftAssignment,
    ShiftRightAssignment,
    ShiftRightUnsignedAssignment,
    BitwiseAndAssignment,
    BitwiseOrAssignment,
    BitwiseXOrAssignment,
    LogicalAndAssignment,
    LogicalOrAssignment,
    NullishCoalescingAssignment,
    LooseEquality,
    LooseNotEquality,
    StrictEquality,
    StrictNotEquality,
    LogicalNot,
    LogicalAnd,
    LogicalOr,
    NullishCoalescing,
    BitwiseNot,
    BitwiseAnd,
    BitwiseOr,
    BitwiseXOr,
    BitwiseShiftLeft,
    BitwiseShiftRight,
    BitwiseShiftRightUnsigned,
    GreaterThan,
    GreaterThanOrEqualTo,
    LessThan,
    LessThanOrEqualTo,
    Ternary,
    ObjectSpread,
    Await,
    Void,
    TypeOf,
    InstanceOf,
    In,
    Yield,
}

impl OperatorType {
    /// The source text of each member.
    pub open spec fn text_of(self) -> Seq<char> {
        match self {
            OperatorType::Plus => "+"@,
            OperatorType::Minus => "-"@,
            OperatorType::Multiplication => "*"@,
            OperatorType::Division => "/"@,
            OperatorType::Exponentiation => "**"@,
            OperatorType::Modulo => "%"@,
            OperatorType::Increment => "++"@,
            OperatorType::Decrement => "--"@,
            OperatorType::Assignment => "="@,
            OperatorType::MultiplicationAssignment => "*="@,
            OperatorType::DivisionAssignment => "/="@,
            OperatorType::AdditionAssignment => "+="@,
            OperatorType::SubtractionAssigment => "-="@,
            OperatorType::ShiftLeftAssignment => "<<="@,
            OperatorType::ShiftRightAssignment => ">>="@,
            OperatorType::ShiftRightUnsignedAssignment => ">>>="@,
            OperatorType::BitwiseAndAssignment => "&="@,
            OperatorType::BitwiseOrAssignment => "|="@,
            OperatorType::BitwiseXOrAssignment => "^="@,
            OperatorType::LogicalAndAssignment => "&&="@,
            OperatorType::LogicalOrAssignment => "||="@,
            OperatorType::NullishCoalescingAssignment => "??="@,
            OperatorType::LooseEquality => "=="@,
            OperatorType::LooseNotEquality => "!="@,
            OperatorType::StrictEquality => "==="@,
            OperatorType::StrictNotEquality => "!=="@,
            OperatorType::LogicalNot => "!"@,
            OperatorType::LogicalAnd => "&&"@,
            OperatorType::LogicalOr => "||"@,
            OperatorType::NullishCoalescing => "??"@,
            OperatorType::BitwiseNot => "~"@,
            OperatorType::BitwiseAnd => "&"@,
            OperatorType::BitwiseOr => "|"@,
            OperatorType::BitwiseXOr => "^"@,
            OperatorType::BitwiseShiftLeft => "<<"@,
            OperatorType::BitwiseShiftRight => ">>"@,
            OperatorType::BitwiseShiftRightUnsigned => ">>>"@,
            OperatorType::GreaterThan => ">"@,
            OperatorType::GreaterThanOrEqualTo => ">="@,
            OperatorType::LessThan => "<"@,
            OperatorType::LessThanOrEqualTo => "<="@,
            OperatorType::Ternary => "?"@,
            OperatorType::ObjectSpread => "..."@,
            OperatorType::Await => "await"@,
            OperatorType::Void => "void"@,
            OperatorType::TypeOf => "typeof"@,
            OperatorType::InstanceOf => "instanceof"@,
            OperatorType::In => "in"@,
            OperatorType::Yield => "yield"@,
        }
    }

    /// The lexeme of this member.
    pub fn lexeme(&self) -> (r: &'static str)
        ensures
            r@ == self.text_of(),
    {
        match self {
            OperatorType::Plus => "+",
            OperatorType::Minus => "-",
            OperatorType::Multiplication => "*",
            OperatorType::Division => "/",
            OperatorType::Exponentiation => "**",
            OperatorType::Modulo => "%",
            OperatorType::Increment => "++",
            OperatorType::Decrement => "--",
            OperatorType::Assignment => "=",
            OperatorType::MultiplicationAssignment => "*=",
            OperatorType::DivisionAssignment => "/=",
            OperatorType::AdditionAssignment => "+=",
            OperatorType::SubtractionAssigment => "-=",
            OperatorType::ShiftLeftAssignment => "<<=",
            OperatorType::ShiftRightAssignment => ">>=",
            OperatorType::ShiftRightUnsignedAssignment => ">>>=",
            OperatorType::BitwiseAndAssignment => "&=",
            OperatorType::BitwiseOrAssignment => "|=",
            OperatorType::BitwiseXOrAssignment => "^=",
            OperatorType::LogicalAndAssignment => "&&=",
            OperatorType::LogicalOrAssignment => "||=",
            OperatorType::NullishCoalescingAssignment => "??=",
            OperatorType::LooseEquality => "==",
            OperatorType::LooseNotEquality => "!=",
            OperatorType::StrictEquality => "===",
            OperatorType::StrictNotEquality => "!==",
            OperatorType::LogicalNot => "!",
            OperatorType::LogicalAnd => "&&",
            OperatorType::LogicalOr => "||",
            OperatorType::NullishCoalescing => "??",
            OperatorType::BitwiseNot => "~",
            OperatorType::BitwiseAnd => "&",
            OperatorType::BitwiseOr => "|",
            OperatorType::BitwiseXOr => "^",
            OperatorType::BitwiseShiftLeft => "<<",
            OperatorType::BitwiseShiftRight => ">>",
            OperatorType::BitwiseShiftRightUnsigned => ">>>",
            OperatorType::GreaterThan => ">",
            OperatorType::GreaterThanOrEqualTo => ">=",
            OperatorType::LessThan => "<",
            OperatorType::LessThanOrEqualTo => "<=",
            OperatorType::Ternary => "?",
            OperatorType::ObjectSpread => "...",
            OperatorType::Await => "await",
            OperatorType::Void => "void",
            OperatorType::TypeOf => "typeof",
            OperatorType::InstanceOf => "instanceof",
            OperatorType::In => "in",
            OperatorType::Yield => "yield",
        }
    }

    /// Every member's lexeme, in declaration order.
    fn lexeme_list() -> (r: Vec<&'static str>)
        ensures
            lexeme_views(r@) == Self::lexemes(),
    {
        let r = vec!["+", "-", "*", "/", "**", "%", "++", "--", "=", "*=", "/=", "+=", "-=", "<<=", ">>=", ">>>=", "&=", "|=", "^=", "&&=", "||=", "??=", "==", "!=", "===", "!==", "!", "&&", "||", "??", "~", "&", "|", "^", "<<", ">>", ">>>", ">", ">=", "<", "<=", "?", "...", "await", "void", "typeof", "instanceof", "in", "yield"];
        assert(lexeme_views(r@) =~= Self::lexemes());
        r
    }

    /// Every member, in declaration order.
    fn members() -> (r: Vec<OperatorType>)
        ensures
            r@ == Self::all(),
    {
        let r = vec![OperatorType::Plus, OperatorType::Minus, OperatorType::Multiplication, OperatorType::Division, OperatorType::Exponentiation, OperatorType::Modulo, OperatorType::Increment, OperatorType::Decrement, OperatorType::Assignment, OperatorType::MultiplicationAssignment, OperatorType::DivisionAssignment, OperatorType::AdditionAssignment, OperatorType::SubtractionAssigment, OperatorType::ShiftLeftAssignment, OperatorType::ShiftRightAssignment, OperatorType::ShiftRightUnsignedAssignment, OperatorType::BitwiseAndAssignment, OperatorType::BitwiseOrAssignment, OperatorType::BitwiseXOrAssignment, OperatorType::LogicalAndAssignment, OperatorType::LogicalOrAssignment, OperatorType::NullishCoalescingAssignment, OperatorType::LooseEquality, OperatorType::LooseNotEquality, OperatorType::StrictEquality, OperatorType::StrictNotEquality, OperatorType::LogicalNot, OperatorType::LogicalAnd, OperatorType::LogicalOr, OperatorType::NullishCoalescing, OperatorType::BitwiseNot, OperatorType::BitwiseAnd, OperatorType::BitwiseOr, OperatorType::BitwiseXOr, OperatorType::BitwiseShiftLeft, OperatorType::BitwiseShiftRight, OperatorType::BitwiseShiftRightUnsigned, OperatorType::GreaterThan, OperatorType::GreaterThanOrEqualTo, OperatorType::LessThan, OperatorType::LessThanOrEqualTo, OperatorType::Ternary, OperatorType::ObjectSpread, OperatorType::Await, OperatorType::Void, OperatorType::TypeOf, OperatorType::InstanceOf, OperatorType::In, OperatorType::Yield];
        assert(r@ =~= Self::all());
        r
    }

    /// Every member, in declaration order.
    pub open spec fn all() -> Seq<OperatorType> {
        seq![OperatorType::Plus, OperatorType::Minus, OperatorType::Multiplication, OperatorType::Division, OperatorType::Exponentiation, OperatorType::Modulo, OperatorType::Increment, OperatorType::Decrement, OperatorType::Assignment, OperatorType::MultiplicationAssignment, OperatorType::DivisionAssignment, OperatorType::AdditionAssignment, OperatorType::SubtractionAssigment, OperatorType::ShiftLeftAssignment, OperatorType::ShiftRightAssignment, OperatorType::ShiftRightUnsignedAssignment, OperatorType::BitwiseAndAssignment, OperatorType::BitwiseOrAssignment, OperatorType::BitwiseXOrAssignment, OperatorType::LogicalAndAssignment, OperatorType::LogicalOrAssignment, OperatorType::NullishCoalescingAssignment, OperatorType::LooseEquality, OperatorType::LooseNotEquality, OperatorType::StrictEquality, OperatorType::StrictNotEquality, OperatorType::LogicalNot, OperatorType::LogicalAnd, OperatorType::LogicalOr, OperatorType::NullishCoalescing, OperatorType::BitwiseNot, OperatorType::BitwiseAnd, OperatorType::BitwiseOr, OperatorType::BitwiseXOr, OperatorType::BitwiseShiftLeft, OperatorType::BitwiseShiftRight, OperatorType::BitwiseShiftRightUnsigned, OperatorType::GreaterThan, OperatorType::GreaterThanOrEqualTo, OperatorType::LessThan, OperatorType::LessThanOrEqualTo, OperatorType::Ternary, OperatorType::ObjectSpread, OperatorType::Await, OperatorType::Void, OperatorType::TypeOf, OperatorType::InstanceOf, OperatorType::In, OperatorType::Yield]
    }
}

impl HasPrefixLookup for OperatorType {
    open spec fn lexemes() -> Seq<Seq<char>> {
        OperatorType::all().map_values(|t: OperatorType| t.text_of())
    }

    open spec fn spec_lexeme(&self) -> Seq<char> {
        self.text_of()
    }

    open spec fn lookup(w: Seq<char>) -> Option<Self> {
        if Self::lexemes().contains(w) {
            Some(Self::all()[first_index_of(Self::lexemes(), w)])
        } else {
            None
        }
    }

    fn fields_starting_with(ident: &str) -> (r: usize) {
        count_with_prefix(&Self::lexeme_list(), ident)
    }

    fn from_lexeme(lexeme: &str) -> (r: Option<Self>) {
        match index_of_lexeme(&Self::lexeme_list(), lexeme) {
            Some(j) => {
                let members = Self::members();
                assert(Self::lexemes()[j as int] == Self::all()[j as int].text_of());
                Some(members[j])
            },
            None => None,
        }
    }
}

/// An operator token.
#[derive(Debug, Clone, Copy, PartialEq, Eq, Structural)]
pub struct Operator {
    pub kind: OperatorType,
}

impl Operator {
    pub fn new(kind: OperatorType) -> (r: Self)
        ensures
            r.kind == kind,
    {
        Operator { kind }
    }
}

/// Longest-match lookup of a operator at the cursor.
pub fn try_parse_operator(chars: &mut CodeIter) -> (r: Option<Operator>)
    ensures
        final(chars).text() == old(chars).text(),
        final(chars).path() == old(chars).path(),
        match prefix_match(OperatorType::lexemes(), old(chars).text(), old(chars).pos()) {
            Some(end) => r matches Some(t) && t.kind.text_of() == old(chars).text().subrange(old(chars).pos(), end)
                && Some(t.kind) == OperatorType::lookup(old(chars).text().subrange(old(chars).pos(), end))
                && final(chars).pos() == end && end > old(chars).pos(),
            None => r is None && *final(chars) == *old(chars),
        },
{
    match try_parse_from_prefix_lookup::<OperatorType>(chars) {
        Some(kind) => Some(Operator::new(kind)),
        None => None,
    }
}

} // verus!
