use vstd::prelude::*;

use super::code_iter::CodeIter;
use super::utils::{
    count_with_prefix, first_index_of, index_of_lexeme, lexeme_views, prefix_match, try_parse_from_prefix_lookup,
    HasPrefixLookup,
};

verus! {

/// The punctuators.
#[derive(Debug, Clone, Copy, PartialEq, Eq, Structural)]
pub enum PunctuationType {
    Semicolon,
    Colon,
    OpenParen,
    CloseParen,
    OpenBracket,
    CloseBracket,
    OpenBrace,
    CloseBrace,
    Dot,
    Comma,
}

impl PunctuationType {
    /// The source text of each member.
    pub open spec fn text_of(self) -> Seq<char> {
        match self {
            PunctuationType::Semicolon => ";"@,
            PunctuationType::Colon => ":"@,
            PunctuationType::OpenParen => "("@,
            PunctuationType::CloseParen => ")"@,
            PunctuationType::OpenBracket => "["@,
            PunctuationType::CloseBracket => "]"@,
            PunctuationType::OpenBrace => "{"@,
            PunctuationType::CloseBrace => "}"@,
            PunctuationType::Dot => "."@,
            PunctuationType::Comma => ","@,
        }
    }

    /// The lexeme of this member.
    pub fn lexeme(&self) -> (r: &'static str)
        ensures
            r@ == self.text_of(),
    {
        match self {
            PunctuationType::Semicolon => ";",
            PunctuationType::Colon => ":",
            PunctuationType::OpenParen => "(",
            PunctuationType::CloseParen => ")",
            PunctuationType::OpenBracket => "[",
            PunctuationType::CloseBracket => "]",
            PunctuationType::OpenBrace => "{",
            PunctuationType::CloseBrace => "}",
            PunctuationType::Dot => ".",
            PunctuationType::Comma => ",",
        }
    }

    /// Every member's lexeme, in declaration order.
    fn lexeme_list() -> (r: Vec<&'static str>)
        ensures
            lexeme_views(r@) == Self::lexemes(),
    {
        let r = vec![";", ":", "(", ")", "[", "]", "{", "}", ".", ","];
        assert(lexeme_views(r@) =~= Self::lexemes());
        r
    }

    /// Every member, in declaration order.
    fn members() -> (r: Vec<PunctuationType>)
        ensures
            r@ == Self::all(),
    {
        let r = vec![PunctuationType::Semicolon, PunctuationType::Colon, PunctuationType::OpenParen, PunctuationType::CloseParen, PunctuationType::OpenBracket, PunctuationType::CloseBracket, PunctuationType::OpenBrace, PunctuationType::CloseBrace, PunctuationType::Dot, PunctuationType::Comma];
        assert(r@ =~= Self::all());
        r
    }

    /// Every member, in declaration order.
    pub open spec fn all() -> Seq<PunctuationType> {
        seq![PunctuationType::Semicolon, PunctuationType::Colon, PunctuationType::OpenParen, PunctuationType::CloseParen, PunctuationType::OpenBracket, PunctuationType::CloseBracket, PunctuationType::OpenBrace, PunctuationType::CloseBrace, PunctuationType::Dot, PunctuationType::Comma]
    }
}

impl HasPrefixLookup for PunctuationType {
    open spec fn lexemes() -> Seq<Seq<char>> {
        PunctuationType::all().map_values(|t: PunctuationType| t.text_of())
    }

    open spec fn spec_lexeme(&self) -> Seq<char> {
        self.text_of()
    }

    open spec fn lookup(w: Seq<char>) -> Option<Self> {
        if Self::lexemes().contains(w) {
            Some(Self::all()[first_index_of(Self::lexemes(), w)])
        } else {
            None
        }
    }

    fn fields_starting_with(ident: &str) -> (r: usize) {
        count_with_prefix(&Self::lexeme_list(), ident)
    }

    fn from_lexeme(lexeme: &str) -> (r: Option<Self>) {
        match index_of_lexeme(&Self::lexeme_list(), lexeme) {
            Some(j) => {
                let members = Self::members();
                assert(Self::lexemes()[j as int] == Self::all()[j as int].text_of());
                Some(members[j])
            },
            None => None,
        }
    }
}

/// A punctuation token.
#[derive(Debug, Clone, Copy, PartialEq, Eq, Structural)]
pub struct Punctuation {
    pub kind: PunctuationType,
}

impl Punctuation {
    pub fn new(kind: PunctuationType) -> (r: Self)
        ensures
            r.kind == kind,
    {
        Punctuation { kind }
    }
}

/// Longest-match lookup of a punctuator at the cursor.
pub fn try_parse_punctuation(chars: &mut CodeIter) -> (r: Option<Punctuation>)
    ensures
        final(chars).text() == old(chars).text(),
        final(chars).path() == old(chars).path(),
        match prefix_match(PunctuationType::lexemes(), old(chars).text(), old(chars).pos()) {
            Some(end) => r matches Some(t) && t.kind.text_of() == old(chars).text().subrange(old(chars).pos(), end)
                && Some(t.kind) == PunctuationType::lookup(old(chars).text().subrange(old(chars).pos(), end))
                && final(chars).pos() == end && end > old(chars).pos(),
            None => r is None && *final(chars) == *old(chars),
        },
{
    match try_parse_from_prefix_lookup::<PunctuationType>(chars) {
        Some(kind) => Some(Punctuation::new(kind)),
        None => None,
    }
}

} // verus!
