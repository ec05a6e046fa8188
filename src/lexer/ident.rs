use vstd::prelude::*;
use vstd::string::StrSliceExecFns;

use super::code_iter::{position_at, char_at, reported, CodeIter, SyntaxError};
use super::escape_chars::{escape, lemma_escape_end, try_parse_escape, EscapeOutcome};
use super::operator::{Operator, OperatorType};
use super::utils::{
    alphabetic, alphanumeric, first_index_of, index_of_lexeme, is_alphabetic, is_alphanumeric,
    is_line_terminator, lexeme_views, line_terminator, push_char, HasPrefixLookup, Lexed,
};

verus! {

/// The keywords.
#[derive(Debug, Clone, Copy, PartialEq, Eq, Structural)]
pub enum KeywordType {
    Async,
    Const,
    Function,
    Import,
    Export,
    New,
    Return,
    Super,
    This,
}

impl KeywordType {
    /// The source text of each member.
    pub open spec fn text_of(self) -> Seq<char> {
        match self {
            KeywordType::Async => "async"@,
            KeywordType::Const => "const"@,
            KeywordType::Function => "function"@,
            KeywordType::Import => "import"@,
            KeywordType::Export => "export"@,
            KeywordType::New => "new"@,
            KeywordType::Return => "return"@,
            KeywordType::Super => "super"@,
            KeywordType::This => "this"@,
        }
    }

    /// Every member, in declaration order.
    pub open spec fn all() -> Seq<KeywordType> {
        seq![KeywordType::Async, KeywordType::Const, KeywordType::Function, KeywordType::Import, KeywordType::Export, KeywordType::New, KeywordType::Return, KeywordType::Super, KeywordType::This]
    }

    pub open spec fn lexemes() -> Seq<Seq<char>> {
        Self::all().map_values(|t: KeywordType| t.text_of())
    }

    /// The member spelled `w`, if any.
    pub open spec fn lookup(w: Seq<char>) -> Option<Self> {
        if Self::lexemes().contains(w) {
            Some(Self::all()[first_index_of(Self::lexemes(), w)])
        } else {
            None
        }
    }

    /// The source text of this member.
    pub fn lexeme(&self) -> (r: &'static str)
        ensures
            r@ == self.text_of(),
    {
        match self {
            KeywordType::Async => "async",
            KeywordType::Const => "const",
            KeywordType::Function => "function",
            KeywordType::Import => "import",
            KeywordType::Export => "export",
            KeywordType::New => "new",
            KeywordType::Return => "return",
            KeywordType::Super => "super",
            KeywordType::This => "this",
        }
    }

    /// The member spelled `lexeme`, if any.
    pub fn from_lexeme(lexeme: &str) -> (r: Option<Self>)
        ensures
            r == Self::lookup(lexeme@),
    {
        let lexemes = vec!["async", "const", "function", "import", "export", "new", "return", "super", "this"];
        assert(lexeme_views(lexemes@) =~= Self::lexemes());
        match index_of_lexeme(&lexemes, lexeme) {
            Some(j) => {
                let members = vec![KeywordType::Async, KeywordType::Const, KeywordType::Function, KeywordType::Import, KeywordType::Export, KeywordType::New, KeywordType::Return, KeywordType::Super, KeywordType::This];
                assert(members@ =~= Self::all());
                Some(members[j])
            },
            None => None,
        }
    }
}

/// The literal values spelled as words.
#[derive(Debug, Clone, Copy, PartialEq, Eq, Structural)]
pub enum ValueLiteralType {
    True,
    False,
    Null,
}

impl ValueLiteralType {
    /// The source text of each member.
    pub open spec fn text_of(self) -> Seq<char> {
        match self {
            ValueLiteralType::True => "true"@,
            ValueLiteralType::False => "false"@,
            ValueLiteralType::Null => "null"@,
        }
    }

    /// Every member, in declaration order.
    pub open spec fn all() -> Seq<ValueLiteralType> {
        seq![ValueLiteralType::True, ValueLiteralType::False, ValueLiteralType::Null]
    }

    pub open spec fn lexemes() -> Seq<Seq<char>> {
        Self::all().map_values(|t: ValueLiteralType| t.text_of())
    }

    /// The member spelled `w`, if any.
    pub open spec fn lookup(w: Seq<char>) -> Option<Self> {
        if Self::lexemes().contains(w) {
            Some(Self::all()[first_index_of(Self::lexemes(), w)])
        } else {
            None
        }
    }

    /// The source text of this member.
    pub fn lexeme(&self) -> (r: &'static str)
        ensures
            r@ == self.text_of(),
    {
        match self {
            ValueLiteralType::True => "true",
            ValueLiteralType::False => "false",
            ValueLiteralType::Null => "null",
        }
    }

    /// The member spelled `lexeme`, if any.
    pub fn from_lexeme(lexeme: &str) -> (r: Option<Self>)
        ensures
            r == Self::lookup(lexeme@),
    {
        let lexemes = vec!["true", "false", "null"];
        assert(lexeme_views(lexemes@) =~= Self::lexemes());
        match index_of_lexeme(&lexemes, lexeme) {
            Some(j) => {
                let members = vec![ValueLiteralType::True, ValueLiteralType::False, ValueLiteralType::Null];
                assert(members@ =~= Self::all());
                Some(members[j])
            },
            None => None,
        }
    }
}

/// A `true`, `false` or `null` token.
#[derive(Debug, Clone, Copy, PartialEq, Eq, Structural)]
pub struct ValueLiteral {
    pub kind: ValueLiteralType,
}

impl ValueLiteral {
    pub fn new(kind: ValueLiteralType) -> (r: Self)
        ensures
            r.kind == kind,
    {
        ValueLiteral { kind }
    }
}

/// A keyword token.
#[derive(Debug, Clone, Copy, PartialEq, Eq, Structural)]
pub struct Keyword {
    pub kind: KeywordType,
}

impl Keyword {
    pub fn new(kind: KeywordType) -> (r: Self)
        ensures
            r.kind == kind,
    {
        Keyword { kind }
    }
}

/// An identifier token, escapes decoded.
#[derive(Debug, PartialEq)]
pub struct Identifier {
    pub lexeme: String,
}

impl Identifier {
    pub fn new(lexeme: String) -> (r: Self)
        ensures
            r.lexeme@ == lexeme@,
    {
        Identifier { lexeme }
    }
}

impl From<String> for Identifier {
    fn from(value: String) -> (r: Self) {
        Identifier { lexeme: value }
    }
}

impl vstd::std_specs::convert::FromSpecImpl<String> for Identifier {
    open spec fn obeys_from_spec() -> bool {
        true
    }

    open spec fn from_spec(v: String) -> Self {
        Identifier { lexeme: v }
    }
}

/// What a word turns out to be.
#[derive(Debug, PartialEq)]
pub enum IdentParseResult {
    Identifier(Identifier),
    Keyword(Keyword),
    ValueLiteral(ValueLiteral),
    Operator(Operator),
}

/// A word's classification: a keyword, a reserved word that is an operator,
/// a value literal, or else an identifier.
pub enum WordView {
    Identifier(Seq<char>),
    Keyword(KeywordType),
    ValueLiteral(ValueLiteralType),
    Operator(OperatorType),
}

impl View for IdentParseResult {
    type V = WordView;

    open spec fn view(&self) -> WordView {
        match self {
            IdentParseResult::Identifier(i) => WordView::Identifier(i.lexeme@),
            IdentParseResult::Keyword(k) => WordView::Keyword(k.kind),
            IdentParseResult::ValueLiteral(v) => WordView::ValueLiteral(v.kind),
            IdentParseResult::Operator(o) => WordView::Operator(o.kind),
        }
    }
}

pub open spec fn classify(w: Seq<char>) -> WordView {
    if let Some(k) = KeywordType::lookup(w) {
        WordView::Keyword(k)
    } else if let Some(o) = OperatorType::lookup(w) {
        WordView::Operator(o)
    } else if let Some(v) = ValueLiteralType::lookup(w) {
        WordView::ValueLiteral(v)
    } else {
        WordView::Identifier(w)
    }
}

/// Whether `c` may stand in an identifier: at its start a letter, `_` or `$`;
/// after that also a digit.
pub open spec fn ident_char(c: char, at_start: bool) -> bool {
    if at_start {
        alphabetic(c) || c == '_' || c == '$'
    } else {
        alphanumeric(c) || c == '_' || c == '$'
    }
}

pub open spec fn upper_hex_char(d: nat) -> char {
    if d < 10 {
        super::escape_chars::decimal_char(d)
    } else if d == 10 { 'A' }
    else if d == 11 { 'B' }
    else if d == 12 { 'C' }
    else if d == 13 { 'D' }
    else if d == 14 { 'E' }
    else { 'F' }
}

/// Upper-case hexadecimal notation of `n`, padded with zeros to `width` digits.
pub open spec fn upper_hex(n: nat, width: nat) -> Seq<char>
    decreases n + width,
{
    if n < 16 && width <= 1 {
        seq![upper_hex_char(n)]
    } else {
        upper_hex(n / 16, if width > 0 { (width - 1) as nat } else { 0 }).push(upper_hex_char(n % 16))
    }
}

fn upper_hex_digit(d: u32) -> (c: char)
    requires
        d < 16,
    ensures
        c == upper_hex_char(d as nat),
{
    if d < 10 {
        super::escape_chars::decimal_digit(d)
    } else if d == 10 { 'A' }
    else if d == 11 { 'B' }
    else if d == 12 { 'C' }
    else if d == 13 { 'D' }
    else if d == 14 { 'E' }
    else { 'F' }
}

/// Appends the upper-case hexadecimal notation of `n`, padded to `width`.
fn push_upper_hex(s: &mut String, n: u32, width: u32)
    ensures
        final(s)@ == old(s)@ + upper_hex(n as nat, width as nat),
    decreases n + width,
{
    if !(n < 16 && width <= 1) {
        push_upper_hex(s, n / 16, if width > 0 { width - 1 } else { 0 });
    }
    push_char(s, upper_hex_digit(n % 16));
    proof {
        if n < 16 && width <= 1 {
            assert(upper_hex(n as nat, width as nat) =~= seq![upper_hex_char((n % 16) as nat)]);
        } else {
            let w: nat = if width > 0 { (width - 1) as nat } else { 0 };
            assert(old(s)@ + upper_hex(n as nat, width as nat) =~= old(s)@ + upper_hex((n / 16) as nat, w) + seq![upper_hex_char((n % 16) as nat)]);
        }
    }
}

/// The rest of a word from index `j`, its characters so far `acc`: the word
/// and the index after it, or an error for an escape that is malformed or
/// decodes to a character that may not stand there.
pub open spec fn ident_rest(s: Seq<char>, j: int, at_start: bool, acc: Seq<char>) -> Lexed<Seq<char>>
    decreases s.len() - j,
{
    if j < 0 || j >= s.len() {
        Lexed::Token(acc, j)
    } else if s[j] == '\\' {
        match escape(s, j + 1) {
            EscapeOutcome::Char(c, e) => if !ident_char(c, at_start) {
                Lexed::Fail("Invalid escape sequence in identifier: \\u"@ + upper_hex(c as nat, 4))
            } else if j < e <= s.len() {
                ident_rest(s, e, false, acc.push(c))
            } else {
                Lexed::NoMatch
            },
            EscapeOutcome::Skip(e) => if j < e <= s.len() { ident_rest(s, e, at_start, acc) } else { Lexed::NoMatch },
            EscapeOutcome::Fail(m) => Lexed::Fail(m),
        }
    } else if ident_char(s[j], at_start) {
        ident_rest(s, j + 1, false, acc.push(s[j]))
    } else {
        Lexed::Token(acc, j)
    }
}

/// A line continuation decodes to nothing inside a word.
proof fn lemma_continuation(s: Seq<char>, j: int)
    requires
        0 <= j,
        j + 1 < s.len(),
        s[j] == '\\',
        line_terminator(s[j + 1]),
    ensures
        ident_rest(s, j, true, seq![]) == ident_rest(s, j + 2, true, seq![]),
{
    assert(escape(s, j + 1) == EscapeOutcome::Skip(j + 2));
}

/// A word run that collected `acc` holds at least `acc`.
proof fn lemma_ident_rest_grows(s: Seq<char>, j: int, at_start: bool, acc: Seq<char>)
    ensures
        ident_rest(s, j, at_start, acc) matches Lexed::Token(w, _) ==> w.len() >= acc.len(),
    decreases s.len() - j,
{
    if 0 <= j < s.len() {
        if s[j] == '\\' {
            match escape(s, j + 1) {
                EscapeOutcome::Char(c, e) => if ident_char(c, at_start) && j < e <= s.len() {
                    lemma_ident_rest_grows(s, e, false, acc.push(c));
                },
                EscapeOutcome::Skip(e) => if j < e <= s.len() {
                    lemma_ident_rest_grows(s, e, at_start, acc);
                },
                EscapeOutcome::Fail(_) => {},
            }
        } else if ident_char(s[j], at_start) {
            lemma_ident_rest_grows(s, j + 1, false, acc.push(s[j]));
        }
    }
}

/// A word that begins with a character that may start it, or with a
/// backslash that is no line continuation, is not empty (or is an error).
proof fn lemma_word_begins(s: Seq<char>, j: int)
    requires
        0 <= j < s.len(),
        s[j] == '\\' || ident_char(s[j], true),
        !(s[j] == '\\' && (char_at(s, j + 1) matches Some(d) && line_terminator(d))),
    ensures
        ident_rest(s, j, true, seq![]) matches Lexed::Token(w, _) ==> w.len() > 0,
{
    if s[j] == '\\' {
        lemma_escape_end(s, j + 1);
        match escape(s, j + 1) {
            EscapeOutcome::Char(c, e) => if ident_char(c, true) && j < e <= s.len() {
                lemma_ident_rest_grows(s, e, false, seq![c]);
            },
            _ => {},
        }
    } else {
        lemma_ident_rest_grows(s, j + 1, false, seq![s[j]]);
    }
}

/// The word at index `i`, classified.
pub open spec fn word_at(s: Seq<char>, i: int) -> Lexed<WordView> {
    match ident_rest(s, i, true, seq![]) {
        Lexed::Token(w, end) => if w.len() == 0 { Lexed::NoMatch } else { Lexed::Token(classify(w), end) },
        Lexed::Fail(m) => Lexed::Fail(m),
        Lexed::NoMatch => Lexed::NoMatch,
    }
}

/// Parses an identifier, keyword, reserved-word operator or value literal at
/// the cursor, decoding escapes: `None`, with the cursor where it was, when no
/// word starts there; an error for an escape that is malformed or decodes to
/// a character that may not stand in the word.
pub fn try_parse_identifier(chars: &mut CodeIter) -> (r: Result<Option<IdentParseResult>, SyntaxError>)
    ensures
        final(chars).text() == old(chars).text(),
        final(chars).path() == old(chars).path(),
        match word_at(old(chars).text(), old(chars).pos()) {
            Lexed::NoMatch => r matches Ok(None) && *final(chars) == *old(chars),
            Lexed::Token(w, end) => r matches Ok(Some(p)) && p@ == w && final(chars).pos() == end
                && end > old(chars).pos(),
            Lexed::Fail(m) => r matches Err(e) && e.message@ == m && reported(e, *old(chars), old(chars).pos()),
        },
{
    let start_pos = chars.current_position();
    let ghost s = chars.text();
    let ghost i = chars.pos();
    // Line continuations (a backslash before a line terminator) decode to
    // nothing: look past them for the character that would begin the word.
    let mut k: usize = 0;
    loop
        invariant
            chars.text() == s,
            s == old(chars).text(),
            i == old(chars).pos(),
            start_pos.index == i,
            start_pos == position_at(s, i),
            *chars == *old(chars),
            0 <= i <= s.len() < usize::MAX,
            i + k <= s.len(),
            ident_rest(s, i, true, seq![]) == ident_rest(s, i + k, true, seq![]),
        ensures
            !(char_at(s, i + k) == Some('\\') && (char_at(s, i + k + 1) matches Some(d) && line_terminator(d))),
        decreases s.len() - k,
    {
        let ahead = chars.peek_forward(k);
        let after = chars.peek_forward(k + 1);
        let continuation = match after {
            Some(d) => ahead == Some('\\') && is_line_terminator(d),
            None => false,
        };
        if !continuation {
            break;
        }
        proof {
            lemma_continuation(s, i + k);
        }
        k = k + 2;
    }
    let begins = match chars.peek_forward(k) {
        Some(c) => c == '\\' || is_alphabetic(c) || c == '_' || c == '$',
        None => false,
    };
    if !begins {
        proof {
            assert(ident_rest(s, i + k, true, seq![]) == Lexed::<Seq<char>>::Token(seq![], i + k));
        }
        return Ok(None);
    }
    proof {
        lemma_word_begins(s, i + k);
    }
    let mut lexeme = String::new();
    let mut at_start = true;
    loop
        invariant_except_break
            ident_rest(s, i, true, seq![]) == ident_rest(s, chars.pos(), at_start, lexeme@),
        invariant
            chars.text() == s,
            chars.path() == old(chars).path(),
            s == old(chars).text(),
            i == old(chars).pos(),
            start_pos.index == i,
            start_pos == position_at(s, i),
            at_start ==> lexeme@.len() == 0,
            ident_rest(s, i, true, seq![]) matches Lexed::Token(w, _) ==> w.len() > 0,
            chars.pos() >= i,
            lexeme@.len() > 0 ==> chars.pos() > i,
        ensures
            ident_rest(s, i, true, seq![]) == Lexed::Token(lexeme@, chars.pos()),
        decreases s.len() - chars.pos(),
    {
        let ghost j = chars.pos();
        let next = match chars.peek() {
            Some(c) => c,
            None => {
                break;
            },
        };
        if next == '\\' {
            chars.next();
            proof {
                lemma_escape_end(s, j + 1);
            }
            match try_parse_escape(chars) {
                Ok(Some(c)) => {
                    let ok = if at_start {
                        is_alphabetic(c) || c == '_' || c == '$'
                    } else {
                        is_alphanumeric(c) || c == '_' || c == '$'
                    };
                    if !ok {
                        let mut msg = String::from_str("Invalid escape sequence in identifier: \\u");
                        push_upper_hex(&mut msg, c as u32, 4);
                        return Err(chars.current_span_error(start_pos, msg.as_str()));
                    }
                    push_char(&mut lexeme, c);
                    at_start = false;
                },
                Ok(None) => {},
                Err(e) => {
                    return Err(e);
                },
            }
        } else {
            let ok = if at_start {
                is_alphabetic(next) || next == '_' || next == '$'
            } else {
                is_alphanumeric(next) || next == '_' || next == '$'
            };
            if !ok {
                break;
            }
            chars.next();
            push_char(&mut lexeme, next);
            at_start = false;
        }
    }
    let word = lexeme.as_str();
    if let Some(kind) = KeywordType::from_lexeme(word) {
        return Ok(Some(IdentParseResult::Keyword(Keyword::new(kind))));
    }
    if let Some(kind) = OperatorType::from_lexeme(word) {
        return Ok(Some(IdentParseResult::Operator(Operator::new(kind))));
    }
    if let Some(kind) = ValueLiteralType::from_lexeme(word) {
        return Ok(Some(IdentParseResult::ValueLiteral(ValueLiteral::new(kind))));
    }
    Ok(Some(IdentParseResult::Identifier(Identifier::new(lexeme))))
}

} // verus!
