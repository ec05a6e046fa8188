use vstd::prelude::*;

use super::code_iter::{position_at, char_at, CodeIter, SyntaxError, reported};
use super::escape_chars::{escape, lemma_escape_end, try_parse_escape, EscapeOutcome};
use super::utils::{push_char, Lexed};

verus! {

/// A text segment of a template literal, escapes decoded; `complete` when the
/// closing backtick ends it, not when an expression `${` does.
#[derive(Debug, PartialEq)]
pub struct TemplateLiteralString {
    pub lexeme: String,
    pub complete: bool,
}

impl TemplateLiteralString {
    pub fn new(lexeme: String, complete: bool) -> (r: Self)
        ensures
            r.lexeme@ == lexeme@,
            r.complete == complete,
    {
        TemplateLiteralString { lexeme, complete }
    }
}

/// The `${` that opens an expression inside a template literal.
#[derive(Debug, PartialEq, Default)]
pub struct TemplateLiteralExprOpen {}

/// The `}` that closes an expression inside a template literal.
#[derive(Debug, PartialEq, Default)]
pub struct TemplateLiteralExprClose {}

/// A text segment of a template literal from index `j`, its text so far
/// `acc`: the text, whether the closing backtick ended it, and the index after
/// the backtick or `${`; or an error.
pub open spec fn template_rest(s: Seq<char>, j: int, acc: Seq<char>) -> Lexed<(Seq<char>, bool)>
    decreases s.len() - j,
{
    if j < 0 || j >= s.len() {
        Lexed::Fail("Unexpected EOF while parsing template literal"@)
    } else if s[j] == '`' {
        Lexed::Token((acc, true), j + 1)
    } else if s[j] == '$' && char_at(s, j + 1) == Some('{') {
        Lexed::Token((acc, false), j + 2)
    } else if s[j] == '\\' {
        match escape(s, j + 1) {
            EscapeOutcome::Char(c, e) => if j < e <= s.len() { template_rest(s, e, acc.push(c)) } else { Lexed::NoMatch },
            EscapeOutcome::Skip(e) => if j < e <= s.len() { template_rest(s, e, acc) } else { Lexed::NoMatch },
            EscapeOutcome::Fail(m) => Lexed::Fail(m),
        }
    } else {
        template_rest(s, j + 1, acc.push(s[j]))
    }
}

/// The template segment that starts after the character at index `i`, when
/// that character is `open`.
pub open spec fn template_segment_at(s: Seq<char>, i: int, open: char) -> Lexed<(Seq<char>, bool)> {
    if char_at(s, i) == Some(open) {
        template_rest(s, i + 1, seq![])
    } else {
        Lexed::NoMatch
    }
}

/// Once inside a template literal (its backtick or the `}` of an expression
/// consumed), parses the next text segment: it ends at a backtick (the
/// literal is complete) or at `${` (an expression opens).
pub fn parse_template_literal_string(chars: &mut CodeIter) -> (r: Result<(TemplateLiteralString, Option<TemplateLiteralExprOpen>), SyntaxError>)
    ensures
        final(chars).text() == old(chars).text(),
        final(chars).path() == old(chars).path(),
        match template_rest(old(chars).text(), old(chars).pos(), seq![]) {
            Lexed::NoMatch => false,
            Lexed::Token((t, complete), end) => r matches Ok((seg, open)) && seg.lexeme@ == t
                && seg.complete == complete && (open is None <==> complete) && final(chars).pos() == end
                && end > old(chars).pos(),
            Lexed::Fail(m) => r matches Err(e) && e.message@ == m && reported(e, *old(chars), old(chars).pos()),
        },
{
    let start = chars.current_position();
    let ghost s = chars.text();
    let ghost i = chars.pos();
    let mut lexeme = String::new();
    loop
        invariant
            chars.text() == s,
            chars.path() == old(chars).path(),
            s == old(chars).text(),
            template_rest(s, i, seq![]) == template_rest(s, chars.pos(), lexeme@),
            i == old(chars).pos(),
            start.index == i,
            start == position_at(s, i),
            chars.pos() >= i,
        decreases s.len() - chars.pos(),
    {
        let ghost j = chars.pos();
        let next = chars.next();
        match next {
            None => {
                return Err(chars.current_span_error(start, "Unexpected EOF while parsing template literal"));
            },
            Some(c) => {
                if c == '`' {
                    return Ok((TemplateLiteralString::new(lexeme, true), None));
                }
                if c == '$' && chars.peek() == Some('{') {
                    chars.next();
                    return Ok((TemplateLiteralString::new(lexeme, false), Some(TemplateLiteralExprOpen {})));
                }
                if c == '\\' {
                    proof {
                        lemma_escape_end(s, j + 1);
                    }
                    match try_parse_escape(chars) {
                        Ok(Some(e)) => push_char(&mut lexeme, e),
                        Ok(None) => {},
                        Err(e) => {
                            return Err(e);
                        },
                    }
                } else {
                    push_char(&mut lexeme, c);
                }
            },
        }
    }
}

/// Parses the start of a template literal (a backtick) and its first text
/// segment; `None`, with nothing consumed, when no backtick is next.
pub fn try_parse_template_literal_start(chars: &mut CodeIter) -> (r: Result<Option<(TemplateLiteralString, Option<TemplateLiteralExprOpen>)>, SyntaxError>)
    ensures
        final(chars).text() == old(chars).text(),
        final(chars).path() == old(chars).path(),
        match template_segment_at(old(chars).text(), old(chars).pos(), '`') {
            Lexed::NoMatch => r matches Ok(None) && *final(chars) == *old(chars),
            Lexed::Token((t, complete), end) => r matches Ok(Some((seg, open))) && seg.lexeme@ == t
                && seg.complete == complete && (open is None <==> complete) && final(chars).pos() == end
                && end > old(chars).pos(),
            Lexed::Fail(m) => r matches Err(e) && e.message@ == m && reported(e, *old(chars), old(chars).pos()),
        },
{
    if chars.peek() == Some('`') {
        chars.next();
        match parse_template_literal_string(chars) {
            Ok(parts) => Ok(Some(parts)),
            Err(e) => Err(e),
        }
    } else {
        Ok(None)
    }
}

/// Parses the `}` that closes a template expression and the text segment
/// after it; `None`, with nothing consumed, when no `}` is next. Used in place
/// of punctuation while inside a template expression.
pub fn try_parse_template_literal_expr_end(chars: &mut CodeIter) -> (r: Result<Option<(TemplateLiteralExprClose, TemplateLiteralString, Option<TemplateLiteralExprOpen>)>, SyntaxError>)
    ensures
        final(chars).text() == old(chars).text(),
        final(chars).path() == old(chars).path(),
        match template_segment_at(old(chars).text(), old(chars).pos(), '}') {
            Lexed::NoMatch => r matches Ok(None) && *final(chars) == *old(chars),
            Lexed::Token((t, complete), end) => r matches Ok(Some((_, seg, open))) && seg.lexeme@ == t
                && seg.complete == complete && (open is None <==> complete) && final(chars).pos() == end
                && end > old(chars).pos(),
            Lexed::Fail(m) => r matches Err(e) && e.message@ == m && reported(e, *old(chars), old(chars).pos()),
        },
{
    if chars.peek() == Some('}') {
        chars.next();
        match parse_template_literal_string(chars) {
            Ok((seg, open)) => Ok(Some((TemplateLiteralExprClose {}, seg, open))),
            Err(e) => Err(e),
        }
    } else {
        Ok(None)
    }
}

} // verus!
