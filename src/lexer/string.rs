use vstd::prelude::*;

use super::code_iter::{position_at, char_at, CodeIter, SyntaxError, reported};
use super::escape_chars::{escape, lemma_escape_end, try_parse_escape, EscapeOutcome};
use super::utils::{is_line_terminator, line_terminator, push_char, Lexed};

verus! {

/// A string literal token: its value, delimiters stripped and escapes decoded.
#[derive(Debug, PartialEq)]
pub struct StringLiteral {
    pub lexeme: String,
}

impl StringLiteral {
    pub fn new(lexeme: String) -> (r: Self)
        ensures
            r.lexeme@ == lexeme@,
    {
        StringLiteral { lexeme }
    }
}

impl From<String> for StringLiteral {
    fn from(value: String) -> (r: Self) {
        StringLiteral { lexeme: value }
    }
}

impl vstd::std_specs::convert::FromSpecImpl<String> for StringLiteral {
    open spec fn obeys_from_spec() -> bool {
        true
    }

    open spec fn from_spec(v: String) -> Self {
        StringLiteral { lexeme: v }
    }
}

/// The rest of a string literal delimited by `q`, from index `j`, its value so
/// far `acc`: the value and the index after the closing delimiter, or an error.
pub open spec fn string_rest(s: Seq<char>, j: int, q: char, acc: Seq<char>) -> Lexed<Seq<char>>
    decreases s.len() - j,
{
    if j < 0 || j >= s.len() {
        Lexed::Fail("Unexpected EOF while parsing string literal"@)
    } else if s[j] == q {
        Lexed::Token(acc, j + 1)
    } else if line_terminator(s[j]) {
        Lexed::Fail("Unexpected line terminator while parsing string literal"@)
    } else if s[j] == '\\' {
        match escape(s, j + 1) {
            EscapeOutcome::Char(c, e) => if j < e <= s.len() { string_rest(s, e, q, acc.push(c)) } else { Lexed::NoMatch },
            EscapeOutcome::Skip(e) => if j < e <= s.len() { string_rest(s, e, q, acc) } else { Lexed::NoMatch },
            EscapeOutcome::Fail(m) => Lexed::Fail(m),
        }
    } else {
        string_rest(s, j + 1, q, acc.push(s[j]))
    }
}

/// The string literal at index `i`.
pub open spec fn string_literal_at(s: Seq<char>, i: int) -> Lexed<Seq<char>> {
    match char_at(s, i) {
        Some(q) => if q == '\'' || q == '"' { string_rest(s, i + 1, q, seq![]) } else { Lexed::NoMatch },
        None => Lexed::NoMatch,
    }
}

/// Parses a string literal delimited by `'` or `"` at the cursor, decoding its
/// escapes: `None`, with nothing consumed, when no quote is next; an error on
/// a raw line terminator, a bad escape, or the end of the text before the
/// closing quote.
pub fn try_parse_string(chars: &mut CodeIter) -> (r: Result<Option<StringLiteral>, SyntaxError>)
    ensures
        final(chars).text() == old(chars).text(),
        final(chars).path() == old(chars).path(),
        match string_literal_at(old(chars).text(), old(chars).pos()) {
            Lexed::NoMatch => r matches Ok(None) && *final(chars) == *old(chars),
            Lexed::Token(v, end) => r matches Ok(Some(lit)) && lit.lexeme@ == v && final(chars).pos() == end
                && end > old(chars).pos(),
            Lexed::Fail(m) => r matches Err(e) && e.message@ == m && reported(e, *old(chars), old(chars).pos()),
        },
{
    let start = chars.current_position();
    let ghost s = chars.text();
    let delimiter = match chars.peek() {
        Some(q) => {
            if q == '\'' || q == '"' {
                q
            } else {
                return Ok(None);
            }
        },
        None => {
            return Ok(None);
        },
    };
    chars.next();
    let mut lexeme = String::new();
    loop
        invariant
            chars.text() == s,
            chars.path() == old(chars).path(),
            s == old(chars).text(),
            string_literal_at(s, old(chars).pos()) == string_rest(s, chars.pos(), delimiter, lexeme@),
            start.index == old(chars).pos(),
            start == position_at(s, start.index as int),
            chars.pos() > old(chars).pos(),
        decreases s.len() - chars.pos(),
    {
        let ghost j = chars.pos();
        let next = chars.next();
        match next {
            None => {
                return Err(chars.current_span_error(start, "Unexpected EOF while parsing string literal"));
            },
            Some(c) => {
                if c == delimiter {
                    return Ok(Some(StringLiteral::new(lexeme)));
                }
                if is_line_terminator(c) {
                    return Err(chars.current_span_error(start, "Unexpected line terminator while parsing string literal"));
                }
                if c == '\\' {
                    proof {
                        lemma_escape_end(s, j + 1);
                    }
                    match try_parse_escape(chars) {
                        Ok(Some(e)) => push_char(&mut lexeme, e),
                        Ok(None) => {},
                        Err(e) => {
                            return Err(e);
                        },
                    }
                } else {
                    push_char(&mut lexeme, c);
                }
            },
        }
    }
}

} // verus!
