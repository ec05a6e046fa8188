use vstd::prelude::*;

use super::code_iter::{position_at, char_at, CodeIter, SyntaxError, reported};
use super::utils::{alphabetic, is_alphabetic, is_line_terminator, line_terminator, push_char, Lexed};

verus! {

/// A regular expression literal: its pattern, kept verbatim, and its flags.
#[derive(Debug, PartialEq)]
pub struct RegexLiteral {
    pub pattern: String,
    pub flags: String,
}

impl RegexLiteral {
    pub fn new(pattern: String, flags: String) -> (r: Self)
        ensures
            r.pattern@ == pattern@,
            r.flags@ == flags@,
    {
        RegexLiteral { pattern, flags }
    }
}

pub open spec fn regex_flag(c: char) -> bool {
    c == 'g' || c == 'i' || c == 'm' || c == 's' || c == 'u' || c == 'y'
}

/// Whether a regular expression literal may start at index `i`: a `/` that
/// is followed by a character other than `/`, `*`, `[` or a line terminator.
pub open spec fn regex_may_start(s: Seq<char>, i: int) -> bool {
    char_at(s, i) == Some('/') && 0 <= i + 1 < s.len() && s[i + 1] != '/' && s[i + 1] != '*'
        && s[i + 1] != '[' && !line_terminator(s[i + 1])
}

/// The pattern from index `j` onto `acc`, up to an unescaped `/`: the pattern
/// and the index after that `/`, or an error.
pub open spec fn regex_pattern(s: Seq<char>, j: int, acc: Seq<char>) -> Lexed<Seq<char>>
    decreases s.len() - j,
{
    if j < 0 || j >= s.len() {
        Lexed::Fail("Unterminated regex literal"@)
    } else if s[j] == '/' {
        Lexed::Token(acc, j + 1)
    } else if line_terminator(s[j]) {
        Lexed::Fail("Unexpected line terminator while parsing regular expression"@)
    } else if s[j] == '\\' {
        if j + 1 >= s.len() {
            Lexed::Fail("Unterminated regex literal"@)
        } else if line_terminator(s[j + 1]) {
            Lexed::Fail("Unexpected line terminator while parsing regular expression"@)
        } else {
            regex_pattern(s, j + 2, acc.push('\\').push(s[j + 1]))
        }
    } else {
        regex_pattern(s, j + 1, acc.push(s[j]))
    }
}

/// The flags from index `j` onto `acc`: a run of `g i m s u y`, ended by
/// anything that is not alphabetic; any other letter is an error.
pub open spec fn regex_flags(s: Seq<char>, j: int, acc: Seq<char>) -> Lexed<Seq<char>>
    decreases s.len() - j,
{
    if j < 0 || j >= s.len() {
        Lexed::Token(acc, j)
    } else if regex_flag(s[j]) {
        regex_flags(s, j + 1, acc.push(s[j]))
    } else if alphabetic(s[j]) {
        Lexed::Fail("Invalid regular expression flag '"@ + seq![s[j]] + "'"@)
    } else {
        Lexed::Token(acc, j)
    }
}

/// The regular expression literal at index `i`: its pattern and flags.
pub open spec fn regex_literal_at(s: Seq<char>, i: int) -> Lexed<(Seq<char>, Seq<char>)> {
    if regex_may_start(s, i) {
        match regex_pattern(s, i + 1, seq![]) {
            Lexed::Token(p, j) => match regex_flags(s, j, seq![]) {
                Lexed::Token(f, end) => Lexed::Token((p, f), end),
                Lexed::Fail(m) => Lexed::Fail(m),
                Lexed::NoMatch => Lexed::NoMatch,
            },
            Lexed::Fail(m) => Lexed::Fail(m),
            Lexed::NoMatch => Lexed::NoMatch,
        }
    } else {
        Lexed::NoMatch
    }
}

/// Parses a regex pattern, the leading `/` consumed, through the closing `/`.
/// Escapes are kept as written: the regular expression engine reads them.
fn parse_regex_pattern(chars: &mut CodeIter) -> (r: Result<String, SyntaxError>)
    ensures
        final(chars).text() == old(chars).text(),
        final(chars).path() == old(chars).path(),
        match regex_pattern(old(chars).text(), old(chars).pos(), seq![]) {
            Lexed::Token(p, end) => r matches Ok(q) && q@ == p && final(chars).pos() == end
                && end > old(chars).pos(),
            Lexed::Fail(m) => r matches Err(e) && e.message@ == m && reported(e, *old(chars), old(chars).pos()),
            Lexed::NoMatch => false,
        },
{
    let start = chars.current_position();
    let ghost s = chars.text();
    let ghost i = chars.pos();
    let mut lexeme = String::new();
    loop
        invariant
            chars.text() == s,
            chars.path() == old(chars).path(),
            s == old(chars).text(),
            i == old(chars).pos(),
            start.index == i,
            start == position_at(s, i),
            regex_pattern(s, i, seq![]) == regex_pattern(s, chars.pos(), lexeme@),
            chars.pos() >= i,
        decreases s.len() - chars.pos(),
    {
        match chars.next() {
            None => {
                return Err(chars.current_span_error(start, "Unterminated regex literal"));
            },
            Some(c) => {
                if c == '/' {
                    return Ok(lexeme);
                }
                if is_line_terminator(c) {
                    return Err(chars.current_span_error(start, "Unexpected line terminator while parsing regular expression"));
                }
                push_char(&mut lexeme, c);
                if c == '\\' {
                    match chars.next() {
                        None => {
                            return Err(chars.current_span_error(start, "Unterminated regex literal"));
                        },
                        Some(d) => {
                            if is_line_terminator(d) {
                                return Err(chars.current_span_error(start, "Unexpected line terminator while parsing regular expression"));
                            }
                            push_char(&mut lexeme, d);
                        },
                    }
                }
            },
        }
    }
}

/// Parses the flags after the closing `/`.
fn parse_regex_flags(chars: &mut CodeIter) -> (r: Result<String, SyntaxError>)
    ensures
        final(chars).text() == old(chars).text(),
        final(chars).path() == old(chars).path(),
        match regex_flags(old(chars).text(), old(chars).pos(), seq![]) {
            Lexed::Token(f, end) => r matches Ok(q) && q@ == f && final(chars).pos() == end
                && end >= old(chars).pos(),
            Lexed::Fail(m) => r matches Err(e) && e.message@ == m && reported(e, *old(chars), old(chars).pos()),
            Lexed::NoMatch => false,
        },
{
    let start = chars.current_position();
    let ghost s = chars.text();
    let ghost i = chars.pos();
    let mut lexeme = String::new();
    loop
        invariant
            chars.text() == s,
            chars.path() == old(chars).path(),
            s == old(chars).text(),
            i == old(chars).pos(),
            start.index == i,
            start == position_at(s, i),
            regex_flags(s, i, seq![]) == regex_flags(s, chars.pos(), lexeme@),
            chars.pos() >= i,
        decreases s.len() - chars.pos(),
    {
        match chars.peek() {
            None => {
                return Ok(lexeme);
            },
            Some(c) => {
                if c == 'g' || c == 'i' || c == 'm' || c == 's' || c == 'u' || c == 'y' {
                    push_char(&mut lexeme, c);
                    chars.next();
                } else if is_alphabetic(c) {
                    let mut msg = String::from_str("Invalid regular expression flag '");
                    push_char(&mut msg, c);
                    msg.append("'");
                    return Err(chars.current_span_error(start, msg.as_str()));
                } else {
                    return Ok(lexeme);
                }
            },
        }
    }
}

/// Parses a regular expression literal (e.g. `/foo/g`) at the cursor: `None`,
/// with nothing consumed, unless `/` is next and followed by a character that
/// can begin a pattern; an error on a line terminator or the end of the text
/// inside the pattern, or on a letter that is no flag.
pub fn try_parse_regex_literal(chars: &mut CodeIter) -> (r: Result<Option<RegexLiteral>, SyntaxError>)
    ensures
        final(chars).text() == old(chars).text(),
        final(chars).path() == old(chars).path(),
        match regex_literal_at(old(chars).text(), old(chars).pos()) {
            Lexed::NoMatch => r matches Ok(None) && *final(chars) == *old(chars),
            Lexed::Token((p, f), end) => r matches Ok(Some(re)) && re.pattern@ == p && re.flags@ == f
                && final(chars).pos() == end && end > old(chars).pos(),
            Lexed::Fail(m) => r matches Err(e) && e.message@ == m && reported(e, *old(chars), old(chars).pos()),
        },
{
    let first = chars.peek();
    let second = chars.peek_forward(1);
    let starts = match second {
        Some(d) => first == Some('/') && d != '/' && d != '*' && d != '[' && !is_line_terminator(d),
        None => false,
    };
    if !starts {
        return Ok(None);
    }
    chars.next();
    let pattern = match parse_regex_pattern(chars) {
        Ok(p) => p,
        Err(e) => {
            return Err(e);
        },
    };
    let flags = match parse_regex_flags(chars) {
        Ok(f) => f,
        Err(e) => {
            return Err(e);
        },
    };
    Ok(Some(RegexLiteral::new(pattern, flags)))
}

} // verus!
