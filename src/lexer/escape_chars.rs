//! Decoding of ECMAScript character escape sequences (the part after the
//! backslash), one escape unit at a time.
use vstd::prelude::*;

use super::code_iter::{char_at, CodeIter, reported};
use super::utils::{
    char_from_u32, char_of, digit_of, digit_value, is_digit_of, is_line_terminator,
    line_terminator, push_char, scalar_value,
};

verus! {

/// What one escape sequence stands for: a character and the index after the
/// escape, nothing (a line continuation) and the index after it, or an error
/// message.
pub enum EscapeOutcome {
    Char(char, int),
    Skip(int),
    Fail(Seq<char>),
}

pub open spec fn octal_digit(c: char) -> bool {
    '0' <= c && c <= '7'
}

pub open spec fn hex_digit(c: char) -> bool {
    is_digit_of(c, 16)
}

/// Reads up to `left` further octal digits from index `i` onto the value `v`:
/// the value reached and the index after the last digit read.
pub open spec fn octal_run(s: Seq<char>, i: int, v: int, left: nat) -> (int, int)
    decreases left,
{
    if left > 0 && 0 <= i < s.len() && octal_digit(s[i]) {
        octal_run(s, i + 1, v * 8 + digit_value(s[i]), (left - 1) as nat)
    } else {
        (v, i)
    }
}

/// Reads hexadecimal digits from index `i` onto the value `v` up to a closing
/// `}`: the value and the index after the brace, or `None` when anything else
/// (or the end of the text) comes first.
pub open spec fn braced_run(s: Seq<char>, i: int, v: int) -> Option<(int, int)>
    decreases s.len() - i,
{
    if i < 0 || i >= s.len() {
        None
    } else if hex_digit(s[i]) {
        braced_run(s, i + 1, v * 16 + digit_value(s[i]))
    } else if s[i] == '}' {
        Some((v, i + 1))
    } else {
        None
    }
}

/// Whether the `n` characters from index `i` are all hexadecimal digits.
pub open spec fn all_hex(s: Seq<char>, i: int, n: int) -> bool {
    0 <= i && i + n <= s.len() && forall|k: int| 0 <= k < n ==> #[trigger] hex_digit(s[i + k])
}

/// The value of the `n` hexadecimal digits from index `i`.
pub open spec fn hex_value(s: Seq<char>, i: int, n: nat) -> int
    decreases n,
{
    if n == 0 {
        0
    } else {
        hex_value(s, i, (n - 1) as nat) * 16 + digit_value(s[i + n - 1])
    }
}

/// The character for decimal digit `d`.
pub open spec fn decimal_char(d: nat) -> char {
    if d == 0 { '0' }
    else if d == 1 { '1' }
    else if d == 2 { '2' }
    else if d == 3 { '3' }
    else if d == 4 { '4' }
    else if d == 5 { '5' }
    else if d == 6 { '6' }
    else if d == 7 { '7' }
    else if d == 8 { '8' }
    else { '9' }
}

/// The decimal notation of `n`.
pub open spec fn decimal(n: nat) -> Seq<char>
    decreases n,
{
    if n < 10 {
        seq![decimal_char(n)]
    } else {
        decimal(n / 10).push(decimal_char(n % 10))
    }
}

pub open spec fn unicode_outcome(v: int, end: int) -> EscapeOutcome {
    if v > 0x10FFFF {
        EscapeOutcome::Fail("Undefined Unicode code-point"@)
    } else if !scalar_value(v) {
        EscapeOutcome::Fail("Invalid Unicode code-point"@)
    } else {
        EscapeOutcome::Char(char_of(v), end)
    }
}

/// The escape sequence whose first character (after the backslash) is at
/// index `i` of `s`.
pub open spec fn escape(s: Seq<char>, i: int) -> EscapeOutcome {
    if !(0 <= i < s.len()) {
        EscapeOutcome::Fail("Unexpected EOF while parsing escape sequence"@)
    } else {
        let c = s[i];
        if c == 'b' {
            EscapeOutcome::Char('\u{8}', i + 1)
        } else if c == 'f' {
            EscapeOutcome::Char('\u{c}', i + 1)
        } else if c == 'n' {
            EscapeOutcome::Char('\n', i + 1)
        } else if c == 'r' {
            EscapeOutcome::Char('\r', i + 1)
        } else if c == 't' {
            EscapeOutcome::Char('\t', i + 1)
        } else if c == 'v' {
            EscapeOutcome::Char('\u{b}', i + 1)
        } else if line_terminator(c) {
            EscapeOutcome::Skip(i + 1)
        } else if octal_digit(c) {
            let (v, end) = octal_run(s, i + 1, digit_value(c) as int, 2);
            if v > 0o377 {
                EscapeOutcome::Fail("invalid octal escape sequence: out of range: "@ + decimal(v as nat))
            } else {
                EscapeOutcome::Char(char_of(v), end)
            }
        } else if c == 'x' {
            if all_hex(s, i + 1, 2) {
                EscapeOutcome::Char(char_of(hex_value(s, i + 1, 2)), i + 3)
            } else {
                EscapeOutcome::Fail("Invalid hexadecimal escape sequence"@)
            }
        } else if c == 'u' {
            if char_at(s, i + 1) == Some('{') {
                match braced_run(s, i + 2, 0) {
                    Some((v, end)) => if end == i + 3 {
                        EscapeOutcome::Fail("Invalid hexadecimal escape sequence"@)
                    } else {
                        unicode_outcome(v, end)
                    },
                    None => EscapeOutcome::Fail("Invalid hexadecimal escape sequence"@),
                }
            } else if all_hex(s, i + 1, 4) {
                unicode_outcome(hex_value(s, i + 1, 4), i + 5)
            } else {
                EscapeOutcome::Fail("Invalid hexadecimal escape sequence"@)
            }
        } else {
            EscapeOutcome::Char(c, i + 1)
        }
    }
}

proof fn lemma_octal_run(s: Seq<char>, i: int, v: int, left: nat)
    requires
        0 <= i <= s.len(),
    ensures
        i <= octal_run(s, i, v, left).1 <= s.len(),
    decreases left,
{
    if left > 0 && 0 <= i < s.len() && octal_digit(s[i]) {
        lemma_octal_run(s, i + 1, v * 8 + digit_value(s[i]), (left - 1) as nat);
    }
}

proof fn lemma_braced_run(s: Seq<char>, i: int, v: int)
    requires
        0 <= i,
    ensures
        braced_run(s, i, v) matches Some((_, end)) ==> i < end <= s.len(),
    decreases s.len() - i,
{
    if 0 <= i < s.len() && hex_digit(s[i]) {
        lemma_braced_run(s, i + 1, v * 16 + digit_value(s[i]));
    }
}

/// An escape that decodes to something ends after the index it starts at,
/// and within the text.
pub proof fn lemma_escape_end(s: Seq<char>, i: int)
    requires
        0 <= i,
    ensures
        escape(s, i) matches EscapeOutcome::Char(_, end) ==> i < end <= s.len(),
        escape(s, i) matches EscapeOutcome::Skip(end) ==> i < end <= s.len(),
{
    if 0 <= i < s.len() {
        let c = s[i];
        if octal_digit(c) {
            lemma_octal_run(s, i + 1, digit_value(c) as int, 2);
        } else if c == 'u' && char_at(s, i + 1) == Some('{') {
            lemma_braced_run(s, i + 2, 0);
        }
    }
}

pub(crate) fn decimal_digit(d: u32) -> (c: char)
    requires
        d < 10,
    ensures
        c == decimal_char(d as nat),
{
    if d == 0 { '0' }
    else if d == 1 { '1' }
    else if d == 2 { '2' }
    else if d == 3 { '3' }
    else if d == 4 { '4' }
    else if d == 5 { '5' }
    else if d == 6 { '6' }
    else if d == 7 { '7' }
    else if d == 8 { '8' }
    else { '9' }
}

/// Appends the decimal notation of `n`.
pub fn push_decimal(s: &mut String, n: u32)
    ensures
        final(s)@ == old(s)@ + decimal(n as nat),
    decreases n,
{
    if n >= 10 {
        push_decimal(s, n / 10);
    }
    push_char(s, decimal_digit(n % 10));
    proof {
        if n >= 10 {
            assert(old(s)@ + decimal(n as nat) =~= old(s)@ + decimal((n / 10) as nat) + seq![decimal_char((n % 10) as nat)]);
        } else {
            assert(decimal(n as nat) =~= seq![decimal_char((n % 10) as nat)]);
        }
    }
}

/// The character with code point `v`, known to be at most 0xFF.
fn byte_char(v: u32) -> (c: char)
    requires
        v <= 0xFF,
    ensures
        c == char_of(v as int),
{
    let c = char_from_u32(v);
    match c {
        Some(c) => {
            proof {
                lemma_char_of(c, v as int);
            }
            c
        },
        None => {
            proof {
                assert(scalar_value(v as int));
            }
            '\0'
        },
    }
}

proof fn lemma_char_of(c: char, v: int)
    requires
        c as int == v,
    ensures
        char_of(v) == c,
{
    assert(super::utils::code_point(c) == v);
    let d = char_of(v);
    assert(super::utils::code_point(d) == v);
}

/// Reads up to two further octal digits onto `init`, then checks the range.
fn parse_octal_escape_sequence(chars: &mut CodeIter, init: u32) -> (r: Result<char, super::code_iter::SyntaxError>)
    requires
        init < 8,
    ensures
        final(chars).text() == old(chars).text(),
        final(chars).path() == old(chars).path(),
        ({
            let (v, end) = octal_run(old(chars).text(), old(chars).pos(), init as int, 2);
            if v > 0o377 {
                r matches Err(e) && e.message@ == "invalid octal escape sequence: out of range: "@ + decimal(v as nat)
                    && reported(e, *old(chars), old(chars).pos())
            } else {
                r == Ok::<char, super::code_iter::SyntaxError>(char_of(v)) && final(chars).pos() == end
            }
        }),
{
    let start = chars.current_position();
    let mut value: u32 = init;
    let mut n: u32 = 0;
    let ghost s = chars.text();
    while n < 2
        invariant
            chars.text() == s,
            chars.path() == old(chars).path(),
            n <= 2,
            value < 8 * (if n == 0 { 1u32 } else if n == 1 { 8 } else { 64 }),
            octal_run(s, old(chars).pos(), init as int, 2) == octal_run(s, chars.pos(), value as int, (2 - n) as nat),
            chars.pos() >= old(chars).pos(),
        ensures
            octal_run(s, old(chars).pos(), init as int, 2) == (value as int, chars.pos()),
        decreases 2 - n,
    {
        match chars.peek() {
            Some(c) => {
                if '0' <= c && c <= '7' {
                    chars.next();
                    value = value * 8 + ((c as u32) - ('0' as u32));
                    n = n + 1;
                } else {
                    break;
                }
            },
            None => {
                break;
            },
        }
    }
    if value > 0o377 {
        let mut msg = String::from_str("invalid octal escape sequence: out of range: ");
        push_decimal(&mut msg, value);
        Err(chars.current_span_error(start, msg.as_str()))
    } else {
        Ok(byte_char(value))
    }
}

type EscapeResult<T> = Result<T, super::code_iter::SyntaxError>;

/// Reads `n` (at most 4) hexadecimal digits.
fn parse_hex_digits(chars: &mut CodeIter, n: u32) -> (r: Option<u32>)
    requires
        n <= 4,
    ensures
        final(chars).text() == old(chars).text(),
        final(chars).path() == old(chars).path(),
        r is Some <==> all_hex(old(chars).text(), old(chars).pos(), n as int),
        r matches Some(v) ==> v == hex_value(old(chars).text(), old(chars).pos(), n as nat)
            && v < pow16(n as nat) && final(chars).pos() == old(chars).pos() + n,
        final(chars).pos() >= old(chars).pos(),
{
    let ghost s = chars.text();
    let ghost i0 = old(chars).pos();
    let _ = chars.peek();
    let mut value: u32 = 0;
    let mut k: u32 = 0;
    while k < n
        invariant
            s == old(chars).text(),
            i0 == old(chars).pos(),
            0 <= i0 <= s.len(),
            chars.text() == s,
            chars.path() == old(chars).path(),
            k <= n <= 4,
            chars.pos() == i0 + k,
            all_hex(s, i0, k as int),
            value == hex_value(s, i0, k as nat),
            value < pow16(k as nat),
        decreases n - k,
    {
        let c = chars.peek();
        match c {
            Some(c) => {
                match digit_of(c, 16) {
                    Some(d) => {
                        chars.next();
                        proof {
                            assert(s[i0 + k] == c);
                            assert(all_hex(s, i0, k + 1)) by {
                                assert forall|j: int| 0 <= j < k + 1 implies #[trigger] hex_digit(s[i0 + j]) by {
                                    if j < k {
                                        assert(hex_digit(s[i0 + j]));
                                    }
                                }
                            }
                            assert(pow16((k + 1) as nat) == pow16(k as nat) * 16);
                            assert(pow16(k as nat) <= 4096) by {
                                reveal_with_fuel(pow16, 4);
                                if k == 0 {
                                } else if k == 1 {
                                } else if k == 2 {
                                } else {
                                }
                            }
                        }
                        value = value * 16 + d;
                        k = k + 1;
                    },
                    None => {
                        proof {
                            assert(!hex_digit(s[i0 + k]));
                            assert(!all_hex(s, i0, n as int));
                        }
                        return None;
                    },
                }
            },
            None => {
                return None;
            },
        }
    }
    Some(value)
}

pub open spec fn pow16(n: nat) -> int
    decreases n,
{
    if n == 0 { 1 } else { pow16((n - 1) as nat) * 16 }
}

/// `\xHH`: exactly two hexadecimal digits.
fn parse_hex_escape_sequence(chars: &mut CodeIter) -> (r: EscapeResult<char>)
    ensures
        final(chars).text() == old(chars).text(),
        final(chars).path() == old(chars).path(),
        all_hex(old(chars).text(), old(chars).pos(), 2) ==> r == Ok::<char, super::code_iter::SyntaxError>(
            char_of(hex_value(old(chars).text(), old(chars).pos(), 2)))
            && final(chars).pos() == old(chars).pos() + 2,
        !all_hex(old(chars).text(), old(chars).pos(), 2) ==> (r matches Err(e)
            && e.message@ == "Invalid hexadecimal escape sequence"@ && reported(e, *old(chars), old(chars).pos())),
{
    let start = chars.current_position();
    match parse_hex_digits(chars, 2) {
        Some(v) => {
            proof {
                reveal_with_fuel(pow16, 3);
                assert(pow16(2) == 256);
            }
            Ok(byte_char(v))
        },
        None => Err(chars.current_span_error(start, "Invalid hexadecimal escape sequence")),
    }
}

/// The character for a code point read from a Unicode escape.
fn unicode_char(chars: &CodeIter, start: super::code_iter::Position, v: u32, end: Ghost<int>) -> (r: EscapeResult<char>)
    requires
        start.index <= chars.pos(),
        start == super::code_iter::position_at(chars.text(), start.index as int),
    ensures
        unicode_outcome(v as int, end@) matches EscapeOutcome::Char(c, _) ==> r == Ok::<char, super::code_iter::SyntaxError>(c),
        unicode_outcome(v as int, end@) matches EscapeOutcome::Fail(m) ==> (r matches Err(e) && e.message@ == m && reported(e, *chars, start.index as int)),
{
    if v > 0x10FFFF {
        return Err(chars.current_span_error(start, "Undefined Unicode code-point"));
    }
    match char_from_u32(v) {
        Some(c) => {
            proof {
                lemma_char_of(c, v as int);
            }
            Ok(c)
        },
        None => Err(chars.current_span_error(start, "Invalid Unicode code-point")),
    }
}

/// `\uHHHH` or `\u{H...}`.
#[verifier::loop_isolation(false)]
fn parse_unicode_escape_sequence(chars: &mut CodeIter) -> (r: EscapeResult<char>)
    ensures
        final(chars).text() == old(chars).text(),
        final(chars).path() == old(chars).path(),
        ({
            let s = old(chars).text();
            let i = old(chars).pos();
            let outcome = if char_at(s, i) == Some('{') {
                match braced_run(s, i + 1, 0) {
                    Some((v, end)) => if end == i + 2 {
                        EscapeOutcome::Fail("Invalid hexadecimal escape sequence"@)
                    } else {
                        unicode_outcome(v, end)
                    },
                    None => EscapeOutcome::Fail("Invalid hexadecimal escape sequence"@),
                }
            } else if all_hex(s, i, 4) {
                unicode_outcome(hex_value(s, i, 4), i + 4)
            } else {
                EscapeOutcome::Fail("Invalid hexadecimal escape sequence"@)
            };
            match outcome {
                EscapeOutcome::Char(c, end) => r == Ok::<char, super::code_iter::SyntaxError>(c) && final(chars).pos() == end,
                EscapeOutcome::Fail(m) => r matches Err(e) && e.message@ == m && reported(e, *old(chars), old(chars).pos()),
                EscapeOutcome::Skip(_) => false,
            }
        }),
{
    let start = chars.current_position();
    let ghost s = chars.text();
    let ghost i = chars.pos();
    let next = chars.peek();
    if next == Some('{') {
        chars.next();
        // The value read so far, held at 0x110000 once it is out of range.
        let mut value: u32 = 0;
        let mut any_digit = false;
        let ghost mut exact: int = 0;
        loop
            invariant
                chars.text() == s,
                chars.path() == old(chars).path(),
                i + 1 <= chars.pos() <= s.len(),
                any_digit <==> chars.pos() > i + 1,
                exact >= 0,
                value == (if exact > 0x10FFFF { 0x110000 } else { exact }),
                braced_run(s, i + 1, 0) == braced_run(s, chars.pos(), exact),
            decreases s.len() - chars.pos(),
        {
            let c = chars.peek();
            match c {
                Some(c) => {
                    match digit_of(c, 16) {
                        Some(d) => {
                            chars.next();
                            proof {
                                exact = exact * 16 + d;
                            }
                            any_digit = true;
                            if value <= 0x10FFFF {
                                let t = value * 16 + d;
                                value = if t > 0x10FFFF { 0x110000 } else { t };
                            }
                        },
                        None => {
                            if c == '}' {
                                if !any_digit {
                                    return Err(chars.current_span_error(start, "Invalid hexadecimal escape sequence"));
                                }
                                chars.next();
                                return unicode_char(chars, start, value, Ghost(chars.pos()));
                            } else {
                                return Err(chars.current_span_error(start, "Invalid hexadecimal escape sequence"));
                            }
                        },
                    }
                },
                None => {
                    return Err(chars.current_span_error(start, "Invalid hexadecimal escape sequence"));
                },
            }
        }
    } else {
        match parse_hex_digits(chars, 4) {
            Some(v) => {
                proof {
                    reveal_with_fuel(pow16, 5);
                    assert(pow16(4) == 65536);
                }
                unicode_char(chars, start, v, Ghost(i + 4))
            },
            None => Err(chars.current_span_error(start, "Invalid hexadecimal escape sequence")),
        }
    }
}

/// Decodes one escape sequence, the backslash already consumed: `Some(c)` for
/// an escape that stands for `c`, `None` for a line continuation, and an
/// error for a malformed or out-of-range escape or the end of the text.
pub fn try_parse_escape(chars: &mut CodeIter) -> (r: EscapeResult<Option<char>>)
    ensures
        final(chars).text() == old(chars).text(),
        final(chars).path() == old(chars).path(),
        match escape(old(chars).text(), old(chars).pos()) {
            EscapeOutcome::Char(c, end) => r == Ok::<Option<char>, super::code_iter::SyntaxError>(Some(c))
                && final(chars).pos() == end,
            EscapeOutcome::Skip(end) => r == Ok::<Option<char>, super::code_iter::SyntaxError>(None)
                && final(chars).pos() == end,
            EscapeOutcome::Fail(m) => r matches Err(e) && e.message@ == m && reported(e, *old(chars), old(chars).pos()),
        },
{
    let start = chars.current_position();
    let c = match chars.next() {
        Some(c) => c,
        None => {
            return Err(chars.current_span_error(start, "Unexpected EOF while parsing escape sequence"));
        },
    };
    if c == 'b' {
        Ok(Some('\u{8}'))
    } else if c == 'f' {
        Ok(Some('\u{c}'))
    } else if c == 'n' {
        Ok(Some('\n'))
    } else if c == 'r' {
        Ok(Some('\r'))
    } else if c == 't' {
        Ok(Some('\t'))
    } else if c == 'v' {
        Ok(Some('\u{b}'))
    } else if is_line_terminator(c) {
        Ok(None)
    } else if '0' <= c && c <= '7' {
        match parse_octal_escape_sequence(chars, (c as u32) - ('0' as u32)) {
            Ok(c) => Ok(Some(c)),
            Err(e) => Err(e),
        }
    } else if c == 'x' {
        match parse_hex_escape_sequence(chars) {
            Ok(c) => Ok(Some(c)),
            Err(e) => Err(e),
        }
    } else if c == 'u' {
        match parse_unicode_escape_sequence(chars) {
            Ok(c) => Ok(Some(c)),
            Err(e) => Err(e),
        }
    } else {
        Ok(Some(c))
    }
}

} // verus!
