use vstd::prelude::*;
use vstd::string::StrSliceExecFns;

use num_bigint::BigInt;

use super::code_iter::{char_at, position_at, reported, CodeIter, SyntaxError};
use super::utils::{ascii_digit, digit_of, is_ascii_digit, is_digit_of, push_char, Lexed};

verus! {

#[verifier::external_type_specification]
#[verifier::external_body]
pub struct ExBigInt(BigInt);

/// What `BigInt::parse_bytes` makes of a text in a radix.
pub uninterp spec fn parsed_big_int(text: Seq<char>, radix: u32) -> Option<BigInt>;

/// The texts that `BigInt::parse_bytes` accepts: an optional `-`, then an
/// optional `+` (neither followed by another `+`), then at least one digit of
/// the radix, with `_` allowed anywhere but first.
pub open spec fn big_int_syntax(t: Seq<char>, radix: u32) -> bool {
    let u = if t.len() > 0 && t[0] == '-' && !(t.len() > 1 && t[1] == '+') { t.drop_first() } else { t };
    let v = if u.len() > 0 && u[0] == '+' && !(u.len() > 1 && u[1] == '+') { u.drop_first() } else { u };
    &&& v.len() > 0
    &&& v[0] != '_'
    &&& forall|k: int| 0 <= k < v.len() ==> #[trigger] v[k] == '_' || is_digit_of(v[k], radix as nat)
}

/// Relies on `num_bigint::BigInt::parse_bytes`: the result depends on the
/// text and radix alone, and is `Some` exactly for the texts that its
/// `from_str_radix` accepts. Panics unless the radix is in 2..=36.
#[verifier::external_body]
fn parse_big_int(text: &str, radix: u32) -> (r: Option<BigInt>)
    requires
        2 <= radix <= 36,
    ensures
        r == parsed_big_int(text@, radix),
        r is Some <==> big_int_syntax(text@, radix),
{
    BigInt::parse_bytes(text.as_bytes(), radix)
}

/// A number as written: its sign, its radix, its digits without separators
/// (in base 10 with at most one `.`), and for base 10 the exponent after `e`
/// as written, with its sign (empty when there is none). Its value is
/// `±digits × 10^exponent`, read in `radix`; turning that into a
/// double-precision float is left to the consumer.
#[derive(Debug, PartialEq)]
pub struct NumericValue {
    pub negative: bool,
    pub radix: u32,
    pub digits: String,
    pub exponent: String,
}

/// An arbitrary-precision integer literal (`123n`): its value and its text,
/// sign included and radix prefix left out.
#[derive(Debug, PartialEq)]
pub struct BigIntStorage {
    pub value: BigInt,
    pub lexeme: String,
}

#[derive(Debug, PartialEq)]
pub enum NumberLiteralValue {
    Primitive(NumericValue),
    BigInt(BigIntStorage),
}

/// A numeric literal token.
#[derive(Debug, PartialEq)]
pub struct NumberLiteral {
    pub value: NumberLiteralValue,
}

impl NumberLiteral {
    pub fn new(value: NumberLiteralValue) -> (r: Self)
        ensures
            r.value == value,
    {
        NumberLiteral { value }
    }
}

pub enum NumberView {
    Primitive { negative: bool, radix: nat, digits: Seq<char>, exponent: Seq<char> },
    BigInt { value: BigInt, lexeme: Seq<char> },
}

impl View for NumberLiteralValue {
    type V = NumberView;

    open spec fn view(&self) -> NumberView {
        match self {
            NumberLiteralValue::Primitive(p) => NumberView::Primitive {
                negative: p.negative,
                radix: p.radix as nat,
                digits: p.digits@,
                exponent: p.exponent@,
            },
            NumberLiteralValue::BigInt(b) => NumberView::BigInt { value: b.value, lexeme: b.lexeme@ },
        }
    }
}

/// Digits of `radix` from index `j` onto `acc`, skipping `_` separators: the
/// digits and the index after them.
pub open spec fn digit_run(s: Seq<char>, j: int, radix: nat, acc: Seq<char>) -> (Seq<char>, int)
    decreases s.len() - j,
{
    if j < 0 || j >= s.len() {
        (acc, j)
    } else if s[j] == '_' {
        digit_run(s, j + 1, radix, acc)
    } else if is_digit_of(s[j], radix) {
        digit_run(s, j + 1, radix, acc.push(s[j]))
    } else {
        (acc, j)
    }
}

/// Decimal digits and at most one `.` from index `j` onto `acc`, skipping `_`
/// separators: the lexeme and the index after it.
pub open spec fn decimal_run(s: Seq<char>, j: int, dot: bool, acc: Seq<char>) -> (Seq<char>, int)
    decreases s.len() - j,
{
    if j < 0 || j >= s.len() {
        (acc, j)
    } else if s[j] == '_' {
        decimal_run(s, j + 1, dot, acc)
    } else if ascii_digit(s[j]) {
        decimal_run(s, j + 1, dot, acc.push(s[j]))
    } else if s[j] == '.' && !dot {
        decimal_run(s, j + 1, true, acc.push(s[j]))
    } else {
        (acc, j)
    }
}

/// Decimal digits from index `j` onto `acc`, no separators: the digits and
/// the index after them.
pub open spec fn exponent_digits(s: Seq<char>, j: int, acc: Seq<char>) -> (Seq<char>, int)
    decreases s.len() - j,
{
    if 0 <= j < s.len() && ascii_digit(s[j]) {
        exponent_digits(s, j + 1, acc.push(s[j]))
    } else {
        (acc, j)
    }
}

pub open spec fn signed(negative: bool, digits: Seq<char>) -> Seq<char> {
    if negative { seq!['-'] + digits } else { digits }
}

pub open spec fn big_int_error(text: Seq<char>) -> Seq<char> {
    "failed to parse '"@ + text + "' into BigInt"@
}

/// The digits `digits` of `radix`, ended at index `k`: a big integer when an
/// `n` follows, a plain number otherwise.
pub open spec fn maybe_big_int(s: Seq<char>, k: int, negative: bool, digits: Seq<char>, radix: nat) -> Lexed<NumberView> {
    if char_at(s, k) == Some('n') {
        let text = signed(negative, digits);
        if big_int_syntax(text, radix as u32) {
            Lexed::Token(NumberView::BigInt { value: parsed_big_int(text, radix as u32)->0, lexeme: text.push('n') }, k + 1)
        } else {
            Lexed::Fail(big_int_error(text))
        }
    } else {
        Lexed::Token(NumberView::Primitive { negative, radix, digits, exponent: seq![] }, k)
    }
}

/// A base-10 number whose first digit (not `0`) is at index `j`.
pub open spec fn base_10_at(s: Seq<char>, j: int, negative: bool) -> Lexed<NumberView> {
    let (d, k) = decimal_run(s, j, false, seq![]);
    if char_at(s, k) == Some('e') || char_at(s, k) == Some('E') {
        let sign = if char_at(s, k + 1) == Some('+') || char_at(s, k + 1) == Some('-') { seq![s[k + 1]] } else { seq![] };
        let (ed, end) = exponent_digits(s, k + 1 + sign.len(), seq![]);
        if ed.len() == 0 {
            Lexed::Fail("Expected a number after 'e' while parsing numeric literal"@)
        } else if char_at(s, end) == Some('n') {
            Lexed::Fail(big_int_error(signed(negative, d) + seq![s[k]] + sign + ed))
        } else {
            Lexed::Token(NumberView::Primitive { negative, radix: 10, digits: d, exponent: sign + ed }, end)
        }
    } else {
        maybe_big_int(s, k, negative, d, 10)
    }
}

/// The digits of `radix` from index `m`, which must not be empty.
pub open spec fn radix_number_at(s: Seq<char>, m: int, negative: bool, radix: nat, missing: Seq<char>) -> Lexed<NumberView> {
    let (d, k) = digit_run(s, m, radix, seq![]);
    if d.len() == 0 {
        Lexed::Fail(missing)
    } else {
        maybe_big_int(s, k, negative, d, radix)
    }
}

pub open spec fn hex_missing() -> Seq<char> {
    "Expected a valid hexadecimal digit after '0x' while parsing numeric literal"@
}

pub open spec fn binary_missing() -> Seq<char> {
    "Expected a valid binary digit after '0b' while parsing numeric literal"@
}

pub open spec fn octal_missing() -> Seq<char> {
    "Expected a valid octal digit while parsing octal-formatted numeric literal"@
}

/// A number whose leading `0` is at index `j`: hexadecimal, binary, octal,
/// legacy octal, or zero itself.
pub open spec fn leading_zero_at(s: Seq<char>, j: int, negative: bool) -> Lexed<NumberView> {
    let k = j + 1;
    match char_at(s, k) {
        Some(c) => if c == 'x' || c == 'X' {
            radix_number_at(s, k + 1, negative, 16, hex_missing())
        } else if c == 'b' || c == 'B' {
            radix_number_at(s, k + 1, negative, 2, binary_missing())
        } else if c == 'o' || c == 'O' {
            radix_number_at(s, k + 1, negative, 8, octal_missing())
        } else if c == '_' {
            Lexed::Fail("Numeric separator can not be used after leading 0"@)
        } else if ascii_digit(c) {
            radix_number_at(s, k, negative, 8, octal_missing())
        } else {
            Lexed::Token(NumberView::Primitive { negative, radix: 10, digits: seq!['0'], exponent: seq![] }, k)
        },
        None => Lexed::Token(NumberView::Primitive { negative, radix: 10, digits: seq!['0'], exponent: seq![] }, k),
    }
}

/// Whether a sign at index `i` belongs to a number: a `+` or `-` followed by
/// a digit.
pub open spec fn signed_number_at(s: Seq<char>, i: int) -> bool {
    (char_at(s, i) == Some('+') || char_at(s, i) == Some('-')) && 0 <= i + 1 < s.len() && ascii_digit(s[i + 1])
}

/// The numeric literal at index `i`.
pub open spec fn number_at(s: Seq<char>, i: int) -> Lexed<NumberView> {
    let negative = signed_number_at(s, i) && s[i] == '-';
    let j = if signed_number_at(s, i) { i + 1 } else { i };
    match char_at(s, j) {
        Some(c) => if ascii_digit(c) && c != '0' {
            base_10_at(s, j, negative)
        } else if c == '0' {
            leading_zero_at(s, j, negative)
        } else {
            Lexed::NoMatch
        },
        None => Lexed::NoMatch,
    }
}

pub fn is_numeric_separator(c: char) -> (r: bool)
    ensures
        r == (c == '_'),
{
    c == '_'
}

/// Reads digits of `radix`, skipping `_` separators.
fn consume_while(chars: &mut CodeIter, radix: u32) -> (r: String)
    requires
        2 <= radix <= 36,
    ensures
        final(chars).text() == old(chars).text(),
        final(chars).path() == old(chars).path(),
        digit_run(old(chars).text(), old(chars).pos(), radix as nat, seq![]) == (r@, final(chars).pos()),
        final(chars).pos() >= old(chars).pos(),
{
    let ghost s = chars.text();
    let ghost i = chars.pos();
    let mut lexeme = String::new();
    loop
        invariant_except_break
            digit_run(s, i, radix as nat, seq![]) == digit_run(s, chars.pos(), radix as nat, lexeme@),
        invariant
            chars.text() == s,
            chars.path() == old(chars).path(),
            s == old(chars).text(),
            2 <= radix <= 36,
            chars.pos() >= i,
            i == old(chars).pos(),
        ensures
            digit_run(s, i, radix as nat, seq![]) == (lexeme@, chars.pos()),
        decreases s.len() - chars.pos(),
    {
        match chars.peek() {
            None => {
                break;
            },
            Some(c) => {
                if is_numeric_separator(c) {
                    chars.next();
                } else if digit_of(c, radix).is_some() {
                    push_char(&mut lexeme, c);
                    chars.next();
                } else {
                    break;
                }
            },
        }
    }
    lexeme
}

type NumberResult = Result<NumberLiteralValue, SyntaxError>;

/// Ends a number whose digits were read: a big integer when `n` follows.
fn parse_maybe_big_int(chars: &mut CodeIter, start: super::code_iter::Position, digits: String, radix: u32, negative: bool) -> (r: NumberResult)
    requires
        start.index <= old(chars).pos(),
        start == position_at(old(chars).text(), start.index as int),
        2 <= radix <= 36,
    ensures
        final(chars).text() == old(chars).text(),
        final(chars).path() == old(chars).path(),
        match maybe_big_int(old(chars).text(), old(chars).pos(), negative, digits@, radix as nat) {
            Lexed::Token(v, end) => r matches Ok(n) && n@ == v && final(chars).pos() == end
                && end >= old(chars).pos(),
            Lexed::Fail(m) => r matches Err(e) && e.message@ == m && reported(e, *old(chars), start.index as int),
            Lexed::NoMatch => false,
        },
{
    if chars.peek() == Some('n') {
        chars.next();
        let mut text = if negative { String::from_str("-") } else { String::new() };
        proof {
            reveal_strlit("-");
        }
        text.append(digits.as_str());
        assert(text@ == signed(negative, digits@));
        match parse_big_int(text.as_str(), radix) {
            Some(value) => {
                let mut lexeme = text.clone();
                push_char(&mut lexeme, 'n');
                Ok(NumberLiteralValue::BigInt(BigIntStorage { value, lexeme }))
            },
            None => {
                let mut msg = String::from_str("failed to parse '");
                msg.append(text.as_str());
                msg.append("' into BigInt");
                Err(chars.current_span_error(start, msg.as_str()))
            },
        }
    } else {
        Ok(NumberLiteralValue::Primitive(NumericValue { negative, radix, digits, exponent: String::new() }))
    }
}

/// Reads decimal digits and at most one `.`, skipping `_` separators.
fn consume_decimal(chars: &mut CodeIter) -> (r: String)
    ensures
        final(chars).text() == old(chars).text(),
        final(chars).path() == old(chars).path(),
        decimal_run(old(chars).text(), old(chars).pos(), false, seq![]) == (r@, final(chars).pos()),
        final(chars).pos() >= old(chars).pos(),
        r@.len() > 0 ==> final(chars).pos() > old(chars).pos(),
        (char_at(old(chars).text(), old(chars).pos()) matches Some(c) && ascii_digit(c)) ==> r@.len() > 0,
{
    let ghost s = chars.text();
    let ghost i = chars.pos();
    let ghost first_digit = char_at(s, i) matches Some(c) && ascii_digit(c);
    let mut lexeme = String::new();
    let mut dot = false;
    loop
        invariant_except_break
            decimal_run(s, i, false, seq![]) == decimal_run(s, chars.pos(), dot, lexeme@),
        invariant
            chars.text() == s,
            chars.path() == old(chars).path(),
            s == old(chars).text(),
            chars.pos() >= i,
            i == old(chars).pos(),
            lexeme@.len() > 0 ==> chars.pos() > i,
            first_digit ==> (chars.pos() == i || lexeme@.len() > 0),
            first_digit == (char_at(s, i) matches Some(c) && ascii_digit(c)),
        ensures
            decimal_run(s, i, false, seq![]) == (lexeme@, chars.pos()),
            first_digit ==> lexeme@.len() > 0,
        decreases s.len() - chars.pos(),
    {
        match chars.peek() {
            None => {
                break;
            },
            Some(c) => {
                if is_numeric_separator(c) {
                    chars.next();
                } else if is_ascii_digit(c) {
                    push_char(&mut lexeme, c);
                    chars.next();
                } else if c == '.' && !dot {
                    push_char(&mut lexeme, c);
                    dot = true;
                    chars.next();
                } else {
                    break;
                }
            },
        }
    }
    lexeme
}

/// Reads the decimal digits of an exponent.
fn consume_exponent_digits(chars: &mut CodeIter, lexeme: &mut String)
    ensures
        final(chars).text() == old(chars).text(),
        final(chars).path() == old(chars).path(),
        ({
            let (d, end) = exponent_digits(old(chars).text(), old(chars).pos(), seq![]);
            final(lexeme)@ == old(lexeme)@ + d && final(chars).pos() == end
        }),
        final(chars).pos() >= old(chars).pos(),
{
    let ghost s = chars.text();
    let ghost i = chars.pos();
    let ghost init = lexeme@;
    assert(lexeme@.subrange(init.len() as int, lexeme@.len() as int) =~= Seq::<char>::empty());
    assert(lexeme@.subrange(0, init.len() as int) =~= init);
    loop
        invariant_except_break
            ({
                let (d, end) = exponent_digits(s, i, seq![]);
                let (d2, end2) = exponent_digits(s, chars.pos(), lexeme@.subrange(init.len() as int, lexeme@.len() as int));
                d == d2 && end == end2
            }),
        invariant
            chars.text() == s,
            chars.path() == old(chars).path(),
            s == old(chars).text(),
            init == old(lexeme)@,
            init.len() <= lexeme@.len(),
            lexeme@.subrange(0, init.len() as int) == init,
            chars.pos() >= i,
            i == old(chars).pos(),
        ensures
            ({
                let (d, end) = exponent_digits(s, i, seq![]);
                d == lexeme@.subrange(init.len() as int, lexeme@.len() as int) && end == chars.pos()
            }),
        decreases s.len() - chars.pos(),
    {
        match chars.peek() {
            Some(c) => {
                if is_ascii_digit(c) {
                    let ghost before = lexeme@;
                    push_char(lexeme, c);
                    assert(lexeme@.subrange(init.len() as int, lexeme@.len() as int)
                        =~= before.subrange(init.len() as int, before.len() as int).push(c));
                    assert(lexeme@.subrange(0, init.len() as int) =~= before.subrange(0, init.len() as int));
                    chars.next();
                } else {
                    break;
                }
            },
            None => {
                break;
            },
        }
    }
    assert(lexeme@ =~= init + lexeme@.subrange(init.len() as int, lexeme@.len() as int));
}

/// A base-10 number, its first digit (not `0`) next.
fn parse_base_10(chars: &mut CodeIter, start: super::code_iter::Position, negative: bool) -> (r: NumberResult)
    requires
        start.index <= old(chars).pos(),
        start == position_at(old(chars).text(), start.index as int),
        char_at(old(chars).text(), old(chars).pos()) matches Some(c) && ascii_digit(c),
    ensures
        final(chars).text() == old(chars).text(),
        final(chars).path() == old(chars).path(),
        match base_10_at(old(chars).text(), old(chars).pos(), negative) {
            Lexed::Token(v, end) => r matches Ok(n) && n@ == v && final(chars).pos() == end
                && end > old(chars).pos(),
            Lexed::Fail(m) => r matches Err(e) && e.message@ == m && reported(e, *old(chars), start.index as int),
            Lexed::NoMatch => false,
        },
{
    let ghost s = chars.text();
    let digits = consume_decimal(chars);
    let ghost k = chars.pos();
    let marker = chars.peek();
    if marker == Some('e') || marker == Some('E') {
        chars.next();
        let mut exponent = String::new();
        let sign = chars.peek();
        if sign == Some('+') || sign == Some('-') {
            match sign {
                Some(c) => push_char(&mut exponent, c),
                None => {},
            }
            chars.next();
        }
        let ghost sign_part = exponent@;
        let sign_len = exponent.as_str().unicode_len();
        consume_exponent_digits(chars, &mut exponent);
        if exponent.as_str().unicode_len() == sign_len {
            return Err(chars.current_span_error(start, "Expected a number after 'e' while parsing numeric literal"));
        }
        if chars.peek() == Some('n') {
            let mut msg = String::from_str("failed to parse '");
            if negative {
                msg.append("-");
            }
            msg.append(digits.as_str());
            match marker {
                Some(c) => push_char(&mut msg, c),
                None => {},
            }
            msg.append(exponent.as_str());
            msg.append("' into BigInt");
            proof {
                reveal_strlit("-");
                assert(msg@ =~= big_int_error(signed(negative, digits@) + seq![s[k]] + exponent@));
            }
            return Err(chars.current_span_error(start, msg.as_str()));
        }
        proof {
            assert(sign_part =~= (if char_at(s, k + 1) == Some('+') || char_at(s, k + 1) == Some('-') { seq![s[k + 1]] } else { Seq::<char>::empty() }));
        }
        Ok(NumberLiteralValue::Primitive(NumericValue { negative, radix: 10, digits, exponent }))
    } else {
        parse_maybe_big_int(chars, start, digits, 10, negative)
    }
}

/// Digits of `radix` that may not be empty, then an optional `n`.
fn parse_radix_number(chars: &mut CodeIter, start: super::code_iter::Position, negative: bool, radix: u32, missing: &str) -> (r: NumberResult)
    requires
        start.index <= old(chars).pos(),
        start == position_at(old(chars).text(), start.index as int),
        2 <= radix <= 36,
    ensures
        final(chars).text() == old(chars).text(),
        final(chars).path() == old(chars).path(),
        match radix_number_at(old(chars).text(), old(chars).pos(), negative, radix as nat, missing@) {
            Lexed::Token(v, end) => r matches Ok(n) && n@ == v && final(chars).pos() == end
                && end >= old(chars).pos(),
            Lexed::Fail(m) => r matches Err(e) && e.message@ == m && reported(e, *old(chars), start.index as int),
            Lexed::NoMatch => false,
        },
{
    let digits = consume_while(chars, radix);
    if digits.as_str().unicode_len() == 0 {
        return Err(chars.current_span_error(start, missing));
    }
    parse_maybe_big_int(chars, start, digits, radix, negative)
}

/// A number that begins with `0`, that `0` next: hexadecimal (`0x`), binary
/// (`0b`), octal (`0o`, or legacy `0` followed by digits) or zero itself.
fn parse_leading_zero_number(chars: &mut CodeIter, start: super::code_iter::Position, negative: bool) -> (r: NumberResult)
    requires
        start.index <= old(chars).pos(),
        start == position_at(old(chars).text(), start.index as int),
        char_at(old(chars).text(), old(chars).pos()) == Some('0'),
    ensures
        final(chars).text() == old(chars).text(),
        final(chars).path() == old(chars).path(),
        match leading_zero_at(old(chars).text(), old(chars).pos(), negative) {
            Lexed::Token(v, end) => r matches Ok(n) && n@ == v && final(chars).pos() == end
                && end > old(chars).pos(),
            Lexed::Fail(m) => r matches Err(e) && e.message@ == m && reported(e, *old(chars), start.index as int),
            Lexed::NoMatch => false,
        },
{
    let _ = chars.peek();
    chars.next();
    match chars.peek() {
        Some(c) => {
            if c == 'x' || c == 'X' {
                chars.next();
                parse_radix_number(chars, start, negative, 16,
                    "Expected a valid hexadecimal digit after '0x' while parsing numeric literal")
            } else if c == 'b' || c == 'B' {
                chars.next();
                parse_radix_number(chars, start, negative, 2,
                    "Expected a valid binary digit after '0b' while parsing numeric literal")
            } else if c == 'o' || c == 'O' {
                chars.next();
                parse_radix_number(chars, start, negative, 8,
                    "Expected a valid octal digit while parsing octal-formatted numeric literal")
            } else if c == '_' {
                Err(chars.current_span_error(start, "Numeric separator can not be used after leading 0"))
            } else if is_ascii_digit(c) {
                parse_radix_number(chars, start, negative, 8,
                    "Expected a valid octal digit while parsing octal-formatted numeric literal")
            } else {
                let digits = String::from_str("0");
                proof {
                    reveal_strlit("0");
                    assert(digits@ =~= seq!['0']);
                }
                Ok(NumberLiteralValue::Primitive(NumericValue { negative, radix: 10, digits, exponent: String::new() }))
            }
        },
        None => {
            let digits = String::from_str("0");
            proof {
                reveal_strlit("0");
                assert(digits@ =~= seq!['0']);
            }
            Ok(NumberLiteralValue::Primitive(NumericValue { negative, radix: 10, digits, exponent: String::new() }))
        },
    }
}

/// Parses a numeric literal at the cursor, with the sign in front of it when
/// a digit follows the sign: `None`, with nothing consumed, when no number
/// starts there; an error for a malformed one.
pub fn try_parse_number(chars: &mut CodeIter) -> (r: Result<Option<NumberLiteralValue>, SyntaxError>)
    ensures
        final(chars).text() == old(chars).text(),
        final(chars).path() == old(chars).path(),
        match number_at(old(chars).text(), old(chars).pos()) {
            Lexed::NoMatch => r matches Ok(None) && *final(chars) == *old(chars),
            Lexed::Token(v, end) => r matches Ok(Some(n)) && n@ == v && final(chars).pos() == end
                && end > old(chars).pos(),
            Lexed::Fail(m) => r matches Err(e) && e.message@ == m && reported(e, *old(chars), old(chars).pos()),
        },
{
    let start = chars.current_position();
    let first = chars.peek();
    let signed = match chars.peek_forward(1) {
        Some(d) => (first == Some('+') || first == Some('-')) && is_ascii_digit(d),
        None => false,
    };
    let negative = signed && first == Some('-');
    let lead = if signed { chars.peek_forward(1) } else { first };
    match lead {
        Some(c) => {
            if is_ascii_digit(c) && c != '0' {
                if signed {
                    chars.next();
                }
                match parse_base_10(chars, start, negative) {
                    Ok(v) => Ok(Some(v)),
                    Err(e) => Err(e),
                }
            } else if c == '0' {
                if signed {
                    chars.next();
                }
                match parse_leading_zero_number(chars, start, negative) {
                    Ok(v) => Ok(Some(v)),
                    Err(e) => Err(e),
                }
            } else {
                Ok(None)
            }
        },
        None => Ok(None),
    }
}

} // verus!
