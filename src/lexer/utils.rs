use vstd::prelude::*;
use vstd::string::StrSliceExecFns;

use super::code_iter::CodeIter;

verus! {

/// What a sub-lexer makes of the text at one index: nothing (it does not
/// apply there), a value and the index after its lexeme, or an error message.
pub enum Lexed<T> {
    NoMatch,
    Token(T, int),
    Fail(Seq<char>),
}

/// The line terminators of ECMAScript: LF, CR, LINE SEPARATOR and PARAGRAPH SEPARATOR.
pub open spec fn line_terminator(c: char) -> bool {
    c == '\n' || c == '\r' || c == '\u{2028}' || c == '\u{2029}'
}

/// Predicate to check if a character is a line terminator, as defined by the
/// ECMAScript standard.
pub fn is_line_terminator(c: char) -> (r: bool)
    ensures
        r == line_terminator(c),
{
    c == '\n' || c == '\r' || c == '\u{2028}' || c == '\u{2029}'
}

pub open spec fn ascii_digit(c: char) -> bool {
    '0' <= c && c <= '9'
}

pub open spec fn ascii_alpha(c: char) -> bool {
    ('a' <= c && c <= 'z') || ('A' <= c && c <= 'Z')
}

/// The value of `c` read as a digit of any radix up to 36; 36 for a character
/// that is no digit at all.
pub open spec fn digit_value(c: char) -> nat {
    if ascii_digit(c) {
        (c as nat - '0' as nat) as nat
    } else if 'a' <= c && c <= 'z' {
        (c as nat - 'a' as nat + 10) as nat
    } else if 'A' <= c && c <= 'Z' {
        (c as nat - 'A' as nat + 10) as nat
    } else {
        36
    }
}

pub open spec fn is_digit_of(c: char, radix: nat) -> bool {
    digit_value(c) < radix
}

pub fn is_ascii_digit(c: char) -> (r: bool)
    ensures
        r == ascii_digit(c),
{
    '0' <= c && c <= '9'
}

/// Whether `c` is a digit of `radix` (2 to 36), and its value if so.
pub fn digit_of(c: char, radix: u32) -> (r: Option<u32>)
    requires
        2 <= radix <= 36,
    ensures
        r is Some <==> is_digit_of(c, radix as nat),
        r matches Some(d) ==> d as nat == digit_value(c),
{
    let d: u32 = if '0' <= c && c <= '9' {
        (c as u32) - ('0' as u32)
    } else if 'a' <= c && c <= 'z' {
        (c as u32) - ('a' as u32) + 10
    } else if 'A' <= c && c <= 'Z' {
        (c as u32) - ('A' as u32) + 10
    } else {
        36
    };
    if d < radix {
        Some(d)
    } else {
        None
    }
}

/// Whether a character has the Unicode Alphabetic property (as std's
/// `char::is_alphabetic` reports it).
pub uninterp spec fn unicode_alphabetic(c: char) -> bool;

/// Whether a character has a Unicode numeric general category (as std's
/// `char::is_numeric` reports it).
pub uninterp spec fn unicode_numeric(c: char) -> bool;

/// Whether a character has the Unicode White_Space property (as std's
/// `char::is_whitespace` reports it).
pub uninterp spec fn unicode_whitespace(c: char) -> bool;

/// Relies on `char::is_alphabetic`: the answer depends on the character alone.
#[verifier::external_body]
fn std_is_alphabetic(c: char) -> (r: bool)
    ensures
        r == unicode_alphabetic(c),
{
    c.is_alphabetic()
}

/// Relies on `char::is_numeric`: the answer depends on the character alone.
#[verifier::external_body]
fn std_is_numeric(c: char) -> (r: bool)
    ensures
        r == unicode_numeric(c),
{
    c.is_numeric()
}

/// Relies on `char::is_whitespace`: the answer depends on the character alone.
#[verifier::external_body]
fn std_is_whitespace(c: char) -> (r: bool)
    ensures
        r == unicode_whitespace(c),
{
    c.is_whitespace()
}

/// Alphabetic characters: the ASCII letters, and beyond ASCII the characters
/// with the Unicode Alphabetic property.
pub open spec fn alphabetic(c: char) -> bool {
    if (c as u32) < 128 {
        ascii_alpha(c)
    } else {
        unicode_alphabetic(c)
    }
}

/// Alphanumeric characters: alphabetic ones, the ASCII digits, and beyond
/// ASCII the characters of a Unicode numeric category.
pub open spec fn alphanumeric(c: char) -> bool {
    if (c as u32) < 128 {
        ascii_alpha(c) || ascii_digit(c)
    } else {
        unicode_alphabetic(c) || unicode_numeric(c)
    }
}

/// White space: space and the ASCII controls TAB to CR, and beyond ASCII the
/// characters with the Unicode White_Space property.
pub open spec fn whitespace(c: char) -> bool {
    if (c as u32) < 128 {
        c == ' ' || ('\t' <= c && c <= '\r')
    } else {
        unicode_whitespace(c)
    }
}

pub fn is_alphabetic(c: char) -> (r: bool)
    ensures
        r == alphabetic(c),
{
    if (c as u32) < 128 {
        ('a' <= c && c <= 'z') || ('A' <= c && c <= 'Z')
    } else {
        std_is_alphabetic(c)
    }
}

pub fn is_alphanumeric(c: char) -> (r: bool)
    ensures
        r == alphanumeric(c),
{
    if (c as u32) < 128 {
        ('a' <= c && c <= 'z') || ('A' <= c && c <= 'Z') || ('0' <= c && c <= '9')
    } else {
        std_is_alphabetic(c) || std_is_numeric(c)
    }
}

pub fn is_whitespace(c: char) -> (r: bool)
    ensures
        r == whitespace(c),
{
    if (c as u32) < 128 {
        c == ' ' || ('\t' <= c && c <= '\r')
    } else {
        std_is_whitespace(c)
    }
}

/// A Unicode scalar value: at most 0x10FFFF and outside the surrogates.
pub open spec fn scalar_value(v: int) -> bool {
    0 <= v <= 0x10FFFF && !(0xD800 <= v <= 0xDFFF)
}

/// The code point of a character.
pub open spec fn code_point(c: char) -> int {
    c as int
}

/// The character whose code point is `v`.
pub open spec fn char_of(v: int) -> char {
    choose|c: char| #[trigger] code_point(c) == v
}

/// Relies on `char::from_u32`: `Some` exactly for the Unicode scalar values,
/// holding the character with that code point.
#[verifier::external_body]
pub(crate) fn char_from_u32(v: u32) -> (r: Option<char>)
    ensures
        r is Some <==> scalar_value(v as int),
        r matches Some(c) ==> code_point(c) == v as int,
{
    char::from_u32(v)
}

/// Relies on `String::push`: appends one character.
#[verifier::external_body]
pub(crate) fn push_char(s: &mut String, c: char)
    ensures
        final(s)@ == old(s)@.push(c),
{
    s.push(c)
}

/// Whether `p` is a prefix of `l`.
pub open spec fn is_prefix(p: Seq<char>, l: Seq<char>) -> bool {
    p.len() <= l.len() && l.subrange(0, p.len() as int) == p
}

/// How many of `lexemes` start with `p`.
pub open spec fn prefix_count(lexemes: Seq<Seq<char>>, p: Seq<char>) -> nat
    decreases lexemes.len(),
{
    if lexemes.len() == 0 {
        0
    } else {
        prefix_count(lexemes.drop_last(), p) + if is_prefix(p, lexemes.last()) { 1nat } else { 0nat }
    }
}

/// Whether `a` and `b` hold the same characters.
pub fn str_eq(a: &str, b: &str) -> (r: bool)
    ensures
        r == (a@ == b@),
{
    let n = a.unicode_len();
    if n != b.unicode_len() {
        return false;
    }
    let mut i: usize = 0;
    while i < n
        invariant
            n == a@.len() == b@.len(),
            i <= n,
            a@.subrange(0, i as int) == b@.subrange(0, i as int),
        decreases n - i,
    {
        if a.get_char(i) != b.get_char(i) {
            assert(a@[i as int] != b@[i as int]);
            return false;
        }
        assert(a@.subrange(0, i + 1) =~= a@.subrange(0, i as int).push(a@[i as int]));
        assert(b@.subrange(0, i + 1) =~= b@.subrange(0, i as int).push(b@[i as int]));
        i = i + 1;
    }
    assert(a@ =~= a@.subrange(0, n as int));
    assert(b@ =~= b@.subrange(0, n as int));
    true
}

/// Whether `s` starts with `p`.
pub fn str_starts_with(s: &str, p: &str) -> (r: bool)
    ensures
        r == is_prefix(p@, s@),
{
    let n = p.unicode_len();
    if n > s.unicode_len() {
        return false;
    }
    let mut i: usize = 0;
    while i < n
        invariant
            n == p@.len() <= s@.len(),
            i <= n,
            s@.subrange(0, i as int) == p@.subrange(0, i as int),
        decreases n - i,
    {
        if s.get_char(i) != p.get_char(i) {
            assert(s@.subrange(0, n as int)[i as int] != p@[i as int]);
            return false;
        }
        assert(s@.subrange(0, i + 1) =~= s@.subrange(0, i as int).push(s@[i as int]));
        assert(p@.subrange(0, i + 1) =~= p@.subrange(0, i as int).push(p@[i as int]));
        i = i + 1;
    }
    assert(p@ =~= p@.subrange(0, n as int));
    true
}

/// A closed set of lexemes (operators, punctuators), each the lexeme of one
/// member of the implementing type, for longest-match lookup.
pub trait HasPrefixLookup: Sized {
    /// The lexemes of the set, one per member.
    spec fn lexemes() -> Seq<Seq<char>>;

    /// The lexeme of this member.
    spec fn spec_lexeme(&self) -> Seq<char>;

    /// How many members have a lexeme that starts with `ident`.
    fn fields_starting_with(ident: &str) -> (r: usize)
        ensures
            r == prefix_count(Self::lexemes(), ident@),
    ;

    /// The member whose lexeme is `w`, if any (the first in declaration order).
    spec fn lookup(w: Seq<char>) -> Option<Self>;

    /// The member whose lexeme is `lexeme`, if any.
    fn from_lexeme(lexeme: &str) -> (r: Option<Self>)
        ensures
            r == Self::lookup(lexeme@),
            r is Some <==> Self::lexemes().contains(lexeme@),
            r matches Some(t) ==> t.spec_lexeme() == lexeme@,
    ;
}

/// The views of a list of lexemes.
pub open spec fn lexeme_views(lexemes: Seq<&str>) -> Seq<Seq<char>> {
    lexemes.map_values(|l: &str| l@)
}

/// Counts the lexemes that start with `ident`.
pub fn count_with_prefix(lexemes: &Vec<&'static str>, ident: &str) -> (r: usize)
    ensures
        r == prefix_count(lexeme_views(lexemes@), ident@),
{
    let ghost views = lexeme_views(lexemes@);
    let mut count: usize = 0;
    let mut j: usize = 0;
    while j < lexemes.len()
        invariant
            views == lexeme_views(lexemes@),
            j <= lexemes.len(),
            count == prefix_count(views.subrange(0, j as int), ident@),
            count <= j,
        decreases lexemes.len() - j,
    {
        assert(views.subrange(0, j + 1).drop_last() =~= views.subrange(0, j as int));
        if str_starts_with(lexemes[j], ident) {
            count = count + 1;
        }
        j = j + 1;
    }
    assert(views.subrange(0, j as int) =~= views);
    count
}

/// Whether `j` is the first index at which `views` holds `w`.
pub open spec fn is_first_index(views: Seq<Seq<char>>, w: Seq<char>, j: int) -> bool {
    0 <= j < views.len() && views[j] == w && forall|k: int| 0 <= k < j ==> views[k] != w
}

/// The first index at which `views` holds `w` (when it holds it at all).
pub open spec fn first_index_of(views: Seq<Seq<char>>, w: Seq<char>) -> int {
    choose|j: int| #[trigger] is_first_index(views, w, j)
}

pub proof fn lemma_first_index(views: Seq<Seq<char>>, w: Seq<char>, j: int)
    requires
        is_first_index(views, w, j),
    ensures
        first_index_of(views, w) == j,
{
    let f = first_index_of(views, w);
    assert(is_first_index(views, w, f));
    if f < j {
        assert(views[f] != w);
    } else if j < f {
        assert(views[j] != w);
    }
}

/// The first index of `lexeme` in `lexemes`, if it is there.
pub fn index_of_lexeme(lexemes: &Vec<&'static str>, lexeme: &str) -> (r: Option<usize>)
    ensures
        r is Some <==> lexeme_views(lexemes@).contains(lexeme@),
        r matches Some(j) ==> j < lexemes@.len() && lexemes@[j as int]@ == lexeme@
            && first_index_of(lexeme_views(lexemes@), lexeme@) == j,
{
    let ghost views = lexeme_views(lexemes@);
    let mut j: usize = 0;
    while j < lexemes.len()
        invariant
            views == lexeme_views(lexemes@),
            j <= lexemes.len(),
            forall|k: int| 0 <= k < j ==> views[k] != lexeme@,
        decreases lexemes.len() - j,
    {
        if str_eq(lexemes[j], lexeme) {
            assert(views[j as int] == lexeme@);
            proof {
                lemma_first_index(views, lexeme@, j as int);
            }
            return Some(j);
        }
        j = j + 1;
    }
    proof {
        if views.contains(lexeme@) {
            let k = choose|k: int| 0 <= k < views.len() && views[k] == lexeme@;
            assert(views[k] != lexeme@);
        }
    }
    None
}

/// The end of the longest run from `i` that extends `s[i..k]` one character
/// at a time while some lexeme still starts with it.
pub open spec fn longest_prefix_end(lexemes: Seq<Seq<char>>, s: Seq<char>, i: int, k: int) -> int
    decreases s.len() - k,
{
    if 0 <= i < k < s.len() && prefix_count(lexemes, s.subrange(i, k + 1)) > 0 {
        longest_prefix_end(lexemes, s, i, k + 1)
    } else {
        k
    }
}

/// Longest-match lookup at index `i`: the end of the matched lexeme, or `None`
/// when no lexeme starts with `s[i]`, or when the longest run of prefixes
/// does not end on a whole lexeme.
pub open spec fn prefix_match(lexemes: Seq<Seq<char>>, s: Seq<char>, i: int) -> Option<int> {
    if 0 <= i < s.len() && prefix_count(lexemes, seq![s[i]]) > 0 {
        let end = longest_prefix_end(lexemes, s, i, i + 1);
        if lexemes.contains(s.subrange(i, end)) {
            Some(end)
        } else {
            None
        }
    } else {
        None
    }
}

/// Longest-match tokenization over the closed lexeme set of `T`: extends a
/// prefix from the cursor while some lexeme still starts with it, then takes
/// the lexeme that the prefix spells. Consumes the lexeme's characters on a
/// match and nothing otherwise.
pub fn try_parse_from_prefix_lookup<T: HasPrefixLookup>(chars: &mut CodeIter) -> (r: Option<T>)
    ensures
        final(chars).text() == old(chars).text(),
        final(chars).path() == old(chars).path(),
        match prefix_match(T::lexemes(), old(chars).text(), old(chars).pos()) {
            Some(end) => r matches Some(t) && t.spec_lexeme() == old(chars).text().subrange(old(chars).pos(), end)
                && r == T::lookup(old(chars).text().subrange(old(chars).pos(), end))
                && final(chars).pos() == end && end > old(chars).pos(),
            None => r is None && *final(chars) == *old(chars),
        },
{
    let ghost s = chars.text();
    let ghost i = chars.pos();
    let first = match chars.peek() {
        Some(c) => c,
        None => {
            return None;
        },
    };
    let mut prefix = String::new();
    push_char(&mut prefix, first);
    assert(prefix@ =~= seq![s[i]]);
    if T::fields_starting_with(prefix.as_str()) == 0 {
        return None;
    }
    let mut k: usize = 1;
    loop
        invariant
            chars.text() == s,
            chars.pos() == i,
            0 <= i < s.len() < usize::MAX,
            1 <= k <= s.len() - i,
            prefix@ == s.subrange(i, i + k),
            longest_prefix_end(T::lexemes(), s, i, i + 1) == longest_prefix_end(T::lexemes(), s, i, i + k),
        ensures
            longest_prefix_end(T::lexemes(), s, i, i + 1) == i + k,
        decreases s.len() - k,
    {
        let next = chars.peek_forward(k);
        match next {
            Some(c) => {
                let mut extended = prefix.clone();
                push_char(&mut extended, c);
                assert(extended@ =~= s.subrange(i, i + k + 1));
                if T::fields_starting_with(extended.as_str()) == 0 {
                    break;
                }
                prefix = extended;
                k = k + 1;
            },
            None => {
                break;
            },
        }
    }
    let found = T::from_lexeme(prefix.as_str());
    if found.is_some() {
        chars.advance(k);
    }
    found
}

} // verus!
