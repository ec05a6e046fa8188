use vstd::prelude::*;

use super::code_iter::{char_at, CodeIter};
use super::utils::{is_line_terminator, line_terminator, push_char};

verus! {

/// A comment, with its delimiters stripped.
#[derive(Debug, PartialEq)]
pub struct Comment {
    pub value: CommentType,
}

impl Comment {
    pub fn new(value: CommentType) -> (r: Self)
        ensures
            r.value == value,
    {
        Comment { value }
    }
}

#[derive(Debug, PartialEq)]
pub enum CommentType {
    Block(String),
    Line(String),
    Hashbang(String),
}

/// A comment's kind and text.
pub enum CommentView {
    Block(Seq<char>),
    Line(Seq<char>),
    Hashbang(Seq<char>),
}

impl View for Comment {
    type V = CommentView;

    open spec fn view(&self) -> CommentView {
        match self.value {
            CommentType::Block(t) => CommentView::Block(t@),
            CommentType::Line(t) => CommentView::Line(t@),
            CommentType::Hashbang(t) => CommentView::Hashbang(t@),
        }
    }
}

/// The rest of a line from index `j` onto `acc`: its text and the index after
/// the line terminator that ends it (which is consumed too).
pub open spec fn line_rest(s: Seq<char>, j: int, acc: Seq<char>) -> (Seq<char>, int)
    decreases s.len() - j,
{
    if j < 0 || j >= s.len() {
        (acc, j)
    } else if line_terminator(s[j]) {
        (acc, j + 1)
    } else {
        line_rest(s, j + 1, acc.push(s[j]))
    }
}

/// A block comment's text from index `j` onto `acc`, and the index after the
/// closing `*/` (or the end of the text).
pub open spec fn block_rest(s: Seq<char>, j: int, acc: Seq<char>) -> (Seq<char>, int)
    decreases s.len() - j,
{
    if j < 0 || j >= s.len() {
        (acc, j)
    } else if s[j] == '*' && char_at(s, j + 1) == Some('/') {
        (acc, j + 2)
    } else {
        block_rest(s, j + 1, acc.push(s[j]))
    }
}

/// The line or block comment at index `i`, and the index after it.
pub open spec fn comment_at(s: Seq<char>, i: int) -> Option<(CommentView, int)> {
    if char_at(s, i) == Some('/') && char_at(s, i + 1) == Some('/') {
        let (t, end) = line_rest(s, i + 2, seq![]);
        Some((CommentView::Line(t), end))
    } else if char_at(s, i) == Some('/') && char_at(s, i + 1) == Some('*') {
        let (t, end) = block_rest(s, i + 2, seq![]);
        Some((CommentView::Block(t), end))
    } else {
        None
    }
}

/// The hashbang comment (`#!...`) at index `i`, and the index after it.
pub open spec fn hashbang_at(s: Seq<char>, i: int) -> Option<(CommentView, int)> {
    if char_at(s, i) == Some('#') && char_at(s, i + 1) == Some('!') {
        let (t, end) = line_rest(s, i + 2, seq![]);
        Some((CommentView::Hashbang(t), end))
    } else {
        None
    }
}

/// Reads the rest of the line and the line terminator that ends it.
fn take_line(chars: &mut CodeIter) -> (r: String)
    ensures
        final(chars).text() == old(chars).text(),
        final(chars).path() == old(chars).path(),
        line_rest(old(chars).text(), old(chars).pos(), seq![]) == (r@, final(chars).pos()),
        final(chars).pos() >= old(chars).pos(),
{
    let ghost s = chars.text();
    let ghost i = chars.pos();
    let mut lexeme = String::new();
    loop
        invariant_except_break
            line_rest(s, i, seq![]) == line_rest(s, chars.pos(), lexeme@),
        invariant
            chars.text() == s,
            chars.path() == old(chars).path(),
            s == old(chars).text(),
            chars.pos() >= i,
            i == old(chars).pos(),
        ensures
            line_rest(s, i, seq![]) == (lexeme@, chars.pos()),
        decreases s.len() - chars.pos(),
    {
        match chars.next() {
            Some(c) => {
                if is_line_terminator(c) {
                    break;
                }
                push_char(&mut lexeme, c);
            },
            None => {
                break;
            },
        }
    }
    lexeme
}

/// Parses a line comment, the leading `//` already consumed.
fn parse_line_comment(chars: &mut CodeIter) -> (r: CommentType)
    ensures
        final(chars).text() == old(chars).text(),
        final(chars).path() == old(chars).path(),
        r matches CommentType::Line(t) && line_rest(old(chars).text(), old(chars).pos(), seq![]) == (t@, final(chars).pos()),
        final(chars).pos() >= old(chars).pos(),
{
    CommentType::Line(take_line(chars))
}

/// Parses a block comment, the leading `/*` already consumed.
fn parse_block_comment(chars: &mut CodeIter) -> (r: CommentType)
    ensures
        final(chars).text() == old(chars).text(),
        final(chars).path() == old(chars).path(),
        r matches CommentType::Block(t) && block_rest(old(chars).text(), old(chars).pos(), seq![]) == (t@, final(chars).pos()),
        final(chars).pos() >= old(chars).pos(),
{
    let ghost s = chars.text();
    let ghost i = chars.pos();
    let mut lexeme = String::new();
    loop
        invariant_except_break
            block_rest(s, i, seq![]) == block_rest(s, chars.pos(), lexeme@),
        invariant
            chars.text() == s,
            chars.path() == old(chars).path(),
            s == old(chars).text(),
            chars.pos() >= i,
            i == old(chars).pos(),
        ensures
            block_rest(s, i, seq![]) == (lexeme@, chars.pos()),
        decreases s.len() - chars.pos(),
    {
        match chars.next() {
            Some(c) => {
                if c == '*' && chars.peek() == Some('/') {
                    chars.next();
                    break;
                }
                push_char(&mut lexeme, c);
            },
            None => {
                break;
            },
        }
    }
    CommentType::Block(lexeme)
}

/// Parses a line (`//`) or block (`/* */`) comment at the cursor; `None`, with
/// nothing consumed, when none starts there.
pub fn try_parse_comment(chars: &mut CodeIter) -> (r: Option<Comment>)
    ensures
        final(chars).text() == old(chars).text(),
        final(chars).path() == old(chars).path(),
        match comment_at(old(chars).text(), old(chars).pos()) {
            Some((v, end)) => r matches Some(c) && c@ == v && final(chars).pos() == end
                && end > old(chars).pos(),
            None => r is None && *final(chars) == *old(chars),
        },
{
    let first = chars.peek();
    let second = chars.peek_forward(1);
    if first == Some('/') && second == Some('/') {
        chars.advance(2);
        Some(Comment::new(parse_line_comment(chars)))
    } else if first == Some('/') && second == Some('*') {
        chars.advance(2);
        Some(Comment::new(parse_block_comment(chars)))
    } else {
        None
    }
}

/// Parses a hashbang comment (`#!` to the end of the line) at the cursor;
/// `None`, with nothing consumed, when none starts there.
pub fn try_parse_hashbang_comment(chars: &mut CodeIter) -> (r: Option<Comment>)
    ensures
        final(chars).text() == old(chars).text(),
        final(chars).path() == old(chars).path(),
        match hashbang_at(old(chars).text(), old(chars).pos()) {
            Some((v, end)) => r matches Some(c) && c@ == v && final(chars).pos() == end
                && end > old(chars).pos(),
            None => r is None && *final(chars) == *old(chars),
        },
{
    let first = chars.peek();
    let second = chars.peek_forward(1);
    if first == Some('#') && second == Some('!') {
        chars.advance(2);
        Some(Comment::new(CommentType::Hashbang(take_line(chars))))
    } else {
        None
    }
}

} // verus!
