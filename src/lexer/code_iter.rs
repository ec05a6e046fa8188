use vstd::prelude::*;
use vstd::std_specs::iter::IteratorSpec;
use std::str::Chars;

verus! {

broadcast use vstd::string::group_string_axioms;

/// The position of a single character in a source file: 1-based line and
/// column, 0-based index counted in characters.
#[derive(Debug, Clone, Copy, PartialEq, Eq, Structural)]
pub struct Position {
    pub line: usize,
    pub column: usize,
    pub index: usize,
}

/// The position before any character has been read.
pub open spec fn start_position() -> Position {
    Position { line: 1, column: 1, index: 0 }
}

impl Default for Position {
    fn default() -> (r: Self)
        ensures
            r == start_position(),
    {
        Position { line: 1, column: 1, index: 0 }
    }
}

/// The location of a token in a source file.
#[derive(Debug, PartialEq)]
pub struct Span {
    pub start: Position,
    pub end: Position,
    pub file_path: String,
}

impl Span {
    pub fn new(start: Position, end: Position, file_path: &str) -> (r: Self)
        ensures
            r.start == start,
            r.end == end,
            r.file_path@ == file_path@,
    {
        Span { start, end, file_path: String::from_str(file_path) }
    }
}

/// A fatal lexical error: its message, where it occurred, and the whole source
/// text it occurred in, so that a reporter can show it in context.
#[derive(Debug, PartialEq)]
pub struct SyntaxError {
    pub message: String,
    pub span: Span,
    pub source: String,
}

impl SyntaxError {
    /// The error's message.
    pub fn to_string(&self) -> (r: String)
        ensures
            r@ == self.message@,
    {
        self.message.clone()
    }
}

/// The line of index `i` of `s`: one more than the line feeds before it.
pub open spec fn line_at(s: Seq<char>, i: int) -> nat
    decreases i,
{
    if i <= 0 {
        1
    } else if s[i - 1] == '\n' {
        line_at(s, i - 1) + 1
    } else {
        line_at(s, i - 1)
    }
}

/// The column of index `i` of `s`: one more than the characters since the
/// last line feed before it.
pub open spec fn column_at(s: Seq<char>, i: int) -> nat
    decreases i,
{
    if i <= 0 {
        1
    } else if s[i - 1] == '\n' {
        1
    } else {
        column_at(s, i - 1) + 1
    }
}

/// The position of index `i` of `s`.
pub open spec fn position_at(s: Seq<char>, i: int) -> Position {
    Position { line: line_at(s, i) as usize, column: column_at(s, i) as usize, index: i as usize }
}

pub proof fn lemma_position_bounds(s: Seq<char>, i: int)
    requires
        0 <= i,
    ensures
        1 <= line_at(s, i) <= i + 1,
        1 <= column_at(s, i) <= i + 1,
    decreases i,
{
    if i > 0 {
        lemma_position_bounds(s, i - 1);
    }
}

/// Whether `e` reports an error in the text `s` of the file `path`, with a
/// span that starts at or after index `from`, ends after it starts and
/// within the text, and whose ends carry their true lines and columns.
pub open spec fn reported_in(e: SyntaxError, s: Seq<char>, path: Seq<char>, from: int) -> bool {
    &&& e.source@ == s
    &&& e.span.file_path@ == path
    &&& from <= e.span.start.index <= e.span.end.index <= s.len()
    &&& e.span.start == position_at(s, e.span.start.index as int)
    &&& e.span.end == position_at(s, e.span.end.index as int)
}

/// Whether `e` reports an error in the text and file that `it` reads, from
/// index `from` on.
pub open spec fn reported(e: SyntaxError, it: CodeIter, from: int) -> bool {
    reported_in(e, it.text(), it.path(), from)
}

/// The character at index `i` of `s`, if there is one.
pub open spec fn char_at(s: Seq<char>, i: int) -> Option<char> {
    if 0 <= i < s.len() {
        Some(s[i])
    } else {
        None
    }
}

/// A cursor over the characters of one source text, with lookahead and
/// line/column tracking for diagnostics.
#[derive(Debug)]
pub struct CodeIter {
    current_position: Position,
    previous_position: Option<Position>,
    source: String,
    file_path: String,
    chars: Vec<char>,
}

impl CodeIter {
    #[verifier::type_invariant]
    closed spec fn well_formed(&self) -> bool {
        &&& self.chars@.len() < usize::MAX
        &&& self.source@ == self.chars@
        &&& self.current_position.index <= self.chars@.len()
        &&& self.current_position == position_at(self.chars@, self.current_position.index as int)
        &&& self.previous_position matches Some(p) ==> p.index <= self.current_position.index
            && p == position_at(self.chars@, p.index as int)
    }

    /// The characters of the source text.
    pub closed spec fn text(&self) -> Seq<char> {
        self.chars@
    }

    /// The index of the next character to be read.
    pub closed spec fn pos(&self) -> int {
        self.current_position.index as int
    }

    pub closed spec fn current(&self) -> Position {
        self.current_position
    }

    pub closed spec fn previous(&self) -> Position {
        match self.previous_position {
            Some(p) => p,
            None => start_position(),
        }
    }

    pub closed spec fn path(&self) -> Seq<char> {
        self.file_path@
    }

    /// A cursor at the start of `source`, whose length in characters must be
    /// below `usize::MAX` (the positions count up to one past the end).
    pub fn new(source: &str, file_path: String) -> (r: CodeIter)
        requires
            source@.len() < usize::MAX,
        ensures
            r.text() == source@,
            r.pos() == 0,
            r.current() == start_position(),
            r.previous() == start_position(),
            r.path() == file_path@,
    {
        let chars = collect_chars(source);
        CodeIter {
            current_position: Position { line: 1, column: 1, index: 0 },
            previous_position: None,
            source: String::from_str(source),
            file_path,
            chars,
        }
    }

    /// Consumes and returns the next character, moving to the next line after
    /// a line feed and to the next column after anything else.
    pub fn next(&mut self) -> (r: Option<char>)
        ensures
            final(self).text() == old(self).text(),
            final(self).path() == old(self).path(),
            r == char_at(old(self).text(), old(self).pos()),
            r is Some ==> final(self).pos() == old(self).pos() + 1,
            r is Some ==> final(self).previous() == old(self).current(),
            r == Some('\n') ==> final(self).current().line == old(self).current().line + 1
                && final(self).current().column == 1,
            r is Some && r != Some('\n') ==> final(self).current().line == old(self).current().line
                && final(self).current().column == old(self).current().column + 1,
            r is None ==> final(self).current() == old(self).current() && final(self).pos() == old(self).pos()
                && final(self).previous() == old(self).current(),
            final(self).current() == position_at(final(self).text(), final(self).pos()),
            0 <= final(self).pos() <= final(self).text().len() < usize::MAX,
    {
        proof {
            use_type_invariant(&*self);
        }
        let i = self.current_position.index;
        proof {
            lemma_position_bounds(self.chars@, i as int);
        }
        if i < self.chars.len() {
            let c = self.chars[i];
            self.previous_position = Some(self.current_position);
            if c == '\n' {
                self.current_position = Position {
                    line: self.current_position.line + 1,
                    column: 1,
                    index: i + 1,
                };
            } else {
                self.current_position = Position {
                    line: self.current_position.line,
                    column: self.current_position.column + 1,
                    index: i + 1,
                };
            }
            Some(c)
        } else {
            self.previous_position = Some(self.current_position);
            None
        }
    }

    /// Consumes the next `n` characters.
    pub fn advance(&mut self, n: usize)
        requires
            old(self).pos() + n <= old(self).text().len(),
        ensures
            final(self).text() == old(self).text(),
            final(self).path() == old(self).path(),
            final(self).pos() == old(self).pos() + n,
            final(self).current() == position_at(final(self).text(), final(self).pos()),
    {
        let _ = self.peek();
        let mut k: usize = 0;
        while k < n
            invariant
                self.text() == old(self).text(),
                self.path() == old(self).path(),
                k <= n,
                self.pos() == old(self).pos() + k,
                old(self).pos() + n <= old(self).text().len(),
                self.current() == position_at(self.text(), self.pos()),
            decreases n - k,
        {
            self.next();
            k = k + 1;
        }
    }

    /// The next character, without consuming it.
    pub fn peek(&self) -> (r: Option<char>)
        ensures
            r == char_at(self.text(), self.pos()),
            0 <= self.pos() <= self.text().len() < usize::MAX,
            self.current() == position_at(self.text(), self.pos()),
    {
        proof {
            use_type_invariant(self);
        }
        let i = self.current_position.index;
        if i < self.chars.len() {
            Some(self.chars[i])
        } else {
            None
        }
    }

    /// The character `n` places ahead, without consuming anything;
    /// `peek_forward(0)` is `peek()`.
    pub fn peek_forward(&self, n: usize) -> (r: Option<char>)
        ensures
            r == char_at(self.text(), self.pos() + n),
    {
        proof {
            use_type_invariant(self);
        }
        let i = self.current_position.index;
        if n < self.chars.len() - i {
            Some(self.chars[i + n])
        } else {
            None
        }
    }

    /// The position of the next character.
    pub fn current_position(&self) -> (r: Position)
        ensures
            r == self.current(),
            r.index == self.pos(),
            r == position_at(self.text(), self.pos()),
            0 <= self.pos() <= self.text().len() < usize::MAX,
    {
        proof {
            use_type_invariant(self);
        }
        self.current_position
    }

    /// The position of the character read last; the start of the file before
    /// anything was read.
    pub fn previous_position(&self) -> (r: Position)
        ensures
            r == self.previous(),
            r.index <= self.pos(),
            r == position_at(self.text(), r.index as int),
    {
        proof {
            use_type_invariant(self);
        }
        match self.previous_position {
            Some(p) => p,
            None => Position { line: 1, column: 1, index: 0 },
        }
    }

    pub fn file_path(&self) -> (r: &str)
        ensures
            r@ == self.path(),
    {
        self.file_path.as_str()
    }

    /// The source text this cursor reads.
    pub fn source(&self) -> (r: &str)
        ensures
            r@ == self.text(),
    {
        proof {
            use_type_invariant(self);
        }
        self.source.as_str()
    }

    /// Builds the diagnostic for `err_msg` at `location`, carrying the whole
    /// source text.
    pub fn to_span_error(&self, err_msg: &str, location: Span) -> (e: SyntaxError)
        ensures
            e.message@ == err_msg@,
            e.span == location,
            e.source@ == self.text(),
    {
        proof {
            use_type_invariant(self);
        }
        SyntaxError { message: String::from_str(err_msg), span: location, source: self.source.clone() }
    }

    /// The diagnostic for `message`, spanning from `start` to the current
    /// position.
    pub fn current_span_error(&self, start: Position, message: &str) -> (e: SyntaxError)
        requires
            start.index <= self.pos(),
            start == position_at(self.text(), start.index as int),
        ensures
            e.message@ == message@,
            e.span.start == start,
            e.span.end == self.current(),
            e.source@ == self.text(),
            reported(e, *self, start.index as int),
    {
        let span = Span::new(start, self.current_position(), self.file_path());
        self.to_span_error(message, span)
    }
}

/// The characters of `s`, in order.
fn collect_chars(s: &str) -> (r: Vec<char>)
    ensures
        r@ == s@,
{
    let mut v: Vec<char> = Vec::new();
    let mut it: Chars = s.chars();
    loop
        invariant
            v@ + it.remaining() == s@,
            it.obeys_prophetic_iter_laws(),
        ensures
            v@ == s@,
        decreases s@.len() - v@.len(),
    {
        match it.next() {
            Some(c) => {
                v.push(c);
                assert(v@ + it.remaining() =~= s@);
            },
            None => {
                assert(v@ + it.remaining() =~= v@);
                assert(v@ == s@);
                break;
            },
        }
    }
    v
}

/// Conversion of a source text into a cursor over its characters.
pub trait IntoCodeIterator: Sized {
    spec fn code_view(&self) -> Seq<char>;

    fn into_code_iterator(self, file_path: String) -> (r: CodeIter)
        requires
            self.code_view().len() < usize::MAX,
        ensures
            r.text() == self.code_view(),
            r.pos() == 0,
            r.current() == start_position(),
            r.path() == file_path@,
    ;
}

impl IntoCodeIterator for String {
    open spec fn code_view(&self) -> Seq<char> {
        self@
    }

    fn into_code_iterator(self, file_path: String) -> (r: CodeIter) {
        CodeIter::new(self.as_str(), file_path)
    }
}

impl<'a> IntoCodeIterator for &'a str {
    open spec fn code_view(&self) -> Seq<char> {
        self@
    }

    fn into_code_iterator(self, file_path: String) -> (r: CodeIter) {
        CodeIter::new(self, file_path)
    }
}

} // verus!
