//! The tokenizer: sub-lexers tried in a fixed order at each position of the
//! source, with the nesting depth of template-literal expressions tracked
//! across them.
use vstd::prelude::*;
use vstd::string::StrSliceExecFns;

pub mod code_iter;
pub mod comment;
pub mod escape_chars;
pub mod ident;
pub mod laws;
pub mod num;
pub mod operator;
pub mod punctuation;
pub mod regex;
pub mod string;
pub mod template;
pub mod utils;

use self::code_iter::{reported_in, CodeIter, SyntaxError};
use self::comment::{comment_at, hashbang_at, try_parse_comment, try_parse_hashbang_comment, Comment, CommentType, CommentView};
use self::ident::{try_parse_identifier, word_at, IdentParseResult, Identifier, Keyword, KeywordType, ValueLiteral, ValueLiteralType, WordView};
use self::num::{number_at, signed, try_parse_number, NumberLiteral, NumberLiteralValue, NumberView};
use self::operator::{try_parse_operator, Operator, OperatorType};
use self::punctuation::{try_parse_punctuation, Punctuation, PunctuationType};
use self::regex::{regex_literal_at, try_parse_regex_literal, RegexLiteral};
use self::string::{string_literal_at, try_parse_string, StringLiteral};
use self::template::{
    template_segment_at, try_parse_template_literal_expr_end, try_parse_template_literal_start,
    TemplateLiteralExprClose, TemplateLiteralExprOpen, TemplateLiteralString,
};
use self::utils::{is_whitespace, prefix_match, push_char, whitespace, HasPrefixLookup, Lexed};

verus! {

/// One token of the output, in source order.
#[derive(Debug, PartialEq)]
pub enum Token {
    Keyword(Keyword),
    Ident(Identifier),
    ValueLiteral(ValueLiteral),
    Operator(Operator),
    Punctuation(Punctuation),
    Comment(Comment),
    NumericLiteral(NumberLiteral),
    StringLiteral(StringLiteral),
    TemplateLiteralString(TemplateLiteralString),
    TemplateLiteralExprOpen(TemplateLiteralExprOpen),
    TemplateLiteralExprClose(TemplateLiteralExprClose),
    RegexLiteral(RegexLiteral),
}

/// A token's kind and content.
pub enum TokenView {
    Keyword(KeywordType),
    Ident(Seq<char>),
    ValueLiteral(ValueLiteralType),
    Operator(OperatorType),
    Punctuation(PunctuationType),
    Comment(CommentView),
    NumericLiteral(NumberView),
    StringLiteral(Seq<char>),
    TemplateLiteralString(Seq<char>, bool),
    TemplateLiteralExprOpen,
    TemplateLiteralExprClose,
    RegexLiteral(Seq<char>, Seq<char>),
}

impl View for Token {
    type V = TokenView;

    open spec fn view(&self) -> TokenView {
        match self {
            Token::Keyword(k) => TokenView::Keyword(k.kind),
            Token::Ident(i) => TokenView::Ident(i.lexeme@),
            Token::ValueLiteral(v) => TokenView::ValueLiteral(v.kind),
            Token::Operator(o) => TokenView::Operator(o.kind),
            Token::Punctuation(p) => TokenView::Punctuation(p.kind),
            Token::Comment(c) => TokenView::Comment(c@),
            Token::NumericLiteral(n) => TokenView::NumericLiteral(n.value@),
            Token::StringLiteral(s) => TokenView::StringLiteral(s.lexeme@),
            Token::TemplateLiteralString(t) => TokenView::TemplateLiteralString(t.lexeme@, t.complete),
            Token::TemplateLiteralExprOpen(_) => TokenView::TemplateLiteralExprOpen,
            Token::TemplateLiteralExprClose(_) => TokenView::TemplateLiteralExprClose,
            Token::RegexLiteral(r) => TokenView::RegexLiteral(r.pattern@, r.flags@),
        }
    }
}

pub open spec fn kind_name(t: TokenView) -> Seq<char> {
    match t {
        TokenView::Keyword(_) => "Keyword"@,
        TokenView::Ident(_) => "Identifier"@,
        TokenView::ValueLiteral(_) => "ValueLiteral"@,
        TokenView::Operator(_) => "Operator"@,
        TokenView::Punctuation(_) => "Punctuation"@,
        TokenView::Comment(_) => "Comment"@,
        TokenView::NumericLiteral(_) => "NumericLiteral"@,
        TokenView::StringLiteral(_) => "StringLiteral"@,
        TokenView::TemplateLiteralString(_, _) => "TemplateLiteralString"@,
        TokenView::TemplateLiteralExprOpen => "TemplateLiteralExprOpen"@,
        TokenView::TemplateLiteralExprClose => "TemplateLiteralExprClose"@,
        TokenView::RegexLiteral(_, _) => "RegexLiteral"@,
    }
}

impl Token {
    /// This token's content as text.
    pub fn text(&self) -> (r: String)
        ensures
            r@ == token_text(self@),
    {
        match self {
            Token::Keyword(k) => String::from_str(k.kind.lexeme()),
            Token::Ident(i) => i.lexeme.clone(),
            Token::ValueLiteral(v) => String::from_str(v.kind.lexeme()),
            Token::Operator(o) => String::from_str(o.kind.lexeme()),
            Token::Punctuation(p) => String::from_str(p.kind.lexeme()),
            Token::Comment(c) => match &c.value {
                CommentType::Block(t) => t.clone(),
                CommentType::Line(t) => t.clone(),
                CommentType::Hashbang(t) => t.clone(),
            },
            Token::NumericLiteral(n) => match &n.value {
                NumberLiteralValue::Primitive(p) => {
                    let mut r = if p.negative { String::from_str("-") } else { String::new() };
                    if p.radix == 16 {
                        r.append("0x");
                    } else if p.radix == 2 {
                        r.append("0b");
                    } else if p.radix == 8 {
                        r.append("0o");
                    }
                    r.append(p.digits.as_str());
                    if p.exponent.as_str().unicode_len() > 0 {
                        push_char(&mut r, 'e');
                        r.append(p.exponent.as_str());
                    }
                    proof {
                        reveal_strlit("-");
                        assert(r@ =~= token_text(self@));
                    }
                    r
                },
                NumberLiteralValue::BigInt(b) => b.lexeme.clone(),
            },
            Token::StringLiteral(s) => s.lexeme.clone(),
            Token::TemplateLiteralString(t) => t.lexeme.clone(),
            Token::TemplateLiteralExprOpen(_) => String::from_str("${"),
            Token::TemplateLiteralExprClose(_) => String::from_str("}"),
            Token::RegexLiteral(re) => {
                let mut r = String::new();
                push_char(&mut r, '/');
                r.append(re.pattern.as_str());
                push_char(&mut r, '/');
                r.append(re.flags.as_str());
                assert(r@ =~= token_text(self@));
                r
            },
        }
    }

    /// The name of this token's kind.
    pub fn kind_name(&self) -> (r: &'static str)
        ensures
            r@ == kind_name(self@),
    {
        match self {
            Token::Keyword(_) => "Keyword",
            Token::Ident(_) => "Identifier",
            Token::ValueLiteral(_) => "ValueLiteral",
            Token::Operator(_) => "Operator",
            Token::Punctuation(_) => "Punctuation",
            Token::Comment(_) => "Comment",
            Token::NumericLiteral(_) => "NumericLiteral",
            Token::StringLiteral(_) => "StringLiteral",
            Token::TemplateLiteralString(_) => "TemplateLiteralString",
            Token::TemplateLiteralExprOpen(_) => "TemplateLiteralExprOpen",
            Token::TemplateLiteralExprClose(_) => "TemplateLiteralExprClose",
            Token::RegexLiteral(_) => "RegexLiteral",
        }
    }
}

pub open spec fn views(tokens: Seq<Token>) -> Seq<TokenView> {
    tokens.map_values(|t: Token| t@)
}

/// What the tokenizer does at one position.
pub enum Step {
    /// The end of the text, with no template literal open.
    Done,
    /// Emit these tokens and go on at this index with this template depth.
    Emit(Seq<TokenView>, int, nat),
    /// Skip to this index.
    Skip(int),
    Fail(Seq<char>),
}

pub open spec fn word_token(w: WordView) -> TokenView {
    match w {
        WordView::Identifier(t) => TokenView::Ident(t),
        WordView::Keyword(k) => TokenView::Keyword(k),
        WordView::ValueLiteral(v) => TokenView::ValueLiteral(v),
        WordView::Operator(o) => TokenView::Operator(o),
    }
}

/// The tokens for a template text segment: the segment, then the `${` that
/// ended it unless the literal is complete.
pub open spec fn segment_tokens(t: Seq<char>, complete: bool) -> Seq<TokenView> {
    if complete {
        seq![TokenView::TemplateLiteralString(t, true)]
    } else {
        seq![TokenView::TemplateLiteralString(t, false), TokenView::TemplateLiteralExprOpen]
    }
}

/// The radix prefix with which a number of `radix` is written.
pub open spec fn radix_prefix(radix: nat) -> Seq<char> {
    if radix == 16 {
        "0x"@
    } else if radix == 2 {
        "0b"@
    } else if radix == 8 {
        "0o"@
    } else {
        seq![]
    }
}

/// A token's content as text.
pub open spec fn token_text(t: TokenView) -> Seq<char> {
    match t {
        TokenView::Keyword(k) => k.text_of(),
        TokenView::Ident(w) => w,
        TokenView::ValueLiteral(v) => v.text_of(),
        TokenView::Operator(o) => o.text_of(),
        TokenView::Punctuation(p) => p.text_of(),
        TokenView::Comment(c) => match c {
            CommentView::Block(b) => b,
            CommentView::Line(l) => l,
            CommentView::Hashbang(h) => h,
        },
        TokenView::NumericLiteral(n) => match n {
            NumberView::Primitive { negative, radix, digits, exponent } => signed(negative, radix_prefix(radix) + digits)
                + if exponent.len() > 0 { seq!['e'] + exponent } else { seq![] },
            NumberView::BigInt { value: _, lexeme } => lexeme,
        },
        TokenView::StringLiteral(v) => v,
        TokenView::TemplateLiteralString(t, _) => t,
        TokenView::TemplateLiteralExprOpen => "${"@,
        TokenView::TemplateLiteralExprClose => "}"@,
        TokenView::RegexLiteral(p, f) => seq!['/'] + p + seq!['/'] + f,
    }
}

/// A token described by its kind and content, as in `Identifier(x)`.
pub open spec fn describe(t: TokenView) -> Seq<char> {
    kind_name(t) + "("@ + token_text(t) + ")"@
}

pub open spec fn unexpected_character(c: char, tokens: Seq<TokenView>) -> Seq<char> {
    "Unexpected character: '"@ + seq![c] + "' (last token parsed: "@
        + (if tokens.len() == 0 { "none"@ } else { describe(tokens.last()) }) + ")"@
}

/// The template-depth after a segment that opens an expression unless it
/// completes the literal.
pub open spec fn depth_after(depth: nat, complete: bool) -> nat {
    if complete { depth } else { depth + 1 }
}

/// The step taken at index `i`, with `tokens` emitted so far and `depth`
/// template expressions open. The sub-lexers are tried in this order: a
/// hashbang comment (first token only), white space, a comment, a template
/// literal, a word, the `}` closing a template expression (inside one only),
/// a regular expression, a string, a number, punctuation, an operator.
#[verifier::opaque]
pub open spec fn step(s: Seq<char>, i: int, tokens: Seq<TokenView>, depth: nat) -> Step {
    if !(0 <= i < s.len()) {
        if depth == 0 {
            Step::Done
        } else {
            Step::Fail("Unexpected EOF while parsing template literal"@)
        }
    } else if tokens.len() == 0 && hashbang_at(s, i) is Some {
        let (c, end) = hashbang_at(s, i)->0;
        Step::Emit(seq![TokenView::Comment(c)], end, depth)
    } else if whitespace(s[i]) {
        Step::Skip(i + 1)
    } else if comment_at(s, i) is Some {
        let (c, end) = comment_at(s, i)->0;
        Step::Emit(seq![TokenView::Comment(c)], end, depth)
    } else if !(template_segment_at(s, i, '`') is NoMatch) {
        match template_segment_at(s, i, '`') {
            Lexed::Token((t, complete), end) => Step::Emit(segment_tokens(t, complete), end, depth_after(depth, complete)),
            Lexed::Fail(m) => Step::Fail(m),
            Lexed::NoMatch => Step::Done,
        }
    } else if !(word_at(s, i) is NoMatch) {
        match word_at(s, i) {
            Lexed::Token(w, end) => Step::Emit(seq![word_token(w)], end, depth),
            Lexed::Fail(m) => Step::Fail(m),
            Lexed::NoMatch => Step::Done,
        }
    } else {
        step_literals(s, i, tokens, depth)
    }
}

/// The later steps: the `}` closing a template expression, a regular
/// expression, a string, a number.
pub open spec fn step_literals(s: Seq<char>, i: int, tokens: Seq<TokenView>, depth: nat) -> Step {
    if depth > 0 && !(template_segment_at(s, i, '}') is NoMatch) {
        match template_segment_at(s, i, '}') {
            Lexed::Token((t, complete), end) => Step::Emit(
                seq![TokenView::TemplateLiteralExprClose] + segment_tokens(t, complete),
                end,
                depth_after((depth - 1) as nat, complete),
            ),
            Lexed::Fail(m) => Step::Fail(m),
            Lexed::NoMatch => Step::Done,
        }
    } else if !(regex_literal_at(s, i) is NoMatch) {
        match regex_literal_at(s, i) {
            Lexed::Token((p, f), end) => Step::Emit(seq![TokenView::RegexLiteral(p, f)], end, depth),
            Lexed::Fail(m) => Step::Fail(m),
            Lexed::NoMatch => Step::Done,
        }
    } else if !(string_literal_at(s, i) is NoMatch) {
        match string_literal_at(s, i) {
            Lexed::Token(v, end) => Step::Emit(seq![TokenView::StringLiteral(v)], end, depth),
            Lexed::Fail(m) => Step::Fail(m),
            Lexed::NoMatch => Step::Done,
        }
    } else if !(number_at(s, i) is NoMatch) {
        match number_at(s, i) {
            Lexed::Token(v, end) => Step::Emit(seq![TokenView::NumericLiteral(v)], end, depth),
            Lexed::Fail(m) => Step::Fail(m),
            Lexed::NoMatch => Step::Done,
        }
    } else {
        step_symbols(s, i, tokens, depth)
    }
}

/// The last steps: punctuation, an operator, or else an error.
pub open spec fn step_symbols(s: Seq<char>, i: int, tokens: Seq<TokenView>, depth: nat) -> Step {
    if prefix_match(PunctuationType::lexemes(), s, i) is Some {
        let end = prefix_match(PunctuationType::lexemes(), s, i)->0;
        match PunctuationType::lookup(s.subrange(i, end)) {
            Some(k) => Step::Emit(seq![TokenView::Punctuation(k)], end, depth),
            None => Step::Done,
        }
    } else if prefix_match(OperatorType::lexemes(), s, i) is Some {
        let end = prefix_match(OperatorType::lexemes(), s, i)->0;
        match OperatorType::lookup(s.subrange(i, end)) {
            Some(k) => Step::Emit(seq![TokenView::Operator(k)], end, depth),
            None => Step::Done,
        }
    } else {
        Step::Fail(unexpected_character(s[i], tokens))
    }
}

/// Whether a step of the tokenizer went as `st` says: `r` is `Ok(true)` when
/// it is done, `Ok(false)` after emitting or skipping, and the error when it
/// fails.
pub open spec fn stepped(
    st: Step,
    s: Seq<char>,
    path: Seq<char>,
    i: int,
    new_pos: int,
    tokens: Seq<TokenView>,
    new_tokens: Seq<TokenView>,
    depth: nat,
    new_depth: nat,
    r: Result<bool, SyntaxError>,
) -> bool {
    match st {
        Step::Done => r matches Ok(b) && b && new_tokens == tokens,
        Step::Emit(ts, end, d) => r matches Ok(b) && !b && new_tokens == tokens + ts && new_pos == end
            && new_depth == d && i < end,
        Step::Skip(end) => r matches Ok(b) && !b && new_tokens == tokens && new_pos == end
            && new_depth == depth && i < end,
        Step::Fail(m) => r matches Err(e) && e.message@ == m && reported_in(e, s, path, i),
    }
}

/// The tokens of `s` from index `i` on, after `tokens`, with `depth` template
/// expressions open; or the message of the first error and the index at
/// which the step that failed began. Every step moves
/// forward within the text (the sub-lexers' contracts say so); the guard on
/// `end` only makes the recursion well-founded.
pub open spec fn tokens_from(s: Seq<char>, i: int, tokens: Seq<TokenView>, depth: nat) -> Result<Seq<TokenView>, (Seq<char>, int)>
    decreases s.len() - i,
{
    match step(s, i, tokens, depth) {
        Step::Done => Ok(tokens),
        Step::Emit(ts, end, d) => if i < end <= s.len() { tokens_from(s, end, tokens + ts, d) } else { Ok(tokens) },
        Step::Skip(end) => if i < end <= s.len() { tokens_from(s, end, tokens, depth) } else { Ok(tokens) },
        Step::Fail(m) => Err((m, i)),
    }
}

/// The tokens of a whole source text, or the message of its first error and
/// the index at which the failing token begins.
pub open spec fn tokenization(s: Seq<char>) -> Result<Seq<TokenView>, (Seq<char>, int)> {
    tokens_from(s, 0, seq![], 0)
}

fn push_token(tokens: &mut Vec<Token>, t: Token)
    ensures
        views(final(tokens)@) == views(old(tokens)@) + seq![t@],
{
    let ghost v = t@;
    tokens.push(t);
    assert(views(tokens@) =~= views(old(tokens)@) + seq![v]);
}

fn push_segment(tokens: &mut Vec<Token>, seg: TemplateLiteralString, open: Option<TemplateLiteralExprOpen>)
    requires
        open is None <==> seg.complete,
    ensures
        views(final(tokens)@) == views(old(tokens)@) + segment_tokens(seg.lexeme@, seg.complete),
{
    let ghost t = seg.lexeme@;
    let ghost complete = seg.complete;
    push_token(tokens, Token::TemplateLiteralString(seg));
    match open {
        Some(o) => push_token(tokens, Token::TemplateLiteralExprOpen(o)),
        None => {},
    }
    assert(views(tokens@) =~= views(old(tokens)@) + segment_tokens(t, complete));
}

/// Splits `src` into tokens, reporting diagnostics against the file name
/// `script.js`. The text's length in characters must be below `usize::MAX`,
/// so that the index one past its end can be held.
pub fn tokenize(src: &str) -> (r: Result<Vec<Token>, SyntaxError>)
    requires
        src@.len() < usize::MAX,
    ensures
        match tokenization(src@) {
            Ok(ts) => r matches Ok(v) && views(v@) == ts,
            Err((m, k)) => r matches Err(e) && e.message@ == m && reported_in(e, src@, "script.js"@, k),
        },
{
    tokenize_file(src, "script.js")
}

/// Punctuation, then an operator, or else the error for an unexpected
/// character.
fn lex_symbols(chars: &mut CodeIter, tokens: &mut Vec<Token>, depth: usize) -> (r: Result<bool, SyntaxError>)
    requires
        0 <= old(chars).pos() < old(chars).text().len(),
    ensures
        final(chars).text() == old(chars).text(),
        final(chars).path() == old(chars).path(),
        stepped(step_symbols(old(chars).text(), old(chars).pos(), views(old(tokens)@), depth as nat),
            old(chars).text(), old(chars).path(), old(chars).pos(), final(chars).pos(),
            views(old(tokens)@), views(final(tokens)@), depth as nat, depth as nat, r),
{
    let start = chars.current_position();
    if let Some(p) = try_parse_punctuation(&mut *chars) {
        push_token(tokens, Token::Punctuation(p));
        return Ok(false);
    }
    if let Some(o) = try_parse_operator(&mut *chars) {
        push_token(tokens, Token::Operator(o));
        return Ok(false);
    }
    let c = match chars.peek() {
        Some(c) => c,
        None => '?',
    };
    let mut msg = String::from_str("Unexpected character: '");
    push_char(&mut msg, c);
    msg.append("' (last token parsed: ");
    if tokens.len() == 0 {
        msg.append("none");
    } else {
        let last = tokens.len() - 1;
        msg.append(tokens[last].kind_name());
        msg.append("(");
        let text = tokens[last].text();
        msg.append(text.as_str());
        msg.append(")");
        assert(views(tokens@).last() == tokens@[last as int]@);
    }
    msg.append(")");
    proof {
        assert(msg@ =~= unexpected_character(old(chars).text()[old(chars).pos()], views(tokens@)));
    }
    Err(chars.current_span_error(start, msg.as_str()))
}

/// The `}` closing a template expression (inside one only), a regular
/// expression, a string or a number; else the later steps.
fn lex_literals(chars: &mut CodeIter, tokens: &mut Vec<Token>, depth: &mut usize) -> (r: Result<bool, SyntaxError>)
    requires
        0 <= old(chars).pos() < old(chars).text().len(),
        *old(depth) <= old(chars).pos(),
    ensures
        final(chars).text() == old(chars).text(),
        final(chars).path() == old(chars).path(),
        r is Ok ==> *final(depth) <= final(chars).pos(),
        stepped(step_literals(old(chars).text(), old(chars).pos(), views(old(tokens)@), *old(depth) as nat),
            old(chars).text(), old(chars).path(), old(chars).pos(), final(chars).pos(),
            views(old(tokens)@), views(final(tokens)@), *old(depth) as nat, *final(depth) as nat, r),
{
    let ghost before = views(tokens@);
    if *depth > 0 {
        match try_parse_template_literal_expr_end(&mut *chars) {
            Err(e) => {
                return Err(e);
            },
            Ok(Some((close, seg, open))) => {
                *depth = *depth - 1;
                if open.is_some() {
                    *depth = *depth + 1;
                }
                let ghost t = seg.lexeme@;
                let ghost complete = seg.complete;
                push_token(tokens, Token::TemplateLiteralExprClose(close));
                push_segment(tokens, seg, open);
                assert(views(tokens@) =~= before + (seq![TokenView::TemplateLiteralExprClose] + segment_tokens(t, complete)));
                return Ok(false);
            },
            Ok(None) => {},
        }
    }
    match try_parse_regex_literal(&mut *chars) {
        Err(e) => {
            return Err(e);
        },
        Ok(Some(re)) => {
            push_token(tokens, Token::RegexLiteral(re));
            return Ok(false);
        },
        Ok(None) => {},
    }
    match try_parse_string(&mut *chars) {
        Err(e) => {
            return Err(e);
        },
        Ok(Some(lit)) => {
            push_token(tokens, Token::StringLiteral(lit));
            return Ok(false);
        },
        Ok(None) => {},
    }
    match try_parse_number(&mut *chars) {
        Err(e) => {
            return Err(e);
        },
        Ok(Some(value)) => {
            push_token(tokens, Token::NumericLiteral(NumberLiteral::new(value)));
            return Ok(false);
        },
        Ok(None) => {},
    }
    lex_symbols(chars, tokens, *depth)
}

/// One step of the tokenizer at the cursor.
fn lex_step(chars: &mut CodeIter, tokens: &mut Vec<Token>, depth: &mut usize) -> (r: Result<bool, SyntaxError>)
    requires
        *old(depth) <= old(chars).pos(),
    ensures
        final(chars).text() == old(chars).text(),
        final(chars).path() == old(chars).path(),
        old(chars).pos() <= old(chars).text().len(),
        r is Ok ==> *final(depth) <= final(chars).pos(),
        stepped(step(old(chars).text(), old(chars).pos(), views(old(tokens)@), *old(depth) as nat),
            old(chars).text(), old(chars).path(), old(chars).pos(), final(chars).pos(),
            views(old(tokens)@), views(final(tokens)@), *old(depth) as nat, *final(depth) as nat, r),
{
    reveal(step);
    let start = chars.current_position();
    let c = match chars.peek() {
        Some(c) => c,
        None => {
            if *depth == 0 {
                return Ok(true);
            }
            return Err(chars.current_span_error(start, "Unexpected EOF while parsing template literal"));
        },
    };
    if tokens.len() == 0 {
        if let Some(comment) = try_parse_hashbang_comment(&mut *chars) {
            push_token(tokens, Token::Comment(comment));
            return Ok(false);
        }
    }
    if is_whitespace(c) {
        chars.next();
        return Ok(false);
    }
    if let Some(comment) = try_parse_comment(&mut *chars) {
        push_token(tokens, Token::Comment(comment));
        return Ok(false);
    }
    match try_parse_template_literal_start(&mut *chars) {
        Err(e) => {
            return Err(e);
        },
        Ok(Some((seg, open))) => {
            if open.is_some() {
                *depth = *depth + 1;
            }
            push_segment(tokens, seg, open);
            return Ok(false);
        },
        Ok(None) => {},
    }
    match try_parse_identifier(&mut *chars) {
        Err(e) => {
            return Err(e);
        },
        Ok(Some(word)) => {
            let t = match word {
                IdentParseResult::Identifier(ident) => Token::Ident(ident),
                IdentParseResult::Keyword(keyword) => Token::Keyword(keyword),
                IdentParseResult::ValueLiteral(value) => Token::ValueLiteral(value),
                IdentParseResult::Operator(operator) => Token::Operator(operator),
            };
            push_token(tokens, t);
            return Ok(false);
        },
        Ok(None) => {},
    }
    lex_literals(chars, tokens, depth)
}

/// Splits `src`, the text of the file `file_path`, into tokens: all of them,
/// in source order, or the diagnostic for the first lexical error. The text's
/// length in characters must be below `usize::MAX`.
pub fn tokenize_file(src: &str, file_path: &str) -> (r: Result<Vec<Token>, SyntaxError>)
    requires
        src@.len() < usize::MAX,
    ensures
        match tokenization(src@) {
            Ok(ts) => r matches Ok(v) && views(v@) == ts,
            Err((m, k)) => r matches Err(e) && e.message@ == m && reported_in(e, src@, file_path@, k),
        },
{
    let mut chars = CodeIter::new(src, String::from_str(file_path));
    let ghost s = src@;
    let mut tokens: Vec<Token> = Vec::new();
    let mut template_depth: usize = 0;
    assert(views(tokens@) =~= Seq::<TokenView>::empty());
    loop
        invariant
            chars.text() == s,
            chars.path() == file_path@,
            s == src@,
            0 <= chars.pos(),
            s.len() < usize::MAX,
            template_depth <= chars.pos(),
            chars.pos() <= s.len() ==> tokenization(s) == tokens_from(s, chars.pos(), views(tokens@), template_depth as nat),
        decreases s.len() - chars.pos(),
    {
        match lex_step(&mut chars, &mut tokens, &mut template_depth) {
            Ok(done) => {
                if done {
                    return Ok(tokens);
                }
            },
            Err(e) => {
                return Err(e);
            },
        }
        // The cursor's position lies within the text, which bounds the loop.
        let _ = chars.current_position();
    }
}

} // verus!
