//! Properties of the tokenizer as a whole.
use vstd::prelude::*;

use super::comment::{comment_at, hashbang_at};
use super::ident::{ident_rest, word_at};
use super::num::number_at;
use super::operator::OperatorType;
use super::punctuation::PunctuationType;
use super::regex::regex_literal_at;
use super::string::string_literal_at;
use super::template::template_segment_at;
use super::utils::{
    is_first_index, is_prefix, lemma_first_index, longest_prefix_end, prefix_count,
    prefix_match, HasPrefixLookup, Lexed,
};
use super::{step, step_literals, step_symbols, tokenization, tokens_from, Step, TokenView};

verus! {

proof fn lemma_punctuation_lexemes()
    ensures
        PunctuationType::lexemes() == seq![
        seq![';'],
        seq![':'],
        seq!['('],
        seq![')'],
        seq!['['],
        seq![']'],
        seq!['{'],
        seq!['}'],
        seq!['.'],
        seq![',']
        ],
{
    reveal_strlit(";");
    reveal_strlit(":");
    reveal_strlit("(");
    reveal_strlit(")");
    reveal_strlit("[");
    reveal_strlit("]");
    reveal_strlit("{");
    reveal_strlit("}");
    reveal_strlit(".");
    reveal_strlit(",");
    assert(PunctuationType::lexemes() =~~= seq![
        seq![';'],
        seq![':'],
        seq!['('],
        seq![')'],
        seq!['['],
        seq![']'],
        seq!['{'],
        seq!['}'],
        seq!['.'],
        seq![',']
    ]);
}

/// A lexeme of a set makes its prefixes count.
proof fn lemma_prefix_counted(lexemes: Seq<Seq<char>>, p: Seq<char>, j: int)
    requires
        0 <= j < lexemes.len(),
        is_prefix(p, lexemes[j]),
    ensures
        prefix_count(lexemes, p) > 0,
    decreases lexemes.len(),
{
    if j < lexemes.len() - 1 {
        lemma_prefix_counted(lexemes.drop_last(), p, j);
    }
}

/// On a text of one ASCII character that starts no comment, template,
/// word, regular expression, string or number, the tokenizer's first step is
/// the punctuation-or-operator step.
proof fn lemma_lone_symbol(s: Seq<char>)
    requires
        s.len() == 1,
        (s[0] as u32) < 128,
        !('a' <= s[0] <= 'z'),
        !('A' <= s[0] <= 'Z'),
        !('0' <= s[0] <= '9'),
        !('\t' <= s[0] <= '\r'),
        s[0] != ' ' && s[0] != '_' && s[0] != '$' && s[0] != '\\' && s[0] != '`',
        s[0] != '\'' && s[0] != '"' && s[0] != '#',
    ensures
        step(s, 0, seq![], 0) == step_symbols(s, 0, seq![], 0),
{
    reveal(step);
    assert(hashbang_at(s, 0) is None);
    assert(comment_at(s, 0) is None);
    assert(template_segment_at(s, 0, '`') is NoMatch);
    assert(ident_rest(s, 0, true, seq![]) == Lexed::<Seq<char>>::Token(seq![], 0));
    assert(word_at(s, 0) is NoMatch);
    assert(regex_literal_at(s, 0) is NoMatch);
    assert(string_literal_at(s, 0) is NoMatch);
    assert(number_at(s, 0) is NoMatch);
    assert(step_literals(s, 0, seq![], 0) == step_symbols(s, 0, seq![], 0));
}

/// The tokens after a first step that emits `ts` and consumes the whole
/// one-character text.
proof fn lemma_one_step(s: Seq<char>, ts: Seq<TokenView>)
    requires
        s.len() == 1,
        step(s, 0, seq![], 0) == Step::Emit(ts, 1, 0),
    ensures
        tokenization(s) == Ok::<Seq<TokenView>, (Seq<char>, int)>(ts),
{
    reveal(step);
    assert(step(s, 1, ts, 0) == Step::Done);
    assert(seq![] + ts =~= ts);
    assert(tokens_from(s, 1, ts, 0) == Ok::<Seq<TokenView>, (Seq<char>, int)>(ts));
}

/// Tokenizing the single character of a punctuator yields exactly one token:
/// that punctuator.
pub proof fn lemma_lone_punctuator(k: PunctuationType)
    ensures
        tokenization(k.text_of()) == Ok::<Seq<TokenView>, (Seq<char>, int)>(seq![TokenView::Punctuation(k)]),
{
    lemma_punctuation_lexemes();
    let s = k.text_of();
    assert(s.len() == 1);
    let j = match k {
        PunctuationType::Semicolon => 0int,
        PunctuationType::Colon => 1int,
        PunctuationType::OpenParen => 2int,
        PunctuationType::CloseParen => 3int,
        PunctuationType::OpenBracket => 4int,
        PunctuationType::CloseBracket => 5int,
        PunctuationType::OpenBrace => 6int,
        PunctuationType::CloseBrace => 7int,
        PunctuationType::Dot => 8int,
        PunctuationType::Comma => 9int,
    };
    assert(PunctuationType::lexemes()[j] == s);
    match k {
        PunctuationType::Semicolon => {
            assert(is_first_index(PunctuationType::lexemes(), s, 0));
            lemma_first_index(PunctuationType::lexemes(), s, 0);
        },
        PunctuationType::Colon => {
            assert(is_first_index(PunctuationType::lexemes(), s, 1));
            lemma_first_index(PunctuationType::lexemes(), s, 1);
        },
        PunctuationType::OpenParen => {
            assert(is_first_index(PunctuationType::lexemes(), s, 2));
            lemma_first_index(PunctuationType::lexemes(), s, 2);
        },
        PunctuationType::CloseParen => {
            assert(is_first_index(PunctuationType::lexemes(), s, 3));
            lemma_first_index(PunctuationType::lexemes(), s, 3);
        },
        PunctuationType::OpenBracket => {
            assert(is_first_index(PunctuationType::lexemes(), s, 4));
            lemma_first_index(PunctuationType::lexemes(), s, 4);
        },
        PunctuationType::CloseBracket => {
            assert(is_first_index(PunctuationType::lexemes(), s, 5));
            lemma_first_index(PunctuationType::lexemes(), s, 5);
        },
        PunctuationType::OpenBrace => {
            assert(is_first_index(PunctuationType::lexemes(), s, 6));
            lemma_first_index(PunctuationType::lexemes(), s, 6);
        },
        PunctuationType::CloseBrace => {
            assert(is_first_index(PunctuationType::lexemes(), s, 7));
            lemma_first_index(PunctuationType::lexemes(), s, 7);
        },
        PunctuationType::Dot => {
            assert(is_first_index(PunctuationType::lexemes(), s, 8));
            lemma_first_index(PunctuationType::lexemes(), s, 8);
        },
        PunctuationType::Comma => {
            assert(is_first_index(PunctuationType::lexemes(), s, 9));
            lemma_first_index(PunctuationType::lexemes(), s, 9);
        },
    }
    lemma_lone_symbol(s);
    assert(seq![s[0]] =~= s);
    assert(s.subrange(0, 1) =~= s);
    lemma_prefix_counted(PunctuationType::lexemes(), seq![s[0]], j);
    assert(longest_prefix_end(PunctuationType::lexemes(), s, 0, 1) == 1);
    assert(s.subrange(0, 1) =~= s);
    assert(PunctuationType::lexemes().contains(s));
    assert(prefix_match(PunctuationType::lexemes(), s, 0) == Some(1int));
    assert(PunctuationType::lookup(s) == Some(k));
    lemma_one_step(s, seq![TokenView::Punctuation(k)]);
}

/// No punctuator starts with a character that none of them is.
proof fn lemma_not_punctuation(c: char)
    requires
        c != ';' && c != ':' && c != '(' && c != ')' && c != '[' && c != ']' && c != '{' && c != '}' && c != '.' && c != ',',
    ensures
        prefix_count(PunctuationType::lexemes(), seq![c]) == 0,
{
    lemma_punctuation_lexemes();
    let p = PunctuationType::lexemes();
    assert(p[0].subrange(0, 1) =~= p[0]);
    assert(p[0][0] != c);
    assert(!is_prefix(seq![c], p[0]));
    assert(p[1].subrange(0, 1) =~= p[1]);
    assert(p[1][0] != c);
    assert(!is_prefix(seq![c], p[1]));
    assert(p[2].subrange(0, 1) =~= p[2]);
    assert(p[2][0] != c);
    assert(!is_prefix(seq![c], p[2]));
    assert(p[3].subrange(0, 1) =~= p[3]);
    assert(p[3][0] != c);
    assert(!is_prefix(seq![c], p[3]));
    assert(p[4].subrange(0, 1) =~= p[4]);
    assert(p[4][0] != c);
    assert(!is_prefix(seq![c], p[4]));
    assert(p[5].subrange(0, 1) =~= p[5]);
    assert(p[5][0] != c);
    assert(!is_prefix(seq![c], p[5]));
    assert(p[6].subrange(0, 1) =~= p[6]);
    assert(p[6][0] != c);
    assert(!is_prefix(seq![c], p[6]));
    assert(p[7].subrange(0, 1) =~= p[7]);
    assert(p[7][0] != c);
    assert(!is_prefix(seq![c], p[7]));
    assert(p[8].subrange(0, 1) =~= p[8]);
    assert(p[8][0] != c);
    assert(!is_prefix(seq![c], p[8]));
    assert(p[9].subrange(0, 1) =~= p[9]);
    assert(p[9][0] != c);
    assert(!is_prefix(seq![c], p[9]));
    lemma_prefix_uncounted(p, seq![c]);
}

/// A prefix of none of the lexemes counts for nothing.
proof fn lemma_prefix_uncounted(lexemes: Seq<Seq<char>>, p: Seq<char>)
    requires
        forall|j: int| 0 <= j < lexemes.len() ==> !is_prefix(p, #[trigger] lexemes[j]),
    ensures
        prefix_count(lexemes, p) == 0,
    decreases lexemes.len(),
{
    if lexemes.len() > 0 {
        let rest = lexemes.drop_last();
        assert forall|j: int| 0 <= j < rest.len() implies !is_prefix(p, #[trigger] rest[j]) by {
            assert(rest[j] == lexemes[j]);
        }
        lemma_prefix_uncounted(rest, p);
        assert(!is_prefix(p, lexemes[lexemes.len() - 1]));
    }
}

/// The operators' lexemes, spelled out.
proof fn lemma_operator_lexemes()
    ensures
        OperatorType::lexemes() == seq![
        seq!['+'],
        seq!['-'],
        seq!['*'],
        seq!['/'],
        seq!['*', '*'],
        seq!['%'],
        seq!['+', '+'],
        seq!['-', '-'],
        seq!['='],
        seq!['*', '='],
        seq!['/', '='],
        seq!['+', '='],
        seq!['-', '='],
        seq!['<', '<', '='],
        seq!['>', '>', '='],
        seq!['>', '>', '>', '='],
        seq!['&', '='],
        seq!['|', '='],
        seq!['^', '='],
        seq!['&', '&', '='],
        seq!['|', '|', '='],
        seq!['?', '?', '='],
        seq!['=', '='],
        seq!['!', '='],
        seq!['=', '=', '='],
        seq!['!', '=', '='],
        seq!['!'],
        seq!['&', '&'],
        seq!['|', '|'],
        seq!['?', '?'],
        seq!['~'],
        seq!['&'],
        seq!['|'],
        seq!['^'],
        seq!['<', '<'],
        seq!['>', '>'],
        seq!['>', '>', '>'],
        seq!['>'],
        seq!['>', '='],
        seq!['<'],
        seq!['<', '='],
        seq!['?'],
        seq!['.', '.', '.'],
        seq!['a', 'w', 'a', 'i', 't'],
        seq!['v', 'o', 'i', 'd'],
        seq!['t', 'y', 'p', 'e', 'o', 'f'],
        seq!['i', 'n', 's', 't', 'a', 'n', 'c', 'e', 'o', 'f'],
        seq!['i', 'n'],
        seq!['y', 'i', 'e', 'l', 'd']
        ],
{
    reveal_strlit("+");
    reveal_strlit("-");
    reveal_strlit("*");
    reveal_strlit("/");
    reveal_strlit("**");
    reveal_strlit("%");
    reveal_strlit("++");
    reveal_strlit("--");
    reveal_strlit("=");
    reveal_strlit("*=");
    reveal_strlit("/=");
    reveal_strlit("+=");
    reveal_strlit("-=");
    reveal_strlit("<<=");
    reveal_strlit(">>=");
    reveal_strlit(">>>=");
    reveal_strlit("&=");
    reveal_strlit("|=");
    reveal_strlit("^=");
    reveal_strlit("&&=");
    reveal_strlit("||=");
    reveal_strlit("??=");
    reveal_strlit("==");
    reveal_strlit("!=");
    reveal_strlit("===");
    reveal_strlit("!==");
    reveal_strlit("!");
    reveal_strlit("&&");
    reveal_strlit("||");
    reveal_strlit("??");
    reveal_strlit("~");
    reveal_strlit("&");
    reveal_strlit("|");
    reveal_strlit("^");
    reveal_strlit("<<");
    reveal_strlit(">>");
    reveal_strlit(">>>");
    reveal_strlit(">");
    reveal_strlit(">=");
    reveal_strlit("<");
    reveal_strlit("<=");
    reveal_strlit("?");
    reveal_strlit("...");
    reveal_strlit("await");
    reveal_strlit("void");
    reveal_strlit("typeof");
    reveal_strlit("instanceof");
    reveal_strlit("in");
    reveal_strlit("yield");
    assert(OperatorType::lexemes() =~~= seq![
        seq!['+'],
        seq!['-'],
        seq!['*'],
        seq!['/'],
        seq!['*', '*'],
        seq!['%'],
        seq!['+', '+'],
        seq!['-', '-'],
        seq!['='],
        seq!['*', '='],
        seq!['/', '='],
        seq!['+', '='],
        seq!['-', '='],
        seq!['<', '<', '='],
        seq!['>', '>', '='],
        seq!['>', '>', '>', '='],
        seq!['&', '='],
        seq!['|', '='],
        seq!['^', '='],
        seq!['&', '&', '='],
        seq!['|', '|', '='],
        seq!['?', '?', '='],
        seq!['=', '='],
        seq!['!', '='],
        seq!['=', '=', '='],
        seq!['!', '=', '='],
        seq!['!'],
        seq!['&', '&'],
        seq!['|', '|'],
        seq!['?', '?'],
        seq!['~'],
        seq!['&'],
        seq!['|'],
        seq!['^'],
        seq!['<', '<'],
        seq!['>', '>'],
        seq!['>', '>', '>'],
        seq!['>'],
        seq!['>', '='],
        seq!['<'],
        seq!['<', '='],
        seq!['?'],
        seq!['.', '.', '.'],
        seq!['a', 'w', 'a', 'i', 't'],
        seq!['v', 'o', 'i', 'd'],
        seq!['t', 'y', 'p', 'e', 'o', 'f'],
        seq!['i', 'n', 's', 't', 'a', 'n', 'c', 'e', 'o', 'f'],
        seq!['i', 'n'],
        seq!['y', 'i', 'e', 'l', 'd']
    ]);
}

proof fn lemma_first_plus()
    ensures
        is_first_index(OperatorType::lexemes(), OperatorType::Plus.text_of(), 0),
        OperatorType::all()[0] == OperatorType::Plus,
        OperatorType::Plus.text_of() == seq!['+'],
{
    lemma_operator_lexemes();
    let lex = OperatorType::lexemes();
    let s = lex[0];
    assert(lex[0] == OperatorType::all()[0].text_of());

}

proof fn lemma_first_minus()
    ensures
        is_first_index(OperatorType::lexemes(), OperatorType::Minus.text_of(), 1),
        OperatorType::all()[1] == OperatorType::Minus,
        OperatorType::Minus.text_of() == seq!['-'],
{
    lemma_operator_lexemes();
    let lex = OperatorType::lexemes();
    let s = lex[1];
    assert(lex[1] == OperatorType::all()[1].text_of());
    assert(lex[0][0] != s[0]);
}

proof fn lemma_first_multiplication()
    ensures
        is_first_index(OperatorType::lexemes(), OperatorType::Multiplication.text_of(), 2),
        OperatorType::all()[2] == OperatorType::Multiplication,
        OperatorType::Multiplication.text_of() == seq!['*'],
{
    lemma_operator_lexemes();
    let lex = OperatorType::lexemes();
    let s = lex[2];
    assert(lex[2] == OperatorType::all()[2].text_of());
    assert(lex[0][0] != s[0]);
    assert(lex[1][0] != s[0]);
}

proof fn lemma_first_division()
    ensures
        is_first_index(OperatorType::lexemes(), OperatorType::Division.text_of(), 3),
        OperatorType::all()[3] == OperatorType::Division,
        OperatorType::Division.text_of() == seq!['/'],
{
    lemma_operator_lexemes();
    let lex = OperatorType::lexemes();
    let s = lex[3];
    assert(lex[3] == OperatorType::all()[3].text_of());
    assert(lex[0][0] != s[0]);
    assert(lex[1][0] != s[0]);
    assert(lex[2][0] != s[0]);
}

proof fn lemma_first_modulo()
    ensures
        is_first_index(OperatorType::lexemes(), OperatorType::Modulo.text_of(), 5),
        OperatorType::all()[5] == OperatorType::Modulo,
        OperatorType::Modulo.text_of() == seq!['%'],
{
    lemma_operator_lexemes();
    let lex = OperatorType::lexemes();
    let s = lex[5];
    assert(lex[5] == OperatorType::all()[5].text_of());
    assert(lex[0][0] != s[0]);
    assert(lex[1][0] != s[0]);
    assert(lex[2][0] != s[0]);
    assert(lex[3][0] != s[0]);
    assert(lex[4].len() != s.len());
}

proof fn lemma_first_assignment()
    ensures
        is_first_index(OperatorType::lexemes(), OperatorType::Assignment.text_of(), 8),
        OperatorType::all()[8] == OperatorType::Assignment,
        OperatorType::Assignment.text_of() == seq!['='],
{
    lemma_operator_lexemes();
    let lex = OperatorType::lexemes();
    let s = lex[8];
    assert(lex[8] == OperatorType::all()[8].text_of());
    assert(lex[0][0] != s[0]);
    assert(lex[1][0] != s[0]);
    assert(lex[2][0] != s[0]);
    assert(lex[3][0] != s[0]);
    assert(lex[4].len() != s.len());
    assert(lex[5][0] != s[0]);
    assert(lex[6].len() != s.len());
    assert(lex[7].len() != s.len());
}

proof fn lemma_first_logical_not()
    ensures
        is_first_index(OperatorType::lexemes(), OperatorType::LogicalNot.text_of(), 26),
        OperatorType::all()[26] == OperatorType::LogicalNot,
        OperatorType::LogicalNot.text_of() == seq!['!'],
{
    lemma_operator_lexemes();
    let lex = OperatorType::lexemes();
    let s = lex[26];
    assert(lex[26] == OperatorType::all()[26].text_of());
    assert(lex[0][0] != s[0]);
    assert(lex[1][0] != s[0]);
    assert(lex[2][0] != s[0]);
    assert(lex[3][0] != s[0]);
    assert(lex[4].len() != s.len());
    assert(lex[5][0] != s[0]);
    assert(lex[6].len() != s.len());
    assert(lex[7].len() != s.len());
    assert(lex[8][0] != s[0]);
    assert(lex[9].len() != s.len());
    assert(lex[10].len() != s.len());
    assert(lex[11].len() != s.len());
    assert(lex[12].len() != s.len());
    assert(lex[13].len() != s.len());
    assert(lex[14].len() != s.len());
    assert(lex[15].len() != s.len());
    assert(lex[16].len() != s.len());
    assert(lex[17].len() != s.len());
    assert(lex[18].len() != s.len());
    assert(lex[19].len() != s.len());
    assert(lex[20].len() != s.len());
    assert(lex[21].len() != s.len());
    assert(lex[22].len() != s.len());
    assert(lex[23].len() != s.len());
    assert(lex[24].len() != s.len());
    assert(lex[25].len() != s.len());
}

proof fn lemma_first_bitwise_not()
    ensures
        is_first_index(OperatorType::lexemes(), OperatorType::BitwiseNot.text_of(), 30),
        OperatorType::all()[30] == OperatorType::BitwiseNot,
        OperatorType::BitwiseNot.text_of() == seq!['~'],
{
    lemma_operator_lexemes();
    let lex = OperatorType::lexemes();
    let s = lex[30];
    assert(lex[30] == OperatorType::all()[30].text_of());
    assert(lex[0][0] != s[0]);
    assert(lex[1][0] != s[0]);
    assert(lex[2][0] != s[0]);
    assert(lex[3][0] != s[0]);
    assert(lex[4].len() != s.len());
    assert(lex[5][0] != s[0]);
    assert(lex[6].len() != s.len());
    assert(lex[7].len() != s.len());
    assert(lex[8][0] != s[0]);
    assert(lex[9].len() != s.len());
    assert(lex[10].len() != s.len());
    assert(lex[11].len() != s.len());
    assert(lex[12].len() != s.len());
    assert(lex[13].len() != s.len());
    assert(lex[14].len() != s.len());
    assert(lex[15].len() != s.len());
    assert(lex[16].len() != s.len());
    assert(lex[17].len() != s.len());
    assert(lex[18].len() != s.len());
    assert(lex[19].len() != s.len());
    assert(lex[20].len() != s.len());
    assert(lex[21].len() != s.len());
    assert(lex[22].len() != s.len());
    assert(lex[23].len() != s.len());
    assert(lex[24].len() != s.len());
    assert(lex[25].len() != s.len());
    assert(lex[26][0] != s[0]);
    assert(lex[27].len() != s.len());
    assert(lex[28].len() != s.len());
    assert(lex[29].len() != s.len());
}

proof fn lemma_first_bitwise_and()
    ensures
        is_first_index(OperatorType::lexemes(), OperatorType::BitwiseAnd.text_of(), 31),
        OperatorType::all()[31] == OperatorType::BitwiseAnd,
        OperatorType::BitwiseAnd.text_of() == seq!['&'],
{
    lemma_operator_lexemes();
    let lex = OperatorType::lexemes();
    let s = lex[31];
    assert(lex[31] == OperatorType::all()[31].text_of());
    assert(lex[0][0] != s[0]);
    assert(lex[1][0] != s[0]);
    assert(lex[2][0] != s[0]);
    assert(lex[3][0] != s[0]);
    assert(lex[4].len() != s.len());
    assert(lex[5][0] != s[0]);
    assert(lex[6].len() != s.len());
    assert(lex[7].len() != s.len());
    assert(lex[8][0] != s[0]);
    assert(lex[9].len() != s.len());
    assert(lex[10].len() != s.len());
    assert(lex[11].len() != s.len());
    assert(lex[12].len() != s.len());
    assert(lex[13].len() != s.len());
    assert(lex[14].len() != s.len());
    assert(lex[15].len() != s.len());
    assert(lex[16].len() != s.len());
    assert(lex[17].len() != s.len());
    assert(lex[18].len() != s.len());
    assert(lex[19].len() != s.len());
    assert(lex[20].len() != s.len());
    assert(lex[21].len() != s.len());
    assert(lex[22].len() != s.len());
    assert(lex[23].len() != s.len());
    assert(lex[24].len() != s.len());
    assert(lex[25].len() != s.len());
    assert(lex[26][0] != s[0]);
    assert(lex[27].len() != s.len());
    assert(lex[28].len() != s.len());
    assert(lex[29].len() != s.len());
    assert(lex[30][0] != s[0]);
}

proof fn lemma_first_bitwise_or()
    ensures
        is_first_index(OperatorType::lexemes(), OperatorType::BitwiseOr.text_of(), 32),
        OperatorType::all()[32] == OperatorType::BitwiseOr,
        OperatorType::BitwiseOr.text_of() == seq!['|'],
{
    lemma_operator_lexemes();
    let lex = OperatorType::lexemes();
    let s = lex[32];
    assert(lex[32] == OperatorType::all()[32].text_of());
    assert(lex[0][0] != s[0]);
    assert(lex[1][0] != s[0]);
    assert(lex[2][0] != s[0]);
    assert(lex[3][0] != s[0]);
    assert(lex[4].len() != s.len());
    assert(lex[5][0] != s[0]);
    assert(lex[6].len() != s.len());
    assert(lex[7].len() != s.len());
    assert(lex[8][0] != s[0]);
    assert(lex[9].len() != s.len());
    assert(lex[10].len() != s.len());
    assert(lex[11].len() != s.len());
    assert(lex[12].len() != s.len());
    assert(lex[13].len() != s.len());
    assert(lex[14].len() != s.len());
    assert(lex[15].len() != s.len());
    assert(lex[16].len() != s.len());
    assert(lex[17].len() != s.len());
    assert(lex[18].len() != s.len());
    assert(lex[19].len() != s.len());
    assert(lex[20].len() != s.len());
    assert(lex[21].len() != s.len());
    assert(lex[22].len() != s.len());
    assert(lex[23].len() != s.len());
    assert(lex[24].len() != s.len());
    assert(lex[25].len() != s.len());
    assert(lex[26][0] != s[0]);
    assert(lex[27].len() != s.len());
    assert(lex[28].len() != s.len());
    assert(lex[29].len() != s.len());
    assert(lex[30][0] != s[0]);
    assert(lex[31][0] != s[0]);
}

proof fn lemma_first_bitwise_x_or()
    ensures
        is_first_index(OperatorType::lexemes(), OperatorType::BitwiseXOr.text_of(), 33),
        OperatorType::all()[33] == OperatorType::BitwiseXOr,
        OperatorType::BitwiseXOr.text_of() == seq!['^'],
{
    lemma_operator_lexemes();
    let lex = OperatorType::lexemes();
    let s = lex[33];
    assert(lex[33] == OperatorType::all()[33].text_of());
    assert(lex[0][0] != s[0]);
    assert(lex[1][0] != s[0]);
    assert(lex[2][0] != s[0]);
    assert(lex[3][0] != s[0]);
    assert(lex[4].len() != s.len());
    assert(lex[5][0] != s[0]);
    assert(lex[6].len() != s.len());
    assert(lex[7].len() != s.len());
    assert(lex[8][0] != s[0]);
    assert(lex[9].len() != s.len());
    assert(lex[10].len() != s.len());
    assert(lex[11].len() != s.len());
    assert(lex[12].len() != s.len());
    assert(lex[13].len() != s.len());
    assert(lex[14].len() != s.len());
    assert(lex[15].len() != s.len());
    assert(lex[16].len() != s.len());
    assert(lex[17].len() != s.len());
    assert(lex[18].len() != s.len());
    assert(lex[19].len() != s.len());
    assert(lex[20].len() != s.len());
    assert(lex[21].len() != s.len());
    assert(lex[22].len() != s.len());
    assert(lex[23].len() != s.len());
    assert(lex[24].len() != s.len());
    assert(lex[25].len() != s.len());
    assert(lex[26][0] != s[0]);
    assert(lex[27].len() != s.len());
    assert(lex[28].len() != s.len());
    assert(lex[29].len() != s.len());
    assert(lex[30][0] != s[0]);
    assert(lex[31][0] != s[0]);
    assert(lex[32][0] != s[0]);
}

proof fn lemma_first_greater_than()
    ensures
        is_first_index(OperatorType::lexemes(), OperatorType::GreaterThan.text_of(), 37),
        OperatorType::all()[37] == OperatorType::GreaterThan,
        OperatorType::GreaterThan.text_of() == seq!['>'],
{
    lemma_operator_lexemes();
    let lex = OperatorType::lexemes();
    let s = lex[37];
    assert(lex[37] == OperatorType::all()[37].text_of());
    assert(lex[0][0] != s[0]);
    assert(lex[1][0] != s[0]);
    assert(lex[2][0] != s[0]);
    assert(lex[3][0] != s[0]);
    assert(lex[4].len() != s.len());
    assert(lex[5][0] != s[0]);
    assert(lex[6].len() != s.len());
    assert(lex[7].len() != s.len());
    assert(lex[8][0] != s[0]);
    assert(lex[9].len() != s.len());
    assert(lex[10].len() != s.len());
    assert(lex[11].len() != s.len());
    assert(lex[12].len() != s.len());
    assert(lex[13].len() != s.len());
    assert(lex[14].len() != s.len());
    assert(lex[15].len() != s.len());
    assert(lex[16].len() != s.len());
    assert(lex[17].len() != s.len());
    assert(lex[18].len() != s.len());
    assert(lex[19].len() != s.len());
    assert(lex[20].len() != s.len());
    assert(lex[21].len() != s.len());
    assert(lex[22].len() != s.len());
    assert(lex[23].len() != s.len());
    assert(lex[24].len() != s.len());
    assert(lex[25].len() != s.len());
    assert(lex[26][0] != s[0]);
    assert(lex[27].len() != s.len());
    assert(lex[28].len() != s.len());
    assert(lex[29].len() != s.len());
    assert(lex[30][0] != s[0]);
    assert(lex[31][0] != s[0]);
    assert(lex[32][0] != s[0]);
    assert(lex[33][0] != s[0]);
    assert(lex[34].len() != s.len());
    assert(lex[35].len() != s.len());
    assert(lex[36].len() != s.len());
}

proof fn lemma_first_less_than()
    ensures
        is_first_index(OperatorType::lexemes(), OperatorType::LessThan.text_of(), 39),
        OperatorType::all()[39] == OperatorType::LessThan,
        OperatorType::LessThan.text_of() == seq!['<'],
{
    lemma_operator_lexemes();
    let lex = OperatorType::lexemes();
    let s = lex[39];
    assert(lex[39] == OperatorType::all()[39].text_of());
    assert(lex[0][0] != s[0]);
    assert(lex[1][0] != s[0]);
    assert(lex[2][0] != s[0]);
    assert(lex[3][0] != s[0]);
    assert(lex[4].len() != s.len());
    assert(lex[5][0] != s[0]);
    assert(lex[6].len() != s.len());
    assert(lex[7].len() != s.len());
    assert(lex[8][0] != s[0]);
    assert(lex[9].len() != s.len());
    assert(lex[10].len() != s.len());
    assert(lex[11].len() != s.len());
    assert(lex[12].len() != s.len());
    assert(lex[13].len() != s.len());
    assert(lex[14].len() != s.len());
    assert(lex[15].len() != s.len());
    assert(lex[16].len() != s.len());
    assert(lex[17].len() != s.len());
    assert(lex[18].len() != s.len());
    assert(lex[19].len() != s.len());
    assert(lex[20].len() != s.len());
    assert(lex[21].len() != s.len());
    assert(lex[22].len() != s.len());
    assert(lex[23].len() != s.len());
    assert(lex[24].len() != s.len());
    assert(lex[25].len() != s.len());
    assert(lex[26][0] != s[0]);
    assert(lex[27].len() != s.len());
    assert(lex[28].len() != s.len());
    assert(lex[29].len() != s.len());
    assert(lex[30][0] != s[0]);
    assert(lex[31][0] != s[0]);
    assert(lex[32][0] != s[0]);
    assert(lex[33][0] != s[0]);
    assert(lex[34].len() != s.len());
    assert(lex[35].len() != s.len());
    assert(lex[36].len() != s.len());
    assert(lex[37][0] != s[0]);
    assert(lex[38].len() != s.len());
}

proof fn lemma_first_ternary()
    ensures
        is_first_index(OperatorType::lexemes(), OperatorType::Ternary.text_of(), 41),
        OperatorType::all()[41] == OperatorType::Ternary,
        OperatorType::Ternary.text_of() == seq!['?'],
{
    lemma_operator_lexemes();
    let lex = OperatorType::lexemes();
    let s = lex[41];
    assert(lex[41] == OperatorType::all()[41].text_of());
    assert(lex[0][0] != s[0]);
    assert(lex[1][0] != s[0]);
    assert(lex[2][0] != s[0]);
    assert(lex[3][0] != s[0]);
    assert(lex[4].len() != s.len());
    assert(lex[5][0] != s[0]);
    assert(lex[6].len() != s.len());
    assert(lex[7].len() != s.len());
    assert(lex[8][0] != s[0]);
    assert(lex[9].len() != s.len());
    assert(lex[10].len() != s.len());
    assert(lex[11].len() != s.len());
    assert(lex[12].len() != s.len());
    assert(lex[13].len() != s.len());
    assert(lex[14].len() != s.len());
    assert(lex[15].len() != s.len());
    assert(lex[16].len() != s.len());
    assert(lex[17].len() != s.len());
    assert(lex[18].len() != s.len());
    assert(lex[19].len() != s.len());
    assert(lex[20].len() != s.len());
    assert(lex[21].len() != s.len());
    assert(lex[22].len() != s.len());
    assert(lex[23].len() != s.len());
    assert(lex[24].len() != s.len());
    assert(lex[25].len() != s.len());
    assert(lex[26][0] != s[0]);
    assert(lex[27].len() != s.len());
    assert(lex[28].len() != s.len());
    assert(lex[29].len() != s.len());
    assert(lex[30][0] != s[0]);
    assert(lex[31][0] != s[0]);
    assert(lex[32][0] != s[0]);
    assert(lex[33][0] != s[0]);
    assert(lex[34].len() != s.len());
    assert(lex[35].len() != s.len());
    assert(lex[36].len() != s.len());
    assert(lex[37][0] != s[0]);
    assert(lex[38].len() != s.len());
    assert(lex[39][0] != s[0]);
    assert(lex[40].len() != s.len());
}

/// The characters that are operators by themselves.
pub open spec fn operator_char(c: char) -> bool {
    c == '+' || c == '-' || c == '*' || c == '/' || c == '%' || c == '=' || c == '!' || c == '~'
        || c == '&' || c == '|' || c == '^' || c == '>' || c == '<' || c == '?'
}

/// The index of a one-character operator in declaration order, with the
/// facts that make it the first with its lexeme.
proof fn lemma_first_operator(k: OperatorType) -> (j: int)
    requires
        k.text_of().len() == 1,
    ensures
        is_first_index(OperatorType::lexemes(), k.text_of(), j),
        OperatorType::all()[j] == k,
        operator_char(k.text_of()[0]),
{
    match k {
        OperatorType::Plus => {
            lemma_first_plus();
            0int
        },
        OperatorType::Minus => {
            lemma_first_minus();
            1int
        },
        OperatorType::Multiplication => {
            lemma_first_multiplication();
            2int
        },
        OperatorType::Division => {
            lemma_first_division();
            3int
        },
        OperatorType::Modulo => {
            lemma_first_modulo();
            5int
        },
        OperatorType::Assignment => {
            lemma_first_assignment();
            8int
        },
        OperatorType::LogicalNot => {
            lemma_first_logical_not();
            26int
        },
        OperatorType::BitwiseNot => {
            lemma_first_bitwise_not();
            30int
        },
        OperatorType::BitwiseAnd => {
            lemma_first_bitwise_and();
            31int
        },
        OperatorType::BitwiseOr => {
            lemma_first_bitwise_or();
            32int
        },
        OperatorType::BitwiseXOr => {
            lemma_first_bitwise_x_or();
            33int
        },
        OperatorType::GreaterThan => {
            lemma_first_greater_than();
            37int
        },
        OperatorType::LessThan => {
            lemma_first_less_than();
            39int
        },
        OperatorType::Ternary => {
            lemma_first_ternary();
            41int
        },
        OperatorType::Exponentiation => {
            lemma_operator_lexemes();
            assert(OperatorType::lexemes()[4] == k.text_of());
            0
        },
        OperatorType::Increment => {
            lemma_operator_lexemes();
            assert(OperatorType::lexemes()[6] == k.text_of());
            0
        },
        OperatorType::Decrement => {
            lemma_operator_lexemes();
            assert(OperatorType::lexemes()[7] == k.text_of());
            0
        },
        OperatorType::MultiplicationAssignment => {
            lemma_operator_lexemes();
            assert(OperatorType::lexemes()[9] == k.text_of());
            0
        },
        OperatorType::DivisionAssignment => {
            lemma_operator_lexemes();
            assert(OperatorType::lexemes()[10] == k.text_of());
            0
        },
        OperatorType::AdditionAssignment => {
            lemma_operator_lexemes();
            assert(OperatorType::lexemes()[11] == k.text_of());
            0
        },
        OperatorType::SubtractionAssigment => {
            lemma_operator_lexemes();
            assert(OperatorType::lexemes()[12] == k.text_of());
            0
        },
        OperatorType::ShiftLeftAssignment => {
            lemma_operator_lexemes();
            assert(OperatorType::lexemes()[13] == k.text_of());
            0
        },
        OperatorType::ShiftRightAssignment => {
            lemma_operator_lexemes();
            assert(OperatorType::lexemes()[14] == k.text_of());
            0
        },
        OperatorType::ShiftRightUnsignedAssignment => {
            lemma_operator_lexemes();
            assert(OperatorType::lexemes()[15] == k.text_of());
            0
        },
        OperatorType::BitwiseAndAssignment => {
            lemma_operator_lexemes();
            assert(OperatorType::lexemes()[16] == k.text_of());
            0
        },
        OperatorType::BitwiseOrAssignment => {
            lemma_operator_lexemes();
            assert(OperatorType::lexemes()[17] == k.text_of());
            0
        },
        OperatorType::BitwiseXOrAssignment => {
            lemma_operator_lexemes();
            assert(OperatorType::lexemes()[18] == k.text_of());
            0
        },
        OperatorType::LogicalAndAssignment => {
            lemma_operator_lexemes();
            assert(OperatorType::lexemes()[19] == k.text_of());
            0
        },
        OperatorType::LogicalOrAssignment => {
            lemma_operator_lexemes();
            assert(OperatorType::lexemes()[20] == k.text_of());
            0
        },
        OperatorType::NullishCoalescingAssignment => {
            lemma_operator_lexemes();
            assert(OperatorType::lexemes()[21] == k.text_of());
            0
        },
        OperatorType::LooseEquality => {
            lemma_operator_lexemes();
            assert(OperatorType::lexemes()[22] == k.text_of());
            0
        },
        OperatorType::LooseNotEquality => {
            lemma_operator_lexemes();
            assert(OperatorType::lexemes()[23] == k.text_of());
            0
        },
        OperatorType::StrictEquality => {
            lemma_operator_lexemes();
            assert(OperatorType::lexemes()[24] == k.text_of());
            0
        },
        OperatorType::StrictNotEquality => {
            lemma_operator_lexemes();
            assert(OperatorType::lexemes()[25] == k.text_of());
            0
        },
        OperatorType::LogicalAnd => {
            lemma_operator_lexemes();
            assert(OperatorType::lexemes()[27] == k.text_of());
            0
        },
        OperatorType::LogicalOr => {
            lemma_operator_lexemes();
            assert(OperatorType::lexemes()[28] == k.text_of());
            0
        },
        OperatorType::NullishCoalescing => {
            lemma_operator_lexemes();
            assert(OperatorType::lexemes()[29] == k.text_of());
            0
        },
        OperatorType::BitwiseShiftLeft => {
            lemma_operator_lexemes();
            assert(OperatorType::lexemes()[34] == k.text_of());
            0
        },
        OperatorType::BitwiseShiftRight => {
            lemma_operator_lexemes();
            assert(OperatorType::lexemes()[35] == k.text_of());
            0
        },
        OperatorType::BitwiseShiftRightUnsigned => {
            lemma_operator_lexemes();
            assert(OperatorType::lexemes()[36] == k.text_of());
            0
        },
        OperatorType::GreaterThanOrEqualTo => {
            lemma_operator_lexemes();
            assert(OperatorType::lexemes()[38] == k.text_of());
            0
        },
        OperatorType::LessThanOrEqualTo => {
            lemma_operator_lexemes();
            assert(OperatorType::lexemes()[40] == k.text_of());
            0
        },
        OperatorType::ObjectSpread => {
            lemma_operator_lexemes();
            assert(OperatorType::lexemes()[42] == k.text_of());
            0
        },
        OperatorType::Await => {
            lemma_operator_lexemes();
            assert(OperatorType::lexemes()[43] == k.text_of());
            0
        },
        OperatorType::Void => {
            lemma_operator_lexemes();
            assert(OperatorType::lexemes()[44] == k.text_of());
            0
        },
        OperatorType::TypeOf => {
            lemma_operator_lexemes();
            assert(OperatorType::lexemes()[45] == k.text_of());
            0
        },
        OperatorType::InstanceOf => {
            lemma_operator_lexemes();
            assert(OperatorType::lexemes()[46] == k.text_of());
            0
        },
        OperatorType::In => {
            lemma_operator_lexemes();
            assert(OperatorType::lexemes()[47] == k.text_of());
            0
        },
        OperatorType::Yield => {
            lemma_operator_lexemes();
            assert(OperatorType::lexemes()[48] == k.text_of());
            0
        },
    }
}

/// Tokenizing the single character of a one-character operator yields exactly
/// one token: that operator (longer operators that it begins do not get in
/// the way).
pub proof fn lemma_lone_operator(k: OperatorType)
    requires
        k.text_of().len() == 1,
    ensures
        tokenization(k.text_of()) == Ok::<Seq<TokenView>, (Seq<char>, int)>(seq![TokenView::Operator(k)]),
{
    let j = lemma_first_operator(k);
    let s = k.text_of();
    let c = s[0];
    assert(s == seq![c]) by {
        assert(s =~= seq![c]);
    }
    lemma_lone_operator_char(k, j, c);
}

proof fn lemma_lone_operator_char(k: OperatorType, j: int, c: char)
    requires
        k.text_of() == seq![c],
        is_first_index(OperatorType::lexemes(), k.text_of(), j),
        OperatorType::all()[j] == k,
        operator_char(c),
    ensures
        tokenization(k.text_of()) == Ok::<Seq<TokenView>, (Seq<char>, int)>(seq![TokenView::Operator(k)]),
{
    let s = k.text_of();
    lemma_lone_symbol(s);
    lemma_not_punctuation(c);
    assert(prefix_match(PunctuationType::lexemes(), s, 0) is None);
    assert(s.subrange(0, 1) =~= s);
    lemma_prefix_counted(OperatorType::lexemes(), seq![c], j);
    assert(longest_prefix_end(OperatorType::lexemes(), s, 0, 1) == 1);
    assert(s.subrange(0, 1) =~= s);
    assert(OperatorType::lexemes().contains(s));
    assert(prefix_match(OperatorType::lexemes(), s, 0) == Some(1int));
    lemma_first_index(OperatorType::lexemes(), s, j);
    assert(OperatorType::lookup(s) == Some(k));
    lemma_one_step(s, seq![TokenView::Operator(k)]);
}

} // verus!
