//! Splitting a source text into tokens, as a spec (`spec_tokenize`) and an
//! executable tokenizer proved to match it.
use vstd::prelude::*;

use crate::span::Span;
use crate::token::{Keyword, Punct, Token, TokenAndSpan};

verus! {

pub open spec fn is_ws(c: char) -> bool {
    c == ' ' || c == '\t' || c == '\n' || c == '\r'
}

pub open spec fn is_line_break(c: char) -> bool {
    c == '\n' || c == '\r'
}

pub open spec fn is_ident_start(c: char) -> bool {
    ('a' <= c && c <= 'z') || ('A' <= c && c <= 'Z') || c == '_' || c == '$'
}

pub open spec fn is_digit(c: char) -> bool {
    '0' <= c && c <= '9'
}

pub open spec fn is_ident_part(c: char) -> bool {
    is_ident_start(c) || is_digit(c)
}

/// The end of the run of identifier characters that starts at `i`.
pub open spec fn ident_end(src: Seq<char>, i: int) -> int
    decreases src.len() - i,
{
    if 0 <= i < src.len() && is_ident_part(src[i]) {
        ident_end(src, i + 1)
    } else {
        i
    }
}

/// The end of the run of digits that starts at `i`.
pub open spec fn digits_end(src: Seq<char>, i: int) -> int
    decreases src.len() - i,
{
    if 0 <= i < src.len() && is_digit(src[i]) {
        digits_end(src, i + 1)
    } else {
        i
    }
}

/// The first position at or after `i` that holds the quote `q`, or the end
/// of the source.
pub open spec fn quote_end(src: Seq<char>, i: int, q: char) -> int
    decreases src.len() - i,
{
    if 0 <= i < src.len() && src[i] != q {
        quote_end(src, i + 1, q)
    } else {
        i
    }
}

pub open spec fn keyword_of(w: Seq<char>) -> Option<Keyword> {
    if w == seq!['i', 'f'] {
        Some(Keyword::If)
    } else if w == seq!['e', 'l', 's', 'e'] {
        Some(Keyword::Else)
    } else if w == seq!['f', 'o', 'r'] {
        Some(Keyword::For)
    } else if w == seq!['s', 'w', 'i', 't', 'c', 'h'] {
        Some(Keyword::Switch)
    } else if w == seq!['t', 'r', 'y'] {
        Some(Keyword::Try)
    } else if w == seq!['c', 'a', 's', 'e'] {
        Some(Keyword::Case)
    } else if w == seq!['d', 'e', 'f', 'a', 'u', 'l', 't'] {
        Some(Keyword::Default)
    } else if w == seq!['c', 'a', 't', 'c', 'h'] {
        Some(Keyword::Catch)
    } else if w == seq!['a', 'w', 'a', 'i', 't'] {
        Some(Keyword::Await)
    } else if w == seq!['c', 'o', 'n', 's', 't'] {
        Some(Keyword::Const)
    } else if w == seq!['l', 'e', 't'] {
        Some(Keyword::Let)
    } else if w == seq!['v', 'a', 'r'] {
        Some(Keyword::Var)
    } else if w == seq!['i', 'n'] {
        Some(Keyword::In)
    } else if w == seq!['f', 'u', 'n', 'c', 't', 'i', 'o', 'n'] {
        Some(Keyword::Function)
    } else if w == seq!['c', 'l', 'a', 's', 's'] {
        Some(Keyword::Class)
    } else {
        None
    }
}

pub open spec fn punct_of(c: char) -> Option<Punct> {
    if c == '@' {
        Some(Punct::At)
    } else if c == '{' {
        Some(Punct::LBrace)
    } else if c == '}' {
        Some(Punct::RBrace)
    } else if c == '(' {
        Some(Punct::LParen)
    } else if c == ')' {
        Some(Punct::RParen)
    } else if c == ';' {
        Some(Punct::Semi)
    } else if c == ':' {
        Some(Punct::Colon)
    } else if c == ',' {
        Some(Punct::Comma)
    } else if c == '.' {
        Some(Punct::Dot)
    } else if c == '<' {
        Some(Punct::Lt)
    } else if c == '>' {
        Some(Punct::Gt)
    } else if c == '/' {
        Some(Punct::Slash)
    } else if c == '=' {
        Some(Punct::Eq)
    } else if c == '!' {
        Some(Punct::Bang)
    } else if c == '+' {
        Some(Punct::Plus)
    } else if c == '-' {
        Some(Punct::Minus)
    } else if c == '*' {
        Some(Punct::Star)
    } else if c == '%' {
        Some(Punct::Percent)
    } else if c == '&' {
        Some(Punct::Amp)
    } else if c == '|' {
        Some(Punct::Pipe)
    } else if c == '?' {
        Some(Punct::Question)
    } else {
        None
    }
}

/// The token that starts at `i` (which holds no whitespace) and its end.
pub open spec fn lex_one(src: Seq<char>, i: int) -> (Token, int) {
    let c = src[i];
    if is_ident_start(c) {
        let e = ident_end(src, i + 1);
        match keyword_of(src.subrange(i, e)) {
            Some(k) => (Token::Keyword(k), e),
            None => (Token::Ident, e),
        }
    } else if is_digit(c) {
        (Token::Num, digits_end(src, i + 1))
    } else if c == '\'' || c == '"' {
        let j = quote_end(src, i + 1, c);
        if j < src.len() {
            (Token::Str, j + 1)
        } else {
            (Token::Other, i + 1)
        }
    } else {
        match punct_of(c) {
            Some(p) => (Token::Punct(p), i + 1),
            None => (Token::Other, i + 1),
        }
    }
}

/// The tokens of the source from position `i` on; `nl` records whether a
/// line break was skipped since the previous token.
pub open spec fn lex_from(src: Seq<char>, i: int, nl: bool) -> Seq<TokenAndSpan>
    decreases src.len() - i,
{
    if i < 0 || i >= src.len() {
        Seq::empty()
    } else if is_ws(src[i]) {
        lex_from(src, i + 1, nl || is_line_break(src[i]))
    } else {
        let (t, e) = lex_one(src, i);
        if i < e <= src.len() {
            seq![TokenAndSpan { token: t, span: Span { lo: i as usize, hi: e as usize }, had_line_break: nl }]
                + lex_from(src, e, false)
        } else {
            Seq::empty()
        }
    }
}

/// The token sequence of a source text.
pub open spec fn spec_tokenize(src: Seq<char>) -> Seq<TokenAndSpan> {
    lex_from(src, 0, false)
}

/// Every token span lies inside the source, is non-empty, and the spans come
/// in order without overlap.
pub open spec fn tokens_wf(src: Seq<char>, toks: Seq<TokenAndSpan>) -> bool {
    &&& forall|k: int|
        0 <= k < toks.len() ==> #[trigger] toks[k].span.lo < toks[k].span.hi <= src.len()
    &&& forall|k: int| 0 < k < toks.len() ==> toks[k - 1].span.hi <= #[trigger] toks[k].span.lo
}

pub proof fn lemma_ident_end(src: Seq<char>, i: int)
    requires
        0 <= i <= src.len(),
    ensures
        i <= ident_end(src, i) <= src.len(),
    decreases src.len() - i,
{
    if i < src.len() && is_ident_part(src[i]) {
        lemma_ident_end(src, i + 1);
    }
}

pub proof fn lemma_digits_end(src: Seq<char>, i: int)
    requires
        0 <= i <= src.len(),
    ensures
        i <= digits_end(src, i) <= src.len(),
    decreases src.len() - i,
{
    if i < src.len() && is_digit(src[i]) {
        lemma_digits_end(src, i + 1);
    }
}

pub proof fn lemma_quote_end(src: Seq<char>, i: int, q: char)
    requires
        0 <= i <= src.len(),
    ensures
        i <= quote_end(src, i, q) <= src.len(),
        quote_end(src, i, q) < src.len() ==> src[quote_end(src, i, q)] == q,
    decreases src.len() - i,
{
    if i < src.len() && src[i] != q {
        lemma_quote_end(src, i + 1, q);
    }
}

pub proof fn lemma_lex_one(src: Seq<char>, i: int)
    requires
        0 <= i < src.len(),
    ensures
        i < lex_one(src, i).1 <= src.len(),
{
    lemma_ident_end(src, i + 1);
    lemma_digits_end(src, i + 1);
    lemma_quote_end(src, i + 1, src[i]);
}

/// The tokens from `i` on lie in `[i, src.len())`, in order.
pub proof fn lemma_lex_from_wf(src: Seq<char>, i: int, nl: bool)
    requires
        0 <= i <= src.len(),
        src.len() <= usize::MAX,
    ensures
        tokens_wf(src, lex_from(src, i, nl)),
        forall|k: int|
            0 <= k < lex_from(src, i, nl).len() ==> i <= #[trigger] lex_from(src, i, nl)[k].span.lo,
        forall|k: int|
            0 <= k < lex_from(src, i, nl).len() && #[trigger] lex_from(src, i, nl)[k].token
                == Token::Str ==> lex_from(src, i, nl)[k].span.lo + 2 <= lex_from(src, i, nl)[k].span.hi,
    decreases src.len() - i,
{
    if i < src.len() {
        if is_ws(src[i]) {
            lemma_lex_from_wf(src, i + 1, nl || is_line_break(src[i]));
        } else {
            lemma_lex_one(src, i);
            let (t, e) = lex_one(src, i);
            lemma_lex_from_wf(src, e, false);
            let head = seq![TokenAndSpan { token: t, span: Span { lo: i as usize, hi: e as usize }, had_line_break: nl }];
            let rest = lex_from(src, e, false);
            assert(lex_from(src, i, nl) == head + rest);
            assert forall|k: int| 0 < k < (head + rest).len() implies (head + rest)[k - 1].span.hi
                <= #[trigger] (head + rest)[k].span.lo by {
                if k > 1 {
                    assert((head + rest)[k - 1] == rest[k - 2]);
                    assert((head + rest)[k] == rest[k - 1]);
                } else {
                    assert((head + rest)[k] == rest[0]);
                }
            }
            assert forall|k: int| 0 <= k < (head + rest).len() implies #[trigger] (head + rest)[k].span.lo
                < (head + rest)[k].span.hi <= src.len() by {
                if k > 0 {
                    assert((head + rest)[k] == rest[k - 1]);
                } else {
                    assert((head + rest)[k] == head[0]);
                }
            }
            assert forall|k: int| 0 <= k < (head + rest).len() && #[trigger] (head + rest)[k].token
                == Token::Str implies (head + rest)[k].span.lo + 2 <= (head + rest)[k].span.hi by {
                if k > 0 {
                    assert((head + rest)[k] == rest[k - 1]);
                } else {
                    assert((head + rest)[k] == head[0]);
                    if t == Token::Str {
                        lemma_quote_end(src, i + 1, src[i]);
                        lemma_ident_end(src, i + 1);
                    }
                }
            }
            assert forall|k: int| 0 <= k < (head + rest).len() implies i <= #[trigger] (head
                + rest)[k].span.lo by {
                if k > 0 {
                    assert((head + rest)[k] == rest[k - 1]);
                } else {
                    assert((head + rest)[k] == head[0]);
                }
            }
        }
    }
}

/// A string token spans at least its two quotes.
pub proof fn lemma_str_token_len(src: Seq<char>, toks: Seq<TokenAndSpan>, k: int)
    requires
        toks == spec_tokenize(src),
        src.len() <= usize::MAX,
        0 <= k < toks.len(),
        toks[k].token == Token::Str,
    ensures
        toks[k].span.lo + 2 <= toks[k].span.hi,
{
    lemma_lex_from_wf(src, 0, false);
}

/// Tokens come in order: an earlier token ends before a later one starts.
pub proof fn lemma_tokens_ordered(src: Seq<char>, toks: Seq<TokenAndSpan>, i: int, j: int)
    requires
        tokens_wf(src, toks),
        0 <= i < j < toks.len(),
    ensures
        toks[i].span.hi <= toks[j].span.lo,
    decreases j - i,
{
    if i + 1 < j {
        lemma_tokens_ordered(src, toks, i, j - 1);
        assert(toks[j - 1].span.lo < toks[j - 1].span.hi);
        assert(toks[j - 1].span.hi <= toks[j].span.lo);
    }
}

fn is_ws_exec(c: char) -> (b: bool)
    ensures
        b == is_ws(c),
{
    c == ' ' || c == '\t' || c == '\n' || c == '\r'
}

fn is_ident_start_exec(c: char) -> (b: bool)
    ensures
        b == is_ident_start(c),
{
    ('a' <= c && c <= 'z') || ('A' <= c && c <= 'Z') || c == '_' || c == '$'
}

fn is_digit_exec(c: char) -> (b: bool)
    ensures
        b == is_digit(c),
{
    '0' <= c && c <= '9'
}

fn ident_end_exec(src: &Vec<char>, i: usize) -> (e: usize)
    requires
        i <= src.len(),
    ensures
        e == ident_end(src@, i as int),
        i <= e <= src.len(),
{
    let mut j = i;
    while j < src.len() && (is_ident_start_exec(src[j]) || is_digit_exec(src[j]))
        invariant
            i <= j <= src.len(),
            ident_end(src@, i as int) == ident_end(src@, j as int),
        decreases src.len() - j,
    {
        j = j + 1;
    }
    j
}

fn digits_end_exec(src: &Vec<char>, i: usize) -> (e: usize)
    requires
        i <= src.len(),
    ensures
        e == digits_end(src@, i as int),
        i <= e <= src.len(),
{
    let mut j = i;
    while j < src.len() && is_digit_exec(src[j])
        invariant
            i <= j <= src.len(),
            digits_end(src@, i as int) == digits_end(src@, j as int),
        decreases src.len() - j,
    {
        j = j + 1;
    }
    j
}

fn quote_end_exec(src: &Vec<char>, i: usize, q: char) -> (e: usize)
    requires
        i <= src.len(),
    ensures
        e == quote_end(src@, i as int, q),
        i <= e <= src.len(),
{
    let mut j = i;
    while j < src.len() && src[j] != q
        invariant
            i <= j <= src.len(),
            quote_end(src@, i as int, q) == quote_end(src@, j as int, q),
        decreases src.len() - j,
    {
        j = j + 1;
    }
    j
}

/// Whether `src[lo..hi]` spells `w`.
fn spells(src: &Vec<char>, lo: usize, hi: usize, w: &[char]) -> (b: bool)
    requires
        lo <= hi <= src.len(),
    ensures
        b == (src@.subrange(lo as int, hi as int) == w@),
{
    if hi - lo != w.len() {
        assert(src@.subrange(lo as int, hi as int).len() != w@.len());
        return false;
    }
    let mut k: usize = 0;
    while k < w.len()
        invariant
            hi - lo == w@.len(),
            lo <= hi <= src.len(),
            0 <= k <= w@.len(),
            forall|m: int| 0 <= m < k ==> src@[lo + m] == w@[m],
        decreases w@.len() - k,
    {
        if src[lo + k] != w[k] {
            assert(src@.subrange(lo as int, hi as int)[k as int] != w@[k as int]);
            return false;
        }
        k = k + 1;
    }
    assert(src@.subrange(lo as int, hi as int) =~= w@);
    true
}

fn keyword_exec(src: &Vec<char>, lo: usize, hi: usize) -> (k: Option<Keyword>)
    requires
        lo <= hi <= src.len(),
    ensures
        k == keyword_of(src@.subrange(lo as int, hi as int)),
{
    let ghost w = src@.subrange(lo as int, hi as int);
    if spells(src, lo, hi, &['i', 'f']) {
        assert(w == seq!['i', 'f']);
        return Some(Keyword::If);
    }
    assert(w != seq!['i', 'f']) by { assert(['i', 'f']@ =~= seq!['i', 'f']); }
    if spells(src, lo, hi, &['e', 'l', 's', 'e']) {
        assert(['e', 'l', 's', 'e']@ =~= seq!['e', 'l', 's', 'e']);
        return Some(Keyword::Else);
    }
    assert(['e', 'l', 's', 'e']@ =~= seq!['e', 'l', 's', 'e']);
    if spells(src, lo, hi, &['f', 'o', 'r']) {
        assert(['f', 'o', 'r']@ =~= seq!['f', 'o', 'r']);
        return Some(Keyword::For);
    }
    assert(['f', 'o', 'r']@ =~= seq!['f', 'o', 'r']);
    if spells(src, lo, hi, &['s', 'w', 'i', 't', 'c', 'h']) {
        assert(['s', 'w', 'i', 't', 'c', 'h']@ =~= seq!['s', 'w', 'i', 't', 'c', 'h']);
        return Some(Keyword::Switch);
    }
    assert(['s', 'w', 'i', 't', 'c', 'h']@ =~= seq!['s', 'w', 'i', 't', 'c', 'h']);
    if spells(src, lo, hi, &['t', 'r', 'y']) {
        assert(['t', 'r', 'y']@ =~= seq!['t', 'r', 'y']);
        return Some(Keyword::Try);
    }
    assert(['t', 'r', 'y']@ =~= seq!['t', 'r', 'y']);
    if spells(src, lo, hi, &['c', 'a', 's', 'e']) {
        assert(['c', 'a', 's', 'e']@ =~= seq!['c', 'a', 's', 'e']);
        return Some(Keyword::Case);
    }
    assert(['c', 'a', 's', 'e']@ =~= seq!['c', 'a', 's', 'e']);
    if spells(src, lo, hi, &['d', 'e', 'f', 'a', 'u', 'l', 't']) {
        assert(['d', 'e', 'f', 'a', 'u', 'l', 't']@ =~= seq!['d', 'e', 'f', 'a', 'u', 'l', 't']);
        return Some(Keyword::Default);
    }
    assert(['d', 'e', 'f', 'a', 'u', 'l', 't']@ =~= seq!['d', 'e', 'f', 'a', 'u', 'l', 't']);
    if spells(src, lo, hi, &['c', 'a', 't', 'c', 'h']) {
        assert(['c', 'a', 't', 'c', 'h']@ =~= seq!['c', 'a', 't', 'c', 'h']);
        return Some(Keyword::Catch);
    }
    assert(['c', 'a', 't', 'c', 'h']@ =~= seq!['c', 'a', 't', 'c', 'h']);
    if spells(src, lo, hi, &['a', 'w', 'a', 'i', 't']) {
        assert(['a', 'w', 'a', 'i', 't']@ =~= seq!['a', 'w', 'a', 'i', 't']);
        return Some(Keyword::Await);
    }
    assert(['a', 'w', 'a', 'i', 't']@ =~= seq!['a', 'w', 'a', 'i', 't']);
    if spells(src, lo, hi, &['c', 'o', 'n', 's', 't']) {
        assert(['c', 'o', 'n', 's', 't']@ =~= seq!['c', 'o', 'n', 's', 't']);
        return Some(Keyword::Const);
    }
    assert(['c', 'o', 'n', 's', 't']@ =~= seq!['c', 'o', 'n', 's', 't']);
    if spells(src, lo, hi, &['l', 'e', 't']) {
        assert(['l', 'e', 't']@ =~= seq!['l', 'e', 't']);
        return Some(Keyword::Let);
    }
    assert(['l', 'e', 't']@ =~= seq!['l', 'e', 't']);
    if spells(src, lo, hi, &['v', 'a', 'r']) {
        assert(['v', 'a', 'r']@ =~= seq!['v', 'a', 'r']);
        return Some(Keyword::Var);
    }
    assert(['v', 'a', 'r']@ =~= seq!['v', 'a', 'r']);
    if spells(src, lo, hi, &['i', 'n']) {
        assert(['i', 'n']@ =~= seq!['i', 'n']);
        return Some(Keyword::In);
    }
    assert(['i', 'n']@ =~= seq!['i', 'n']);
    if spells(src, lo, hi, &['f', 'u', 'n', 'c', 't', 'i', 'o', 'n']) {
        assert(['f', 'u', 'n', 'c', 't', 'i', 'o', 'n']@ =~= seq!['f', 'u', 'n', 'c', 't', 'i', 'o', 'n']);
        return Some(Keyword::Function);
    }
    assert(['f', 'u', 'n', 'c', 't', 'i', 'o', 'n']@ =~= seq!['f', 'u', 'n', 'c', 't', 'i', 'o', 'n']);
    if spells(src, lo, hi, &['c', 'l', 'a', 's', 's']) {
        assert(['c', 'l', 'a', 's', 's']@ =~= seq!['c', 'l', 'a', 's', 's']);
        return Some(Keyword::Class);
    }
    assert(['c', 'l', 'a', 's', 's']@ =~= seq!['c', 'l', 'a', 's', 's']);
    None
}

fn punct_exec(c: char) -> (p: Option<Punct>)
    ensures
        p == punct_of(c),
{
    if c == '@' {
        Some(Punct::At)
    } else if c == '{' {
        Some(Punct::LBrace)
    } else if c == '}' {
        Some(Punct::RBrace)
    } else if c == '(' {
        Some(Punct::LParen)
    } else if c == ')' {
        Some(Punct::RParen)
    } else if c == ';' {
        Some(Punct::Semi)
    } else if c == ':' {
        Some(Punct::Colon)
    } else if c == ',' {
        Some(Punct::Comma)
    } else if c == '.' {
        Some(Punct::Dot)
    } else if c == '<' {
        Some(Punct::Lt)
    } else if c == '>' {
        Some(Punct::Gt)
    } else if c == '/' {
        Some(Punct::Slash)
    } else if c == '=' {
        Some(Punct::Eq)
    } else if c == '!' {
        Some(Punct::Bang)
    } else if c == '+' {
        Some(Punct::Plus)
    } else if c == '-' {
        Some(Punct::Minus)
    } else if c == '*' {
        Some(Punct::Star)
    } else if c == '%' {
        Some(Punct::Percent)
    } else if c == '&' {
        Some(Punct::Amp)
    } else if c == '|' {
        Some(Punct::Pipe)
    } else if c == '?' {
        Some(Punct::Question)
    } else {
        None
    }
}

fn lex_one_exec(src: &Vec<char>, i: usize) -> (r: (Token, usize))
    requires
        i < src.len(),
    ensures
        r.0 == lex_one(src@, i as int).0,
        r.1 == lex_one(src@, i as int).1,
        i < r.1 <= src.len(),
{
    let c = src[i];
    if is_ident_start_exec(c) {
        let e = ident_end_exec(src, i + 1);
        match keyword_exec(src, i, e) {
            Some(k) => (Token::Keyword(k), e),
            None => (Token::Ident, e),
        }
    } else if is_digit_exec(c) {
        (Token::Num, digits_end_exec(src, i + 1))
    } else if c == '\'' || c == '"' {
        let j = quote_end_exec(src, i + 1, c);
        if j < src.len() {
            (Token::Str, j + 1)
        } else {
            (Token::Other, i + 1)
        }
    } else {
        match punct_exec(c) {
            Some(p) => (Token::Punct(p), i + 1),
            None => (Token::Other, i + 1),
        }
    }
}

/// Splits a source text into tokens.
pub fn tokenize(src: &Vec<char>) -> (toks: Vec<TokenAndSpan>)
    ensures
        toks@ == spec_tokenize(src@),
        tokens_wf(src@, toks@),
{
    let mut toks: Vec<TokenAndSpan> = Vec::new();
    let mut i: usize = 0;
    let mut nl = false;
    while i < src.len()
        invariant
            i <= src.len(),
            spec_tokenize(src@) == toks@ + lex_from(src@, i as int, nl),
        decreases src.len() - i,
    {
        let c = src[i];
        if is_ws_exec(c) {
            nl = nl || c == '\n' || c == '\r';
            i = i + 1;
        } else {
            let (t, e) = lex_one_exec(src, i);
            let ghost old_toks = toks@;
            let tas = TokenAndSpan { token: t, span: Span { lo: i, hi: e }, had_line_break: nl };
            toks.push(tas);
            assert(lex_from(src@, i as int, nl) == seq![tas] + lex_from(src@, e as int, false));
            assert(old_toks + (seq![tas] + lex_from(src@, e as int, false)) =~= toks@ + lex_from(
                src@,
                e as int,
                false,
            ));
            i = e;
            nl = false;
        }
    }
    assert(lex_from(src@, i as int, nl) =~= Seq::<TokenAndSpan>::empty());
    assert(toks@ + Seq::<TokenAndSpan>::empty() =~= toks@);
    proof {
        lemma_lex_from_wf(src@, 0, false);
    }
    toks
}

} // verus!
