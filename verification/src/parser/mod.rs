//! The parser: a recursive-descent reader of the token sequence.
pub mod grammar;
pub mod expr;
pub mod js;
pub mod jsx;
pub mod tsrx;

use vstd::prelude::*;

use crate::ast::{Ident, Number, Str};
use crate::lexer::{spec_tokenize, tokenize, tokens_wf};
use crate::span::Span;
use crate::syntax::Syntax;
use crate::token::{Keyword, Punct, Token, TokenAndSpan, spec_is_word, tok_is, tok_is_kw};
use crate::view::{sv_ident, sv_number, sv_str};
use self::grammar::{
    ErrorKind, Input, ParseError, cur_pos, err_at, expected, ident_at, is_kw, is_p, is_word_at,
    last_pos, num_at, span_at, span_from, str_at, text, tok, tok_text, tsrx_start,
};

verus! {

/// Appends one character to a string.
///
/// Calls `String::push`; the contract claims that the string afterwards is
/// the old one with `c` added at its end.
#[verifier::external_body]
pub(crate) fn push_char(s: &mut String, c: char)
    ensures
        final(s)@ == old(s)@.push(c),
{
    s.push(c)
}

/// A parser over the tokens of one source text.
pub struct Parser {
    src: Vec<char>,
    toks: Vec<TokenAndSpan>,
    syntax: Syntax,
    pos: usize,
}

/// `new` is `old` after some tokens were read: the same input, a position
/// that has not moved back.
pub open spec fn stays(old: Parser, new: Parser) -> bool {
    &&& new.wf()
    &&& new.input() == old.input()
    &&& old.position() <= new.position()
}

impl Parser {
    /// What the parser reads.
    pub closed spec fn input(&self) -> Input {
        Input { src: self.src@, toks: self.toks@, syntax: self.syntax }
    }

    /// The index of the current token.
    pub closed spec fn position(&self) -> int {
        self.pos as int
    }

    pub closed spec fn wf(&self) -> bool {
        &&& self.toks@ == spec_tokenize(self.src@)
        &&& tokens_wf(self.src@, self.toks@)
        &&& self.pos <= self.toks@.len()
        &&& self.src@.len() <= usize::MAX
        &&& self.toks@.len() <= usize::MAX
    }

    /// A parser at the start of `src`.
    pub fn new(src: &str, syntax: Syntax) -> (p: Parser)
        ensures
            p.wf(),
            p.position() == 0,
            p.input().src == src@,
            p.input().toks == spec_tokenize(src@),
            p.input().syntax == syntax,
    {
        let mut chars: Vec<char> = Vec::new();
        broadcast use vstd::string::group_string_axioms;

        for c in it: src.chars()
            invariant
                chars@ == it.seq().take(it.index() as int),
                it.seq() == src@,
        {
            chars.push(c);
            assert(it.seq().take(it.index() + 1) =~= it.seq().take(it.index() as int).push(c));
        }
        assert(chars@ =~= src@);
        let toks = tokenize(&chars);
        let _n = chars.len();
        let _m = toks.len();
        Parser { src: chars, toks, syntax, pos: 0 }
    }

    pub proof fn lemma_wf(&self)
        requires
            self.wf(),
        ensures
            self.input().toks == spec_tokenize(self.input().src),
            tokens_wf(self.input().src, self.input().toks),
            self.position() <= self.input().toks.len(),
            self.input().src.len() <= usize::MAX,
            0 <= self.position(),
    {
    }

    pub(crate) fn syntax(&self) -> (s: Syntax)
        ensures
            s == self.input().syntax,
    {
        self.syntax
    }

    /// The token `k` places after the current one.
    pub(crate) fn nth(&self, k: usize) -> (t: Option<Token>)
        requires
            self.wf(),
        ensures
            t == tok(self.input(), self.position() + k),
    {
        if k < self.toks.len() && self.pos < self.toks.len() - k {
            Some(self.toks[self.pos + k].token)
        } else {
            None
        }
    }

    pub(crate) fn nth_is(&self, k: usize, x: Punct) -> (b: bool)
        requires
            self.wf(),
        ensures
            b == is_p(self.input(), self.position() + k, x),
    {
        match self.nth(k) {
            Some(Token::Punct(y)) => y == x,
            _ => false,
        }
    }

    pub(crate) fn nth_is_kw(&self, k: usize, x: Keyword) -> (b: bool)
        requires
            self.wf(),
        ensures
            b == is_kw(self.input(), self.position() + k, x),
    {
        match self.nth(k) {
            Some(Token::Keyword(y)) => y == x,
            _ => false,
        }
    }

    pub(crate) fn is(&self, x: Punct) -> (b: bool)
        requires
            self.wf(),
        ensures
            b == is_p(self.input(), self.position(), x),
    {
        self.nth_is(0, x)
    }

    pub(crate) fn is_kw(&self, x: Keyword) -> (b: bool)
        requires
            self.wf(),
        ensures
            b == is_kw(self.input(), self.position(), x),
    {
        self.nth_is_kw(0, x)
    }

    pub(crate) fn at_end(&self) -> (b: bool)
        requires
            self.wf(),
        ensures
            b == (self.position() >= self.input().toks.len()),
    {
        self.pos >= self.toks.len()
    }

    /// Whether a line break comes before the current token.
    pub(crate) fn had_line_break(&self) -> (b: bool)
        requires
            self.wf(),
            self.position() < self.input().toks.len(),
        ensures
            b == self.input().toks[self.position()].had_line_break,
    {
        self.toks[self.pos].had_line_break
    }

    /// Moves past `k` tokens.
    pub(crate) fn bump_n(&mut self, k: usize)
        requires
            old(self).wf(),
            old(self).position() + k <= old(self).input().toks.len(),
        ensures
            final(self).wf(),
            final(self).input() == old(self).input(),
            final(self).position() == old(self).position() + k,
    {
        self.pos = self.pos + k;
    }

    pub(crate) fn bump(&mut self)
        requires
            old(self).wf(),
            old(self).position() < old(self).input().toks.len(),
        ensures
            final(self).wf(),
            final(self).input() == old(self).input(),
            final(self).position() == old(self).position() + 1,
    {
        self.pos = self.pos + 1;
    }

    pub(crate) fn cur_span(&self) -> (s: Span)
        requires
            self.wf(),
        ensures
            s == span_at(self.input(), self.position()),
    {
        if self.pos < self.toks.len() {
            self.toks[self.pos].span
        } else {
            Span { lo: self.src.len(), hi: self.src.len() }
        }
    }

    pub(crate) fn nth_span(&self, k: usize) -> (s: Span)
        requires
            self.wf(),
        ensures
            s == span_at(self.input(), self.position() + k),
    {
        if k < self.toks.len() && self.pos < self.toks.len() - k {
            self.toks[self.pos + k].span
        } else {
            Span { lo: self.src.len(), hi: self.src.len() }
        }
    }

    pub(crate) fn span_at_index(&self, k: usize) -> (s: Span)
        requires
            self.wf(),
        ensures
            s == span_at(self.input(), k as int),
    {
        if k < self.toks.len() {
            self.toks[k].span
        } else {
            Span { lo: self.src.len(), hi: self.src.len() }
        }
    }

    pub(crate) fn token_at_index(&self, k: usize) -> (t: Option<Token>)
        requires
            self.wf(),
        ensures
            t == tok(self.input(), k as int),
    {
        if k < self.toks.len() {
            Some(self.toks[k].token)
        } else {
            None
        }
    }

    /// Moves to the token at index `k`, at or after the current one.
    pub(crate) fn seek(&mut self, k: usize)
        requires
            old(self).wf(),
            old(self).position() <= k <= old(self).input().toks.len(),
        ensures
            final(self).wf(),
            final(self).input() == old(self).input(),
            final(self).position() == k,
    {
        self.pos = k;
    }

    pub(crate) fn cur_pos(&self) -> (p: usize)
        requires
            self.wf(),
        ensures
            p == cur_pos(self.input(), self.position()),
    {
        self.cur_span().lo
    }

    /// The end of the token before the current one.
    pub(crate) fn last_pos(&self) -> (p: usize)
        requires
            self.wf(),
        ensures
            p == last_pos(self.input(), self.position()),
    {
        if self.pos > 0 {
            self.toks[self.pos - 1].span.hi
        } else {
            0
        }
    }

    /// From `start` to the end of the last token read.
    pub(crate) fn span(&self, start: usize) -> (s: Span)
        requires
            self.wf(),
        ensures
            s == span_from(self.input(), start, self.position()),
    {
        Span { lo: start, hi: self.last_pos() }
    }

    pub(crate) fn err(&self, kind: ErrorKind) -> (e: ParseError)
        requires
            self.wf(),
        ensures
            e == err_at(self.input(), self.position(), kind),
    {
        ParseError { span: self.cur_span(), kind }
    }

    pub(crate) fn nth_err(&self, k: usize, kind: ErrorKind) -> (e: ParseError)
        requires
            self.wf(),
        ensures
            e == err_at(self.input(), self.position() + k, kind),
    {
        ParseError { span: self.nth_span(k), kind }
    }

    /// Reads the punctuator `x`, or reports that it was expected.
    pub(crate) fn expect(&mut self, x: Punct) -> (r: Result<(), ParseError>)
        requires
            old(self).wf(),
        ensures
            final(self).wf(),
            final(self).input() == old(self).input(),
            match r {
                Ok(_) => is_p(old(self).input(), old(self).position(), x) && final(self).position()
                    == old(self).position() + 1,
                Err(e) => !is_p(old(self).input(), old(self).position(), x) && e == expected(
                    old(self).input(),
                    old(self).position(),
                    x,
                ) && final(self).position() == old(self).position(),
            },
    {
        if self.is(x) {
            self.bump();
            Ok(())
        } else {
            Err(self.err(ErrorKind::Expected(x)))
        }
    }

    /// The source text `[lo, hi)`.
    pub(crate) fn text(&self, lo: usize, hi: usize) -> (s: String)
        requires
            self.wf(),
            lo <= hi <= self.input().src.len(),
        ensures
            s@ == text(self.input(), lo as int, hi as int),
    {
        let mut s = String::new();
        let mut i = lo;
        while i < hi
            invariant
                lo <= i <= hi,
                hi <= self.src@.len(),
                s@ == self.src@.subrange(lo as int, i as int),
            decreases hi - i,
        {
            push_char(&mut s, self.src[i]);
            assert(self.src@.subrange(lo as int, i + 1) =~= self.src@.subrange(lo as int, i as int).push(
                self.src@[i as int],
            ));
            i = i + 1;
        }
        s
    }

    /// The identifier at `k` places after the current token.
    pub(crate) fn nth_ident(&self, k: usize) -> (id: Ident)
        requires
            self.wf(),
            self.position() + k < self.input().toks.len(),
        ensures
            sv_ident(id) == ident_at(self.input(), self.position() + k),
    {
        let span = self.toks[self.pos + k].span;
        Ident { span, sym: self.text(span.lo, span.hi) }
    }

    pub(crate) fn str_here(&self) -> (s: Str)
        requires
            self.wf(),
            self.position() < self.input().toks.len(),
            tok(self.input(), self.position()) == Some(Token::Str),
        ensures
            sv_str(s) == str_at(self.input(), self.position()),
    {
        let span = self.toks[self.pos].span;
        proof {
            crate::lexer::lemma_str_token_len(self.src@, self.toks@, self.position());
        }
        Str {
            span,
            value: self.text(span.lo + 1, span.hi - 1),
            raw: self.text(span.lo, span.hi),
        }
    }

    pub(crate) fn num_here(&self) -> (n: Number)
        requires
            self.wf(),
            self.position() < self.input().toks.len(),
        ensures
            sv_number(n) == num_at(self.input(), self.position()),
    {
        let span = self.toks[self.pos].span;
        Number { span, raw: self.text(span.lo, span.hi) }
    }

    /// Whether the token `k` places ahead is the word `w`.
    pub(crate) fn nth_is_word(&self, k: usize, w: &str) -> (b: bool)
        requires
            self.wf(),
        ensures
            b == is_word_at(self.input(), self.position() + k, w@),
    {
        if k >= self.toks.len() - self.pos {
            return false;
        }
        self.word_at_index(self.pos + k, w)
    }

    /// Whether the token at index `k` is the word `w`.
    pub(crate) fn word_at_index(&self, k: usize, w: &str) -> (b: bool)
        requires
            self.wf(),
        ensures
            b == is_word_at(self.input(), k as int, w@),
    {
        match self.token_at_index(k) {
            Some(t) => {
                if !t.is_word() {
                    return false;
                }
                let span = self.span_at_index(k);
                let n = w.unicode_len();
                if span.hi - span.lo != n {
                    assert(tok_text(self.input(), k as int).len() != w@.len());
                    return false;
                }
                let mut i: usize = 0;
                while i < n
                    invariant
                        span == span_at(self.input(), k as int),
                        span.lo <= span.hi <= self.src@.len(),
                        span.hi - span.lo == n,
                        n == w@.len(),
                        i <= n,
                        forall|m: int| 0 <= m < i ==> self.src@[span.lo + m] == w@[m],
                    decreases n - i,
                {
                    if self.src[span.lo + i] != w.get_char(i) {
                        assert(tok_text(self.input(), k as int)[i as int] != w@[i as int]);
                        return false;
                    }
                    i = i + 1;
                }
                assert(tok_text(self.input(), k as int) =~= w@);
                true
            },
            None => false,
        }
    }

    /// Whether the `@` at index `k` begins a TSRX expression.
    pub(crate) fn is_tsrx_expr_start_at(&self, k: usize) -> (b: bool)
        requires
            self.wf(),
        ensures
            b == tsrx_start(self.input(), k as int),
    {
        self.syntax.tsrx() && tok_is(self.token_at_index(k), Punct::At) && k < self.toks.len() && (
        tok_is(self.token_at_index(k + 1), Punct::LBrace) || tok_is_kw(self.token_at_index(k + 1), Keyword::If) || tok_is_kw(self.token_at_index(k + 1), Keyword::For) || tok_is_kw(self.token_at_index(k + 1), Keyword::Switch) || tok_is_kw(self.token_at_index(k + 1), Keyword::Try))
    }

    /// Returns whether the current `@` begins a TSRX expression rather than a
    /// legacy decorator.
    pub fn is_tsrx_expr_start(&self) -> (b: bool)
        requires
            self.wf(),
        ensures
            b == tsrx_start(self.input(), self.position()),
    {
        self.syntax.tsrx() && self.is(Punct::At) && (self.nth_is(1, Punct::LBrace) || self.nth_is_kw(
            1,
            Keyword::If,
        ) || self.nth_is_kw(1, Keyword::For) || self.nth_is_kw(1, Keyword::Switch)
            || self.nth_is_kw(1, Keyword::Try))
    }

    /// Whether the current token is the word `expected`.
    pub fn is_contextual_word(&self, expected: &str) -> (b: bool)
        requires
            self.wf(),
        ensures
            b == is_word_at(self.input(), self.position(), expected@),
    {
        self.nth_is_word(0, expected)
    }

    pub(crate) fn toks_len(&self) -> (n: usize)
        ensures
            n == self.input().toks.len(),
    {
        self.toks.len()
    }

    pub(crate) fn src_len(&self) -> (n: usize)
        ensures
            n == self.input().src.len(),
    {
        self.src.len()
    }

    /// The index of the current token.
    pub fn pos(&self) -> (p: usize)
        ensures
            p == self.position(),
    {
        self.pos
    }
}

} // verus!
