//! Tokens: punctuators, reserved words, identifiers and literals.
use vstd::prelude::*;

use crate::span::Span;

verus! {

/// Punctuators.
#[derive(Clone, Copy, PartialEq, Eq, Structural, Debug)]
pub enum Punct {
    At,
    LBrace,
    RBrace,
    LParen,
    RParen,
    Semi,
    Colon,
    Comma,
    Dot,
    Lt,
    Gt,
    Slash,
    Eq,
    Bang,
    Plus,
    Minus,
    Star,
    Percent,
    Amp,
    Pipe,
    Question,
}

/// Reserved words that the grammar reads.
#[derive(Clone, Copy, PartialEq, Eq, Structural, Debug)]
pub enum Keyword {
    If,
    Else,
    For,
    Switch,
    Try,
    Case,
    Default,
    Catch,
    Await,
    Const,
    Let,
    Var,
    In,
    Function,
    Class,
}

/// A token. Words, strings and numbers take their text from the source
/// through the token's span.
#[derive(Clone, Copy, PartialEq, Eq, Structural, Debug)]
pub enum Token {
    Punct(Punct),
    Keyword(Keyword),
    Ident,
    Str,
    Num,
    Other,
}

/// A token with its span, and whether a line break precedes it.
#[derive(Clone, Copy, PartialEq, Eq, Structural, Debug)]
pub struct TokenAndSpan {
    pub token: Token,
    pub span: Span,
    pub had_line_break: bool,
}

/// Identifiers and reserved words are words.
pub open spec fn spec_is_word(t: Token) -> bool {
    t is Ident || t is Keyword
}

/// Whether an optional token is the punctuator `x`.
pub fn tok_is(t: Option<Token>, x: Punct) -> (b: bool)
    ensures
        b == (t == Some(Token::Punct(x))),
{
    match t {
        Some(Token::Punct(y)) => y == x,
        _ => false,
    }
}

/// Whether an optional token is the keyword `k`.
pub fn tok_is_kw(t: Option<Token>, k: Keyword) -> (b: bool)
    ensures
        b == (t == Some(Token::Keyword(k))),
{
    match t {
        Some(Token::Keyword(y)) => y == k,
        _ => false,
    }
}

impl Token {
    pub fn is_word(self) -> (b: bool)
        ensures
            b == spec_is_word(self),
    {
        match self {
            Token::Ident => true,
            Token::Keyword(_) => true,
            _ => false,
        }
    }
}

} // verus!
