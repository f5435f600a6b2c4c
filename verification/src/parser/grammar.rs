//! The grammar, as spec functions from a token position to the node that
//! starts there and the position after it, or to the error at that point.
use vstd::prelude::*;

use crate::span::Span;
use crate::syntax::{Syntax, spec_decorators, spec_jsx, spec_tsrx};
use crate::token::{Keyword, Punct, Token, TokenAndSpan, spec_is_word};
use crate::view::{
    SAssignExpr, SBinExpr, SCallExpr, SCondExpr, SSeqExpr, SUnaryExpr, SUpdateExpr,
    SBindingIdent, SBlockStmt, SClass, SClassDecl, SDecl, SDecorator, SEmptyStmt, SExpr, SExprStmt,
    SFnDecl, SForHead, SFunction, SIdent, SJSXAttr, SJSXAttrOrSpread, SJSXAttrValue,
    SJSXCatchClause, SJSXClosingElement, SJSXCodeBlock, SJSXElement, SJSXElementChild,
    SJSXElementName, SJSXExprContainer, SJSXForExpr, SJSXFragment, SJSXIfAlternate, SJSXIfExpr,
    SJSXOpeningElement, SJSXStyleElement, SJSXSwitchCase, SJSXSwitchExpr, SJSXText, SJSXTryExpr,
    SLit, SMemberExpr, SModule, SModuleItem, SNumber, SParam, SParenExpr, SPat, SStmt, SStr,
    STsrxExpr, SVarDecl, SVarDeclOrExpr, SVarDeclarator,
};
use crate::ast::{AssignOp, BinaryOp, JSXForKind, UnaryOp, UpdateOp, VarDeclKind};

verus! {

/// What the parser expected where it stopped.
#[derive(Clone, Copy, PartialEq, Eq, Structural, Debug)]
pub enum Expectation {
    /// a TSRX statement container or template directive
    TsrxContainer,
    /// `index` or `key` in a TSRX @for header
    IndexOrKey,
    /// `@case` or `@default` in a TSRX @switch
    CaseOrDefault,
    Expression,
    Identifier,
    Statement,
    Class,
    JsxName,
    JsxAttr,
    JsxAttrValue,
    JsxClosingTag,
    /// an identifier or a member expression to assign to or update
    AssignTarget,
}

#[derive(Clone, Copy, PartialEq, Eq, Structural, Debug)]
pub enum ErrorKind {
    /// The punctuator that had to come next.
    Expected(Punct),
    Unexpected(Expectation),
    /// A closing tag that names another element than its opening tag.
    ClosingTagMismatch,
}

/// A syntax error and the span of the token where it was found.
#[derive(Clone, Copy, PartialEq, Eq, Structural, Debug)]
pub struct ParseError {
    pub span: Span,
    pub kind: ErrorKind,
}

/// What the grammar reads: the source, its tokens, and the dialect.
pub struct Input {
    pub src: Seq<char>,
    pub toks: Seq<TokenAndSpan>,
    pub syntax: Syntax,
}

/// The head of a `for` loop before it is split into the fields of a
/// `@for` expression.
pub enum STempForHead {
    For { init: Option<SVarDeclOrExpr>, test: Option<Box<SExpr>>, update: Option<Box<SExpr>> },
    ForIn { left: SForHead, right: Box<SExpr> },
    ForOf { left: SForHead, right: Box<SExpr> },
}

// ---------------------------------------------------------------------------
// Reading tokens
// ---------------------------------------------------------------------------
pub open spec fn tok(inp: Input, p: int) -> Option<Token> {
    if 0 <= p < inp.toks.len() {
        Some(inp.toks[p].token)
    } else {
        None
    }
}

pub open spec fn is_p(inp: Input, p: int, x: Punct) -> bool {
    tok(inp, p) == Some(Token::Punct(x))
}

pub open spec fn is_kw(inp: Input, p: int, k: Keyword) -> bool {
    tok(inp, p) == Some(Token::Keyword(k))
}

/// The span of the token at `p`, or the empty span at the end of the source.
pub open spec fn span_at(inp: Input, p: int) -> Span {
    if 0 <= p < inp.toks.len() {
        inp.toks[p].span
    } else {
        Span { lo: inp.src.len() as usize, hi: inp.src.len() as usize }
    }
}

pub open spec fn cur_pos(inp: Input, p: int) -> usize {
    span_at(inp, p).lo
}

/// The end of the token before `p`.
pub open spec fn last_pos(inp: Input, p: int) -> usize {
    if 0 < p <= inp.toks.len() {
        inp.toks[p - 1].span.hi
    } else {
        0
    }
}

/// From `start` to the end of the last token read before `p`.
pub open spec fn span_from(inp: Input, start: usize, p: int) -> Span {
    Span { lo: start, hi: last_pos(inp, p) }
}

pub open spec fn text(inp: Input, lo: int, hi: int) -> Seq<char> {
    inp.src.subrange(lo, hi)
}

pub open spec fn tok_text(inp: Input, p: int) -> Seq<char> {
    text(inp, span_at(inp, p).lo as int, span_at(inp, p).hi as int)
}

pub open spec fn err_at(inp: Input, p: int, kind: ErrorKind) -> ParseError {
    ParseError { span: span_at(inp, p), kind }
}

pub open spec fn expected(inp: Input, p: int, x: Punct) -> ParseError {
    err_at(inp, p, ErrorKind::Expected(x))
}

pub open spec fn unexpected(inp: Input, p: int, e: Expectation) -> ParseError {
    err_at(inp, p, ErrorKind::Unexpected(e))
}

/// The token at `p` is the word `w`.
pub open spec fn is_word_at(inp: Input, p: int, w: Seq<char>) -> bool {
    &&& tok(inp, p) matches Some(t)
    &&& spec_is_word(t)
    &&& tok_text(inp, p) == w
}

/// An `@` that begins a TSRX expression rather than a decorator.
pub open spec fn tsrx_start(inp: Input, p: int) -> bool {
    &&& spec_tsrx(inp.syntax)
    &&& is_p(inp, p, Punct::At)
    &&& (is_p(inp, p + 1, Punct::LBrace) || is_kw(inp, p + 1, Keyword::If) || is_kw(
        inp,
        p + 1,
        Keyword::For,
    ) || is_kw(inp, p + 1, Keyword::Switch) || is_kw(inp, p + 1, Keyword::Try))
}

/// A position `q` reached after `p`, still inside the tokens.
pub open spec fn adv(inp: Input, p: int, q: int) -> bool {
    p < q <= inp.toks.len()
}

pub open spec fn ident_at(inp: Input, p: int) -> SIdent {
    SIdent { span: span_at(inp, p), sym: tok_text(inp, p) }
}

pub open spec fn str_at(inp: Input, p: int) -> SStr {
    SStr {
        span: span_at(inp, p),
        value: text(inp, span_at(inp, p).lo + 1, span_at(inp, p).hi - 1),
        raw: tok_text(inp, p),
    }
}

pub open spec fn num_at(inp: Input, p: int) -> SNumber {
    SNumber { span: span_at(inp, p), raw: tok_text(inp, p) }
}

pub open spec fn word_index() -> Seq<char> {
    seq!['i', 'n', 'd', 'e', 'x']
}

pub open spec fn word_key() -> Seq<char> {
    seq!['k', 'e', 'y']
}

pub open spec fn word_empty() -> Seq<char> {
    seq!['e', 'm', 'p', 't', 'y']
}

pub open spec fn word_pending() -> Seq<char> {
    seq!['p', 'e', 'n', 'd', 'i', 'n', 'g']
}

pub open spec fn word_of() -> Seq<char> {
    seq!['o', 'f']
}

pub open spec fn word_style() -> Seq<char> {
    seq!['s', 't', 'y', 'l', 'e']
}

// ---------------------------------------------------------------------------
// Node spans
// ---------------------------------------------------------------------------
pub open spec fn tsrx_span(t: STsrxExpr) -> Span {
    match t {
        STsrxExpr::CodeBlock(b) => b.span,
        STsrxExpr::StyleElement(s) => s.span,
        STsrxExpr::If(i) => i.span,
        STsrxExpr::For(f) => f.span,
        STsrxExpr::Switch(s) => s.span,
        STsrxExpr::Try(t) => t.span,
    }
}

pub open spec fn expr_span(e: SExpr) -> Span {
    match e {
        SExpr::Ident(i) => i.span,
        SExpr::Lit(SLit::Str(s)) => s.span,
        SExpr::Lit(SLit::Num(n)) => n.span,
        SExpr::Member(m) => m.span,
        SExpr::Paren(p) => p.span,
        SExpr::JSXElement(e) => e.span,
        SExpr::JSXFragment(f) => f.span,
        SExpr::Tsrx(t) => tsrx_span(*t),
        SExpr::Call(c) => c.span,
        SExpr::Update(u) => u.span,
        SExpr::Unary(u) => u.span,
        SExpr::Bin(b) => b.span,
        SExpr::Cond(c) => c.span,
        SExpr::Assign(a) => a.span,
        SExpr::Sequence(q) => q.span,
    }
}

// ---------------------------------------------------------------------------
// Expressions
// ---------------------------------------------------------------------------
/// Whether the token at `p` ends where the next one starts.
pub open spec fn adj(inp: Input, p: int) -> bool {
    0 <= p && p + 1 < inp.toks.len() && inp.toks[p].span.hi == inp.toks[p + 1].span.lo
}

/// The binary operator at `p` and the number of tokens it takes; `=`, `+=`,
/// `-=`, `++` and `--` are not binary operators.
pub open spec fn bin_op_at(inp: Input, p: int) -> Option<(BinaryOp, int)> {
    if is_p(inp, p, Punct::Pipe) {
        if is_p(inp, p + 1, Punct::Pipe) && adj(inp, p) {
            Some((BinaryOp::LogicalOr, 2))
        } else {
            None
        }
    } else if is_p(inp, p, Punct::Amp) {
        if is_p(inp, p + 1, Punct::Amp) && adj(inp, p) {
            Some((BinaryOp::LogicalAnd, 2))
        } else {
            None
        }
    } else if is_p(inp, p, Punct::Eq) {
        if is_p(inp, p + 1, Punct::Eq) && adj(inp, p) {
            if is_p(inp, p + 2, Punct::Eq) && adj(inp, p + 1) {
                Some((BinaryOp::EqEqEq, 3))
            } else {
                Some((BinaryOp::EqEq, 2))
            }
        } else {
            None
        }
    } else if is_p(inp, p, Punct::Bang) {
        if is_p(inp, p + 1, Punct::Eq) && adj(inp, p) {
            if is_p(inp, p + 2, Punct::Eq) && adj(inp, p + 1) {
                Some((BinaryOp::NotEqEq, 3))
            } else {
                Some((BinaryOp::NotEq, 2))
            }
        } else {
            None
        }
    } else if is_p(inp, p, Punct::Lt) {
        if is_p(inp, p + 1, Punct::Eq) && adj(inp, p) {
            Some((BinaryOp::LtEq, 2))
        } else {
            Some((BinaryOp::Lt, 1))
        }
    } else if is_p(inp, p, Punct::Gt) {
        if is_p(inp, p + 1, Punct::Eq) && adj(inp, p) {
            Some((BinaryOp::GtEq, 2))
        } else {
            Some((BinaryOp::Gt, 1))
        }
    } else if is_p(inp, p, Punct::Plus) {
        if (is_p(inp, p + 1, Punct::Plus) || is_p(inp, p + 1, Punct::Eq)) && adj(inp, p) {
            None
        } else {
            Some((BinaryOp::Add, 1))
        }
    } else if is_p(inp, p, Punct::Minus) {
        if (is_p(inp, p + 1, Punct::Minus) || is_p(inp, p + 1, Punct::Eq)) && adj(inp, p) {
            None
        } else {
            Some((BinaryOp::Sub, 1))
        }
    } else if is_p(inp, p, Punct::Star) {
        Some((BinaryOp::Mul, 1))
    } else if is_p(inp, p, Punct::Slash) {
        Some((BinaryOp::Div, 1))
    } else if is_p(inp, p, Punct::Percent) {
        Some((BinaryOp::Mod, 1))
    } else {
        None
    }
}

/// How tightly a binary operator binds: a higher number binds tighter.
pub open spec fn bin_prec(op: BinaryOp) -> int {
    match op {
        BinaryOp::LogicalOr => 1,
        BinaryOp::LogicalAnd => 2,
        BinaryOp::EqEq | BinaryOp::NotEq | BinaryOp::EqEqEq | BinaryOp::NotEqEq => 3,
        BinaryOp::Lt | BinaryOp::LtEq | BinaryOp::Gt | BinaryOp::GtEq => 4,
        BinaryOp::Add | BinaryOp::Sub => 5,
        BinaryOp::Mul | BinaryOp::Div | BinaryOp::Mod => 6,
    }
}

/// The assignment operator at `p` and the number of tokens it takes.
pub open spec fn assign_op_at(inp: Input, p: int) -> Option<(AssignOp, int)> {
    if is_p(inp, p, Punct::Eq) {
        Some((AssignOp::Assign, 1))
    } else if is_p(inp, p, Punct::Plus) && is_p(inp, p + 1, Punct::Eq) && adj(inp, p) {
        Some((AssignOp::AddAssign, 2))
    } else if is_p(inp, p, Punct::Minus) && is_p(inp, p + 1, Punct::Eq) && adj(inp, p) {
        Some((AssignOp::SubAssign, 2))
    } else {
        None
    }
}

/// `++` or `--` at `p` (two tokens).
pub open spec fn update_op_at(inp: Input, p: int) -> Option<UpdateOp> {
    if is_p(inp, p, Punct::Plus) && is_p(inp, p + 1, Punct::Plus) && adj(inp, p) {
        Some(UpdateOp::PlusPlus)
    } else if is_p(inp, p, Punct::Minus) && is_p(inp, p + 1, Punct::Minus) && adj(inp, p) {
        Some(UpdateOp::MinusMinus)
    } else {
        None
    }
}

/// The prefix operator `!`, `-` or `+` at `p`.
pub open spec fn unary_op_at(inp: Input, p: int) -> Option<UnaryOp> {
    if is_p(inp, p, Punct::Bang) {
        Some(UnaryOp::Bang)
    } else if is_p(inp, p, Punct::Minus) {
        Some(UnaryOp::Minus)
    } else if is_p(inp, p, Punct::Plus) {
        Some(UnaryOp::Plus)
    } else {
        None
    }
}

/// What can be assigned to or updated: an identifier or a member expression.
pub open spec fn is_assign_target(e: SExpr) -> bool {
    e is Ident || e is Member
}

/// An expression: one assignment expression, or several separated by
/// commas (a sequence).
#[verifier::opaque]
pub open spec fn sp_expr(inp: Input, p: int) -> Result<(SExpr, int), ParseError>
    decreases inp.toks.len() - p, 30int,
{
    match sp_assign(inp, p) {
        Ok((e, p1)) => {
            if is_p(inp, p1, Punct::Comma) && adv(inp, p, p1) {
                sp_seq_rest(inp, cur_pos(inp, p), seq![e], p1)
            } else {
                Ok((e, p1))
            }
        },
        Err(x) => Err(x),
    }
}

/// The definition of `sp_expr`, one level deep.
pub proof fn lemma_sp_expr(inp: Input, p: int)
    ensures
        sp_expr(inp, p) == match sp_assign(inp, p) {
            Ok((e, p1)) => {
                if is_p(inp, p1, Punct::Comma) && adv(inp, p, p1) {
                    sp_seq_rest(inp, cur_pos(inp, p), seq![e], p1)
                } else {
                    Ok((e, p1))
                }
            },
            Err(x) => Err(x),
        },
{
    reveal_with_fuel(sp_expr, 1);
    reveal_with_fuel(sp_assign, 1);
    reveal_with_fuel(sp_seq_rest, 1);
}

/// The definition of `sp_postfix`, one level deep.
pub proof fn lemma_sp_postfix(inp: Input, p: int)
    ensures
        sp_postfix(inp, p) == match sp_lhs(inp, p) {
            Ok((e, p1)) => match update_op_at(inp, p1) {
                Some(op) => {
                    if inp.toks[p1].had_line_break {
                        Ok((e, p1))
                    } else if is_assign_target(e) {
                        Ok(
                            (
                                SExpr::Update(
                                    SUpdateExpr {
                                        span: span_from(inp, cur_pos(inp, p), p1 + 2),
                                        op,
                                        prefix: false,
                                        arg: Box::new(e),
                                    },
                                ),
                                p1 + 2,
                            ),
                        )
                    } else {
                        Err(unexpected(inp, p1, Expectation::AssignTarget))
                    }
                },
                None => Ok((e, p1)),
            },
            Err(x) => Err(x),
        },
{
    reveal_with_fuel(sp_postfix, 1);
    reveal_with_fuel(sp_lhs, 1);
}

/// The `, expr` parts of a sequence whose first parts are `acc`.
#[verifier::opaque]
pub open spec fn sp_seq_rest(inp: Input, start: usize, acc: Seq<SExpr>, p: int) -> Result<
    (SExpr, int),
    ParseError,
>
    decreases inp.toks.len() - p, 0int,
{
    if is_p(inp, p, Punct::Comma) {
        match sp_assign(inp, p + 1) {
            Ok((e, p2)) => {
                if adv(inp, p, p2) {
                    sp_seq_rest(inp, start, acc.push(e), p2)
                } else {
                    Err(unexpected(inp, p + 1, Expectation::Expression))
                }
            },
            Err(x) => Err(x),
        }
    } else {
        Ok((SExpr::Sequence(SSeqExpr { span: span_from(inp, start, p), exprs: acc }), p))
    }
}

/// `target = value`, `target += value`, `target -= value` (right to left),
/// or a conditional expression.
#[verifier::opaque]
pub open spec fn sp_assign(inp: Input, p: int) -> Result<(SExpr, int), ParseError>
    decreases inp.toks.len() - p, 28int,
{
    match sp_cond(inp, p) {
        Ok((l, p1)) => match assign_op_at(inp, p1) {
            Some((op, n)) => {
                if !is_assign_target(l) || !adv(inp, p, p1) {
                    Err(unexpected(inp, p1, Expectation::AssignTarget))
                } else {
                    match sp_assign(inp, p1 + n) {
                        Ok((r, p2)) => Ok(
                            (
                                SExpr::Assign(
                                    SAssignExpr {
                                        span: span_from(inp, cur_pos(inp, p), p2),
                                        op,
                                        left: Box::new(l),
                                        right: Box::new(r),
                                    },
                                ),
                                p2,
                            ),
                        ),
                        Err(x) => Err(x),
                    }
                }
            },
            None => Ok((l, p1)),
        },
        Err(x) => Err(x),
    }
}

/// `test ? cons : alt`, or a binary expression.
#[verifier::opaque]
pub open spec fn sp_cond(inp: Input, p: int) -> Result<(SExpr, int), ParseError>
    decreases inp.toks.len() - p, 27int,
{
    match sp_bin(inp, p, 1) {
        Ok((t, p1)) => {
            if is_p(inp, p1, Punct::Question) && adv(inp, p, p1) {
                match sp_assign(inp, p1 + 1) {
                    Ok((c, p2)) => {
                        if is_p(inp, p2, Punct::Colon) && adv(inp, p, p2) {
                            match sp_assign(inp, p2 + 1) {
                                Ok((a, p3)) => Ok(
                                    (
                                        SExpr::Cond(
                                            SCondExpr {
                                                span: span_from(inp, cur_pos(inp, p), p3),
                                                test: Box::new(t),
                                                cons: Box::new(c),
                                                alt: Box::new(a),
                                            },
                                        ),
                                        p3,
                                    ),
                                ),
                                Err(x) => Err(x),
                            }
                        } else {
                            Err(expected(inp, p2, Punct::Colon))
                        }
                    },
                    Err(x) => Err(x),
                }
            } else {
                Ok((t, p1))
            }
        },
        Err(x) => Err(x),
    }
}

/// A unary expression followed by the binary operators that bind at least
/// as tightly as `min`, grouped by precedence and from left to right.
#[verifier::opaque]
pub open spec fn sp_bin(inp: Input, p: int, min: int) -> Result<(SExpr, int), ParseError>
    decreases inp.toks.len() - p, 26int,
{
    match sp_unary(inp, p) {
        Ok((l, p1)) => {
            if adv(inp, p, p1) {
                sp_bin_rest(inp, cur_pos(inp, p), l, p1, min)
            } else {
                Ok((l, p1))
            }
        },
        Err(x) => Err(x),
    }
}

/// The `op right` parts after `left`, for operators that bind at least as
/// tightly as `min`.
#[verifier::opaque]
pub open spec fn sp_bin_rest(inp: Input, start: usize, left: SExpr, p: int, min: int) -> Result<
    (SExpr, int),
    ParseError,
>
    decreases inp.toks.len() - p, 0int,
{
    match bin_op_at(inp, p) {
        Some((op, n)) => {
            if bin_prec(op) >= min {
                match sp_bin(inp, p + n, bin_prec(op) + 1) {
                    Ok((r, p2)) => {
                        if adv(inp, p, p2) {
                            sp_bin_rest(
                                inp,
                                start,
                                SExpr::Bin(
                                    SBinExpr {
                                        span: span_from(inp, start, p2),
                                        op,
                                        left: Box::new(left),
                                        right: Box::new(r),
                                    },
                                ),
                                p2,
                                min,
                            )
                        } else {
                            Err(unexpected(inp, p + n, Expectation::Expression))
                        }
                    },
                    Err(x) => Err(x),
                }
            } else {
                Ok((left, p))
            }
        },
        None => Ok((left, p)),
    }
}

/// `++x`, `--x`, `!x`, `-x`, `+x`, or a postfix expression.
#[verifier::opaque]
pub open spec fn sp_unary(inp: Input, p: int) -> Result<(SExpr, int), ParseError>
    decreases inp.toks.len() - p, 25int,
{
    match update_op_at(inp, p) {
        Some(op) => match sp_unary(inp, p + 2) {
            Ok((a, p2)) => {
                if is_assign_target(a) {
                    Ok(
                        (
                            SExpr::Update(
                                SUpdateExpr {
                                    span: span_from(inp, cur_pos(inp, p), p2),
                                    op,
                                    prefix: true,
                                    arg: Box::new(a),
                                },
                            ),
                            p2,
                        ),
                    )
                } else {
                    Err(unexpected(inp, p + 2, Expectation::AssignTarget))
                }
            },
            Err(x) => Err(x),
        },
        None => match unary_op_at(inp, p) {
            Some(op) => match sp_unary(inp, p + 1) {
                Ok((a, p2)) => Ok(
                    (
                        SExpr::Unary(
                            SUnaryExpr {
                                span: span_from(inp, cur_pos(inp, p), p2),
                                op,
                                arg: Box::new(a),
                            },
                        ),
                        p2,
                    ),
                ),
                Err(x) => Err(x),
            },
            None => sp_postfix(inp, p),
        },
    }
}

/// A call or member expression, followed by `++` or `--` on the same line.
#[verifier::opaque]
pub open spec fn sp_postfix(inp: Input, p: int) -> Result<(SExpr, int), ParseError>
    decreases inp.toks.len() - p, 24int,
{
    match sp_lhs(inp, p) {
        Ok((e, p1)) => match update_op_at(inp, p1) {
            Some(op) => {
                if inp.toks[p1].had_line_break {
                    Ok((e, p1))
                } else if is_assign_target(e) {
                    Ok(
                        (
                            SExpr::Update(
                                SUpdateExpr {
                                    span: span_from(inp, cur_pos(inp, p), p1 + 2),
                                    op,
                                    prefix: false,
                                    arg: Box::new(e),
                                },
                            ),
                            p1 + 2,
                        ),
                    )
                } else {
                    Err(unexpected(inp, p1, Expectation::AssignTarget))
                }
            },
            None => Ok((e, p1)),
        },
        Err(x) => Err(x),
    }
}

/// A primary expression and the `.name` accesses and calls after it.
#[verifier::opaque]
pub open spec fn sp_lhs(inp: Input, p: int) -> Result<(SExpr, int), ParseError>
    decreases inp.toks.len() - p, 23int,
{
    match sp_primary(inp, p) {
        Ok((b, p1)) => {
            if adv(inp, p, p1) {
                sp_member_rest(inp, cur_pos(inp, p), b, p1)
            } else {
                Ok((b, p1))
            }
        },
        Err(x) => Err(x),
    }
}

/// The `.name` accesses and `(args)` calls after `obj`.
#[verifier::opaque]
pub open spec fn sp_member_rest(inp: Input, start: usize, obj: SExpr, p: int) -> Result<
    (SExpr, int),
    ParseError,
>
    decreases inp.toks.len() - p, 0int,
{
    if is_p(inp, p, Punct::Dot) {
        if tok(inp, p + 1) matches Some(t) && spec_is_word(t) {
            let m = SExpr::Member(
                SMemberExpr {
                    span: span_from(inp, start, p + 2),
                    obj: Box::new(obj),
                    prop: ident_at(inp, p + 1),
                },
            );
            sp_member_rest(inp, start, m, p + 2)
        } else {
            Err(unexpected(inp, p + 1, Expectation::Identifier))
        }
    } else if is_p(inp, p, Punct::LParen) {
        match sp_args(inp, p + 1, Seq::empty()) {
            Ok((args, p2)) => {
                if adv(inp, p, p2) {
                    sp_member_rest(
                        inp,
                        start,
                        SExpr::Call(
                            SCallExpr {
                                span: span_from(inp, start, p2),
                                callee: Box::new(obj),
                                args,
                            },
                        ),
                        p2,
                    )
                } else {
                    Err(expected(inp, p2, Punct::RParen))
                }
            },
            Err(x) => Err(x),
        }
    } else {
        Ok((obj, p))
    }
}

/// The definition of `sp_member_rest`, one level deep.
pub proof fn lemma_sp_member_rest(inp: Input, start: usize, obj: SExpr, p: int)
    ensures
        sp_member_rest(inp, start, obj, p) == ({
    if is_p(inp, p, Punct::Dot) {
        if tok(inp, p + 1) matches Some(t) && spec_is_word(t) {
            let m = SExpr::Member(
                SMemberExpr {
                    span: span_from(inp, start, p + 2),
                    obj: Box::new(obj),
                    prop: ident_at(inp, p + 1),
                },
            );
            sp_member_rest(inp, start, m, p + 2)
        } else {
            Err(unexpected(inp, p + 1, Expectation::Identifier))
        }
    } else if is_p(inp, p, Punct::LParen) {
        match sp_args(inp, p + 1, Seq::empty()) {
            Ok((args, p2)) => {
                if adv(inp, p, p2) {
                    sp_member_rest(
                        inp,
                        start,
                        SExpr::Call(
                            SCallExpr {
                                span: span_from(inp, start, p2),
                                callee: Box::new(obj),
                                args,
                            },
                        ),
                        p2,
                    )
                } else {
                    Err(expected(inp, p2, Punct::RParen))
                }
            },
            Err(x) => Err(x),
        }
    } else {
        Ok((obj, p))
    }
        }),
{
    reveal_with_fuel(sp_member_rest, 2);
    reveal_with_fuel(sp_args, 1);
}

/// The arguments of a call after its `(`, up to and including the `)`.
#[verifier::opaque]
pub open spec fn sp_args(inp: Input, p: int, acc: Seq<SExpr>) -> Result<
    (Seq<SExpr>, int),
    ParseError,
>
    decreases inp.toks.len() - p, 29int,
{
    if is_p(inp, p, Punct::RParen) {
        Ok((acc, p + 1))
    } else {
        match sp_assign(inp, p) {
            Ok((a, p1)) => {
                if !adv(inp, p, p1) {
                    Err(unexpected(inp, p, Expectation::Expression))
                } else if is_p(inp, p1, Punct::RParen) {
                    Ok((acc.push(a), p1 + 1))
                } else if is_p(inp, p1, Punct::Comma) {
                    sp_args(inp, p1 + 1, acc.push(a))
                } else {
                    Err(expected(inp, p1, Punct::RParen))
                }
            },
            Err(x) => Err(x),
        }
    }
}

#[verifier::opaque]
pub open spec fn sp_primary(inp: Input, p: int) -> Result<(SExpr, int), ParseError>
    decreases inp.toks.len() - p, 20int,
{
    match tok(inp, p) {
        Some(Token::Punct(Punct::At)) => {
            if tsrx_start(inp, p) {
                sp_tsrx_expr(inp, p)
            } else {
                Err(unexpected(inp, p, Expectation::Expression))
            }
        },
        Some(Token::Ident) => Ok((SExpr::Ident(ident_at(inp, p)), p + 1)),
        Some(Token::Str) => Ok((SExpr::Lit(SLit::Str(str_at(inp, p))), p + 1)),
        Some(Token::Num) => Ok((SExpr::Lit(SLit::Num(num_at(inp, p))), p + 1)),
        Some(Token::Punct(Punct::LParen)) => match sp_expr(inp, p + 1) {
            Ok((e, p2)) => {
                if is_p(inp, p2, Punct::RParen) {
                    Ok(
                        (
                            SExpr::Paren(
                                SParenExpr {
                                    span: span_from(inp, cur_pos(inp, p), p2 + 1),
                                    expr: Box::new(e),
                                },
                            ),
                            p2 + 1,
                        ),
                    )
                } else {
                    Err(expected(inp, p2, Punct::RParen))
                }
            },
            Err(x) => Err(x),
        },
        Some(Token::Punct(Punct::Lt)) => {
            if spec_jsx(inp.syntax) {
                sp_jsx_element(inp, p)
            } else {
                Err(unexpected(inp, p, Expectation::Expression))
            }
        },
        _ => Err(unexpected(inp, p, Expectation::Expression)),
    }
}

// ---------------------------------------------------------------------------
// Statements
// ---------------------------------------------------------------------------
/// The end of a statement: a `;`, or nothing before `}`, the end of input,
/// or a line break.
pub open spec fn sp_semi(inp: Input, p: int) -> Result<int, ParseError> {
    if is_p(inp, p, Punct::Semi) {
        Ok(p + 1)
    } else if p >= inp.toks.len() || is_p(inp, p, Punct::RBrace) || (0 <= p
        && inp.toks[p].had_line_break) {
        Ok(p)
    } else {
        Err(expected(inp, p, Punct::Semi))
    }
}

pub open spec fn is_var_kw(inp: Input, p: int) -> bool {
    is_kw(inp, p, Keyword::Const) || is_kw(inp, p, Keyword::Let) || is_kw(inp, p, Keyword::Var)
}

pub open spec fn var_kind_at(inp: Input, p: int) -> VarDeclKind {
    if is_kw(inp, p, Keyword::Const) {
        VarDeclKind::Const
    } else if is_kw(inp, p, Keyword::Let) {
        VarDeclKind::Let
    } else {
        VarDeclKind::Var
    }
}

#[verifier::opaque]
pub open spec fn sp_expr_stmt(inp: Input, p: int) -> Result<(SStmt, int), ParseError>
    decreases inp.toks.len() - p, 40int,
{
    match sp_expr(inp, p) {
        Ok((e, p2)) => match sp_semi(inp, p2) {
            Ok(p3) => Ok(
                (
                    SStmt::Expr(
                        SExprStmt { span: span_from(inp, cur_pos(inp, p), p3), expr: Box::new(e) },
                    ),
                    p3,
                ),
            ),
            Err(x) => Err(x),
        },
        Err(x) => Err(x),
    }
}

#[verifier::opaque]
pub open spec fn sp_stmt(inp: Input, p: int) -> Result<(SStmt, int), ParseError>
    decreases inp.toks.len() - p, 50int,
{
    if is_p(inp, p, Punct::LBrace) {
        match sp_block(inp, p) {
            Ok((b, p2)) => Ok((SStmt::Block(b), p2)),
            Err(x) => Err(x),
        }
    } else if is_p(inp, p, Punct::Semi) {
        Ok((SStmt::Empty(SEmptyStmt { span: span_at(inp, p) }), p + 1))
    } else if is_var_kw(inp, p) {
        match sp_var_decl(inp, p) {
            Ok((d, p2)) => match sp_semi(inp, p2) {
                Ok(p3) => Ok((SStmt::Decl(SDecl::Var(Box::new(d))), p3)),
                Err(x) => Err(x),
            },
            Err(x) => Err(x),
        }
    } else if is_kw(inp, p, Keyword::Function) {
        sp_fn_decl(inp, p)
    } else if is_kw(inp, p, Keyword::Class) {
        sp_class_decl(inp, p, cur_pos(inp, p), Seq::empty())
    } else if is_p(inp, p, Punct::At) && !tsrx_start(inp, p) {
        if spec_decorators(inp.syntax) {
            match sp_decorators(inp, p, Seq::empty()) {
                Ok((ds, p2)) => {
                    if is_kw(inp, p2, Keyword::Class) {
                        sp_class_decl(inp, p2, cur_pos(inp, p), ds)
                    } else {
                        Err(unexpected(inp, p2, Expectation::Class))
                    }
                },
                Err(x) => Err(x),
            }
        } else {
            Err(unexpected(inp, p, Expectation::Statement))
        }
    } else {
        sp_expr_stmt(inp, p)
    }
}

/// The statements up to the `}` that closes their block.
#[verifier::opaque]
pub open spec fn sp_stmt_list(inp: Input, p: int, acc: Seq<SStmt>) -> Result<
    (Seq<SStmt>, int),
    ParseError,
>
    decreases inp.toks.len() - p, 60int,
{
    if is_p(inp, p, Punct::RBrace) {
        Ok((acc, p))
    } else if p >= inp.toks.len() || p < 0 {
        Err(expected(inp, p, Punct::RBrace))
    } else {
        match sp_stmt(inp, p) {
            Ok((s, p2)) => {
                if adv(inp, p, p2) {
                    sp_stmt_list(inp, p2, acc.push(s))
                } else {
                    Err(expected(inp, p, Punct::RBrace))
                }
            },
            Err(x) => Err(x),
        }
    }
}

/// `{ stmts }`
#[verifier::opaque]
pub open spec fn sp_block(inp: Input, p: int) -> Result<(SBlockStmt, int), ParseError>
    decreases inp.toks.len() - p, 10int,
{
    if is_p(inp, p, Punct::LBrace) {
        match sp_stmt_list(inp, p + 1, Seq::empty()) {
            Ok((stmts, p2)) => Ok(
                (SBlockStmt { span: span_from(inp, cur_pos(inp, p), p2 + 1), stmts }, p2 + 1),
            ),
            Err(x) => Err(x),
        }
    } else {
        Err(expected(inp, p, Punct::LBrace))
    }
}

pub open spec fn sp_binding_ident(inp: Input, p: int) -> Result<(SBindingIdent, int), ParseError> {
    if tok(inp, p) == Some(Token::Ident) {
        Ok((SBindingIdent { id: ident_at(inp, p) }, p + 1))
    } else {
        Err(unexpected(inp, p, Expectation::Identifier))
    }
}

/// `name` or `name = init`
#[verifier::opaque]
pub open spec fn sp_declarator(inp: Input, p: int) -> Result<(SVarDeclarator, int), ParseError>
    decreases inp.toks.len() - p, 20int,
{
    match sp_binding_ident(inp, p) {
        Ok((bi, p1)) => {
            if is_p(inp, p1, Punct::Eq) {
                match sp_assign(inp, p1 + 1) {
                    Ok((e, p2)) => Ok(
                        (
                            SVarDeclarator {
                                span: span_from(inp, cur_pos(inp, p), p2),
                                name: SPat::Ident(bi),
                                init: Some(Box::new(e)),
                            },
                            p2,
                        ),
                    ),
                    Err(x) => Err(x),
                }
            } else {
                Ok(
                    (
                        SVarDeclarator {
                            span: span_from(inp, cur_pos(inp, p), p1),
                            name: SPat::Ident(bi),
                            init: None,
                        },
                        p1,
                    ),
                )
            }
        },
        Err(x) => Err(x),
    }
}

/// Declarators separated by commas.
#[verifier::opaque]
pub open spec fn sp_declarators(inp: Input, p: int, acc: Seq<SVarDeclarator>) -> Result<
    (Seq<SVarDeclarator>, int),
    ParseError,
>
    decreases inp.toks.len() - p, 30int,
{
    match sp_declarator(inp, p) {
        Ok((d, p2)) => {
            if is_p(inp, p2, Punct::Comma) && adv(inp, p, p2 + 1) {
                sp_declarators(inp, p2 + 1, acc.push(d))
            } else {
                Ok((acc.push(d), p2))
            }
        },
        Err(x) => Err(x),
    }
}

/// `const a = 1, b` (no semicolon)
#[verifier::opaque]
pub open spec fn sp_var_decl(inp: Input, p: int) -> Result<(SVarDecl, int), ParseError>
    decreases inp.toks.len() - p, 10int,
{
    if 0 <= p < inp.toks.len() {
        match sp_declarators(inp, p + 1, Seq::empty()) {
            Ok((decls, p2)) => Ok(
                (
                    SVarDecl {
                        span: span_from(inp, cur_pos(inp, p), p2),
                        kind: var_kind_at(inp, p),
                        decls,
                    },
                    p2,
                ),
            ),
            Err(x) => Err(x),
        }
    } else {
        Err(unexpected(inp, p, Expectation::Statement))
    }
}

/// Parameters up to the closing `)`.
#[verifier::opaque]
pub open spec fn sp_params(inp: Input, p: int, acc: Seq<SParam>) -> Result<
    (Seq<SParam>, int),
    ParseError,
>
    decreases inp.toks.len() - p,
{
    if is_p(inp, p, Punct::RParen) {
        Ok((acc, p))
    } else {
        match sp_binding_ident(inp, p) {
            Ok((bi, p1)) => {
                let param = SParam { span: span_at(inp, p), pat: SPat::Ident(bi) };
                if is_p(inp, p1, Punct::Comma) {
                    sp_params(inp, p1 + 1, acc.push(param))
                } else if is_p(inp, p1, Punct::RParen) {
                    Ok((acc.push(param), p1))
                } else {
                    Err(expected(inp, p1, Punct::RParen))
                }
            },
            Err(x) => Err(x),
        }
    }
}

/// `function name(params) body`, where the body may be a TSRX expression.
#[verifier::opaque]
pub open spec fn sp_fn_decl(inp: Input, p: int) -> Result<(SStmt, int), ParseError>
    decreases inp.toks.len() - p, 10int,
{
    match sp_binding_ident(inp, p + 1) {
        Ok((name, p1)) => {
            if is_p(inp, p1, Punct::LParen) {
                match sp_params(inp, p1 + 1, Seq::empty()) {
                    Ok((params, p2)) => {
                        let p3 = p2 + 1;
                        let body = if !adv(inp, p, p3) {
                            Err(expected(inp, p2, Punct::RParen))
                        } else if tsrx_start(inp, p3) {
                            sp_tsrx_function_body(inp, p3)
                        } else {
                            sp_block(inp, p3)
                        };
                        match body {
                            Ok((b, p4)) => Ok(
                                (
                                    SStmt::Decl(
                                        SDecl::Fn(
                                            SFnDecl {
                                                ident: name.id,
                                                function: Box::new(
                                                    SFunction {
                                                        span: span_from(inp, cur_pos(inp, p), p4),
                                                        params,
                                                        body: Some(b),
                                                    },
                                                ),
                                            },
                                        ),
                                    ),
                                    p4,
                                ),
                            ),
                            Err(x) => Err(x),
                        }
                    },
                    Err(x) => Err(x),
                }
            } else {
                Err(expected(inp, p1, Punct::LParen))
            }
        },
        Err(x) => Err(x),
    }
}

/// `class name {}` at `p`, with the decorators read before it.
pub open spec fn sp_class_decl(
    inp: Input,
    p: int,
    start: usize,
    decorators: Seq<SDecorator>,
) -> Result<(SStmt, int), ParseError> {
    match sp_binding_ident(inp, p + 1) {
        Ok((name, p1)) => {
            if !is_p(inp, p1, Punct::LBrace) {
                Err(expected(inp, p1, Punct::LBrace))
            } else if !is_p(inp, p1 + 1, Punct::RBrace) {
                Err(expected(inp, p1 + 1, Punct::RBrace))
            } else {
                Ok(
                    (
                        SStmt::Decl(
                            SDecl::Class(
                                SClassDecl {
                                    ident: name.id,
                                    class: Box::new(
                                        SClass { span: span_from(inp, start, p1 + 2), decorators },
                                    ),
                                },
                            ),
                        ),
                        p1 + 2,
                    ),
                )
            }
        },
        Err(x) => Err(x),
    }
}

/// `@expr` before a class.
#[verifier::opaque]
pub open spec fn sp_decorator(inp: Input, p: int) -> Result<(SDecorator, int), ParseError>
    decreases inp.toks.len() - p, 10int,
{
    if 0 <= p < inp.toks.len() {
        match sp_expr(inp, p + 1) {
            Ok((e, p2)) => Ok(
                (SDecorator { span: span_from(inp, cur_pos(inp, p), p2), expr: Box::new(e) }, p2),
            ),
            Err(x) => Err(x),
        }
    } else {
        Err(expected(inp, p, Punct::At))
    }
}

#[verifier::opaque]
pub open spec fn sp_decorators(inp: Input, p: int, acc: Seq<SDecorator>) -> Result<
    (Seq<SDecorator>, int),
    ParseError,
>
    decreases inp.toks.len() - p, 20int,
{
    if is_p(inp, p, Punct::At) && !tsrx_start(inp, p) {
        match sp_decorator(inp, p) {
            Ok((d, p2)) => {
                if adv(inp, p, p2) {
                    sp_decorators(inp, p2, acc.push(d))
                } else {
                    Err(unexpected(inp, p, Expectation::Expression))
                }
            },
            Err(x) => Err(x),
        }
    } else {
        Ok((acc, p))
    }
}

#[verifier::opaque]
pub open spec fn sp_module_items(inp: Input, p: int, acc: Seq<SModuleItem>) -> Result<
    (Seq<SModuleItem>, int),
    ParseError,
>
    decreases inp.toks.len() - p,
{
    if p < 0 || p >= inp.toks.len() {
        Ok((acc, p))
    } else {
        match sp_stmt(inp, p) {
            Ok((s, p2)) => {
                if adv(inp, p, p2) {
                    sp_module_items(inp, p2, acc.push(SModuleItem::Stmt(s)))
                } else {
                    Err(unexpected(inp, p, Expectation::Statement))
                }
            },
            Err(x) => Err(x),
        }
    }
}

/// The statements from `p` to the end as a module, whose span covers the
/// whole source text.
pub open spec fn sp_module(inp: Input, p: int) -> Result<SModule, ParseError> {
    match sp_module_items(inp, p, Seq::empty()) {
        Ok((items, _)) => Ok(
            SModule { span: Span { lo: 0, hi: inp.src.len() as usize }, body: items },
        ),
        Err(x) => Err(x),
    }
}

// ---------------------------------------------------------------------------
// `for` heads
// ---------------------------------------------------------------------------
pub open spec fn pat_of_expr(e: SExpr) -> SPat {
    match e {
        SExpr::Ident(i) => SPat::Ident(SBindingIdent { id: i }),
        _ => SPat::Expr(Box::new(e)),
    }
}

/// `; test ; update` after the initializer of a three-part head.
#[verifier::opaque]
pub open spec fn sp_for_tail(inp: Input, p: int, init: Option<SVarDeclOrExpr>) -> Result<
    (STempForHead, int),
    ParseError,
>
    decreases inp.toks.len() - p, 10int,
{
    if !is_p(inp, p, Punct::Semi) {
        Err(expected(inp, p, Punct::Semi))
    } else {
        let test = if is_p(inp, p + 1, Punct::Semi) {
            Ok((None::<Box<SExpr>>, p + 1))
        } else {
            match sp_expr(inp, p + 1) {
                Ok((e, p2)) => Ok((Some(Box::new(e)), p2)),
                Err(x) => Err(x),
            }
        };
        match test {
            Ok((test, p2)) => {
                if !is_p(inp, p2, Punct::Semi) {
                    Err(expected(inp, p2, Punct::Semi))
                } else if is_p(inp, p2 + 1, Punct::RParen) {
                    Ok((STempForHead::For { init, test, update: None }, p2 + 1))
                } else if adv(inp, p, p2 + 1) {
                    match sp_expr(inp, p2 + 1) {
                        Ok((u, p3)) => Ok(
                            (STempForHead::For { init, test, update: Some(Box::new(u)) }, p3),
                        ),
                        Err(x) => Err(x),
                    }
                } else {
                    Err(unexpected(inp, p2 + 1, Expectation::Expression))
                }
            },
            Err(x) => Err(x),
        }
    }
}

/// The left side of a `for-in`/`for-of` head made from what was read first.
pub open spec fn head_left(v: SVarDeclOrExpr) -> SForHead {
    match v {
        SVarDeclOrExpr::VarDecl(d) => SForHead::VarDecl(d),
        SVarDeclOrExpr::Expr(e) => SForHead::Pat(Box::new(pat_of_expr(*e))),
    }
}

/// The `of`/`in` part after a loop's left side, or the rest of a three-part
/// head; `first` was read from `p0` to `p`.
#[verifier::opaque]
pub open spec fn sp_for_head_rest(inp: Input, p0: int, p: int, first: SVarDeclOrExpr) -> Result<
    (STempForHead, int),
    ParseError,
>
    decreases inp.toks.len() - p0, 20int,
{
    if !adv(inp, p0, p) {
        Err(unexpected(inp, p, Expectation::Expression))
    } else if is_word_at(inp, p, word_of()) {
        match sp_expr(inp, p + 1) {
            Ok((r, p2)) => Ok((STempForHead::ForOf { left: head_left(first), right: Box::new(r) }, p2)),
            Err(x) => Err(x),
        }
    } else if is_kw(inp, p, Keyword::In) {
        match sp_expr(inp, p + 1) {
            Ok((r, p2)) => Ok((STempForHead::ForIn { left: head_left(first), right: Box::new(r) }, p2)),
            Err(x) => Err(x),
        }
    } else {
        sp_for_tail(inp, p, Some(first))
    }
}

/// The head of a `for` loop, in any of its three forms.
#[verifier::opaque]
pub open spec fn sp_for_head(inp: Input, p: int) -> Result<(STempForHead, int), ParseError>
    decreases inp.toks.len() - p, 40int,
{
    if is_var_kw(inp, p) {
        match sp_var_decl(inp, p) {
            Ok((d, p2)) => sp_for_head_rest(inp, p, p2, SVarDeclOrExpr::VarDecl(Box::new(d))),
            Err(x) => Err(x),
        }
    } else if is_p(inp, p, Punct::Semi) {
        sp_for_tail(inp, p, None)
    } else {
        match sp_expr(inp, p) {
            Ok((e, p2)) => sp_for_head_rest(inp, p, p2, SVarDeclOrExpr::Expr(Box::new(e))),
            Err(x) => Err(x),
        }
    }
}

// ---------------------------------------------------------------------------
// JSX
// ---------------------------------------------------------------------------
/// A token that belongs to the text between tags.
pub open spec fn is_text_tok(inp: Input, p: int) -> bool {
    !is_p(inp, p, Punct::Lt) && !is_p(inp, p, Punct::LBrace) && !tsrx_start(inp, p)
}

/// The first position at or after `p` that does not hold text.
pub open spec fn text_end(inp: Input, p: int) -> int
    decreases inp.toks.len() - p,
{
    if 0 <= p < inp.toks.len() && is_text_tok(inp, p) {
        text_end(inp, p + 1)
    } else {
        p
    }
}

pub open spec fn is_style_close_at(inp: Input, p: int) -> bool {
    &&& is_p(inp, p, Punct::Lt)
    &&& is_p(inp, p + 1, Punct::Slash)
    &&& is_word_at(inp, p + 2, word_style())
    &&& is_p(inp, p + 3, Punct::Gt)
}

/// The first position at or after `p` that holds `</style>`.
pub open spec fn style_close(inp: Input, p: int) -> int
    decreases inp.toks.len() - p,
{
    if 0 <= p < inp.toks.len() && !is_style_close_at(inp, p) {
        style_close(inp, p + 1)
    } else {
        p
    }
}

pub open spec fn names_match(a: SJSXElementName, b: SJSXElementName) -> bool {
    match (a, b) {
        (SJSXElementName::Ident(x), SJSXElementName::Ident(y)) => x.sym == y.sym,
        (SJSXElementName::JSXExprContainer(_), SJSXElementName::JSXExprContainer(_)) => true,
        _ => false,
    }
}

pub open spec fn is_style_name(n: SJSXElementName) -> bool {
    n matches SJSXElementName::Ident(i) && i.sym == word_style()
}

pub open spec fn child_of_expr(e: SExpr) -> SJSXElementChild {
    match e {
        SExpr::JSXElement(el) => SJSXElementChild::JSXElement(el),
        SExpr::JSXFragment(f) => SJSXElementChild::JSXFragment(f),
        SExpr::Tsrx(t) => SJSXElementChild::Tsrx(t),
        _ => SJSXElementChild::JSXExprContainer(
            SJSXExprContainer { span: expr_span(e), expr: Box::new(e) },
        ),
    }
}

/// A tag name: a word, or `{expr}` in TSRX.
#[verifier::opaque]
pub open spec fn sp_jsx_name(inp: Input, p: int) -> Result<(SJSXElementName, int), ParseError>
    decreases inp.toks.len() - p, 10int,
{
    if tok(inp, p) matches Some(t) && spec_is_word(t) {
        Ok((SJSXElementName::Ident(ident_at(inp, p)), p + 1))
    } else if spec_tsrx(inp.syntax) && is_p(inp, p, Punct::LBrace) {
        match sp_expr(inp, p + 1) {
            Ok((e, p2)) => {
                if is_p(inp, p2, Punct::RBrace) {
                    Ok(
                        (
                            SJSXElementName::JSXExprContainer(
                                SJSXExprContainer {
                                    span: span_from(inp, cur_pos(inp, p), p2 + 1),
                                    expr: Box::new(e),
                                },
                            ),
                            p2 + 1,
                        ),
                    )
                } else {
                    Err(expected(inp, p2, Punct::RBrace))
                }
            },
            Err(x) => Err(x),
        }
    } else {
        Err(unexpected(inp, p, Expectation::JsxName))
    }
}

/// The value after `name=`.
#[verifier::opaque]
pub open spec fn sp_jsx_attr_value(inp: Input, p: int) -> Result<(SJSXAttrValue, int), ParseError>
    decreases inp.toks.len() - p, 10int,
{
    if tok(inp, p) == Some(Token::Str) {
        Ok((SJSXAttrValue::Str(str_at(inp, p)), p + 1))
    } else if is_p(inp, p, Punct::LBrace) {
        match sp_expr(inp, p + 1) {
            Ok((e, p2)) => {
                if is_p(inp, p2, Punct::RBrace) {
                    Ok(
                        (
                            SJSXAttrValue::JSXExprContainer(
                                SJSXExprContainer {
                                    span: span_from(inp, cur_pos(inp, p), p2 + 1),
                                    expr: Box::new(e),
                                },
                            ),
                            p2 + 1,
                        ),
                    )
                } else {
                    Err(expected(inp, p2, Punct::RBrace))
                }
            },
            Err(x) => Err(x),
        }
    } else {
        Err(unexpected(inp, p, Expectation::JsxAttrValue))
    }
}

/// Whether an attribute starts at `p`: a word, or `{` in TSRX.
pub open spec fn starts_attr(inp: Input, p: int) -> bool {
    (tok(inp, p) matches Some(t) && spec_is_word(t)) || (spec_tsrx(inp.syntax) && is_p(
        inp,
        p,
        Punct::LBrace,
    ))
}

/// One attribute: `name`, `name=value`, or the TSRX shorthand `{name}`.
#[verifier::opaque]
pub open spec fn sp_jsx_attr(inp: Input, p: int) -> Result<(SJSXAttrOrSpread, int), ParseError>
    decreases inp.toks.len() - p, 10int,
{
    if tok(inp, p) matches Some(t) && spec_is_word(t) {
        let name = ident_at(inp, p);
        let value = if is_p(inp, p + 1, Punct::Eq) {
            match sp_jsx_attr_value(inp, p + 2) {
                Ok((v, p2)) => Ok((Some(v), p2)),
                Err(x) => Err(x),
            }
        } else {
            Ok((None::<SJSXAttrValue>, p + 1))
        };
        match value {
            Ok((v, p2)) => Ok(
                (
                    SJSXAttrOrSpread::JSXAttr(
                        SJSXAttr {
                            span: span_from(inp, cur_pos(inp, p), p2),
                            name,
                            value: v,
                            shorthand: false,
                        },
                    ),
                    p2,
                ),
            ),
            Err(x) => Err(x),
        }
    } else if tok(inp, p + 1) == Some(Token::Ident) && is_p(inp, p + 2, Punct::RBrace) {
        let name = ident_at(inp, p + 1);
        let span = span_from(inp, cur_pos(inp, p), p + 3);
        Ok(
            (
                SJSXAttrOrSpread::JSXAttr(
                    SJSXAttr {
                        span,
                        name,
                        value: Some(
                            SJSXAttrValue::JSXExprContainer(
                                SJSXExprContainer { span, expr: Box::new(SExpr::Ident(name)) },
                            ),
                        ),
                        shorthand: true,
                    },
                ),
                p + 3,
            ),
        )
    } else if tok(inp, p + 1) == Some(Token::Ident) {
        Err(expected(inp, p + 2, Punct::RBrace))
    } else {
        Err(unexpected(inp, p + 1, Expectation::Identifier))
    }
}

/// The attributes of an opening tag, up to `/` or `>`.
#[verifier::opaque]
pub open spec fn sp_jsx_attrs(inp: Input, p: int, acc: Seq<SJSXAttrOrSpread>) -> Result<
    (Seq<SJSXAttrOrSpread>, int),
    ParseError,
>
    decreases inp.toks.len() - p, 20int,
{
    if starts_attr(inp, p) {
        match sp_jsx_attr(inp, p) {
            Ok((a, p2)) => {
                if adv(inp, p, p2) {
                    sp_jsx_attrs(inp, p2, acc.push(a))
                } else {
                    Err(unexpected(inp, p, Expectation::JsxAttr))
                }
            },
            Err(x) => Err(x),
        }
    } else {
        Ok((acc, p))
    }
}

/// `</name>` at `q`.
#[verifier::opaque]
pub open spec fn sp_jsx_closing(inp: Input, q: int) -> Result<(SJSXClosingElement, int), ParseError>
    decreases inp.toks.len() - q, 10int,
{
    if 0 <= q && q + 2 <= inp.toks.len() {
        match sp_jsx_name(inp, q + 2) {
            Ok((name, q2)) => {
                if is_p(inp, q2, Punct::Gt) {
                    Ok(
                        (
                            SJSXClosingElement { span: span_from(inp, cur_pos(inp, q), q2 + 1), name },
                            q2 + 1,
                        ),
                    )
                } else {
                    Err(expected(inp, q2, Punct::Gt))
                }
            },
            Err(x) => Err(x),
        }
    } else {
        Err(unexpected(inp, q, Expectation::JsxClosingTag))
    }
}

/// One child that is not text: an element, `{expr}`, or a TSRX directive.
#[verifier::opaque]
pub open spec fn sp_jsx_child_item(inp: Input, q: int) -> Result<(SJSXElementChild, int), ParseError>
    decreases inp.toks.len() - q, 20int,
{
    if is_p(inp, q, Punct::Lt) {
        match sp_jsx_element(inp, q) {
            Ok((e, q2)) => Ok((child_of_expr(e), q2)),
            Err(x) => Err(x),
        }
    } else if is_p(inp, q, Punct::LBrace) {
        match sp_expr(inp, q + 1) {
            Ok((e, q2)) => {
                if is_p(inp, q2, Punct::RBrace) {
                    Ok(
                        (
                            SJSXElementChild::JSXExprContainer(
                                SJSXExprContainer {
                                    span: span_from(inp, cur_pos(inp, q), q2 + 1),
                                    expr: Box::new(e),
                                },
                            ),
                            q2 + 1,
                        ),
                    )
                } else {
                    Err(expected(inp, q2, Punct::RBrace))
                }
            },
            Err(x) => Err(x),
        }
    } else if tsrx_start(inp, q) {
        match sp_tsrx_expr(inp, q) {
            Ok((e, q2)) => Ok((child_of_expr(e), q2)),
            Err(x) => Err(x),
        }
    } else {
        Err(unexpected(inp, q, Expectation::JsxClosingTag))
    }
}

/// The children of an element, up to the `</` of its closing tag. The text
/// between two children is the source between them, whitespace included.
#[verifier::opaque]
pub open spec fn sp_jsx_children(inp: Input, p: int, acc: Seq<SJSXElementChild>) -> Result<
    (Seq<SJSXElementChild>, int),
    ParseError,
>
    decreases inp.toks.len() - p, 30int,
{
    let q = text_end(inp, p);
    if p < 0 || q >= inp.toks.len() {
        Err(unexpected(inp, q, Expectation::JsxClosingTag))
    } else {
        let lo = last_pos(inp, p);
        let hi = cur_pos(inp, q);
        let acc2 = if lo < hi {
            acc.push(
                SJSXElementChild::JSXText(
                    SJSXText { span: Span { lo, hi }, value: text(inp, lo as int, hi as int) },
                ),
            )
        } else {
            acc
        };
        if is_p(inp, q, Punct::Lt) && is_p(inp, q + 1, Punct::Slash) {
            Ok((acc2, q))
        } else if p <= q {
            match sp_jsx_child_item(inp, q) {
                Ok((c, q2)) => {
                    if adv(inp, p, q2) {
                        sp_jsx_children(inp, q2, acc2.push(c))
                    } else {
                        Err(unexpected(inp, q, Expectation::JsxClosingTag))
                    }
                },
                Err(x) => Err(x),
            }
        } else {
            Err(unexpected(inp, q, Expectation::JsxClosingTag))
        }
    }
}

/// The raw CSS of a TSRX `<style>` element, from `p` (just after the opening
/// tag) to `</style>`.
pub open spec fn sp_style_body(inp: Input, start: usize, opening: SJSXOpeningElement, p: int) -> Result<
    (SExpr, int),
    ParseError,
> {
    let q = style_close(inp, p);
    if q >= inp.toks.len() || q < 0 {
        Err(unexpected(inp, q, Expectation::JsxClosingTag))
    } else {
        let closing = SJSXClosingElement {
            span: span_from(inp, cur_pos(inp, q), q + 4),
            name: SJSXElementName::Ident(ident_at(inp, q + 2)),
        };
        Ok(
            (
                SExpr::Tsrx(
                    Box::new(
                        STsrxExpr::StyleElement(
                            Box::new(
                                SJSXStyleElement {
                                    span: span_from(inp, start, q + 4),
                                    opening,
                                    css: text(
                                        inp,
                                        last_pos(inp, p) as int,
                                        cur_pos(inp, q) as int,
                                    ),
                                    closing,
                                },
                            ),
                        ),
                    ),
                ),
                q + 4,
            ),
        )
    }
}

/// `<>children</>` at `p`.
#[verifier::opaque]
pub open spec fn sp_jsx_fragment(inp: Input, p: int) -> Result<(SExpr, int), ParseError>
    decreases inp.toks.len() - p, 0int,
{
    if !(0 <= p && p + 2 <= inp.toks.len()) {
        Err(expected(inp, p, Punct::Lt))
    } else {
        match sp_jsx_children(inp, p + 2, Seq::empty()) {
            Ok((cs, q)) => {
                if is_p(inp, q + 2, Punct::Gt) {
                    Ok(
                        (
                            SExpr::JSXFragment(
                                SJSXFragment { span: span_from(inp, cur_pos(inp, p), q + 3), children: cs },
                            ),
                            q + 3,
                        ),
                    )
                } else {
                    Err(expected(inp, q + 2, Punct::Gt))
                }
            },
            Err(x) => Err(x),
        }
    }
}

/// What follows the `>` of an opening tag (at `p`): a `<style>` body, or the
/// children and the closing tag.
#[verifier::opaque]
pub open spec fn sp_jsx_element_body(
    inp: Input,
    start: usize,
    opening: SJSXOpeningElement,
    p: int,
) -> Result<(SExpr, int), ParseError>
    decreases inp.toks.len() - p, 40int,
{
    if spec_tsrx(inp.syntax) && is_style_name(opening.name) {
        sp_style_body(inp, start, opening, p)
    } else {
        match sp_jsx_children(inp, p, Seq::empty()) {
            Ok((cs, q)) => {
                if !adv(inp, p, q + 1) {
                    Err(unexpected(inp, q, Expectation::JsxClosingTag))
                } else {
                    match sp_jsx_closing(inp, q) {
                        Ok((cl, q2)) => {
                            if names_match(opening.name, cl.name) {
                                Ok(
                                    (
                                        SExpr::JSXElement(
                                            Box::new(
                                                SJSXElement {
                                                    span: span_from(inp, start, q2),
                                                    opening,
                                                    children: cs,
                                                    closing: Some(cl),
                                                },
                                            ),
                                        ),
                                        q2,
                                    ),
                                )
                            } else {
                                Err(err_at(inp, q, ErrorKind::ClosingTagMismatch))
                            }
                        },
                        Err(x) => Err(x),
                    }
                }
            },
            Err(x) => Err(x),
        }
    }
}

/// An element with a tag at `p` (which holds `<`).
#[verifier::opaque]
pub open spec fn sp_jsx_tag(inp: Input, p: int) -> Result<(SExpr, int), ParseError>
    decreases inp.toks.len() - p, 0int,
{
    let start = cur_pos(inp, p);
    if !(0 <= p < inp.toks.len()) {
        Err(expected(inp, p, Punct::Lt))
    } else {
        match sp_jsx_name(inp, p + 1) {
            Ok((name, p2)) => {
                if !adv(inp, p, p2) {
                    Err(unexpected(inp, p2, Expectation::JsxName))
                } else {
                    match sp_jsx_attrs(inp, p2, Seq::empty()) {
                        Ok((attrs, p3)) => {
                            if is_p(inp, p3, Punct::Slash) {
                                if is_p(inp, p3 + 1, Punct::Gt) {
                                    let opening = SJSXOpeningElement {
                                        span: span_from(inp, start, p3 + 2),
                                        name,
                                        attrs,
                                        self_closing: true,
                                    };
                                    Ok(
                                        (
                                            SExpr::JSXElement(
                                                Box::new(
                                                    SJSXElement {
                                                        span: span_from(inp, start, p3 + 2),
                                                        opening,
                                                        children: Seq::empty(),
                                                        closing: None,
                                                    },
                                                ),
                                            ),
                                            p3 + 2,
                                        ),
                                    )
                                } else {
                                    Err(expected(inp, p3 + 1, Punct::Gt))
                                }
                            } else if is_p(inp, p3, Punct::Gt) && adv(inp, p, p3 + 1) {
                                let opening = SJSXOpeningElement {
                                    span: span_from(inp, start, p3 + 1),
                                    name,
                                    attrs,
                                    self_closing: false,
                                };
                                sp_jsx_element_body(inp, start, opening, p3 + 1)
                            } else {
                                Err(unexpected(inp, p3, Expectation::JsxAttr))
                            }
                        },
                        Err(x) => Err(x),
                    }
                }
            },
            Err(x) => Err(x),
        }
    }
}

/// An element or a fragment at `p` (which holds `<`).
#[verifier::opaque]
pub open spec fn sp_jsx_element(inp: Input, p: int) -> Result<(SExpr, int), ParseError>
    decreases inp.toks.len() - p, 10int,
{
    if !(0 <= p < inp.toks.len()) {
        Err(expected(inp, p, Punct::Lt))
    } else if is_p(inp, p + 1, Punct::Gt) {
        sp_jsx_fragment(inp, p)
    } else {
        sp_jsx_tag(inp, p)
    }
}

// ---------------------------------------------------------------------------
// TSRX
// ---------------------------------------------------------------------------
/// Whether an expression is rendered when it ends a code block.
pub open spec fn spec_is_tsrx_render_expr(e: SExpr) -> bool {
    e is JSXElement || e is JSXFragment || e is Tsrx
}

/// A code block from a block: a final rendered expression statement moves to
/// `render`, the other statements stay in `body`.
pub open spec fn spec_code_block_from_block(b: SBlockStmt, is_function_body: bool) -> SJSXCodeBlock {
    let plain = SJSXCodeBlock { span: b.span, body: b.stmts, render: None, is_function_body };
    if b.stmts.len() > 0 {
        match b.stmts.last() {
            SStmt::Expr(es) => {
                if spec_is_tsrx_render_expr(*es.expr) {
                    SJSXCodeBlock {
                        span: b.span,
                        body: b.stmts.drop_last(),
                        render: Some(es.expr),
                        is_function_body,
                    }
                } else {
                    plain
                }
            },
            _ => plain,
        }
    } else {
        plain
    }
}

#[verifier::opaque]
pub open spec fn sp_tsrx_code_block(inp: Input, p: int, is_function_body: bool) -> Result<
    (SJSXCodeBlock, int),
    ParseError,
>
    decreases inp.toks.len() - p, 20int,
{
    match sp_block(inp, p) {
        Ok((b, p2)) => Ok((spec_code_block_from_block(b, is_function_body), p2)),
        Err(x) => Err(x),
    }
}

/// `( expr )`
#[verifier::opaque]
pub open spec fn sp_tsrx_condition(inp: Input, p: int) -> Result<(SExpr, int), ParseError>
    decreases inp.toks.len() - p, 10int,
{
    if !is_p(inp, p, Punct::LParen) {
        Err(expected(inp, p, Punct::LParen))
    } else {
        match sp_expr(inp, p + 1) {
            Ok((e, p2)) => {
                if is_p(inp, p2, Punct::RParen) {
                    Ok((e, p2 + 1))
                } else {
                    Err(expected(inp, p2, Punct::RParen))
                }
            },
            Err(x) => Err(x),
        }
    }
}

/// `if (test) { .. }` at `p` (which holds `if`), with an optional
/// `@else if ..` or `@else { .. }`.
#[verifier::opaque]
pub open spec fn sp_tsrx_if(inp: Input, p: int, start: usize) -> Result<(SJSXIfExpr, int), ParseError>
    decreases inp.toks.len() - p, 10int,
{
    if !(0 <= p < inp.toks.len()) {
        Err(unexpected(inp, p, Expectation::TsrxContainer))
    } else {
        match sp_tsrx_condition(inp, p + 1) {
            Ok((test, p1)) => {
                if !adv(inp, p, p1) {
                    Err(expected(inp, p1, Punct::LBrace))
                } else {
                    match sp_tsrx_code_block(inp, p1, false) {
                        Ok((consequent, p2)) => {
                            let alternate = if is_p(inp, p2, Punct::At) && is_kw(
                                inp,
                                p2 + 1,
                                Keyword::Else,
                            ) && adv(inp, p, p2) {
                                if is_kw(inp, p2 + 2, Keyword::If) {
                                    match sp_tsrx_if(inp, p2 + 2, cur_pos(inp, p2 + 2)) {
                                        Ok((nested, p3)) => Ok(
                                            (Some(SJSXIfAlternate::If(Box::new(nested))), p3),
                                        ),
                                        Err(x) => Err(x),
                                    }
                                } else {
                                    match sp_tsrx_code_block(inp, p2 + 2, false) {
                                        Ok((b, p3)) => Ok(
                                            (Some(SJSXIfAlternate::CodeBlock(b)), p3),
                                        ),
                                        Err(x) => Err(x),
                                    }
                                }
                            } else {
                                Ok((None::<SJSXIfAlternate>, p2))
                            };
                            match alternate {
                                Ok((alternate, p3)) => Ok(
                                    (
                                        SJSXIfExpr {
                                            span: span_from(inp, start, p3),
                                            test: Box::new(test),
                                            consequent,
                                            alternate,
                                        },
                                        p3,
                                    ),
                                ),
                                Err(x) => Err(x),
                            }
                        },
                        Err(x) => Err(x),
                    }
                }
            },
            Err(x) => Err(x),
        }
    }
}

/// The `; index name` and `; key expr` options of a `@for` head.
#[verifier::opaque]
pub open spec fn sp_for_options(
    inp: Input,
    p: int,
    index: Option<SIdent>,
    key: Option<Box<SExpr>>,
) -> Result<((Option<SIdent>, Option<Box<SExpr>>), int), ParseError>
    decreases inp.toks.len() - p, 10int,
{
    if is_p(inp, p, Punct::Semi) {
        if is_word_at(inp, p + 1, word_index()) {
            match sp_binding_ident(inp, p + 2) {
                Ok((bi, p3)) => sp_for_options(inp, p3, Some(bi.id), key),
                Err(x) => Err(x),
            }
        } else if is_word_at(inp, p + 1, word_key()) {
            match sp_assign(inp, p + 2) {
                Ok((e, p3)) => {
                    if adv(inp, p, p3) {
                        sp_for_options(inp, p3, index, Some(Box::new(e)))
                    } else {
                        Err(unexpected(inp, p + 1, Expectation::IndexOrKey))
                    }
                },
                Err(x) => Err(x),
            }
        } else {
            Err(unexpected(inp, p + 1, Expectation::IndexOrKey))
        }
    } else {
        Ok(((index, key), p))
    }
}

/// The `@for` expression built from its parts.
pub open spec fn spec_for_expr(
    span: Span,
    head: STempForHead,
    is_await: bool,
    body: SJSXCodeBlock,
    index: Option<SIdent>,
    key: Option<Box<SExpr>>,
    empty: Option<SJSXCodeBlock>,
) -> SJSXForExpr {
    match head {
        STempForHead::For { init, test, update } => SJSXForExpr {
            span,
            kind: JSXForKind::ForStatement,
            init,
            test,
            update,
            left: None,
            right: None,
            is_await,
            body,
            index,
            key,
            empty,
        },
        STempForHead::ForIn { left, right } => SJSXForExpr {
            span,
            kind: JSXForKind::ForInStatement,
            init: None,
            test: None,
            update: None,
            left: Some(left),
            right: Some(right),
            is_await,
            body,
            index,
            key,
            empty,
        },
        STempForHead::ForOf { left, right } => SJSXForExpr {
            span,
            kind: JSXForKind::ForOfStatement,
            init: None,
            test: None,
            update: None,
            left: Some(left),
            right: Some(right),
            is_await,
            body,
            index,
            key,
            empty,
        },
    }
}

/// `@name { .. }` at `p`, or nothing when the next tokens are not `@name`.
#[verifier::opaque]
pub open spec fn sp_tsrx_named_block(inp: Input, p: int, name: Seq<char>) -> Result<
    (Option<SJSXCodeBlock>, int),
    ParseError,
>
    decreases inp.toks.len() - p, 10int,
{
    if !is_p(inp, p, Punct::At) || !is_word_at(inp, p + 1, name) {
        Ok((None, p))
    } else {
        match sp_tsrx_code_block(inp, p + 2, false) {
            Ok((b, p2)) => Ok((Some(b), p2)),
            Err(x) => Err(x),
        }
    }
}

/// What follows the head of a `@for` (read from `p0` up to `p`): the
/// options, `)`, the body and an optional `@empty` block.
#[verifier::opaque]
pub open spec fn sp_tsrx_for_rest(
    inp: Input,
    p0: int,
    p: int,
    start: usize,
    is_await: bool,
    head: STempForHead,
) -> Result<(SJSXForExpr, int), ParseError>
    decreases inp.toks.len() - p0, 0int,
{
    if !adv(inp, p0, p) {
        Err(expected(inp, p, Punct::RParen))
    } else {
        match sp_for_options(inp, p, None, None) {
            Ok(((index, key), p3)) => {
                if !is_p(inp, p3, Punct::RParen) || !adv(inp, p0, p3 + 1) {
                    Err(expected(inp, p3, Punct::RParen))
                } else {
                    match sp_tsrx_code_block(inp, p3 + 1, false) {
                        Ok((body, p4)) => {
                            if !adv(inp, p0, p4) {
                                Err(expected(inp, p4, Punct::LBrace))
                            } else {
                                match sp_tsrx_named_block(inp, p4, word_empty()) {
                                    Ok((empty, p5)) => Ok(
                                        (
                                            spec_for_expr(
                                                span_from(inp, start, p5),
                                                head,
                                                is_await,
                                                body,
                                                index,
                                                key,
                                                empty,
                                            ),
                                            p5,
                                        ),
                                    ),
                                    Err(x) => Err(x),
                                }
                            }
                        },
                        Err(x) => Err(x),
                    }
                }
            },
            Err(x) => Err(x),
        }
    }
}

/// `for [await] (head [; index i] [; key k]) { .. } [@empty { .. }]` at `p`.
#[verifier::opaque]
pub open spec fn sp_tsrx_for(inp: Input, p: int, start: usize) -> Result<(SJSXForExpr, int), ParseError>
    decreases inp.toks.len() - p, 10int,
{
    let is_await = is_kw(inp, p + 1, Keyword::Await);
    let p1 = if is_await { p + 2 } else { p + 1 };
    if !(0 <= p < inp.toks.len()) || !(p1 < inp.toks.len()) {
        Err(expected(inp, p1, Punct::LParen))
    } else if !is_p(inp, p1, Punct::LParen) {
        Err(expected(inp, p1, Punct::LParen))
    } else {
        match sp_for_head(inp, p1 + 1) {
            Ok((head, p2)) => sp_tsrx_for_rest(inp, p, p2, start, is_await, head),
            Err(x) => Err(x),
        }
    }
}

/// `@case expr: { .. }` and `@default: { .. }` up to the closing `}`.
#[verifier::opaque]
pub open spec fn sp_switch_cases(inp: Input, p: int, acc: Seq<SJSXSwitchCase>) -> Result<
    (Seq<SJSXSwitchCase>, int),
    ParseError,
>
    decreases inp.toks.len() - p, 10int,
{
    if is_p(inp, p, Punct::RBrace) {
        Ok((acc, p))
    } else if !is_p(inp, p, Punct::At) {
        Err(expected(inp, p, Punct::At))
    } else {
        let test = if is_kw(inp, p + 1, Keyword::Case) {
            match sp_expr(inp, p + 2) {
                Ok((e, p2)) => Ok((Some(Box::new(e)), p2)),
                Err(x) => Err(x),
            }
        } else if is_kw(inp, p + 1, Keyword::Default) {
            Ok((None::<Box<SExpr>>, p + 2))
        } else {
            Err(unexpected(inp, p + 1, Expectation::CaseOrDefault))
        };
        match test {
            Ok((test, p2)) => {
                if !is_p(inp, p2, Punct::Colon) {
                    Err(expected(inp, p2, Punct::Colon))
                } else if !adv(inp, p, p2 + 1) {
                    Err(expected(inp, p2, Punct::Colon))
                } else {
                    match sp_tsrx_code_block(inp, p2 + 1, false) {
                        Ok((consequent, p3)) => {
                            let case = SJSXSwitchCase {
                                span: span_from(inp, cur_pos(inp, p), p3),
                                test,
                                consequent,
                            };
                            if adv(inp, p, p3) {
                                sp_switch_cases(inp, p3, acc.push(case))
                            } else {
                                Err(expected(inp, p3, Punct::RBrace))
                            }
                        },
                        Err(x) => Err(x),
                    }
                }
            },
            Err(x) => Err(x),
        }
    }
}

/// `switch (discriminant) { cases }` at `p`.
#[verifier::opaque]
pub open spec fn sp_tsrx_switch(inp: Input, p: int, start: usize) -> Result<
    (SJSXSwitchExpr, int),
    ParseError,
>
    decreases inp.toks.len() - p, 10int,
{
    if !(0 <= p < inp.toks.len()) {
        Err(unexpected(inp, p, Expectation::TsrxContainer))
    } else {
        match sp_tsrx_condition(inp, p + 1) {
            Ok((d, p1)) => {
                if !is_p(inp, p1, Punct::LBrace) {
                    Err(expected(inp, p1, Punct::LBrace))
                } else if !adv(inp, p, p1 + 1) {
                    Err(expected(inp, p1, Punct::LBrace))
                } else {
                    match sp_switch_cases(inp, p1 + 1, Seq::empty()) {
                        Ok((cases, q)) => Ok(
                            (
                                SJSXSwitchExpr {
                                    span: span_from(inp, start, q + 1),
                                    discriminant: Box::new(d),
                                    cases,
                                },
                                q + 1,
                            ),
                        ),
                        Err(x) => Err(x),
                    }
                }
            },
            Err(x) => Err(x),
        }
    }
}

/// `@catch (param, reset) { .. }` at `p` (which holds `@`).
#[verifier::opaque]
pub open spec fn sp_catch_clause(inp: Input, p: int) -> Result<(SJSXCatchClause, int), ParseError>
    decreases inp.toks.len() - p, 10int,
{
    if !is_p(inp, p + 2, Punct::LParen) {
        Err(expected(inp, p + 2, Punct::LParen))
    } else {
        let param = if is_p(inp, p + 3, Punct::RParen) {
            Ok((None::<SPat>, p + 3))
        } else {
            match sp_binding_ident(inp, p + 3) {
                Ok((bi, p4)) => Ok((Some(SPat::Ident(bi)), p4)),
                Err(x) => Err(x),
            }
        };
        match param {
            Ok((param, p4)) => {
                let reset = if is_p(inp, p4, Punct::Comma) {
                    match sp_binding_ident(inp, p4 + 1) {
                        Ok((bi, p5)) => Ok((Some(bi.id), p5)),
                        Err(x) => Err(x),
                    }
                } else {
                    Ok((None::<SIdent>, p4))
                };
                match reset {
                    Ok((reset, p5)) => {
                        if !is_p(inp, p5, Punct::RParen) {
                            Err(expected(inp, p5, Punct::RParen))
                        } else if !adv(inp, p, p5 + 1) {
                            Err(expected(inp, p5, Punct::RParen))
                        } else {
                            match sp_tsrx_code_block(inp, p5 + 1, false) {
                                Ok((body, p6)) => Ok(
                                    (
                                        SJSXCatchClause {
                                            span: span_from(inp, cur_pos(inp, p), p6),
                                            param,
                                            reset,
                                            body,
                                        },
                                        p6,
                                    ),
                                ),
                                Err(x) => Err(x),
                            }
                        }
                    },
                    Err(x) => Err(x),
                }
            },
            Err(x) => Err(x),
        }
    }
}

/// The optional `@catch` clause of a `@try`, at `p2` (after `p0`).
#[verifier::opaque]
pub open spec fn sp_try_handler(inp: Input, p0: int, p2: int) -> Result<
    (Option<SJSXCatchClause>, int),
    ParseError,
>
    decreases inp.toks.len() - p0, 0int,
{
    if is_p(inp, p2, Punct::At) && is_kw(inp, p2 + 1, Keyword::Catch) && adv(inp, p0, p2) {
        match sp_catch_clause(inp, p2) {
            Ok((c, p3)) => Ok((Some(c), p3)),
            Err(x) => Err(x),
        }
    } else {
        Ok((None, p2))
    }
}

/// `try { .. } [@pending { .. }] [@catch (..) { .. }]` at `p`.
#[verifier::opaque]
pub open spec fn sp_tsrx_try(inp: Input, p: int, start: usize) -> Result<(SJSXTryExpr, int), ParseError>
    decreases inp.toks.len() - p, 10int,
{
    if !(0 <= p < inp.toks.len()) {
        Err(unexpected(inp, p, Expectation::TsrxContainer))
    } else {
        match sp_tsrx_code_block(inp, p + 1, false) {
            Ok((block, p1)) => {
                if !adv(inp, p, p1) {
                    Err(expected(inp, p1, Punct::LBrace))
                } else {
                    match sp_tsrx_named_block(inp, p1, word_pending()) {
                        Ok((pending, p2)) => match sp_try_handler(inp, p, p2) {
                            Ok((handler, p3)) => Ok(
                                (
                                    SJSXTryExpr {
                                        span: span_from(inp, start, p3),
                                        block,
                                        pending,
                                        handler,
                                        finalizer: None,
                                    },
                                    p3,
                                ),
                            ),
                            Err(x) => Err(x),
                        },
                        Err(x) => Err(x),
                    }
                }
            },
            Err(x) => Err(x),
        }
    }
}

/// A TSRX expression at `p` (which holds `@`).
#[verifier::opaque]
pub open spec fn sp_tsrx_expr(inp: Input, p: int) -> Result<(SExpr, int), ParseError>
    decreases inp.toks.len() - p, 10int,
{
    let start = cur_pos(inp, p);
    let t = if !(0 <= p < inp.toks.len()) {
        Err(unexpected(inp, p + 1, Expectation::TsrxContainer))
    } else if is_p(inp, p + 1, Punct::LBrace) {
        match sp_tsrx_code_block(inp, p + 1, false) {
            Ok((b, p2)) => Ok((STsrxExpr::CodeBlock(b), p2)),
            Err(x) => Err(x),
        }
    } else if is_kw(inp, p + 1, Keyword::If) {
        match sp_tsrx_if(inp, p + 1, start) {
            Ok((e, p2)) => Ok((STsrxExpr::If(Box::new(e)), p2)),
            Err(x) => Err(x),
        }
    } else if is_kw(inp, p + 1, Keyword::For) {
        match sp_tsrx_for(inp, p + 1, start) {
            Ok((e, p2)) => Ok((STsrxExpr::For(Box::new(e)), p2)),
            Err(x) => Err(x),
        }
    } else if is_kw(inp, p + 1, Keyword::Switch) {
        match sp_tsrx_switch(inp, p + 1, start) {
            Ok((e, p2)) => Ok((STsrxExpr::Switch(Box::new(e)), p2)),
            Err(x) => Err(x),
        }
    } else if is_kw(inp, p + 1, Keyword::Try) {
        match sp_tsrx_try(inp, p + 1, start) {
            Ok((e, p2)) => Ok((STsrxExpr::Try(Box::new(e)), p2)),
            Err(x) => Err(x),
        }
    } else {
        Err(unexpected(inp, p + 1, Expectation::TsrxContainer))
    };
    match t {
        Ok((t, p2)) => Ok((SExpr::Tsrx(Box::new(t)), p2)),
        Err(x) => Err(x),
    }
}

/// Marks a code block as a direct function body.
pub open spec fn mark_function_body(e: SExpr) -> SExpr {
    match e {
        SExpr::Tsrx(t) => match *t {
            STsrxExpr::CodeBlock(b) => SExpr::Tsrx(
                Box::new(
                    STsrxExpr::CodeBlock(
                        SJSXCodeBlock {
                            span: b.span,
                            body: b.body,
                            render: b.render,
                            is_function_body: true,
                        },
                    ),
                ),
            ),
            _ => e,
        },
        _ => e,
    }
}

/// A TSRX expression written as a function body, wrapped as the one
/// statement of that body.
#[verifier::opaque]
pub open spec fn sp_tsrx_function_body(inp: Input, p: int) -> Result<(SBlockStmt, int), ParseError>
    decreases inp.toks.len() - p, 20int,
{
    match sp_tsrx_expr(inp, p) {
        Ok((e, p2)) => {
            let span = Span { lo: cur_pos(inp, p), hi: expr_span(e).hi };
            let e2 = mark_function_body(e);
            Ok(
                (
                    SBlockStmt {
                        span,
                        stmts: seq![SStmt::Expr(SExprStmt { span, expr: Box::new(e2) })],
                    },
                    p2,
                ),
            )
        },
        Err(x) => Err(x),
    }
}

} // verus!
