//! Expressions: sequences, assignments, conditionals, binary operators by
//! precedence, prefix and postfix operators, calls and member accesses.
use vstd::prelude::*;

use crate::ast::{
    AssignExpr, AssignOp, BinExpr, BinaryOp, CallExpr, CondExpr, Expr, MemberExpr, SeqExpr,
    UnaryExpr, UnaryOp, UpdateExpr, UpdateOp,
};
use crate::token::Punct;
use crate::view::{SExpr, sv_expr, sv_expr_list};
use super::grammar::{
    ErrorKind, Expectation, ParseError, adj, assign_op_at, bin_op_at, bin_prec, err_at,
    is_assign_target, lemma_sp_expr, lemma_sp_member_rest, lemma_sp_postfix, sp_args, sp_assign, sp_bin, sp_bin_rest, sp_cond, sp_expr, sp_lhs,
    sp_member_rest, sp_postfix, sp_primary, sp_seq_rest, sp_unary, unary_op_at, update_op_at,
};
use super::{Parser, stays};

verus! {

/// How tightly a binary operator binds.
pub fn bin_prec_exec(op: BinaryOp) -> (r: u8)
    ensures
        r == bin_prec(op),
        1 <= r <= 6,
{
    match op {
        BinaryOp::LogicalOr => 1,
        BinaryOp::LogicalAnd => 2,
        BinaryOp::EqEq | BinaryOp::NotEq | BinaryOp::EqEqEq | BinaryOp::NotEqEq => 3,
        BinaryOp::Lt | BinaryOp::LtEq | BinaryOp::Gt | BinaryOp::GtEq => 4,
        BinaryOp::Add | BinaryOp::Sub => 5,
        BinaryOp::Mul | BinaryOp::Div | BinaryOp::Mod => 6,
    }
}

/// Whether an expression can be assigned to or updated.
pub fn is_assign_target_exec(e: &Expr) -> (b: bool)
    ensures
        b == is_assign_target(sv_expr(*e)),
{
    match e {
        Expr::Ident(_) => true,
        Expr::Member(_) => true,
        _ => false,
    }
}

impl Parser {
    /// Whether the token `k` places on ends where the next one starts.
    pub(crate) fn nth_adj(&self, k: usize) -> (b: bool)
        requires
            self.wf(),
        ensures
            b == adj(self.input(), self.position() + k),
    {
        if k < self.toks.len() && self.pos < self.toks.len() - k && self.pos + k + 1 < self.toks.len() {
            self.toks[self.pos + k].span.hi == self.toks[self.pos + k + 1].span.lo
        } else {
            false
        }
    }

    /// An error at token index `k`.
    pub(crate) fn err_at_index(&self, k: usize, kind: ErrorKind) -> (e: ParseError)
        requires
            self.wf(),
        ensures
            e == err_at(self.input(), k as int, kind),
    {
        ParseError { span: self.span_at_index(k), kind }
    }

    fn bin_op_here(&self) -> (r: Option<(BinaryOp, usize)>)
        requires
            self.wf(),
        ensures
            match r {
                Some((op, n)) => bin_op_at(self.input(), self.position()) == Some((op, n as int)),
                None => bin_op_at(self.input(), self.position()) is None,
            },
    {
        if self.is(Punct::Pipe) {
            if self.nth_is(1, Punct::Pipe) && self.nth_adj(0) {
                Some((BinaryOp::LogicalOr, 2))
            } else {
                None
            }
        } else if self.is(Punct::Amp) {
            if self.nth_is(1, Punct::Amp) && self.nth_adj(0) {
                Some((BinaryOp::LogicalAnd, 2))
            } else {
                None
            }
        } else if self.is(Punct::Eq) {
            if self.nth_is(1, Punct::Eq) && self.nth_adj(0) {
                if self.nth_is(2, Punct::Eq) && self.nth_adj(1) {
                    Some((BinaryOp::EqEqEq, 3))
                } else {
                    Some((BinaryOp::EqEq, 2))
                }
            } else {
                None
            }
        } else if self.is(Punct::Bang) {
            if self.nth_is(1, Punct::Eq) && self.nth_adj(0) {
                if self.nth_is(2, Punct::Eq) && self.nth_adj(1) {
                    Some((BinaryOp::NotEqEq, 3))
                } else {
                    Some((BinaryOp::NotEq, 2))
                }
            } else {
                None
            }
        } else if self.is(Punct::Lt) {
            if self.nth_is(1, Punct::Eq) && self.nth_adj(0) {
                Some((BinaryOp::LtEq, 2))
            } else {
                Some((BinaryOp::Lt, 1))
            }
        } else if self.is(Punct::Gt) {
            if self.nth_is(1, Punct::Eq) && self.nth_adj(0) {
                Some((BinaryOp::GtEq, 2))
            } else {
                Some((BinaryOp::Gt, 1))
            }
        } else if self.is(Punct::Plus) {
            if (self.nth_is(1, Punct::Plus) || self.nth_is(1, Punct::Eq)) && self.nth_adj(0) {
                None
            } else {
                Some((BinaryOp::Add, 1))
            }
        } else if self.is(Punct::Minus) {
            if (self.nth_is(1, Punct::Minus) || self.nth_is(1, Punct::Eq)) && self.nth_adj(0) {
                None
            } else {
                Some((BinaryOp::Sub, 1))
            }
        } else if self.is(Punct::Star) {
            Some((BinaryOp::Mul, 1))
        } else if self.is(Punct::Slash) {
            Some((BinaryOp::Div, 1))
        } else if self.is(Punct::Percent) {
            Some((BinaryOp::Mod, 1))
        } else {
            None
        }
    }

    fn assign_op_here(&self) -> (r: Option<(AssignOp, usize)>)
        requires
            self.wf(),
        ensures
            match r {
                Some((op, n)) => assign_op_at(self.input(), self.position()) == Some((op, n as int)),
                None => assign_op_at(self.input(), self.position()) is None,
            },
    {
        if self.is(Punct::Eq) {
            Some((AssignOp::Assign, 1))
        } else if self.is(Punct::Plus) && self.nth_is(1, Punct::Eq) && self.nth_adj(0) {
            Some((AssignOp::AddAssign, 2))
        } else if self.is(Punct::Minus) && self.nth_is(1, Punct::Eq) && self.nth_adj(0) {
            Some((AssignOp::SubAssign, 2))
        } else {
            None
        }
    }

    fn update_op_here(&self) -> (r: Option<UpdateOp>)
        requires
            self.wf(),
        ensures
            r == update_op_at(self.input(), self.position()),
    {
        if self.is(Punct::Plus) && self.nth_is(1, Punct::Plus) && self.nth_adj(0) {
            Some(UpdateOp::PlusPlus)
        } else if self.is(Punct::Minus) && self.nth_is(1, Punct::Minus) && self.nth_adj(0) {
            Some(UpdateOp::MinusMinus)
        } else {
            None
        }
    }

    fn unary_op_here(&self) -> (r: Option<UnaryOp>)
        requires
            self.wf(),
        ensures
            r == unary_op_at(self.input(), self.position()),
    {
        if self.is(Punct::Bang) {
            Some(UnaryOp::Bang)
        } else if self.is(Punct::Minus) {
            Some(UnaryOp::Minus)
        } else if self.is(Punct::Plus) {
            Some(UnaryOp::Plus)
        } else {
            None
        }
    }

    /// Parses an expression: one assignment expression, or several separated
    /// by commas.
    pub fn parse_expr(&mut self) -> (r: Result<Box<Expr>, ParseError>)
        requires
            old(self).wf(),
        ensures
            stays(*old(self), *final(self)),
            match r {
                Ok(e) => sp_expr(old(self).input(), old(self).position()) == Ok::<_, ParseError>(
                    (sv_expr(*e), final(self).position()),
                ) && old(self).position() < final(self).position(),
                Err(x) => sp_expr(old(self).input(), old(self).position()) == Err::<(SExpr, int), ParseError>(x),
            },
        decreases old(self).input().toks.len() - old(self).position(), 30int,
    {
        proof {
            lemma_sp_expr(self.input(), self.position());
        }
        let start = self.cur_pos();
        let e = self.parse_assign()?;
        if self.is(Punct::Comma) {
            let mut exprs: Vec<Expr> = Vec::new();
            exprs.push(*e);
            proof {
                assert(sv_expr_list(Seq::<Expr>::empty()) =~= Seq::<SExpr>::empty());
                assert(exprs@.drop_last() =~= Seq::<Expr>::empty());
                assert(sv_expr_list(exprs@) =~= seq![sv_expr(*e)]);
            }
            self.parse_seq_rest(start, exprs)
        } else {
            Ok(e)
        }
    }

    fn parse_seq_rest(&mut self, start: usize, exprs: Vec<Expr>) -> (r: Result<Box<Expr>, ParseError>)
        requires
            old(self).wf(),
        ensures
            stays(*old(self), *final(self)),
            match r {
                Ok(e) => sp_seq_rest(old(self).input(), start, sv_expr_list(exprs@), old(self).position())
                    == Ok::<_, ParseError>((sv_expr(*e), final(self).position())),
                Err(x) => sp_seq_rest(old(self).input(), start, sv_expr_list(exprs@), old(self).position())
                    == Err::<(SExpr, int), ParseError>(x),
            },
        decreases old(self).input().toks.len() - old(self).position(), 0int,
    {
        proof {
            reveal_with_fuel(sp_seq_rest, 1);
            reveal_with_fuel(sp_assign, 1);
        }
        if self.is(Punct::Comma) {
            self.bump();
            let e = self.parse_assign()?;
            let mut exprs = exprs;
            let ghost prev = exprs@;
            exprs.push(*e);
            proof {
                assert(exprs@.drop_last() =~= prev);
            }
            self.parse_seq_rest(start, exprs)
        } else {
            Ok(Box::new(Expr::Sequence(SeqExpr { span: self.span(start), exprs })))
        }
    }

    /// Parses an assignment expression.
    pub fn parse_assign(&mut self) -> (r: Result<Box<Expr>, ParseError>)
        requires
            old(self).wf(),
        ensures
            stays(*old(self), *final(self)),
            match r {
                Ok(e) => sp_assign(old(self).input(), old(self).position()) == Ok::<_, ParseError>(
                    (sv_expr(*e), final(self).position()),
                ) && old(self).position() < final(self).position(),
                Err(x) => sp_assign(old(self).input(), old(self).position()) == Err::<(SExpr, int), ParseError>(x),
            },
        decreases old(self).input().toks.len() - old(self).position(), 28int,
    {
        proof {
            reveal_with_fuel(sp_assign, 1);
            reveal_with_fuel(sp_cond, 1);
        }
        let start = self.cur_pos();
        let l = self.parse_cond()?;
        match self.assign_op_here() {
            Some((op, n)) => {
                if !is_assign_target_exec(&l) {
                    return Err(self.err(ErrorKind::Unexpected(Expectation::AssignTarget)));
                }
                self.bump_n(n);
                let r = self.parse_assign()?;
                Ok(Box::new(Expr::Assign(AssignExpr { span: self.span(start), op, left: l, right: r })))
            },
            None => Ok(l),
        }
    }

    fn parse_cond(&mut self) -> (r: Result<Box<Expr>, ParseError>)
        requires
            old(self).wf(),
        ensures
            stays(*old(self), *final(self)),
            match r {
                Ok(e) => sp_cond(old(self).input(), old(self).position()) == Ok::<_, ParseError>(
                    (sv_expr(*e), final(self).position()),
                ) && old(self).position() < final(self).position(),
                Err(x) => sp_cond(old(self).input(), old(self).position()) == Err::<(SExpr, int), ParseError>(x),
            },
        decreases old(self).input().toks.len() - old(self).position(), 27int,
    {
        proof {
            reveal_with_fuel(sp_cond, 1);
            reveal_with_fuel(sp_bin, 1);
            reveal_with_fuel(sp_assign, 1);
        }
        let start = self.cur_pos();
        let t = self.parse_bin(1)?;
        if self.is(Punct::Question) {
            self.bump();
            let c = self.parse_assign()?;
            if !self.is(Punct::Colon) {
                return Err(self.err(ErrorKind::Expected(Punct::Colon)));
            }
            self.bump();
            let a = self.parse_assign()?;
            Ok(Box::new(Expr::Cond(CondExpr { span: self.span(start), test: t, cons: c, alt: a })))
        } else {
            Ok(t)
        }
    }

    fn parse_bin(&mut self, min: u8) -> (r: Result<Box<Expr>, ParseError>)
        requires
            old(self).wf(),
        ensures
            stays(*old(self), *final(self)),
            match r {
                Ok(e) => sp_bin(old(self).input(), old(self).position(), min as int) == Ok::<_, ParseError>(
                    (sv_expr(*e), final(self).position()),
                ) && old(self).position() < final(self).position(),
                Err(x) => sp_bin(old(self).input(), old(self).position(), min as int) == Err::<(SExpr, int), ParseError>(x),
            },
        decreases old(self).input().toks.len() - old(self).position(), 26int,
    {
        proof {
            reveal_with_fuel(sp_bin, 1);
            reveal_with_fuel(sp_unary, 1);
            reveal_with_fuel(sp_bin_rest, 1);
        }
        let start = self.cur_pos();
        let l = self.parse_unary()?;
        self.parse_bin_rest(start, l, min)
    }

    fn parse_bin_rest(&mut self, start: usize, left: Box<Expr>, min: u8) -> (r: Result<Box<Expr>, ParseError>)
        requires
            old(self).wf(),
        ensures
            stays(*old(self), *final(self)),
            match r {
                Ok(e) => sp_bin_rest(old(self).input(), start, sv_expr(*left), old(self).position(), min as int)
                    == Ok::<_, ParseError>((sv_expr(*e), final(self).position())),
                Err(x) => sp_bin_rest(old(self).input(), start, sv_expr(*left), old(self).position(), min as int)
                    == Err::<(SExpr, int), ParseError>(x),
            },
        decreases old(self).input().toks.len() - old(self).position(), 0int,
    {
        proof {
            reveal_with_fuel(sp_bin_rest, 1);
            reveal_with_fuel(sp_bin, 1);
        }
        match self.bin_op_here() {
            Some((op, n)) => {
                let prec = bin_prec_exec(op);
                if prec >= min {
                    self.bump_n(n);
                    let r = self.parse_bin(prec + 1)?;
                    let b = Box::new(Expr::Bin(BinExpr { span: self.span(start), op, left, right: r }));
                    self.parse_bin_rest(start, b, min)
                } else {
                    Ok(left)
                }
            },
            None => Ok(left),
        }
    }

    fn parse_unary(&mut self) -> (r: Result<Box<Expr>, ParseError>)
        requires
            old(self).wf(),
        ensures
            stays(*old(self), *final(self)),
            match r {
                Ok(e) => sp_unary(old(self).input(), old(self).position()) == Ok::<_, ParseError>(
                    (sv_expr(*e), final(self).position()),
                ) && old(self).position() < final(self).position(),
                Err(x) => sp_unary(old(self).input(), old(self).position()) == Err::<(SExpr, int), ParseError>(x),
            },
        decreases old(self).input().toks.len() - old(self).position(), 25int,
    {
        proof {
            reveal_with_fuel(sp_unary, 1);
            reveal_with_fuel(sp_postfix, 1);
        }
        let start = self.cur_pos();
        let p0 = self.pos();
        match self.update_op_here() {
            Some(op) => {
                self.bump_n(2);
                let a = self.parse_unary()?;
                if !is_assign_target_exec(&a) {
                    return Err(self.err_at_index(p0 + 2, ErrorKind::Unexpected(Expectation::AssignTarget)));
                }
                Ok(Box::new(Expr::Update(UpdateExpr { span: self.span(start), op, prefix: true, arg: a })))
            },
            None => match self.unary_op_here() {
                Some(op) => {
                    self.bump();
                    let a = self.parse_unary()?;
                    Ok(Box::new(Expr::Unary(UnaryExpr { span: self.span(start), op, arg: a })))
                },
                None => self.parse_postfix(),
            },
        }
    }

    fn parse_postfix(&mut self) -> (r: Result<Box<Expr>, ParseError>)
        requires
            old(self).wf(),
        ensures
            stays(*old(self), *final(self)),
            match r {
                Ok(e) => sp_postfix(old(self).input(), old(self).position()) == Ok::<_, ParseError>(
                    (sv_expr(*e), final(self).position()),
                ) && old(self).position() < final(self).position(),
                Err(x) => sp_postfix(old(self).input(), old(self).position()) == Err::<(SExpr, int), ParseError>(x),
            },
        decreases old(self).input().toks.len() - old(self).position(), 24int,
    {
        proof {
            lemma_sp_postfix(self.input(), self.position());
        }
        let start = self.cur_pos();
        let e = self.parse_lhs()?;
        match self.update_op_here() {
            Some(op) => {
                if self.had_line_break() {
                    Ok(e)
                } else if is_assign_target_exec(&e) {
                    self.bump_n(2);
                    Ok(Box::new(Expr::Update(UpdateExpr { span: self.span(start), op, prefix: false, arg: e })))
                } else {
                    Err(self.err(ErrorKind::Unexpected(Expectation::AssignTarget)))
                }
            },
            None => Ok(e),
        }
    }

    fn parse_lhs(&mut self) -> (r: Result<Box<Expr>, ParseError>)
        requires
            old(self).wf(),
        ensures
            stays(*old(self), *final(self)),
            match r {
                Ok(e) => sp_lhs(old(self).input(), old(self).position()) == Ok::<_, ParseError>(
                    (sv_expr(*e), final(self).position()),
                ) && old(self).position() < final(self).position(),
                Err(x) => sp_lhs(old(self).input(), old(self).position()) == Err::<(SExpr, int), ParseError>(x),
            },
        decreases old(self).input().toks.len() - old(self).position(), 23int,
    {
        proof {
            reveal_with_fuel(sp_lhs, 1);
            reveal_with_fuel(sp_primary, 1);
            reveal_with_fuel(sp_member_rest, 1);
        }
        let start = self.cur_pos();
        let b = self.parse_primary()?;
        self.parse_member_rest(start, b)
    }

    fn parse_member_rest(&mut self, start: usize, obj: Box<Expr>) -> (r: Result<Box<Expr>, ParseError>)
        requires
            old(self).wf(),
        ensures
            stays(*old(self), *final(self)),
            match r {
                Ok(e) => sp_member_rest(old(self).input(), start, sv_expr(*obj), old(self).position())
                    == Ok::<_, ParseError>((sv_expr(*e), final(self).position())),
                Err(x) => sp_member_rest(old(self).input(), start, sv_expr(*obj), old(self).position())
                    == Err::<(SExpr, int), ParseError>(x),
            },
        decreases old(self).input().toks.len() - old(self).position(), 0int,
    {
        proof {
            lemma_sp_member_rest(self.input(), start, sv_expr(*obj), self.position());
            reveal_with_fuel(crate::view::sv_expr, 2);
        }
        if self.is(Punct::Dot) {
            match self.nth(1) {
                Some(t) => {
                    if t.is_word() {
                        let ghost inp = self.input();
                        let ghost p0 = self.position();
                        let ghost so = sv_expr(*obj);
                        let prop = self.nth_ident(1);
                        self.bump_n(2);
                        let m = Box::new(Expr::Member(MemberExpr { span: self.span(start), obj, prop }));
                        assert(sv_expr(*m) == SExpr::Member(crate::view::SMemberExpr { span: super::grammar::span_from(inp, start, p0 + 2), obj: Box::new(so), prop: super::grammar::ident_at(inp, p0 + 1) }));
                        assert(super::grammar::is_p(inp, p0, Punct::Dot));
                        assert(super::grammar::tok(inp, p0 + 1) == Some(t));
                        assert(crate::token::spec_is_word(t));
                        assert(sp_member_rest(inp, start, so, p0) == sp_member_rest(inp, start, sv_expr(*m), p0 + 2));
                        self.parse_member_rest(start, m)
                    } else {
                        Err(self.nth_err(1, ErrorKind::Unexpected(Expectation::Identifier)))
                    }
                },
                None => Err(self.nth_err(1, ErrorKind::Unexpected(Expectation::Identifier))),
            }
        } else if self.is(Punct::LParen) {
            self.bump();
            proof {
                assert(sv_expr_list(Seq::<Expr>::empty()) =~= Seq::<SExpr>::empty());
            }
            let ghost inp = self.input();
            let ghost p1 = self.position();
            let args = self.parse_args(Vec::new())?;
            assert(sp_args(inp, p1, Seq::empty()) == Ok::<_, ParseError>((sv_expr_list(args@), self.position())));
            assert(super::grammar::adv(inp, p1 - 1, self.position()));
            let ghost so = sv_expr(*obj);
            let c = Box::new(Expr::Call(CallExpr { span: self.span(start), callee: obj, args }));
            assert(sv_expr(*c) == SExpr::Call(crate::view::SCallExpr { span: super::grammar::span_from(inp, start, self.position()), callee: Box::new(so), args: sv_expr_list(args@) }));
            assert(sp_member_rest(inp, start, so, p1 - 1) == sp_member_rest(inp, start, sv_expr(*c), self.position()));
            self.parse_member_rest(start, c)
        } else {
            Ok(obj)
        }
    }

    /// The arguments of a call after its `(`, up to and including the `)`.
    fn parse_args(&mut self, acc: Vec<Expr>) -> (r: Result<Vec<Expr>, ParseError>)
        requires
            old(self).wf(),
        ensures
            stays(*old(self), *final(self)),
            match r {
                Ok(v) => sp_args(old(self).input(), old(self).position(), sv_expr_list(acc@))
                    == Ok::<_, ParseError>((sv_expr_list(v@), final(self).position()))
                    && old(self).position() < final(self).position(),
                Err(x) => sp_args(old(self).input(), old(self).position(), sv_expr_list(acc@))
                    == Err::<(Seq<SExpr>, int), ParseError>(x),
            },
        decreases old(self).input().toks.len() - old(self).position(), 29int,
    {
        proof {
            reveal_with_fuel(sp_args, 1);
            reveal_with_fuel(sp_assign, 1);
        }
        if self.is(Punct::RParen) {
            self.bump();
            return Ok(acc);
        }
        let a = self.parse_assign()?;
        let mut acc = acc;
        let ghost prev = acc@;
        acc.push(*a);
        proof {
            assert(acc@.drop_last() =~= prev);
        }
        if self.is(Punct::RParen) {
            self.bump();
            Ok(acc)
        } else if self.is(Punct::Comma) {
            self.bump();
            self.parse_args(acc)
        } else {
            Err(self.err(ErrorKind::Expected(Punct::RParen)))
        }
    }
}

} // verus!
