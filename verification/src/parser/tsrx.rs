//! The TSRX grammar: statement containers (`@{ ... }`) and the `@if`,
//! `@for`, `@switch` and `@try` template directives.
use vstd::prelude::*;

use crate::ast::{
    BlockStmt, Expr, ExprStmt, FunctionBody, Ident, JSXCatchClause, JSXCodeBlock, JSXForExpr,
    JSXForKind, JSXIfAlternate, JSXIfExpr, JSXSwitchCase, JSXSwitchExpr, JSXTryExpr, Pat, Stmt,
    TsrxExpr,
};
use crate::lexer::lemma_tokens_ordered;
use crate::span::Span;
use crate::token::{Keyword, Punct};
use crate::view::{
    SExpr, SExprStmt, SIdent, SJSXCatchClause, SJSXCodeBlock, SJSXIfAlternate, SJSXIfExpr,
    SJSXSwitchCase, SJSXSwitchExpr, SJSXTryExpr, SPat, SStmt, STsrxExpr, sv_binding_ident,
    sv_block_stmt, sv_expr, sv_ident, sv_jsx_catch_clause, sv_jsx_code_block, sv_jsx_for_expr,
    sv_jsx_if_alternate, sv_jsx_if_expr, sv_jsx_switch_case, sv_jsx_switch_case_list,
    sv_jsx_switch_expr, sv_jsx_try_expr, sv_pat, sv_stmt, sv_stmt_list, sv_tsrx_expr,
};
use super::grammar::{
    ErrorKind, Expectation, ParseError, expr_span, is_kw, is_p, last_pos, mark_function_body,
    sp_assign, sp_block, sp_catch_clause, sp_expr, sp_for_head, sp_for_options, sp_switch_cases,
    sp_try_handler, sp_tsrx_code_block, sp_tsrx_condition, sp_tsrx_expr, sp_tsrx_for,
    sp_tsrx_for_rest, sp_tsrx_function_body, sp_tsrx_if, sp_tsrx_named_block, sp_tsrx_switch,
    sp_tsrx_try, spec_code_block_from_block, spec_for_expr, spec_is_tsrx_render_expr, word_empty,
    word_index, word_key, word_pending,
};
use super::js::{TempForHead, sv_temp_for_head};
use super::jsx::expr_span_exec;
use super::{Parser, stays};

verus! {

impl Parser {
    /// Whether an expression is rendered when it ends a code block.
    pub fn is_tsrx_render_expr(expr: &Expr) -> (b: bool)
        ensures
            b == spec_is_tsrx_render_expr(sv_expr(*expr)),
    {
        match expr {
            Expr::JSXElement(_) => true,
            Expr::JSXFragment(_) => true,
            Expr::Tsrx(_) => true,
            _ => false,
        }
    }

    /// Splits a block into a code block: a final rendered expression
    /// statement becomes `render`, the other statements stay in `body`.
    pub fn tsrx_code_block_from_block(block: BlockStmt, is_function_body: bool) -> (b: JSXCodeBlock)
        ensures
            sv_jsx_code_block(b) == spec_code_block_from_block(
                sv_block_stmt(block),
                is_function_body,
            ),
    {
        let mut block = block;
        let ghost all = block.stmts@;
        let n = block.stmts.len();
        let is_render = if n > 0 {
            match &block.stmts[n - 1] {
                Stmt::Expr(es) => Self::is_tsrx_render_expr(&es.expr),
                _ => false,
            }
        } else {
            false
        };
        proof {
            if n > 0 {
                assert(sv_stmt_list(all).last() == sv_stmt(all.last()));
            }
        }
        let render = if is_render {
            match block.stmts.pop() {
                Some(Stmt::Expr(stmt)) => Some(stmt.expr),
                _ => None,
            }
        } else {
            None
        };
        proof {
            if is_render {
                assert(block.stmts@ =~= all.drop_last());
                assert(sv_stmt_list(all).drop_last() == sv_stmt_list(all.drop_last()));
            }
        }
        JSXCodeBlock { span: block.span, body: block.stmts, render, is_function_body }
    }

    /// Parses the braced portion of a statement container or directive.
    fn parse_tsrx_code_block(&mut self, is_function_body: bool) -> (r: Result<JSXCodeBlock, ParseError>)
        requires
            old(self).wf(),
        ensures
            stays(*old(self), *final(self)),
            match r {
                Ok(b) => sp_tsrx_code_block(old(self).input(), old(self).position(), is_function_body)
                    == Ok::<_, ParseError>((sv_jsx_code_block(b), final(self).position()))
                    && old(self).position() < final(self).position() && b.span.hi == last_pos(
                    final(self).input(),
                    final(self).position(),
                ),
                Err(x) => sp_tsrx_code_block(
                    old(self).input(),
                    old(self).position(),
                    is_function_body,
                ) == Err::<(crate::view::SJSXCodeBlock, int), ParseError>(x),
            },
        decreases old(self).input().toks.len() - old(self).position(), 20int,
    {
        proof {
            reveal_with_fuel(sp_tsrx_code_block, 1);
            reveal_with_fuel(sp_block, 1);
        }
        let block = self.parse_block()?;
        Ok(Self::tsrx_code_block_from_block(block, is_function_body))
    }

    /// Parses `( expr )`.
    pub fn parse_tsrx_condition(&mut self) -> (r: Result<Box<Expr>, ParseError>)
        requires
            old(self).wf(),
        ensures
            stays(*old(self), *final(self)),
            match r {
                Ok(e) => sp_tsrx_condition(old(self).input(), old(self).position()) == Ok::<
                    _,
                    ParseError,
                >((sv_expr(*e), final(self).position())) && old(self).position()
                    < final(self).position(),
                Err(x) => sp_tsrx_condition(old(self).input(), old(self).position()) == Err::<
                    (SExpr, int),
                    ParseError,
                >(x),
            },
        decreases old(self).input().toks.len() - old(self).position(), 10int,
    {
        proof {
            reveal_with_fuel(sp_tsrx_condition, 1);
            reveal_with_fuel(sp_expr, 1);
        }
        self.expect(Punct::LParen)?;
        let test = self.parse_expr()?;
        self.expect(Punct::RParen)?;
        Ok(test)
    }

    fn parse_tsrx_if(&mut self, start: usize) -> (r: Result<JSXIfExpr, ParseError>)
        requires
            old(self).wf(),
        ensures
            stays(*old(self), *final(self)),
            match r {
                Ok(e) => sp_tsrx_if(old(self).input(), old(self).position(), start) == Ok::<
                    _,
                    ParseError,
                >((sv_jsx_if_expr(e), final(self).position())) && old(self).position()
                    < final(self).position() && e.span.hi == last_pos(
                    final(self).input(),
                    final(self).position(),
                ),
                Err(x) => sp_tsrx_if(old(self).input(), old(self).position(), start) == Err::<
                    (crate::view::SJSXIfExpr, int),
                    ParseError,
                >(x),
            },
        decreases old(self).input().toks.len() - old(self).position(), 10int,
    {
        proof {
            reveal_with_fuel(sp_tsrx_if, 1);
            reveal_with_fuel(sp_tsrx_code_block, 1);
            reveal_with_fuel(sp_tsrx_condition, 1);
        }
        if self.at_end() {
            return Err(self.err(ErrorKind::Unexpected(Expectation::TsrxContainer)));
        }
        self.bump();
        let test = self.parse_tsrx_condition()?;
        let consequent = self.parse_tsrx_code_block(false)?;
        let alternate = if self.is(Punct::At) && self.nth_is_kw(1, Keyword::Else) {
            self.bump_n(2);
            if self.is_kw(Keyword::If) {
                let nested_start = self.cur_pos();
                let nested = self.parse_tsrx_if(nested_start)?;
                let a = JSXIfAlternate::If(Box::new(nested));
                assert(sv_jsx_if_alternate(a) == SJSXIfAlternate::If(Box::new(sv_jsx_if_expr(nested))));
                Some(a)
            } else {
                let b = self.parse_tsrx_code_block(false)?;
                let a = JSXIfAlternate::CodeBlock(b);
                assert(sv_jsx_if_alternate(a) == SJSXIfAlternate::CodeBlock(sv_jsx_code_block(b)));
                Some(a)
            }
        } else {
            None
        };
        let ghost salt = match &alternate {
            Some(a) => Some(sv_jsx_if_alternate(*a)),
            None => None,
        };
        let e = JSXIfExpr { span: self.span(start), test, consequent, alternate };
        assert(sv_jsx_if_expr(e) == (SJSXIfExpr { span: e.span, test: Box::new(sv_expr(*test)), consequent: sv_jsx_code_block(consequent), alternate: salt }));
        Ok(e)
    }

    /// The `; index name` and `; key expr` options of a `@for` head.
    fn parse_for_options(&mut self) -> (r: Result<(Option<Ident>, Option<Box<Expr>>), ParseError>)
        requires
            old(self).wf(),
        ensures
            stays(*old(self), *final(self)),
            match r {
                Ok((index, key)) => sp_for_options(
                    old(self).input(),
                    old(self).position(),
                    None,
                    None,
                ) == Ok::<_, ParseError>(
                    (
                        (
                            match index {
                                Some(i) => Some(sv_ident(i)),
                                None => None,
                            },
                            match key {
                                Some(k) => Some(Box::new(sv_expr(*k))),
                                None => None,
                            },
                        ),
                        final(self).position(),
                    ),
                ),
                Err(x) => sp_for_options(old(self).input(), old(self).position(), None, None)
                    == Err::<((Option<SIdent>, Option<Box<SExpr>>), int), ParseError>(x),
            },
        decreases old(self).input().toks.len() - old(self).position(), 10int,
    {
        proof {
            reveal_with_fuel(sp_for_options, 1);
            reveal_with_fuel(sp_expr, 1);
        }
        let ghost inp = self.input();
        let ghost p0 = self.position();
        let mut index: Option<Ident> = None;
        let mut key: Option<Box<Expr>> = None;
        loop
            invariant
                self.wf(),
                self.input() == inp,
                p0 <= self.position(),
                p0 == old(self).position(),
                inp == old(self).input(),
                sp_for_options(inp, p0, None, None) == sp_for_options(
                    inp,
                    self.position(),
                    match index {
                        Some(i) => Some(sv_ident(i)),
                        None => None,
                    },
                    match key {
                        Some(k) => Some(Box::new(sv_expr(*k))),
                        None => None,
                    },
                ),
            decreases inp.toks.len() - self.position(),
        {
            proof {
                reveal_with_fuel(sp_for_options, 1);
                reveal_with_fuel(sp_assign, 1);
            }
            if !self.is(Punct::Semi) {
                return Ok((index, key));
            }
            proof {
                reveal_strlit("index");
                reveal_strlit("key");
                assert("index"@ =~= word_index());
                assert("key"@ =~= word_key());
            }
            if self.nth_is_word(1, "index") {
                self.bump_n(2);
                index = Some(self.parse_binding_ident()?.id);
            } else if self.nth_is_word(1, "key") {
                self.bump_n(2);
                key = Some(self.parse_assign()?);
            } else {
                return Err(self.nth_err(1, ErrorKind::Unexpected(Expectation::IndexOrKey)));
            }
        }
    }

    fn parse_tsrx_for(&mut self, start: usize) -> (r: Result<JSXForExpr, ParseError>)
        requires
            old(self).wf(),
        ensures
            stays(*old(self), *final(self)),
            match r {
                Ok(e) => sp_tsrx_for(old(self).input(), old(self).position(), start) == Ok::<
                    _,
                    ParseError,
                >((sv_jsx_for_expr(e), final(self).position())) && old(self).position()
                    < final(self).position() && e.span.hi == last_pos(
                    final(self).input(),
                    final(self).position(),
                ),
                Err(x) => sp_tsrx_for(old(self).input(), old(self).position(), start) == Err::<
                    (crate::view::SJSXForExpr, int),
                    ParseError,
                >(x),
            },
        decreases old(self).input().toks.len() - old(self).position(), 10int,
    {
        proof {
            reveal_with_fuel(sp_tsrx_for, 1);
            reveal_with_fuel(sp_for_head, 1);
            reveal_with_fuel(sp_tsrx_for_rest, 1);
        }
        let ghost p0 = self.position();
        let is_await = self.nth_is_kw(1, Keyword::Await);
        let k: usize = if is_await { 2 } else { 1 };
        if self.at_end() || k >= self.toks_len() - self.pos() {
            return Err(self.nth_err(k, ErrorKind::Expected(Punct::LParen)));
        }
        if !self.nth_is(k, Punct::LParen) {
            return Err(self.nth_err(k, ErrorKind::Expected(Punct::LParen)));
        }
        self.bump_n(k + 1);
        let head = self.parse_for_head()?;
        self.parse_tsrx_for_rest(start, is_await, head, Ghost(p0))
    }

    /// The options, `)`, body and `@empty` block after a `@for` head.
    fn parse_tsrx_for_rest(&mut self, start: usize, is_await: bool, head: TempForHead, Ghost(p0): Ghost<int>) -> (r: Result<JSXForExpr, ParseError>)
        requires
            old(self).wf(),
            p0 < old(self).position(),
        ensures
            stays(*old(self), *final(self)),
            match r {
                Ok(e) => sp_tsrx_for_rest(old(self).input(), p0, old(self).position(), start, is_await, sv_temp_for_head(head)) == Ok::<
                    _,
                    ParseError,
                >((sv_jsx_for_expr(e), final(self).position())) && old(self).position()
                    < final(self).position() && e.span.hi == last_pos(
                    final(self).input(),
                    final(self).position(),
                ),
                Err(x) => sp_tsrx_for_rest(old(self).input(), p0, old(self).position(), start, is_await, sv_temp_for_head(head)) == Err::<
                    (crate::view::SJSXForExpr, int),
                    ParseError,
                >(x),
            },
        decreases old(self).input().toks.len() - p0, 0int,
    {
        proof {
            reveal_with_fuel(sp_tsrx_for_rest, 1);
            reveal_with_fuel(sp_for_options, 1);
            reveal_with_fuel(sp_tsrx_code_block, 1);
            reveal_with_fuel(sp_tsrx_named_block, 1);
        }
        let (index, key) = self.parse_for_options()?;
        self.expect(Punct::RParen)?;
        let body = self.parse_tsrx_code_block(false)?;
        proof {
            reveal_strlit("empty");
            assert("empty"@ =~= word_empty());
        }
        let empty = self.parse_tsrx_named_block("empty")?;
        let span = self.span(start);
        let ghost shead = sv_temp_for_head(head);
        let ghost sbody = sv_jsx_code_block(body);
        let ghost sindex = match &index {
            Some(i) => Some(sv_ident(*i)),
            None => None,
        };
        let ghost skey = match &key {
            Some(k) => Some(Box::new(sv_expr(**k))),
            None => None,
        };
        let ghost sempty = match &empty {
            Some(b) => Some(sv_jsx_code_block(*b)),
            None => None,
        };
        let e = match head {
            TempForHead::For { init, test, update } => JSXForExpr {
                span,
                kind: JSXForKind::ForStatement,
                init,
                test,
                update,
                left: None,
                right: None,
                is_await,
                body,
                index,
                key,
                empty,
            },
            TempForHead::ForIn { left, right } => JSXForExpr {
                span,
                kind: JSXForKind::ForInStatement,
                init: None,
                test: None,
                update: None,
                left: Some(left),
                right: Some(right),
                is_await,
                body,
                index,
                key,
                empty,
            },
            TempForHead::ForOf { left, right } => JSXForExpr {
                span,
                kind: JSXForKind::ForOfStatement,
                init: None,
                test: None,
                update: None,
                left: Some(left),
                right: Some(right),
                is_await,
                body,
                index,
                key,
                empty,
            },
        };
        assert(sv_jsx_for_expr(e) == spec_for_expr(span, shead, is_await, sbody, sindex, skey, sempty));
        Ok(e)
    }

    /// The cases of a `@switch`, up to its closing `}`.
    fn parse_switch_cases(&mut self) -> (r: Result<Vec<JSXSwitchCase>, ParseError>)
        requires
            old(self).wf(),
        ensures
            stays(*old(self), *final(self)),
            match r {
                Ok(v) => sp_switch_cases(old(self).input(), old(self).position(), Seq::empty())
                    == Ok::<_, ParseError>((sv_jsx_switch_case_list(v@), final(self).position()))
                    && is_p(final(self).input(), final(self).position(), Punct::RBrace),
                Err(x) => sp_switch_cases(old(self).input(), old(self).position(), Seq::empty())
                    == Err::<(Seq<crate::view::SJSXSwitchCase>, int), ParseError>(x),
            },
        decreases old(self).input().toks.len() - old(self).position(), 10int,
    {
        proof {
            reveal_with_fuel(sp_switch_cases, 1);
            reveal_with_fuel(sp_expr, 1);
            reveal_with_fuel(sp_tsrx_code_block, 1);
        }
        let ghost inp = self.input();
        let ghost p0 = self.position();
        let mut cases: Vec<JSXSwitchCase> = Vec::new();
        assert(sv_jsx_switch_case_list(cases@) =~= Seq::empty());
        loop
            invariant
                self.wf(),
                self.input() == inp,
                p0 <= self.position(),
                p0 == old(self).position(),
                inp == old(self).input(),
                sp_switch_cases(inp, p0, Seq::empty()) == sp_switch_cases(
                    inp,
                    self.position(),
                    sv_jsx_switch_case_list(cases@),
                ),
            decreases inp.toks.len() - self.position(),
        {
            proof {
                reveal_with_fuel(sp_switch_cases, 1);
                reveal_with_fuel(sp_expr, 1);
                reveal_with_fuel(sp_tsrx_code_block, 1);
            }
            if self.is(Punct::RBrace) {
                return Ok(cases);
            }
            let case_start = self.cur_pos();
            self.expect(Punct::At)?;
            let test = if self.is_kw(Keyword::Case) {
                self.bump();
                Some(self.parse_expr()?)
            } else if self.is_kw(Keyword::Default) {
                self.bump();
                None
            } else {
                return Err(self.err(ErrorKind::Unexpected(Expectation::CaseOrDefault)));
            };
            self.expect(Punct::Colon)?;
            let consequent = self.parse_tsrx_code_block(false)?;
            let ghost stest = match &test {
                Some(t) => Some(Box::new(sv_expr(**t))),
                None => None,
            };
            let case = JSXSwitchCase { span: self.span(case_start), test, consequent };
            assert(sv_jsx_switch_case(case) == (SJSXSwitchCase { span: case.span, test: stest, consequent: sv_jsx_code_block(consequent) }));
            let ghost prev = cases@;
            cases.push(case);
            assert(cases@.drop_last() =~= prev);
        }
    }

    fn parse_tsrx_switch(&mut self, start: usize) -> (r: Result<JSXSwitchExpr, ParseError>)
        requires
            old(self).wf(),
        ensures
            stays(*old(self), *final(self)),
            match r {
                Ok(e) => sp_tsrx_switch(old(self).input(), old(self).position(), start) == Ok::<
                    _,
                    ParseError,
                >((sv_jsx_switch_expr(e), final(self).position())) && old(self).position()
                    < final(self).position() && e.span.hi == last_pos(
                    final(self).input(),
                    final(self).position(),
                ),
                Err(x) => sp_tsrx_switch(old(self).input(), old(self).position(), start) == Err::<
                    (crate::view::SJSXSwitchExpr, int),
                    ParseError,
                >(x),
            },
        decreases old(self).input().toks.len() - old(self).position(), 10int,
    {
        proof {
            reveal_with_fuel(sp_tsrx_switch, 1);
            reveal_with_fuel(sp_switch_cases, 1);
            reveal_with_fuel(sp_tsrx_condition, 1);
        }
        if self.at_end() {
            return Err(self.err(ErrorKind::Unexpected(Expectation::TsrxContainer)));
        }
        self.bump();
        let discriminant = self.parse_tsrx_condition()?;
        self.expect(Punct::LBrace)?;
        let cases = self.parse_switch_cases()?;
        self.bump();
        let ghost scases = sv_jsx_switch_case_list(cases@);
        let e = JSXSwitchExpr { span: self.span(start), discriminant, cases };
        assert(sv_jsx_switch_expr(e) == (SJSXSwitchExpr { span: e.span, discriminant: Box::new(sv_expr(*discriminant)), cases: scases }));
        Ok(e)
    }

    /// `@catch (param, reset) { .. }`; the current token is `@`.
    fn parse_catch_clause(&mut self) -> (r: Result<JSXCatchClause, ParseError>)
        requires
            old(self).wf(),
            old(self).position() + 2 <= old(self).input().toks.len(),
        ensures
            stays(*old(self), *final(self)),
            match r {
                Ok(c) => sp_catch_clause(old(self).input(), old(self).position()) == Ok::<
                    _,
                    ParseError,
                >((sv_jsx_catch_clause(c), final(self).position())) && old(self).position()
                    < final(self).position(),
                Err(x) => sp_catch_clause(old(self).input(), old(self).position()) == Err::<
                    (crate::view::SJSXCatchClause, int),
                    ParseError,
                >(x),
            },
        decreases old(self).input().toks.len() - old(self).position(), 10int,
    {
        proof {
            reveal_with_fuel(sp_catch_clause, 1);
            reveal_with_fuel(sp_tsrx_code_block, 1);
        }
        let catch_start = self.cur_pos();
        self.bump_n(2);
        self.expect(Punct::LParen)?;
        let param = if self.is(Punct::RParen) {
            None
        } else {
            let bi = self.parse_binding_ident()?;
            let p = Pat::Ident(bi);
            assert(sv_pat(p) == SPat::Ident(sv_binding_ident(bi)));
            Some(p)
        };
        let reset = if self.is(Punct::Comma) {
            self.bump();
            Some(self.parse_binding_ident()?.id)
        } else {
            None
        };
        self.expect(Punct::RParen)?;
        let body = self.parse_tsrx_code_block(false)?;
        let ghost sparam = match &param {
            Some(p) => Some(sv_pat(*p)),
            None => None,
        };
        let ghost sreset = match &reset {
            Some(i) => Some(sv_ident(*i)),
            None => None,
        };
        let c = JSXCatchClause { span: self.span(catch_start), param, reset, body };
        assert(sv_jsx_catch_clause(c) == (SJSXCatchClause { span: c.span, param: sparam, reset: sreset, body: sv_jsx_code_block(body) }));
        Ok(c)
    }

    fn parse_tsrx_try(&mut self, start: usize) -> (r: Result<JSXTryExpr, ParseError>)
        requires
            old(self).wf(),
        ensures
            stays(*old(self), *final(self)),
            match r {
                Ok(e) => sp_tsrx_try(old(self).input(), old(self).position(), start) == Ok::<
                    _,
                    ParseError,
                >((sv_jsx_try_expr(e), final(self).position())) && old(self).position()
                    < final(self).position() && e.span.hi == last_pos(
                    final(self).input(),
                    final(self).position(),
                ),
                Err(x) => sp_tsrx_try(old(self).input(), old(self).position(), start) == Err::<
                    (crate::view::SJSXTryExpr, int),
                    ParseError,
                >(x),
            },
        decreases old(self).input().toks.len() - old(self).position(), 10int,
    {
        proof {
            reveal_with_fuel(sp_tsrx_try, 1);
            reveal_with_fuel(sp_tsrx_code_block, 1);
            reveal_with_fuel(sp_tsrx_named_block, 1);
            reveal_with_fuel(sp_try_handler, 1);
        }
        let ghost inp = self.input();
        let ghost p0 = self.position();
        if self.at_end() {
            return Err(self.err(ErrorKind::Unexpected(Expectation::TsrxContainer)));
        }
        self.bump();
        let block = self.parse_tsrx_code_block(false)?;
        proof {
            reveal_strlit("pending");
            assert("pending"@ =~= word_pending());
        }
        let pending = self.parse_tsrx_named_block("pending")?;
        let handler = self.parse_try_handler(Ghost(p0))?;
        let ghost sblock = sv_jsx_code_block(block);
        let ghost spending = match &pending {
            Some(b) => Some(sv_jsx_code_block(*b)),
            None => None,
        };
        let ghost shandler = match &handler {
            Some(h) => Some(sv_jsx_catch_clause(*h)),
            None => None,
        };
        let e = JSXTryExpr { span: self.span(start), block, pending, handler, finalizer: None };
        assert(sv_jsx_try_expr(e) == (SJSXTryExpr { span: e.span, block: sblock, pending: spending, handler: shandler, finalizer: None }));
        Ok(e)
    }

    /// The optional `@catch` clause of a `@try`.
    fn parse_try_handler(&mut self, Ghost(p0): Ghost<int>) -> (r: Result<Option<JSXCatchClause>, ParseError>)
        requires
            old(self).wf(),
            p0 < old(self).position(),
        ensures
            stays(*old(self), *final(self)),
            match r {
                Ok(h) => sp_try_handler(old(self).input(), p0, old(self).position()) == Ok::<_, ParseError>(
                    (
                        match h {
                            Some(c) => Some(sv_jsx_catch_clause(c)),
                            None => None,
                        },
                        final(self).position(),
                    ),
                ),
                Err(x) => sp_try_handler(old(self).input(), p0, old(self).position())
                    == Err::<(Option<crate::view::SJSXCatchClause>, int), ParseError>(x),
            },
        decreases old(self).input().toks.len() - p0, 0int,
    {
        proof {
            reveal_with_fuel(sp_try_handler, 1);
            reveal_with_fuel(sp_catch_clause, 1);
        }
        let ghost inp = self.input();
        let ghost p2 = self.position();
        if self.is(Punct::At) && self.nth_is_kw(1, Keyword::Catch) {
            assert(super::grammar::adv(inp, p0, p2));
            Ok(Some(self.parse_catch_clause()?))
        } else {
            Ok(None)
        }
    }

    /// `@name { .. }`, or nothing when the next tokens are not `@name`.
    fn parse_tsrx_named_block(&mut self, name: &str) -> (r: Result<Option<JSXCodeBlock>, ParseError>)
        requires
            old(self).wf(),
        ensures
            stays(*old(self), *final(self)),
            match r {
                Ok(b) => sp_tsrx_named_block(old(self).input(), old(self).position(), name@)
                    == Ok::<_, ParseError>(
                    (
                        match b {
                            Some(b) => Some(sv_jsx_code_block(b)),
                            None => None,
                        },
                        final(self).position(),
                    ),
                ),
                Err(x) => sp_tsrx_named_block(old(self).input(), old(self).position(), name@)
                    == Err::<(Option<crate::view::SJSXCodeBlock>, int), ParseError>(x),
            },
        decreases old(self).input().toks.len() - old(self).position(), 10int,
    {
        proof {
            reveal_with_fuel(sp_tsrx_named_block, 1);
            reveal_with_fuel(sp_tsrx_code_block, 1);
        }
        if !self.is(Punct::At) {
            return Ok(None);
        }
        if !self.nth_is_word(1, name) {
            return Ok(None);
        }
        self.bump_n(2);
        let b = self.parse_tsrx_code_block(false)?;
        Ok(Some(b))
    }

    /// Parses a TSRX expression beginning at `@`.
    #[verifier::rlimit(60)]
    pub fn parse_tsrx_expr(&mut self) -> (r: Result<Box<Expr>, ParseError>)
        requires
            old(self).wf(),
            is_p(old(self).input(), old(self).position(), Punct::At),
        ensures
            stays(*old(self), *final(self)),
            match r {
                Ok(e) => sp_tsrx_expr(old(self).input(), old(self).position()) == Ok::<
                    _,
                    ParseError,
                >((sv_expr(*e), final(self).position())) && old(self).position()
                    < final(self).position() && expr_span(sv_expr(*e)).hi == last_pos(
                    final(self).input(),
                    final(self).position(),
                ),
                Err(x) => sp_tsrx_expr(old(self).input(), old(self).position()) == Err::<
                    (SExpr, int),
                    ParseError,
                >(x),
            },
        decreases old(self).input().toks.len() - old(self).position(), 10int,
    {
        proof {
            reveal_with_fuel(sp_tsrx_expr, 1);
            reveal_with_fuel(sp_tsrx_code_block, 1);
            reveal_with_fuel(sp_tsrx_for, 1);
            reveal_with_fuel(sp_tsrx_if, 1);
            reveal_with_fuel(sp_tsrx_switch, 1);
            reveal_with_fuel(sp_tsrx_try, 1);
        }
        let start = self.cur_pos();
        self.bump();
        let t = if self.is(Punct::LBrace) {
            let b = self.parse_tsrx_code_block(false)?;
            let t = TsrxExpr::CodeBlock(b);
            assert(sv_tsrx_expr(t) == STsrxExpr::CodeBlock(sv_jsx_code_block(b)));
            t
        } else if self.is_kw(Keyword::If) {
            let x = self.parse_tsrx_if(start)?;
            let t = TsrxExpr::If(Box::new(x));
            assert(sv_tsrx_expr(t) == STsrxExpr::If(Box::new(sv_jsx_if_expr(x))));
            t
        } else if self.is_kw(Keyword::For) {
            let x = self.parse_tsrx_for(start)?;
            let t = TsrxExpr::For(Box::new(x));
            assert(sv_tsrx_expr(t) == STsrxExpr::For(Box::new(sv_jsx_for_expr(x))));
            t
        } else if self.is_kw(Keyword::Switch) {
            let x = self.parse_tsrx_switch(start)?;
            let t = TsrxExpr::Switch(Box::new(x));
            assert(sv_tsrx_expr(t) == STsrxExpr::Switch(Box::new(sv_jsx_switch_expr(x))));
            t
        } else if self.is_kw(Keyword::Try) {
            let x = self.parse_tsrx_try(start)?;
            let t = TsrxExpr::Try(Box::new(x));
            assert(sv_tsrx_expr(t) == STsrxExpr::Try(Box::new(sv_jsx_try_expr(x))));
            t
        } else {
            return Err(self.err(ErrorKind::Unexpected(Expectation::TsrxContainer)));
        };
        let e = Expr::Tsrx(Box::new(t));
        assert(sv_expr(e) == SExpr::Tsrx(Box::new(sv_tsrx_expr(t))));
        Ok(Box::new(e))
    }

    /// Wraps a direct `function f() @{ ... }` body in the function body shape:
    /// one expression statement holding the TSRX expression, whose code
    /// block (if it is one) is marked as a function body.
    #[verifier::rlimit(60)]
    pub fn parse_tsrx_function_body(&mut self) -> (r: Result<FunctionBody, ParseError>)
        requires
            old(self).wf(),
            is_p(old(self).input(), old(self).position(), Punct::At),
        ensures
            stays(*old(self), *final(self)),
            match r {
                Ok(b) => sp_tsrx_function_body(old(self).input(), old(self).position()) == Ok::<
                    _,
                    ParseError,
                >((sv_block_stmt(b), final(self).position())) && old(self).position()
                    < final(self).position() && b.span.lo <= b.span.hi,
                Err(x) => sp_tsrx_function_body(old(self).input(), old(self).position()) == Err::<
                    (crate::view::SBlockStmt, int),
                    ParseError,
                >(x),
            },
        decreases old(self).input().toks.len() - old(self).position(), 20int,
    {
        proof {
            reveal_with_fuel(sp_tsrx_function_body, 1);
            reveal_with_fuel(sp_tsrx_expr, 1);
        }
        let start = self.cur_pos();
        let ghost p0 = self.position();
        let expr = self.parse_tsrx_expr()?;
        proof {
            self.lemma_wf();
            let inp = self.input();
            if p0 < self.position() - 1 {
                lemma_tokens_ordered(inp.src, inp.toks, p0, self.position() - 1);
            }
        }
        let span = Span::new_with_checked(start, expr_span_exec(&expr).span_hi());
        let ghost se = sv_expr(*expr);
        let expr = match *expr {
            Expr::Tsrx(t) => match *t {
                TsrxExpr::CodeBlock(b) => {
                    assert(se == SExpr::Tsrx(Box::new(STsrxExpr::CodeBlock(sv_jsx_code_block(b)))));
                    let nb = JSXCodeBlock {
                        span: b.span,
                        body: b.body,
                        render: b.render,
                        is_function_body: true,
                    };
                    let ghost sb = sv_jsx_code_block(b);
                    assert(sv_jsx_code_block(nb) == (SJSXCodeBlock { span: sb.span, body: sb.body, render: sb.render, is_function_body: true }));
                    let nt = TsrxExpr::CodeBlock(nb);
                    assert(sv_tsrx_expr(nt) == STsrxExpr::CodeBlock(sv_jsx_code_block(nb)));
                    let ne = Expr::Tsrx(Box::new(nt));
                    assert(sv_expr(ne) == SExpr::Tsrx(Box::new(sv_tsrx_expr(nt))));
                    assert(sv_expr(ne) == mark_function_body(se));
                    Box::new(ne)
                },
                other => {
                    assert(se == SExpr::Tsrx(Box::new(sv_tsrx_expr(other))));
                    let ne = Expr::Tsrx(Box::new(other));
                    assert(sv_expr(ne) == SExpr::Tsrx(Box::new(sv_tsrx_expr(other))));
                    Box::new(ne)
                },
            },
            other => Box::new(other),
        };
        let st = Stmt::Expr(ExprStmt { span, expr });
        assert(sv_stmt(st) == SStmt::Expr(SExprStmt { span, expr: Box::new(sv_expr(*expr)) }));
        let mut stmts: Vec<Stmt> = Vec::new();
        stmts.push(st);
        proof {
            assert(stmts@.drop_last() =~= Seq::<Stmt>::empty());
            assert(sv_stmt_list(Seq::<Stmt>::empty()) =~= Seq::<SStmt>::empty());
            assert(sv_stmt_list(stmts@) =~= seq![sv_stmt(st)]);
        }
        Ok(BlockStmt { span, stmts })
    }
}

} // verus!
