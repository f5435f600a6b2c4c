//! Expressions, statements and declarations around TSRX expressions.
use vstd::prelude::*;

use crate::ast::{
    BindingIdent, BlockStmt, Class, ClassDecl, Decl, Decorator, EmptyStmt, Expr, ExprStmt, FnDecl,
    ForHead, Function, Lit, Module, ModuleItem, Param, ParenExpr, Pat, Stmt, VarDecl,
    VarDeclKind, VarDeclOrExpr, VarDeclarator,
};
use crate::span::Span;
use crate::token::{Keyword, Punct, Token};
use crate::view::{
    SBindingIdent, SBlockStmt, SClass, SClassDecl, SDecl, SDecorator, SExpr, SFnDecl, SFunction,
    SModule, SModuleItem, SParam, SPat, SStmt, SVarDecl, SVarDeclOrExpr, SVarDeclarator,
    sv_binding_ident, sv_block_stmt, sv_class, sv_class_decl, sv_decl, sv_decorator,
    sv_decorator_list, sv_expr, sv_fn_decl, sv_for_head, sv_function, sv_ident, sv_module,
    sv_module_item_list, sv_param, sv_param_list, sv_pat, sv_stmt, sv_stmt_list, sv_var_decl,
    sv_var_decl_or_expr, sv_var_declarator, sv_var_declarator_list,
};
use super::grammar::{
    ErrorKind, Expectation, ParseError, STempForHead, head_left, is_p, pat_of_expr,
    sp_binding_ident, sp_block, sp_class_decl, sp_declarator, sp_declarators, sp_decorator,
    sp_assign, sp_decorators, sp_expr, sp_expr_stmt, sp_fn_decl, sp_for_head, sp_for_head_rest, sp_for_tail,
    sp_jsx_element, sp_member_rest, sp_module, sp_module_items, sp_params, sp_primary, sp_semi,
    sp_stmt, sp_stmt_list, sp_tsrx_expr, sp_tsrx_function_body, sp_var_decl, word_of,
};
use super::{Parser, stays};

verus! {

/// The head of a `for` loop before it is split into the fields of a
/// `@for` expression.
pub enum TempForHead {
    For { init: Option<VarDeclOrExpr>, test: Option<Box<Expr>>, update: Option<Box<Expr>> },
    ForIn { left: ForHead, right: Box<Expr> },
    ForOf { left: ForHead, right: Box<Expr> },
}

pub open spec fn sv_temp_for_head(h: TempForHead) -> STempForHead {
    match h {
        TempForHead::For { init, test, update } => STempForHead::For {
            init: match init {
                Some(v) => Some(sv_var_decl_or_expr(v)),
                None => None,
            },
            test: match test {
                Some(v) => Some(Box::new(sv_expr(*v))),
                None => None,
            },
            update: match update {
                Some(v) => Some(Box::new(sv_expr(*v))),
                None => None,
            },
        },
        TempForHead::ForIn { left, right } => STempForHead::ForIn {
            left: sv_for_head(left),
            right: Box::new(sv_expr(*right)),
        },
        TempForHead::ForOf { left, right } => STempForHead::ForOf {
            left: sv_for_head(left),
            right: Box::new(sv_expr(*right)),
        },
    }
}

/// A binding pattern made from an expression read as a loop's left side.
pub fn pat_from_expr(e: Box<Expr>) -> (p: Pat)
    ensures
        sv_pat(p) == pat_of_expr(sv_expr(*e)),
{
    match *e {
        Expr::Ident(id) => Pat::Ident(BindingIdent { id }),
        other => Pat::Expr(Box::new(other)),
    }
}

fn left_from(v: VarDeclOrExpr) -> (h: ForHead)
    ensures
        sv_for_head(h) == head_left(sv_var_decl_or_expr(v)),
{
    match v {
        VarDeclOrExpr::VarDecl(d) => ForHead::VarDecl(d),
        VarDeclOrExpr::Expr(e) => ForHead::Pat(Box::new(pat_from_expr(e))),
    }
}

impl Parser {
    pub(crate) fn parse_primary(&mut self) -> (r: Result<Box<Expr>, ParseError>)
        requires
            old(self).wf(),
        ensures
            stays(*old(self), *final(self)),
            match r {
                Ok(e) => sp_primary(old(self).input(), old(self).position()) == Ok::<_, ParseError>(
                    (sv_expr(*e), final(self).position()),
                ) && old(self).position() < final(self).position(),
                Err(x) => sp_primary(old(self).input(), old(self).position()) == Err::<(SExpr, int), ParseError>(x),
            },
        decreases old(self).input().toks.len() - old(self).position(), 20int,
    {
        proof {
            reveal_with_fuel(sp_primary, 1);
            reveal_with_fuel(sp_expr, 1);
            reveal_with_fuel(sp_jsx_element, 1);
            reveal_with_fuel(sp_tsrx_expr, 1);
        }
        match self.nth(0) {
            Some(Token::Punct(Punct::At)) => {
                if self.is_tsrx_expr_start() {
                    self.parse_tsrx_expr()
                } else {
                    Err(self.err(ErrorKind::Unexpected(Expectation::Expression)))
                }
            },
            Some(Token::Ident) => {
                let id = self.nth_ident(0);
                self.bump();
                Ok(Box::new(Expr::Ident(id)))
            },
            Some(Token::Str) => {
                let s = self.str_here();
                self.bump();
                Ok(Box::new(Expr::Lit(Lit::Str(s))))
            },
            Some(Token::Num) => {
                let n = self.num_here();
                self.bump();
                Ok(Box::new(Expr::Lit(Lit::Num(n))))
            },
            Some(Token::Punct(Punct::LParen)) => {
                let start = self.cur_pos();
                self.bump();
                let e = self.parse_expr()?;
                if self.is(Punct::RParen) {
                    self.bump();
                    Ok(Box::new(Expr::Paren(ParenExpr { span: self.span(start), expr: e })))
                } else {
                    Err(self.err(ErrorKind::Expected(Punct::RParen)))
                }
            },
            Some(Token::Punct(Punct::Lt)) => {
                if self.syntax().jsx() {
                    self.parse_jsx_element()
                } else {
                    Err(self.err(ErrorKind::Unexpected(Expectation::Expression)))
                }
            },
            _ => Err(self.err(ErrorKind::Unexpected(Expectation::Expression))),
        }
    }

    /// The end of a statement: a `;`, or nothing before `}`, the end of the
    /// input, or a line break.
    fn parse_semi(&mut self) -> (r: Result<(), ParseError>)
        requires
            old(self).wf(),
        ensures
            stays(*old(self), *final(self)),
            match r {
                Ok(_) => sp_semi(old(self).input(), old(self).position()) == Ok::<_, ParseError>(
                    final(self).position(),
                ),
                Err(x) => sp_semi(old(self).input(), old(self).position()) == Err::<int, ParseError>(x),
            },
    {
        if self.is(Punct::Semi) {
            self.bump();
            Ok(())
        } else if self.at_end() || self.is(Punct::RBrace) || self.had_line_break() {
            Ok(())
        } else {
            Err(self.err(ErrorKind::Expected(Punct::Semi)))
        }
    }

    fn parse_expr_stmt(&mut self) -> (r: Result<Stmt, ParseError>)
        requires
            old(self).wf(),
        ensures
            stays(*old(self), *final(self)),
            match r {
                Ok(s) => sp_expr_stmt(old(self).input(), old(self).position()) == Ok::<_, ParseError>(
                    (sv_stmt(s), final(self).position()),
                ) && old(self).position() < final(self).position(),
                Err(x) => sp_expr_stmt(old(self).input(), old(self).position()) == Err::<(SStmt, int), ParseError>(x),
            },
        decreases old(self).input().toks.len() - old(self).position(), 40int,
    {
        proof {
            reveal_with_fuel(sp_expr_stmt, 1);
            reveal_with_fuel(sp_expr, 1);
        }
        let start = self.cur_pos();
        let expr = self.parse_expr()?;
        self.parse_semi()?;
        Ok(Stmt::Expr(ExprStmt { span: self.span(start), expr }))
    }

    /// Parses one statement.
    #[verifier::spinoff_prover]
    #[verifier::rlimit(50)]
    pub fn parse_stmt(&mut self) -> (r: Result<Stmt, ParseError>)
        requires
            old(self).wf(),
        ensures
            stays(*old(self), *final(self)),
            match r {
                Ok(s) => sp_stmt(old(self).input(), old(self).position()) == Ok::<_, ParseError>(
                    (sv_stmt(s), final(self).position()),
                ) && old(self).position() < final(self).position(),
                Err(x) => sp_stmt(old(self).input(), old(self).position()) == Err::<(SStmt, int), ParseError>(x),
            },
        decreases old(self).input().toks.len() - old(self).position(), 50int,
    {
        proof {
            reveal_with_fuel(sp_stmt, 1);
            reveal_with_fuel(sp_block, 1);
            reveal_with_fuel(sp_decorators, 1);
            reveal_with_fuel(sp_expr_stmt, 1);
            reveal_with_fuel(sp_fn_decl, 1);
            reveal_with_fuel(sp_var_decl, 1);
        }
        if self.is(Punct::LBrace) {
            let b = self.parse_block()?;
            Ok(Stmt::Block(b))
        } else if self.is(Punct::Semi) {
            let span = self.cur_span();
            self.bump();
            Ok(Stmt::Empty(EmptyStmt { span }))
        } else if self.is_kw(Keyword::Const) || self.is_kw(Keyword::Let) || self.is_kw(Keyword::Var) {
            let d = self.parse_var_decl()?;
            self.parse_semi()?;
            Ok(Stmt::Decl(Decl::Var(Box::new(d))))
        } else if self.is_kw(Keyword::Function) {
            self.parse_fn_decl()
        } else if self.is_kw(Keyword::Class) {
            let start = self.cur_pos();
            self.parse_class_decl(start, Vec::new())
        } else if self.is(Punct::At) && !self.is_tsrx_expr_start() {
            if self.syntax().decorators() {
                let start = self.cur_pos();
                let ds = self.parse_decorators()?;
                if self.is_kw(Keyword::Class) {
                    self.parse_class_decl(start, ds)
                } else {
                    Err(self.err(ErrorKind::Unexpected(Expectation::Class)))
                }
            } else {
                Err(self.err(ErrorKind::Unexpected(Expectation::Statement)))
            }
        } else {
            self.parse_expr_stmt()
        }
    }

    /// The statements up to the `}` that closes their block.
    fn parse_stmt_list(&mut self) -> (r: Result<Vec<Stmt>, ParseError>)
        requires
            old(self).wf(),
        ensures
            stays(*old(self), *final(self)),
            match r {
                Ok(v) => sp_stmt_list(old(self).input(), old(self).position(), Seq::empty())
                    == Ok::<_, ParseError>((sv_stmt_list(v@), final(self).position())) && is_p(
                    final(self).input(),
                    final(self).position(),
                    Punct::RBrace,
                ),
                Err(x) => sp_stmt_list(old(self).input(), old(self).position(), Seq::empty())
                    == Err::<(Seq<SStmt>, int), ParseError>(x),
            },
        decreases old(self).input().toks.len() - old(self).position(), 60int,
    {
        proof {
            reveal_with_fuel(sp_stmt_list, 1);
            reveal_with_fuel(sp_stmt, 1);
        }
        let ghost inp = self.input();
        let ghost p0 = self.position();
        let mut stmts: Vec<Stmt> = Vec::new();
        assert(sv_stmt_list(stmts@) =~= Seq::empty());
        loop
            invariant
                self.wf(),
                self.input() == inp,
                p0 <= self.position(),
                p0 == old(self).position(),
                inp == old(self).input(),
                sp_stmt_list(inp, p0, Seq::empty()) == sp_stmt_list(
                    inp,
                    self.position(),
                    sv_stmt_list(stmts@),
                ),
            decreases inp.toks.len() - self.position(),
        {
            proof {
                reveal_with_fuel(sp_stmt_list, 1);
                reveal_with_fuel(sp_stmt, 1);
            }
            if self.is(Punct::RBrace) {
                return Ok(stmts);
            }
            if self.at_end() {
                return Err(self.err(ErrorKind::Expected(Punct::RBrace)));
            }
            let s = self.parse_stmt()?;
            let ghost prev = stmts@;
            stmts.push(s);
            assert(stmts@.drop_last() =~= prev);
        }
    }

    /// Parses `{ stmts }`.
    pub fn parse_block(&mut self) -> (r: Result<BlockStmt, ParseError>)
        requires
            old(self).wf(),
        ensures
            stays(*old(self), *final(self)),
            match r {
                Ok(b) => sp_block(old(self).input(), old(self).position()) == Ok::<_, ParseError>(
                    (sv_block_stmt(b), final(self).position()),
                ) && old(self).position() < final(self).position(),
                Err(x) => sp_block(old(self).input(), old(self).position()) == Err::<(SBlockStmt, int), ParseError>(x),
            },
        decreases old(self).input().toks.len() - old(self).position(), 10int,
    {
        proof {
            reveal_with_fuel(sp_block, 1);
            reveal_with_fuel(sp_stmt_list, 1);
        }
        let start = self.cur_pos();
        self.expect(Punct::LBrace)?;
        let stmts = self.parse_stmt_list()?;
        self.bump();
        Ok(BlockStmt { span: self.span(start), stmts })
    }

    /// Parses an identifier in a binding position.
    pub fn parse_binding_ident(&mut self) -> (r: Result<BindingIdent, ParseError>)
        requires
            old(self).wf(),
        ensures
            stays(*old(self), *final(self)),
            match r {
                Ok(b) => sp_binding_ident(old(self).input(), old(self).position()) == Ok::<_, ParseError>(
                    (sv_binding_ident(b), final(self).position()),
                ) && old(self).position() < final(self).position(),
                Err(x) => sp_binding_ident(old(self).input(), old(self).position()) == Err::<(SBindingIdent, int), ParseError>(x),
            },
    {
        if self.nth(0) == Some(Token::Ident) {
            let id = self.nth_ident(0);
            self.bump();
            Ok(BindingIdent { id })
        } else {
            Err(self.err(ErrorKind::Unexpected(Expectation::Identifier)))
        }
    }

    fn parse_declarator(&mut self) -> (r: Result<VarDeclarator, ParseError>)
        requires
            old(self).wf(),
        ensures
            stays(*old(self), *final(self)),
            match r {
                Ok(d) => sp_declarator(old(self).input(), old(self).position()) == Ok::<_, ParseError>(
                    (sv_var_declarator(d), final(self).position()),
                ) && old(self).position() < final(self).position(),
                Err(x) => sp_declarator(old(self).input(), old(self).position()) == Err::<(SVarDeclarator, int), ParseError>(x),
            },
        decreases old(self).input().toks.len() - old(self).position(), 20int,
    {
        proof {
            reveal_with_fuel(sp_declarator, 1);
            reveal_with_fuel(sp_assign, 1);
        }
        let start = self.cur_pos();
        let bi = self.parse_binding_ident()?;
        if self.is(Punct::Eq) {
            self.bump();
            let e = self.parse_assign()?;
            let d = VarDeclarator { span: self.span(start), name: Pat::Ident(bi), init: Some(e) };
            proof {
                crate::view::lemma_sv_var_declarator(d);
            }
            Ok(d)
        } else {
            let d = VarDeclarator { span: self.span(start), name: Pat::Ident(bi), init: None };
            proof {
                crate::view::lemma_sv_var_declarator(d);
            }
            Ok(d)
        }
    }

    fn parse_declarators(&mut self) -> (r: Result<Vec<VarDeclarator>, ParseError>)
        requires
            old(self).wf(),
        ensures
            stays(*old(self), *final(self)),
            match r {
                Ok(v) => sp_declarators(old(self).input(), old(self).position(), Seq::empty())
                    == Ok::<_, ParseError>((sv_var_declarator_list(v@), final(self).position()))
                    && old(self).position() < final(self).position(),
                Err(x) => sp_declarators(old(self).input(), old(self).position(), Seq::empty())
                    == Err::<(Seq<SVarDeclarator>, int), ParseError>(x),
            },
        decreases old(self).input().toks.len() - old(self).position(), 30int,
    {
        proof {
            reveal_with_fuel(sp_declarators, 1);
            reveal_with_fuel(sp_declarator, 1);
        }
        let ghost inp = self.input();
        let ghost p0 = self.position();
        let mut decls: Vec<VarDeclarator> = Vec::new();
        assert(sv_var_declarator_list(decls@) =~= Seq::empty());
        loop
            invariant
                self.wf(),
                self.input() == inp,
                p0 <= self.position(),
                decls@.len() > 0 ==> p0 < self.position(),
                p0 == old(self).position(),
                inp == old(self).input(),
                sp_declarators(inp, p0, Seq::empty()) == sp_declarators(
                    inp,
                    self.position(),
                    sv_var_declarator_list(decls@),
                ),
            decreases inp.toks.len() - self.position(),
        {
            proof {
                reveal_with_fuel(sp_declarators, 1);
                reveal_with_fuel(sp_declarator, 1);
            }
            let d = self.parse_declarator()?;
            let ghost prev = decls@;
            decls.push(d);
            assert(decls@.drop_last() =~= prev);
            if self.is(Punct::Comma) && self.pos() + 1 <= self.toks_len() {
                self.bump();
            } else {
                return Ok(decls);
            }
        }
    }

    /// Parses `const a = 1, b` (without the semicolon).
    pub fn parse_var_decl(&mut self) -> (r: Result<VarDecl, ParseError>)
        requires
            old(self).wf(),
        ensures
            stays(*old(self), *final(self)),
            match r {
                Ok(d) => sp_var_decl(old(self).input(), old(self).position()) == Ok::<_, ParseError>(
                    (sv_var_decl(d), final(self).position()),
                ) && old(self).position() < final(self).position(),
                Err(x) => sp_var_decl(old(self).input(), old(self).position()) == Err::<(SVarDecl, int), ParseError>(x),
            },
        decreases old(self).input().toks.len() - old(self).position(), 10int,
    {
        proof {
            reveal_with_fuel(sp_var_decl, 1);
            reveal_with_fuel(sp_declarators, 1);
        }
        if self.at_end() {
            return Err(self.err(ErrorKind::Unexpected(Expectation::Statement)));
        }
        let start = self.cur_pos();
        let kind = if self.is_kw(Keyword::Const) {
            VarDeclKind::Const
        } else if self.is_kw(Keyword::Let) {
            VarDeclKind::Let
        } else {
            VarDeclKind::Var
        };
        self.bump();
        let decls = self.parse_declarators()?;
        Ok(VarDecl { span: self.span(start), kind, decls })
    }

    fn parse_params(&mut self) -> (r: Result<Vec<Param>, ParseError>)
        requires
            old(self).wf(),
        ensures
            stays(*old(self), *final(self)),
            match r {
                Ok(v) => sp_params(old(self).input(), old(self).position(), Seq::empty()) == Ok::<_, ParseError>(
                    (sv_param_list(v@), final(self).position()),
                ) && is_p(final(self).input(), final(self).position(), Punct::RParen),
                Err(x) => sp_params(old(self).input(), old(self).position(), Seq::empty()) == Err::<
                    (Seq<SParam>, int),
                    ParseError,
                >(x),
            },
    {
        proof {
            reveal_with_fuel(sp_params, 1);
        }
        let ghost inp = self.input();
        let ghost p0 = self.position();
        let mut params: Vec<Param> = Vec::new();
        assert(sv_param_list(params@) =~= Seq::empty());
        loop
            invariant
                self.wf(),
                self.input() == inp,
                p0 <= self.position(),
                p0 == old(self).position(),
                inp == old(self).input(),
                sp_params(inp, p0, Seq::empty()) == sp_params(
                    inp,
                    self.position(),
                    sv_param_list(params@),
                ),
            decreases inp.toks.len() - self.position(),
        {
            proof {
                reveal_with_fuel(sp_params, 1);
            }
            if self.is(Punct::RParen) {
                return Ok(params);
            }
            let span = self.cur_span();
            let bi = self.parse_binding_ident()?;
            let ghost prev = params@;
            let ghost sbi = sv_binding_ident(bi);
            let param = Param { span, pat: Pat::Ident(bi) };
            assert(sv_pat(param.pat) == SPat::Ident(sbi));
            proof {
                crate::view::lemma_sv_param(param);
            }
            assert(sv_param(param) == (SParam { span, pat: SPat::Ident(sbi) }));
            params.push(param);
            assert(params@.drop_last() =~= prev);
            if self.is(Punct::Comma) {
                self.bump();
            } else if self.is(Punct::RParen) {
                return Ok(params);
            } else {
                return Err(self.err(ErrorKind::Expected(Punct::RParen)));
            }
        }
    }

    /// Parses `function name(params) body`; in TSRX the body may be a TSRX
    /// expression.
    fn parse_fn_decl(&mut self) -> (r: Result<Stmt, ParseError>)
        requires
            old(self).wf(),
        ensures
            stays(*old(self), *final(self)),
            match r {
                Ok(s) => sp_fn_decl(old(self).input(), old(self).position()) == Ok::<_, ParseError>(
                    (sv_stmt(s), final(self).position()),
                ) && old(self).position() < final(self).position(),
                Err(x) => sp_fn_decl(old(self).input(), old(self).position()) == Err::<(SStmt, int), ParseError>(x),
            },
        decreases old(self).input().toks.len() - old(self).position(), 10int,
    {
        proof {
            reveal_with_fuel(sp_fn_decl, 1);
            reveal_with_fuel(sp_block, 1);
            reveal_with_fuel(sp_params, 1);
            reveal_with_fuel(sp_tsrx_function_body, 1);
        }
        let start = self.cur_pos();
        let ghost p0 = self.position();
        if self.at_end() {
            return Err(self.nth_err(1, ErrorKind::Unexpected(Expectation::Identifier)));
        }
        self.bump();
        let name = self.parse_binding_ident()?;
        self.expect(Punct::LParen)?;
        let params = self.parse_params()?;
        self.bump();
        let body = if self.is_tsrx_expr_start() {
            self.parse_tsrx_function_body()?
        } else {
            self.parse_block()?
        };
        let ghost sps = sv_param_list(params@);
        let ghost sb = sv_block_stmt(body);
        let function = Function { span: self.span(start), params, body: Some(body) };
        assert(sv_function(function) == (SFunction { span: function.span, params: sps, body: Some(sb) }));
        let fd = FnDecl { ident: name.id, function: Box::new(function) };
        assert(sv_fn_decl(fd) == (SFnDecl { ident: sv_ident(name.id), function: Box::new(sv_function(function)) }));
        let d = Decl::Fn(fd);
        assert(sv_decl(d) == SDecl::Fn(sv_fn_decl(fd)));
        let s = Stmt::Decl(d);
        assert(sv_stmt(s) == SStmt::Decl(sv_decl(d)));
        Ok(s)
    }

    /// Parses `class name {}`, with the decorators read before it.
    fn parse_class_decl(&mut self, start: usize, decorators: Vec<Decorator>) -> (r: Result<
        Stmt,
        ParseError,
    >)
        requires
            old(self).wf(),
            old(self).position() < old(self).input().toks.len(),
        ensures
            stays(*old(self), *final(self)),
            match r {
                Ok(s) => sp_class_decl(
                    old(self).input(),
                    old(self).position(),
                    start,
                    sv_decorator_list(decorators@),
                ) == Ok::<_, ParseError>((sv_stmt(s), final(self).position())) && old(self).position()
                    < final(self).position(),
                Err(x) => sp_class_decl(
                    old(self).input(),
                    old(self).position(),
                    start,
                    sv_decorator_list(decorators@),
                ) == Err::<(SStmt, int), ParseError>(x),
            },
    {
        self.bump();
        let name = self.parse_binding_ident()?;
        if !self.is(Punct::LBrace) {
            return Err(self.err(ErrorKind::Expected(Punct::LBrace)));
        }
        if !self.nth_is(1, Punct::RBrace) {
            return Err(self.nth_err(1, ErrorKind::Expected(Punct::RBrace)));
        }
        self.bump_n(2);
        let ghost sds = sv_decorator_list(decorators@);
        let class = Class { span: self.span(start), decorators };
        assert(sv_class(class) == (SClass { span: class.span, decorators: sds }));
        let cd = ClassDecl { ident: name.id, class: Box::new(class) };
        assert(sv_class_decl(cd) == (SClassDecl { ident: sv_ident(name.id), class: Box::new(sv_class(class)) }));
        let d = Decl::Class(cd);
        assert(sv_decl(d) == SDecl::Class(sv_class_decl(cd)));
        let s = Stmt::Decl(d);
        assert(sv_stmt(s) == SStmt::Decl(sv_decl(d)));
        Ok(s)
    }

    fn parse_decorator(&mut self) -> (r: Result<Decorator, ParseError>)
        requires
            old(self).wf(),
        ensures
            stays(*old(self), *final(self)),
            match r {
                Ok(d) => sp_decorator(old(self).input(), old(self).position()) == Ok::<_, ParseError>(
                    (sv_decorator(d), final(self).position()),
                ) && old(self).position() < final(self).position(),
                Err(x) => sp_decorator(old(self).input(), old(self).position()) == Err::<(SDecorator, int), ParseError>(x),
            },
        decreases old(self).input().toks.len() - old(self).position(), 10int,
    {
        proof {
            reveal_with_fuel(sp_decorator, 1);
            reveal_with_fuel(sp_expr, 1);
        }
        if self.at_end() {
            return Err(self.err(ErrorKind::Expected(Punct::At)));
        }
        let start = self.cur_pos();
        self.bump();
        let expr = self.parse_expr()?;
        let d = Decorator { span: self.span(start), expr };
        proof {
            crate::view::lemma_sv_decorator(d);
        }
        Ok(d)
    }

    fn parse_decorators(&mut self) -> (r: Result<Vec<Decorator>, ParseError>)
        requires
            old(self).wf(),
        ensures
            stays(*old(self), *final(self)),
            match r {
                Ok(v) => sp_decorators(old(self).input(), old(self).position(), Seq::empty())
                    == Ok::<_, ParseError>((sv_decorator_list(v@), final(self).position())),
                Err(x) => sp_decorators(old(self).input(), old(self).position(), Seq::empty())
                    == Err::<(Seq<SDecorator>, int), ParseError>(x),
            },
        decreases old(self).input().toks.len() - old(self).position(), 20int,
    {
        proof {
            reveal_with_fuel(sp_decorators, 1);
            reveal_with_fuel(sp_decorator, 1);
        }
        let ghost inp = self.input();
        let ghost p0 = self.position();
        let mut ds: Vec<Decorator> = Vec::new();
        assert(sv_decorator_list(ds@) =~= Seq::empty());
        loop
            invariant
                self.wf(),
                self.input() == inp,
                p0 <= self.position(),
                p0 == old(self).position(),
                inp == old(self).input(),
                sp_decorators(inp, p0, Seq::empty()) == sp_decorators(
                    inp,
                    self.position(),
                    sv_decorator_list(ds@),
                ),
            decreases inp.toks.len() - self.position(),
        {
            proof {
                reveal_with_fuel(sp_decorators, 1);
                reveal_with_fuel(sp_decorator, 1);
            }
            if !(self.is(Punct::At) && !self.is_tsrx_expr_start()) {
                return Ok(ds);
            }
            let d = self.parse_decorator()?;
            let ghost prev = ds@;
            ds.push(d);
            assert(ds@.drop_last() =~= prev);
        }
    }

    /// Parses the whole input as a module.
    pub fn parse_module(&mut self) -> (r: Result<Module, ParseError>)
        requires
            old(self).wf(),
        ensures
            final(self).wf(),
            final(self).input() == old(self).input(),
            match r {
                Ok(m) => sp_module(old(self).input(), old(self).position()) == Ok::<_, ParseError>(
                    sv_module(m),
                ),
                Err(x) => sp_module(old(self).input(), old(self).position()) == Err::<SModule, ParseError>(x),
            },
    {
        let ghost inp = self.input();
        let ghost p0 = self.position();
        let mut items: Vec<ModuleItem> = Vec::new();
        assert(sv_module_item_list(items@) =~= Seq::empty());
        loop
            invariant
                self.wf(),
                self.input() == inp,
                p0 <= self.position(),
                p0 == old(self).position(),
                inp == old(self).input(),
                sp_module_items(inp, p0, Seq::empty()) == sp_module_items(
                    inp,
                    self.position(),
                    sv_module_item_list(items@),
                ),
            decreases inp.toks.len() - self.position(),
        {
            proof {
                reveal_with_fuel(sp_module_items, 1);
                reveal_with_fuel(sp_stmt, 1);
            }
            if self.at_end() {
                proof {
                    self.lemma_wf();
                }
                let n = self.src_len();
                return Ok(Module { span: Span { lo: 0, hi: n }, body: items });
            }
            let s = self.parse_stmt()?;
            let ghost prev = items@;
            items.push(ModuleItem::Stmt(s));
            assert(items@.drop_last() =~= prev);
        }
    }

    /// `; test ; update` after the initializer of a three-part head.
    fn parse_for_tail(&mut self, init: Option<VarDeclOrExpr>) -> (r: Result<TempForHead, ParseError>)
        requires
            old(self).wf(),
        ensures
            stays(*old(self), *final(self)),
            match r {
                Ok(h) => sp_for_tail(
                    old(self).input(),
                    old(self).position(),
                    match init {
                        Some(v) => Some(sv_var_decl_or_expr(v)),
                        None => None,
                    },
                ) == Ok::<_, ParseError>((sv_temp_for_head(h), final(self).position())) && old(self).position()
                    < final(self).position(),
                Err(x) => sp_for_tail(
                    old(self).input(),
                    old(self).position(),
                    match init {
                        Some(v) => Some(sv_var_decl_or_expr(v)),
                        None => None,
                    },
                ) == Err::<(STempForHead, int), ParseError>(x),
            },
        decreases old(self).input().toks.len() - old(self).position(), 10int,
    {
        proof {
            reveal_with_fuel(sp_for_tail, 1);
            reveal_with_fuel(sp_expr, 1);
        }
        self.expect(Punct::Semi)?;
        let test = if self.is(Punct::Semi) {
            None
        } else {
            Some(self.parse_expr()?)
        };
        if !self.is(Punct::Semi) {
            return Err(self.err(ErrorKind::Expected(Punct::Semi)));
        }
        if self.nth_is(1, Punct::RParen) {
            self.bump();
            return Ok(TempForHead::For { init, test, update: None });
        }
        self.bump();
        let u = self.parse_expr()?;
        Ok(TempForHead::For { init, test, update: Some(u) })
    }

    fn parse_for_head_rest(&mut self, first: VarDeclOrExpr, Ghost(p0): Ghost<int>) -> (r: Result<
        TempForHead,
        ParseError,
    >)
        requires
            old(self).wf(),
            p0 < old(self).position(),
        ensures
            stays(*old(self), *final(self)),
            match r {
                Ok(h) => sp_for_head_rest(
                    old(self).input(),
                    p0,
                    old(self).position(),
                    sv_var_decl_or_expr(first),
                ) == Ok::<_, ParseError>((sv_temp_for_head(h), final(self).position())) && old(self).position()
                    < final(self).position(),
                Err(x) => sp_for_head_rest(
                    old(self).input(),
                    p0,
                    old(self).position(),
                    sv_var_decl_or_expr(first),
                ) == Err::<(STempForHead, int), ParseError>(x),
            },
        decreases old(self).input().toks.len() - p0, 20int,
    {
        proof {
            reveal_with_fuel(sp_for_head_rest, 1);
            reveal_with_fuel(sp_expr, 1);
            reveal_with_fuel(sp_for_tail, 1);
        }
        let is_of = self.nth_is_word(0, "of");
        proof {
            reveal_strlit("of");
            assert("of"@ =~= word_of());
        }
        if is_of {
            self.bump();
            let right = self.parse_expr()?;
            let left = left_from(first);
            let h = TempForHead::ForOf { left, right };
            assert(sv_temp_for_head(h) == (STempForHead::ForOf { left: sv_for_head(left), right: Box::new(sv_expr(*right)) }));
            Ok(h)
        } else if self.is_kw(Keyword::In) {
            self.bump();
            let right = self.parse_expr()?;
            let left = left_from(first);
            let h = TempForHead::ForIn { left, right };
            assert(sv_temp_for_head(h) == (STempForHead::ForIn { left: sv_for_head(left), right: Box::new(sv_expr(*right)) }));
            Ok(h)
        } else {
            self.parse_for_tail(Some(first))
        }
    }

    /// Parses the head of a `for` loop in any of its three forms.
    pub fn parse_for_head(&mut self) -> (r: Result<TempForHead, ParseError>)
        requires
            old(self).wf(),
        ensures
            stays(*old(self), *final(self)),
            match r {
                Ok(h) => sp_for_head(old(self).input(), old(self).position()) == Ok::<_, ParseError>(
                    (sv_temp_for_head(h), final(self).position()),
                ) && old(self).position() < final(self).position(),
                Err(x) => sp_for_head(old(self).input(), old(self).position()) == Err::<(STempForHead, int), ParseError>(x),
            },
        decreases old(self).input().toks.len() - old(self).position(), 40int,
    {
        proof {
            reveal_with_fuel(sp_for_head, 1);
            reveal_with_fuel(sp_expr, 1);
            reveal_with_fuel(sp_for_head_rest, 1);
            reveal_with_fuel(sp_for_tail, 1);
            reveal_with_fuel(sp_var_decl, 1);
        }
        let ghost p0 = self.position();
        if self.is_kw(Keyword::Const) || self.is_kw(Keyword::Let) || self.is_kw(Keyword::Var) {
            let d = self.parse_var_decl()?;
            self.parse_for_head_rest(VarDeclOrExpr::VarDecl(Box::new(d)), Ghost(p0))
        } else if self.is(Punct::Semi) {
            self.parse_for_tail(None)
        } else {
            let e = self.parse_expr()?;
            self.parse_for_head_rest(VarDeclOrExpr::Expr(e), Ghost(p0))
        }
    }
}

} // verus!
