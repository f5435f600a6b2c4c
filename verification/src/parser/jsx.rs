//! JSX elements, with the TSRX additions: dynamic `{expr}` tag names,
//! shorthand `{name}` attributes, directives among the children, and raw
//! `<style>` bodies.
use vstd::prelude::*;

use crate::ast::{
    Expr, Ident, JSXAttr, JSXAttrOrSpread, JSXAttrValue, JSXClosingElement, JSXElement,
    JSXElementChild, JSXElementName, JSXExprContainer, JSXFragment, JSXOpeningElement,
    JSXStyleElement, JSXText, TsrxExpr,
};
use crate::lexer::lemma_tokens_ordered;
use crate::span::Span;
use crate::token::{Punct, Token, tok_is};
use crate::view::{
    SExpr, SJSXAttr, SJSXAttrOrSpread, SJSXAttrValue, SJSXClosingElement, SJSXElement,
    SJSXElementChild, SJSXElementName, SJSXExprContainer, SJSXFragment, SJSXOpeningElement,
    SJSXStyleElement, SJSXText, STsrxExpr, sv_expr, sv_ident, sv_jsx_attr, sv_jsx_attr_or_spread,
    sv_jsx_attr_or_spread_list, sv_jsx_attr_value, sv_jsx_closing_element, sv_jsx_element,
    sv_jsx_element_child, sv_jsx_element_child_list, sv_jsx_element_name, sv_jsx_expr_container,
    sv_jsx_fragment, sv_jsx_opening_element, sv_jsx_style_element, sv_tsrx_expr,
};
use super::grammar::{
    ErrorKind, Expectation, ParseError, child_of_expr, is_p, is_style_close_at, is_style_name,
    is_text_tok, last_pos, names_match, sp_expr, sp_jsx_attr, sp_jsx_attr_value, sp_jsx_attrs,
    sp_jsx_child_item, sp_jsx_children, sp_jsx_closing, sp_jsx_element, sp_jsx_element_body,
    sp_jsx_fragment, sp_jsx_name, sp_jsx_tag, sp_style_body, sp_tsrx_expr, span_at, style_close,
    text, text_end, tok, word_style,
};
use super::{Parser, stays};

verus! {

/// Whether a closing tag names the element that its opening tag names.
pub fn names_match_exec(a: &JSXElementName, b: &JSXElementName) -> (m: bool)
    ensures
        m == names_match(sv_jsx_element_name(*a), sv_jsx_element_name(*b)),
{
    match (a, b) {
        (JSXElementName::Ident(x), JSXElementName::Ident(y)) => x.sym == y.sym,
        (JSXElementName::JSXExprContainer(_), JSXElementName::JSXExprContainer(_)) => true,
        _ => false,
    }
}

fn is_style_name_exec(n: &JSXElementName) -> (b: bool)
    ensures
        b == is_style_name(sv_jsx_element_name(*n)),
{
    match n {
        JSXElementName::Ident(i) => {
            let style = String::from_str("style");
            proof {
                reveal_strlit("style");
                assert("style"@ =~= word_style());
            }
            i.sym == style
        },
        _ => false,
    }
}

/// The child that an element, fragment or TSRX expression read among the
/// children becomes.
fn child_of(e: Box<Expr>) -> (c: JSXElementChild)
    ensures
        sv_jsx_element_child(c) == child_of_expr(sv_expr(*e)),
{
    match *e {
        Expr::JSXElement(el) => JSXElementChild::JSXElement(el),
        Expr::JSXFragment(f) => JSXElementChild::JSXFragment(f),
        Expr::Tsrx(t) => JSXElementChild::Tsrx(t),
        other => {
            let span = expr_span_exec(&other);
            JSXElementChild::JSXExprContainer(JSXExprContainer { span, expr: Box::new(other) })
        },
    }
}

/// The span of a TSRX expression.
pub fn tsrx_span_exec(t: &TsrxExpr) -> (s: Span)
    ensures
        s == super::grammar::tsrx_span(sv_tsrx_expr(*t)),
{
    match t {
        TsrxExpr::CodeBlock(b) => b.span,
        TsrxExpr::StyleElement(s) => s.span,
        TsrxExpr::If(i) => i.span,
        TsrxExpr::For(f) => f.span,
        TsrxExpr::Switch(s) => s.span,
        TsrxExpr::Try(t) => t.span,
    }
}

/// The span of an expression.
pub fn expr_span_exec(e: &Expr) -> (s: Span)
    ensures
        s == super::grammar::expr_span(sv_expr(*e)),
{
    proof {
        reveal_with_fuel(sv_expr, 2);
    }
    match e {
        Expr::Ident(i) => i.span,
        Expr::Lit(crate::ast::Lit::Str(s)) => s.span,
        Expr::Lit(crate::ast::Lit::Num(n)) => n.span,
        Expr::Member(m) => m.span,
        Expr::Paren(p) => p.span,
        Expr::JSXElement(e) => e.span,
        Expr::JSXFragment(f) => f.span,
        Expr::Tsrx(t) => {
            assert(sv_expr(*e) == SExpr::Tsrx(Box::new(sv_tsrx_expr(**t))));
            tsrx_span_exec(t)
        },
        Expr::Call(c) => c.span,
        Expr::Update(u) => u.span,
        Expr::Unary(u) => u.span,
        Expr::Bin(b) => b.span,
        Expr::Cond(c) => c.span,
        Expr::Assign(a) => a.span,
        Expr::Sequence(q) => q.span,
    }
}

impl Parser {
    /// The first index at or after the current one that does not hold text.
    fn text_end_exec(&self) -> (q: usize)
        requires
            self.wf(),
        ensures
            q == text_end(self.input(), self.position()),
            self.position() <= q <= self.input().toks.len(),
    {
        let mut q = self.pos();
        let n = self.toks_len();
        while q < n && !tok_is(self.token_at_index(q), Punct::Lt) && !tok_is(self.token_at_index(q), Punct::LBrace) && !self.is_tsrx_expr_start_at(q)
            invariant
                self.wf(),
                n == self.input().toks.len(),
                self.position() <= q <= n,
                text_end(self.input(), self.position()) == text_end(self.input(), q as int),
            decreases n - q,
        {
            q = q + 1;
        }
        q
    }

    /// The first index at or after the current one that holds `</style>`.
    fn style_close_exec(&self) -> (q: usize)
        requires
            self.wf(),
        ensures
            q == style_close(self.input(), self.position()),
            self.position() <= q <= self.input().toks.len(),
            q < self.input().toks.len() ==> is_style_close_at(self.input(), q as int),
    {
        let mut q = self.pos();
        let n = self.toks_len();
        while q < n && !self.is_style_close_at_exec(q)
            invariant
                self.wf(),
                n == self.input().toks.len(),
                self.position() <= q <= n,
                style_close(self.input(), self.position()) == style_close(self.input(), q as int),
            decreases n - q,
        {
            q = q + 1;
        }
        q
    }

    fn is_style_close_at_exec(&self, q: usize) -> (b: bool)
        requires
            self.wf(),
            q < self.input().toks.len(),
        ensures
            b == is_style_close_at(self.input(), q as int),
    {
        let n = self.toks_len();
        if n - q <= 3 {
            return false;
        }
        if !(tok_is(self.token_at_index(q), Punct::Lt) && tok_is(self.token_at_index(q + 1), Punct::Slash)
            && tok_is(self.token_at_index(q + 3), Punct::Gt)) {
            return false;
        }
        proof {
            reveal_strlit("style");
            assert("style"@ =~= word_style());
        }
        self.word_at_index(q + 2, "style")
    }

    /// Parses an element or a fragment; the current token is `<`.
    pub(crate) fn parse_jsx_element(&mut self) -> (r: Result<Box<Expr>, ParseError>)
        requires
            old(self).wf(),
        ensures
            stays(*old(self), *final(self)),
            match r {
                Ok(e) => sp_jsx_element(old(self).input(), old(self).position()) == Ok::<
                    _,
                    ParseError,
                >((sv_expr(*e), final(self).position())) && old(self).position()
                    < final(self).position(),
                Err(x) => sp_jsx_element(old(self).input(), old(self).position()) == Err::<
                    (SExpr, int),
                    ParseError,
                >(x),
            },
        decreases old(self).input().toks.len() - old(self).position(), 10int,
    {
        proof {
            reveal_with_fuel(sp_jsx_element, 1);
            reveal_with_fuel(sp_jsx_fragment, 1);
            reveal_with_fuel(sp_jsx_tag, 1);
        }
        if self.at_end() {
            return Err(self.err(ErrorKind::Expected(Punct::Lt)));
        }
        if self.nth_is(1, Punct::Gt) {
            self.parse_jsx_fragment()
        } else {
            self.parse_jsx_tag()
        }
    }

    /// `<>children</>`
    fn parse_jsx_fragment(&mut self) -> (r: Result<Box<Expr>, ParseError>)
        requires
            old(self).wf(),
        ensures
            stays(*old(self), *final(self)),
            match r {
                Ok(e) => sp_jsx_fragment(old(self).input(), old(self).position()) == Ok::<
                    _,
                    ParseError,
                >((sv_expr(*e), final(self).position())) && old(self).position()
                    < final(self).position(),
                Err(x) => sp_jsx_fragment(old(self).input(), old(self).position()) == Err::<
                    (SExpr, int),
                    ParseError,
                >(x),
            },
        decreases old(self).input().toks.len() - old(self).position(), 0int,
    {
        proof {
            reveal_with_fuel(sp_jsx_fragment, 1);
            reveal_with_fuel(sp_jsx_children, 1);
        }
        if self.toks_len() - self.pos() < 2 {
            return Err(self.err(ErrorKind::Expected(Punct::Lt)));
        }
        let start = self.cur_pos();
        self.bump_n(2);
        let children = self.parse_jsx_children()?;
        if self.nth_is(2, Punct::Gt) {
            self.bump_n(3);
            let ghost scs = sv_jsx_element_child_list(children@);
            let f = JSXFragment { span: self.span(start), children };
            assert(sv_jsx_fragment(f) == (SJSXFragment { span: f.span, children: scs }));
            let e = Expr::JSXFragment(f);
            assert(sv_expr(e) == SExpr::JSXFragment(sv_jsx_fragment(f)));
            Ok(Box::new(e))
        } else {
            Err(self.nth_err(2, ErrorKind::Expected(Punct::Gt)))
        }
    }

    /// An element with a tag; the current token is `<`.
    fn parse_jsx_tag(&mut self) -> (r: Result<Box<Expr>, ParseError>)
        requires
            old(self).wf(),
        ensures
            stays(*old(self), *final(self)),
            match r {
                Ok(e) => sp_jsx_tag(old(self).input(), old(self).position()) == Ok::<
                    _,
                    ParseError,
                >((sv_expr(*e), final(self).position())) && old(self).position()
                    < final(self).position(),
                Err(x) => sp_jsx_tag(old(self).input(), old(self).position()) == Err::<
                    (SExpr, int),
                    ParseError,
                >(x),
            },
        decreases old(self).input().toks.len() - old(self).position(), 0int,
    {
        proof {
            reveal_with_fuel(sp_jsx_tag, 1);
            reveal_with_fuel(sp_jsx_attrs, 1);
            reveal_with_fuel(sp_jsx_element_body, 1);
            reveal_with_fuel(sp_jsx_name, 1);
        }
        let start = self.cur_pos();
        if self.at_end() {
            return Err(self.err(ErrorKind::Expected(Punct::Lt)));
        }
        self.bump();
        let name = self.parse_jsx_name()?;
        let attrs = self.parse_jsx_attrs()?;
        let ghost sname = sv_jsx_element_name(name);
        let ghost sattrs = sv_jsx_attr_or_spread_list(attrs@);
        if self.is(Punct::Slash) {
            if self.nth_is(1, Punct::Gt) {
                self.bump_n(2);
                let opening = JSXOpeningElement {
                    span: self.span(start),
                    name,
                    attrs,
                    self_closing: true,
                };
                assert(sv_jsx_opening_element(opening) == (SJSXOpeningElement { span: opening.span, name: sname, attrs: sattrs, self_closing: true }));
                let children: Vec<JSXElementChild> = Vec::new();
                assert(sv_jsx_element_child_list(children@) =~= Seq::empty());
                let el = JSXElement { span: self.span(start), opening, children, closing: None };
                assert(sv_jsx_element(el) == (SJSXElement { span: el.span, opening: sv_jsx_opening_element(opening), children: Seq::empty(), closing: None }));
                let e = Expr::JSXElement(Box::new(el));
                assert(sv_expr(e) == SExpr::JSXElement(Box::new(sv_jsx_element(el))));
                Ok(Box::new(e))
            } else {
                Err(self.nth_err(1, ErrorKind::Expected(Punct::Gt)))
            }
        } else if self.is(Punct::Gt) {
            self.bump();
            let opening = JSXOpeningElement {
                span: self.span(start),
                name,
                attrs,
                self_closing: false,
            };
            assert(sv_jsx_opening_element(opening) == (SJSXOpeningElement { span: opening.span, name: sname, attrs: sattrs, self_closing: false }));
            self.parse_jsx_element_body(start, opening)
        } else {
            Err(self.err(ErrorKind::Unexpected(Expectation::JsxAttr)))
        }
    }

    /// What follows the `>` of an opening tag: a `<style>` body in TSRX, or
    /// the children and the closing tag.
    fn parse_jsx_element_body(&mut self, start: usize, opening: JSXOpeningElement) -> (r: Result<Box<Expr>, ParseError>)
        requires
            old(self).wf(),
            old(self).position() > 0,
        ensures
            stays(*old(self), *final(self)),
            match r {
                Ok(e) => sp_jsx_element_body(old(self).input(), start, sv_jsx_opening_element(opening), old(self).position()) == Ok::<
                    _,
                    ParseError,
                >((sv_expr(*e), final(self).position())) && old(self).position()
                    < final(self).position(),
                Err(x) => sp_jsx_element_body(old(self).input(), start, sv_jsx_opening_element(opening), old(self).position()) == Err::<
                    (SExpr, int),
                    ParseError,
                >(x),
            },
        decreases old(self).input().toks.len() - old(self).position(), 40int,
    {
        proof {
            reveal_with_fuel(sp_jsx_element_body, 1);
            reveal_with_fuel(sp_jsx_children, 1);
            reveal_with_fuel(sp_jsx_closing, 1);
        }
        let ghost sopening = sv_jsx_opening_element(opening);
        if self.syntax().tsrx() && is_style_name_exec(&opening.name) {
            return self.parse_style_body(start, opening);
        }
        let children = self.parse_jsx_children()?;
        let closing_span = self.cur_span();
        let closing = self.parse_jsx_closing()?;
        if names_match_exec(&opening.name, &closing.name) {
            let ghost scs = sv_jsx_element_child_list(children@);
            let ghost scl = sv_jsx_closing_element(closing);
            let el = JSXElement { span: self.span(start), opening, children, closing: Some(closing) };
            assert(sv_jsx_element(el) == (SJSXElement { span: el.span, opening: sopening, children: scs, closing: Some(scl) }));
            let e = Expr::JSXElement(Box::new(el));
            assert(sv_expr(e) == SExpr::JSXElement(Box::new(sv_jsx_element(el))));
            Ok(Box::new(e))
        } else {
            Err(ParseError { span: closing_span, kind: ErrorKind::ClosingTagMismatch })
        }
    }

    /// The raw CSS body of a `<style>` element and its closing tag.
    fn parse_style_body(&mut self, start: usize, opening: JSXOpeningElement) -> (r: Result<
        Box<Expr>,
        ParseError,
    >)
        requires
            old(self).wf(),
            old(self).position() > 0,
        ensures
            stays(*old(self), *final(self)),
            match r {
                Ok(e) => sp_style_body(
                    old(self).input(),
                    start,
                    sv_jsx_opening_element(opening),
                    old(self).position(),
                ) == Ok::<_, ParseError>((sv_expr(*e), final(self).position()))
                    && old(self).position() < final(self).position(),
                Err(x) => sp_style_body(
                    old(self).input(),
                    start,
                    sv_jsx_opening_element(opening),
                    old(self).position(),
                ) == Err::<(SExpr, int), ParseError>(x),
            },
    {
        let q = self.style_close_exec();
        if q >= self.toks_len() {
            return Err(ParseError { span: self.span_at_index(q), kind: ErrorKind::Unexpected(Expectation::JsxClosingTag) });
        }
        let lo = self.last_pos();
        let hi = self.span_at_index(q).lo;
        proof {
            self.lemma_wf();
            let inp = self.input();
            if self.position() < q {
                lemma_tokens_ordered(inp.src, inp.toks, self.position() - 1, q as int);
            }
        }
        let css = self.text(lo, hi);
        self.seek(q);
        let close_start = self.cur_pos();
        let close_name = self.nth_ident(2);
        self.bump_n(4);
        let ghost sopening = sv_jsx_opening_element(opening);
        let name = JSXElementName::Ident(close_name);
        assert(sv_jsx_element_name(name) == SJSXElementName::Ident(sv_ident(close_name)));
        let closing = JSXClosingElement { span: self.span(close_start), name };
        assert(sv_jsx_closing_element(closing) == (SJSXClosingElement { span: closing.span, name: sv_jsx_element_name(name) }));
        let st = JSXStyleElement { span: self.span(start), opening, css, closing };
        assert(sv_jsx_style_element(st) == (SJSXStyleElement { span: st.span, opening: sopening, css: css@, closing: sv_jsx_closing_element(closing) }));
        let t = TsrxExpr::StyleElement(Box::new(st));
        assert(sv_tsrx_expr(t) == STsrxExpr::StyleElement(Box::new(sv_jsx_style_element(st))));
        let e = Expr::Tsrx(Box::new(t));
        assert(sv_expr(e) == SExpr::Tsrx(Box::new(sv_tsrx_expr(t))));
        Ok(Box::new(e))
    }

    /// A tag name: a word, or `{expr}` in TSRX.
    fn parse_jsx_name(&mut self) -> (r: Result<JSXElementName, ParseError>)
        requires
            old(self).wf(),
        ensures
            stays(*old(self), *final(self)),
            match r {
                Ok(n) => sp_jsx_name(old(self).input(), old(self).position()) == Ok::<
                    _,
                    ParseError,
                >((sv_jsx_element_name(n), final(self).position())) && old(self).position()
                    < final(self).position(),
                Err(x) => sp_jsx_name(old(self).input(), old(self).position()) == Err::<
                    (crate::view::SJSXElementName, int),
                    ParseError,
                >(x),
            },
        decreases old(self).input().toks.len() - old(self).position(), 10int,
    {
        proof {
            reveal_with_fuel(sp_jsx_name, 1);
            reveal_with_fuel(sp_expr, 1);
        }
        match self.nth(0) {
            Some(t) => {
                if t.is_word() {
                    let id = self.nth_ident(0);
                    self.bump();
                    return Ok(JSXElementName::Ident(id));
                }
            },
            None => {},
        }
        if self.syntax().tsrx() && self.is(Punct::LBrace) {
            let start = self.cur_pos();
            self.bump();
            let e = self.parse_expr()?;
            if self.is(Punct::RBrace) {
                self.bump();
                Ok(JSXElementName::JSXExprContainer(JSXExprContainer { span: self.span(start), expr: e }))
            } else {
                Err(self.err(ErrorKind::Expected(Punct::RBrace)))
            }
        } else {
            Err(self.err(ErrorKind::Unexpected(Expectation::JsxName)))
        }
    }

    fn parse_jsx_attr_value(&mut self) -> (r: Result<JSXAttrValue, ParseError>)
        requires
            old(self).wf(),
        ensures
            stays(*old(self), *final(self)),
            match r {
                Ok(v) => sp_jsx_attr_value(old(self).input(), old(self).position()) == Ok::<
                    _,
                    ParseError,
                >((sv_jsx_attr_value(v), final(self).position())) && old(self).position()
                    < final(self).position(),
                Err(x) => sp_jsx_attr_value(old(self).input(), old(self).position()) == Err::<
                    (crate::view::SJSXAttrValue, int),
                    ParseError,
                >(x),
            },
        decreases old(self).input().toks.len() - old(self).position(), 10int,
    {
        proof {
            reveal_with_fuel(sp_jsx_attr_value, 1);
            reveal_with_fuel(sp_expr, 1);
        }
        if self.nth(0) == Some(Token::Str) {
            let s = self.str_here();
            self.bump();
            Ok(JSXAttrValue::Str(s))
        } else if self.is(Punct::LBrace) {
            let start = self.cur_pos();
            self.bump();
            let e = self.parse_expr()?;
            if self.is(Punct::RBrace) {
                self.bump();
                Ok(JSXAttrValue::JSXExprContainer(JSXExprContainer { span: self.span(start), expr: e }))
            } else {
                Err(self.err(ErrorKind::Expected(Punct::RBrace)))
            }
        } else {
            Err(self.err(ErrorKind::Unexpected(Expectation::JsxAttrValue)))
        }
    }

    /// One attribute: `name`, `name=value`, or the TSRX shorthand `{name}`;
    /// the current token is a word, or `{` in TSRX.
    fn parse_jsx_attr(&mut self) -> (r: Result<JSXAttrOrSpread, ParseError>)
        requires
            old(self).wf(),
        ensures
            stays(*old(self), *final(self)),
            match r {
                Ok(a) => sp_jsx_attr(old(self).input(), old(self).position()) == Ok::<
                    _,
                    ParseError,
                >((sv_jsx_attr_or_spread(a), final(self).position())) && old(self).position()
                    < final(self).position(),
                Err(x) => sp_jsx_attr(old(self).input(), old(self).position()) == Err::<
                    (SJSXAttrOrSpread, int),
                    ParseError,
                >(x),
            },
        decreases old(self).input().toks.len() - old(self).position(), 10int,
    {
        proof {
            reveal_with_fuel(sp_jsx_attr, 1);
            reveal_with_fuel(sp_jsx_attr_value, 1);
        }
        let is_word = match self.nth(0) {
            Some(t) => t.is_word(),
            None => false,
        };
        let start = self.cur_pos();
        if is_word {
            let name = self.nth_ident(0);
            let value = if self.nth_is(1, Punct::Eq) {
                self.bump_n(2);
                Some(self.parse_jsx_attr_value()?)
            } else {
                self.bump();
                None
            };
            let ghost sv_value = match &value {
                Some(v) => Some(sv_jsx_attr_value(*v)),
                None => None,
            };
            let attr = JSXAttr { span: self.span(start), name, value, shorthand: false };
            assert(sv_jsx_attr(attr) == (SJSXAttr { span: attr.span, name: sv_ident(name), value: sv_value, shorthand: false }));
            let item = JSXAttrOrSpread::JSXAttr(attr);
            assert(sv_jsx_attr_or_spread(item) == SJSXAttrOrSpread::JSXAttr(sv_jsx_attr(attr)));
            Ok(item)
        } else if self.nth(1) == Some(Token::Ident) && self.nth_is(2, Punct::RBrace) {
            let name = self.nth_ident(1);
            self.bump_n(3);
            let span = self.span(start);
            let ex = Expr::Ident(crate::ast::clone_ident(&name));
            assert(sv_expr(ex) == SExpr::Ident(sv_ident(name)));
            let cont = JSXExprContainer { span, expr: Box::new(ex) };
            assert(sv_jsx_expr_container(cont) == (SJSXExprContainer { span, expr: Box::new(sv_expr(ex)) }));
            let value = JSXAttrValue::JSXExprContainer(cont);
            assert(sv_jsx_attr_value(value) == SJSXAttrValue::JSXExprContainer(sv_jsx_expr_container(cont)));
            let attr = JSXAttr { span, name, value: Some(value), shorthand: true };
            assert(sv_jsx_attr(attr) == (SJSXAttr { span, name: sv_ident(name), value: Some(sv_jsx_attr_value(value)), shorthand: true }));
            let item = JSXAttrOrSpread::JSXAttr(attr);
            assert(sv_jsx_attr_or_spread(item) == SJSXAttrOrSpread::JSXAttr(sv_jsx_attr(attr)));
            Ok(item)
        } else if self.nth(1) == Some(Token::Ident) {
            Err(self.nth_err(2, ErrorKind::Expected(Punct::RBrace)))
        } else {
            Err(self.nth_err(1, ErrorKind::Unexpected(Expectation::Identifier)))
        }
    }

    /// The attributes of an opening tag, up to `/` or `>`.
    fn parse_jsx_attrs(&mut self) -> (r: Result<Vec<JSXAttrOrSpread>, ParseError>)
        requires
            old(self).wf(),
        ensures
            stays(*old(self), *final(self)),
            match r {
                Ok(v) => sp_jsx_attrs(old(self).input(), old(self).position(), Seq::empty())
                    == Ok::<_, ParseError>(
                    (sv_jsx_attr_or_spread_list(v@), final(self).position()),
                ),
                Err(x) => sp_jsx_attrs(old(self).input(), old(self).position(), Seq::empty())
                    == Err::<(Seq<SJSXAttrOrSpread>, int), ParseError>(x),
            },
        decreases old(self).input().toks.len() - old(self).position(), 20int,
    {
        proof {
            reveal_with_fuel(sp_jsx_attrs, 1);
            reveal_with_fuel(sp_jsx_attr, 1);
        }
        let ghost inp = self.input();
        let ghost p0 = self.position();
        let mut attrs: Vec<JSXAttrOrSpread> = Vec::new();
        assert(sv_jsx_attr_or_spread_list(attrs@) =~= Seq::empty());
        loop
            invariant
                self.wf(),
                self.input() == inp,
                p0 <= self.position(),
                p0 == old(self).position(),
                inp == old(self).input(),
                sp_jsx_attrs(inp, p0, Seq::empty()) == sp_jsx_attrs(
                    inp,
                    self.position(),
                    sv_jsx_attr_or_spread_list(attrs@),
                ),
            decreases inp.toks.len() - self.position(),
        {
            proof {
                reveal_with_fuel(sp_jsx_attrs, 1);
                reveal_with_fuel(sp_jsx_attr, 1);
            }
            let is_word = match self.nth(0) {
                Some(t) => t.is_word(),
                None => false,
            };
            if !(is_word || (self.syntax().tsrx() && self.is(Punct::LBrace))) {
                return Ok(attrs);
            }
            let a = self.parse_jsx_attr()?;
            let ghost prev = attrs@;
            attrs.push(a);
            assert(attrs@.drop_last() =~= prev);
        }
    }

    /// `</name>`; the current token is `<` and the next one `/`.
    fn parse_jsx_closing(&mut self) -> (r: Result<JSXClosingElement, ParseError>)
        requires
            old(self).wf(),
        ensures
            stays(*old(self), *final(self)),
            match r {
                Ok(c) => sp_jsx_closing(old(self).input(), old(self).position()) == Ok::<
                    _,
                    ParseError,
                >((sv_jsx_closing_element(c), final(self).position())) && old(self).position()
                    < final(self).position(),
                Err(x) => sp_jsx_closing(old(self).input(), old(self).position()) == Err::<
                    (crate::view::SJSXClosingElement, int),
                    ParseError,
                >(x),
            },
        decreases old(self).input().toks.len() - old(self).position(), 10int,
    {
        proof {
            reveal_with_fuel(sp_jsx_closing, 1);
            reveal_with_fuel(sp_jsx_name, 1);
        }
        if self.toks_len() - self.pos() < 2 {
            return Err(self.err(ErrorKind::Unexpected(Expectation::JsxClosingTag)));
        }
        let start = self.cur_pos();
        self.bump_n(2);
        let name = self.parse_jsx_name()?;
        if self.is(Punct::Gt) {
            self.bump();
            Ok(JSXClosingElement { span: self.span(start), name })
        } else {
            Err(self.err(ErrorKind::Expected(Punct::Gt)))
        }
    }

    /// One child that is not text: an element, `{expr}`, or a TSRX directive.
    fn parse_jsx_child_item(&mut self) -> (r: Result<JSXElementChild, ParseError>)
        requires
            old(self).wf(),
        ensures
            stays(*old(self), *final(self)),
            match r {
                Ok(c) => sp_jsx_child_item(old(self).input(), old(self).position()) == Ok::<
                    _,
                    ParseError,
                >((sv_jsx_element_child(c), final(self).position())) && old(self).position()
                    < final(self).position(),
                Err(x) => sp_jsx_child_item(old(self).input(), old(self).position()) == Err::<
                    (crate::view::SJSXElementChild, int),
                    ParseError,
                >(x),
            },
        decreases old(self).input().toks.len() - old(self).position(), 20int,
    {
        proof {
            reveal_with_fuel(sp_jsx_child_item, 1);
            reveal_with_fuel(sp_expr, 1);
            reveal_with_fuel(sp_jsx_element, 1);
            reveal_with_fuel(sp_tsrx_expr, 1);
        }
        if self.is(Punct::Lt) {
            let e = self.parse_jsx_element()?;
            Ok(child_of(e))
        } else if self.is(Punct::LBrace) {
            let start = self.cur_pos();
            self.bump();
            let e = self.parse_expr()?;
            if self.is(Punct::RBrace) {
                self.bump();
                let cont = JSXExprContainer { span: self.span(start), expr: e };
                assert(sv_jsx_expr_container(cont) == (SJSXExprContainer { span: cont.span, expr: Box::new(sv_expr(*e)) }));
                let c = JSXElementChild::JSXExprContainer(cont);
                assert(sv_jsx_element_child(c) == SJSXElementChild::JSXExprContainer(sv_jsx_expr_container(cont)));
                Ok(c)
            } else {
                Err(self.err(ErrorKind::Expected(Punct::RBrace)))
            }
        } else if self.is_tsrx_expr_start() {
            let e = self.parse_tsrx_expr()?;
            Ok(child_of(e))
        } else {
            Err(self.err(ErrorKind::Unexpected(Expectation::JsxClosingTag)))
        }
    }

    /// The children of an element up to the `</` of its closing tag; the
    /// text between two children is the source between them.
    fn parse_jsx_children(&mut self) -> (r: Result<Vec<JSXElementChild>, ParseError>)
        requires
            old(self).wf(),
        ensures
            stays(*old(self), *final(self)),
            match r {
                Ok(v) => sp_jsx_children(old(self).input(), old(self).position(), Seq::empty())
                    == Ok::<_, ParseError>(
                    (sv_jsx_element_child_list(v@), final(self).position()),
                ) && is_p(final(self).input(), final(self).position(), Punct::Lt) && is_p(
                    final(self).input(),
                    final(self).position() + 1,
                    Punct::Slash,
                ),
                Err(x) => sp_jsx_children(old(self).input(), old(self).position(), Seq::empty())
                    == Err::<(Seq<crate::view::SJSXElementChild>, int), ParseError>(x),
            },
        decreases old(self).input().toks.len() - old(self).position(), 30int,
    {
        proof {
            reveal_with_fuel(sp_jsx_children, 1);
            reveal_with_fuel(sp_jsx_child_item, 1);
        }
        let ghost inp = self.input();
        let ghost p0 = self.position();
        let mut children: Vec<JSXElementChild> = Vec::new();
        assert(sv_jsx_element_child_list(children@) =~= Seq::empty());
        loop
            invariant
                self.wf(),
                self.input() == inp,
                p0 <= self.position(),
                p0 == old(self).position(),
                inp == old(self).input(),
                sp_jsx_children(inp, p0, Seq::empty()) == sp_jsx_children(
                    inp,
                    self.position(),
                    sv_jsx_element_child_list(children@),
                ),
            decreases inp.toks.len() - self.position(),
        {
            proof {
                reveal_with_fuel(sp_jsx_children, 1);
                reveal_with_fuel(sp_jsx_child_item, 1);
            }
            let ghost p = self.position();
            let ghost acc = sv_jsx_element_child_list(children@);
            let q = self.text_end_exec();
            if q >= self.toks_len() {
                return Err(ParseError { span: self.span_at_index(q), kind: ErrorKind::Unexpected(Expectation::JsxClosingTag) });
            }
            let lo = self.last_pos();
            let hi = self.span_at_index(q).lo;
            let ghost acc2 = if lo < hi {
                acc.push(SJSXElementChild::JSXText(SJSXText { span: Span { lo, hi }, value: text(inp, lo as int, hi as int) }))
            } else {
                acc
            };
            if lo < hi {
                proof {
                    self.lemma_wf();
                }
                let value = self.text(lo, hi);
                let ghost prev = children@;
                let t = JSXText { span: Span { lo, hi }, value };
                let c = JSXElementChild::JSXText(t);
                assert(sv_jsx_element_child(c) == SJSXElementChild::JSXText(SJSXText { span: Span { lo, hi }, value: value@ }));
                children.push(c);
                assert(children@.drop_last() =~= prev);
            }
            assert(sv_jsx_element_child_list(children@) == acc2);
            self.seek(q);
            if self.is(Punct::Lt) && self.nth_is(1, Punct::Slash) {
                return Ok(children);
            }
            let c = self.parse_jsx_child_item()?;
            let ghost prev = children@;
            children.push(c);
            assert(children@.drop_last() =~= prev);
            assert(sv_jsx_element_child_list(children@) == acc2.push(sv_jsx_element_child(c)));
            assert(sp_jsx_children(inp, p, acc) == sp_jsx_children(inp, self.position(), acc2.push(sv_jsx_element_child(c))));
        }
    }
}

} // verus!
