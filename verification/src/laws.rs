//! Properties of the parser and of the loop-form names that hold for every
//! input.
use vstd::prelude::*;

use crate::ast::{JSXForKind, for_kind_name, for_kind_of_name};
use crate::parser::grammar::{
    Input, adv, ident_at, tok, is_word_at, sp_assign, sp_binding_ident, word_index, word_key, sp_block, sp_catch_clause, sp_try_handler, cur_pos, is_kw, is_p, unexpected, Expectation, ParseError, sp_for_head, sp_for_options, sp_jsx_attrs, sp_jsx_element, sp_jsx_element_body,
    sp_jsx_fragment, sp_jsx_name, sp_jsx_tag, sp_tsrx_code_block, sp_tsrx_expr, sp_tsrx_for,
    sp_tsrx_for_rest, sp_tsrx_function_body, sp_tsrx_if, sp_tsrx_named_block, sp_tsrx_switch,
    sp_tsrx_try, spec_code_block_from_block, spec_is_tsrx_render_expr, tsrx_start,
};
use crate::syntax::spec_tsrx;
use crate::token::{Keyword, Punct, Token};
use crate::view::{SIdent, SBlockStmt, SExpr, SJSXForExpr, SStmt, STsrxExpr};

verus! {

/// Whether the last of `stmts` is an expression statement that renders.
pub open spec fn ends_with_render(stmts: Seq<SStmt>) -> bool {
    &&& stmts.len() > 0
    &&& stmts.last() matches SStmt::Expr(es)
    &&& spec_is_tsrx_render_expr(*es.expr)
}

/// Only the fields that belong to the loop form are set: a three-part loop
/// has no `left` or `right`, and a `for .. in` or `for .. of` loop has both
/// and no `init`, `test` or `update`.
pub open spec fn for_fields_follow_kind(e: SJSXForExpr) -> bool {
    match e.kind {
        JSXForKind::ForStatement => e.left is None && e.right is None,
        _ => e.init is None && e.test is None && e.update is None && e.left is Some
            && e.right is Some,
    }
}

/// Splitting a block into a code block keeps every statement in order: when
/// the last statement is a rendered expression, that expression becomes
/// `render` and the statements before it are the `body`; otherwise the `body`
/// is the whole block and nothing is rendered.
pub proof fn law_code_block_split(b: SBlockStmt, is_function_body: bool)
    ensures
        spec_code_block_from_block(b, is_function_body).span == b.span,
        spec_code_block_from_block(b, is_function_body).is_function_body == is_function_body,
        ends_with_render(b.stmts) ==> spec_code_block_from_block(b, is_function_body).body
            == b.stmts.drop_last() && b.stmts.last() == SStmt::Expr(
            crate::view::SExprStmt {
                span: b.stmts.last()->Expr_0.span,
                expr: spec_code_block_from_block(b, is_function_body).render.unwrap(),
            },
        ) && spec_code_block_from_block(b, is_function_body).render is Some,
        !ends_with_render(b.stmts) ==> spec_code_block_from_block(b, is_function_body).body
            == b.stmts && spec_code_block_from_block(b, is_function_body).render is None,
{
}

/// The rendered expression of a code block is always an element, a fragment
/// or a TSRX expression.
pub proof fn law_render_is_rendered(b: SBlockStmt, is_function_body: bool)
    ensures
        spec_code_block_from_block(b, is_function_body).render matches Some(r)
            ==> spec_is_tsrx_render_expr(*r),
{
}

/// An expression ends a code block as its rendered value exactly when it is
/// a JSX element, a JSX fragment or a TSRX expression.
pub proof fn law_rendered_kinds(e: SExpr)
    ensures
        spec_is_tsrx_render_expr(e) <==> (e is JSXElement || e is JSXFragment || e is Tsrx),
{
}

/// A block whose last statement is an expression statement holding a JSX
/// element, a JSX fragment or a TSRX expression renders that expression, and
/// its other statements are the body; a rendered expression is always one of
/// those three kinds.
pub proof fn law_block_renders_last_element(b: SBlockStmt, is_function_body: bool)
    ensures
        (b.stmts.len() > 0 && (b.stmts.last() matches SStmt::Expr(es) && (*es.expr is JSXElement
            || *es.expr is JSXFragment || *es.expr is Tsrx))) ==> {
            &&& spec_code_block_from_block(b, is_function_body).render == Some(
                b.stmts.last()->Expr_0.expr,
            )
            &&& spec_code_block_from_block(b, is_function_body).body == b.stmts.drop_last()
        },
        spec_code_block_from_block(b, is_function_body).render matches Some(r) ==> (*r is JSXElement
            || *r is JSXFragment || *r is Tsrx),
{
}

/// The `; index i` and `; key k` options of a `@for` head never lose a
/// value: one given before the options stays set, and an option at `p`
/// sets its field, whatever the other option is and in any order.
pub proof fn law_for_options_keep(
    inp: Input,
    p: int,
    index: Option<SIdent>,
    key: Option<Box<SExpr>>,
)
    ensures
        sp_for_options(inp, p, index, key) matches Ok(((i2, k2), _)) ==> {
            &&& index is Some ==> i2 is Some
            &&& key is Some ==> k2 is Some
            &&& is_p(inp, p, Punct::Semi) && is_word_at(inp, p + 1, word_key()) ==> k2 is Some
            &&& is_p(inp, p, Punct::Semi) && is_word_at(inp, p + 1, word_index()) ==> i2 is Some
        },
        !is_p(inp, p, Punct::Semi) ==> sp_for_options(inp, p, index, key) == Ok::<
            ((Option<SIdent>, Option<Box<SExpr>>), int),
            ParseError,
        >(((index, key), p)),
        is_p(inp, p, Punct::Semi) && is_word_at(inp, p + 1, word_key()) ==> (sp_assign(inp, p + 2)
            matches Ok((e, p3)) ==> (adv(inp, p, p3) && !is_p(inp, p3, Punct::Semi) ==> sp_for_options(
            inp,
            p,
            index,
            key,
        ) == Ok::<((Option<SIdent>, Option<Box<SExpr>>), int), ParseError>(
            ((index, Some(Box::new(e))), p3),
        ))),
        is_p(inp, p, Punct::Semi) && is_word_at(inp, p + 1, word_index()) && tok(inp, p + 2) == Some(
            Token::Ident,
        ) && !is_p(inp, p + 3, Punct::Semi) ==> sp_for_options(inp, p, index, key) == Ok::<
            ((Option<SIdent>, Option<Box<SExpr>>), int),
            ParseError,
        >(((Some(ident_at(inp, p + 2)), key), p + 3)),
    decreases inp.toks.len() - p,
{
    reveal_with_fuel(sp_for_options, 1);
    if is_p(inp, p, Punct::Semi) {
        assert(word_index() != word_key()) by {
            assert(word_index().len() != word_key().len());
        }
        if is_word_at(inp, p + 1, word_index()) {
            match sp_binding_ident(inp, p + 2) {
                Ok((bi, p3)) => {
                    law_for_options_keep(inp, p3, Some(bi.id), key);
                    reveal_with_fuel(sp_for_options, 2);
                },
                Err(_) => {},
            }
        } else if is_word_at(inp, p + 1, word_key()) {
            match sp_assign(inp, p + 2) {
                Ok((e, p3)) => {
                    if adv(inp, p, p3) {
                        law_for_options_keep(inp, p3, index, Some(Box::new(e)));
                        reveal_with_fuel(sp_for_options, 2);
                    }
                },
                Err(_) => {},
            }
        }
    }
}

/// An `@for` read by the parser sets only the fields of its loop form.
pub proof fn law_for_fields_follow_kind(inp: Input, p: int)
    ensures
        sp_tsrx_expr(inp, p) matches Ok((SExpr::Tsrx(t), _)) ==> (*t matches STsrxExpr::For(e)
            ==> for_fields_follow_kind(*e)),
{
    reveal_with_fuel(sp_tsrx_expr, 1);
    reveal_with_fuel(sp_tsrx_for, 1);
    reveal_with_fuel(sp_tsrx_for_rest, 1);
    reveal_with_fuel(sp_tsrx_code_block, 1);
    reveal_with_fuel(sp_tsrx_if, 1);
    reveal_with_fuel(sp_tsrx_switch, 1);
    reveal_with_fuel(sp_tsrx_try, 1);
    reveal_with_fuel(sp_for_head, 1);
    reveal_with_fuel(sp_for_options, 1);
    reveal_with_fuel(sp_tsrx_named_block, 1);
}

/// A `for (..)` head read after `@` sets only the fields of its loop form.
pub proof fn law_for_head_fields_follow_kind(inp: Input, p: int, start: usize)
    ensures
        sp_tsrx_for(inp, p, start) matches Ok((e, _)) ==> for_fields_follow_kind(e),
{
    reveal_with_fuel(sp_tsrx_for, 1);
    reveal_with_fuel(sp_tsrx_for_rest, 1);
    reveal_with_fuel(sp_for_head, 1);
    reveal_with_fuel(sp_for_options, 1);
    reveal_with_fuel(sp_tsrx_code_block, 1);
    reveal_with_fuel(sp_tsrx_named_block, 1);
}

/// A `try { .. }` read after `@` has no finalizer, a block that is not a
/// function body, and a catch clause whose parameter, when present, is an
/// identifier and without which there is no reset name.
pub proof fn law_try_parts(inp: Input, p: int, start: usize)
    ensures
        sp_tsrx_try(inp, p, start) matches Ok((t, _)) ==> {
            &&& t.finalizer is None
            &&& !t.block.is_function_body
            &&& t.handler matches Some(h) ==> (h.param is None ==> h.reset is None) && (
            h.param matches Some(q) ==> q is Ident)
        },
{
    reveal_with_fuel(sp_tsrx_try, 1);
    reveal_with_fuel(sp_tsrx_code_block, 1);
    reveal_with_fuel(sp_tsrx_named_block, 1);
    reveal_with_fuel(sp_try_handler, 1);
    reveal_with_fuel(sp_catch_clause, 1);
    reveal_with_fuel(sp_block, 1);
}

/// Reading a TSRX expression at an `@` fails with the "TSRX container"
/// error at the next token when that token is none of `{`, `if`, `for`,
/// `switch` and `try`; otherwise the result, error or not, is that of the
/// directive the token begins.
pub proof fn law_tsrx_dispatch(inp: Input, p: int)
    requires
        0 <= p < inp.toks.len(),
    ensures
        !(is_p(inp, p + 1, Punct::LBrace) || is_kw(inp, p + 1, Keyword::If) || is_kw(
            inp,
            p + 1,
            Keyword::For,
        ) || is_kw(inp, p + 1, Keyword::Switch) || is_kw(inp, p + 1, Keyword::Try))
            ==> sp_tsrx_expr(inp, p) == Err::<(SExpr, int), ParseError>(
            unexpected(inp, p + 1, Expectation::TsrxContainer),
        ),
        is_p(inp, p + 1, Punct::LBrace) ==> sp_tsrx_expr(inp, p) == match sp_tsrx_code_block(
            inp,
            p + 1,
            false,
        ) {
            Ok((b, q)) => Ok((SExpr::Tsrx(Box::new(STsrxExpr::CodeBlock(b))), q)),
            Err(x) => Err(x),
        },
        is_kw(inp, p + 1, Keyword::If) ==> sp_tsrx_expr(inp, p) == match sp_tsrx_if(
            inp,
            p + 1,
            cur_pos(inp, p),
        ) {
            Ok((e, q)) => Ok((SExpr::Tsrx(Box::new(STsrxExpr::If(Box::new(e)))), q)),
            Err(x) => Err(x),
        },
        is_kw(inp, p + 1, Keyword::For) ==> sp_tsrx_expr(inp, p) == match sp_tsrx_for(
            inp,
            p + 1,
            cur_pos(inp, p),
        ) {
            Ok((e, q)) => Ok((SExpr::Tsrx(Box::new(STsrxExpr::For(Box::new(e)))), q)),
            Err(x) => Err(x),
        },
        is_kw(inp, p + 1, Keyword::Switch) ==> sp_tsrx_expr(inp, p) == match sp_tsrx_switch(
            inp,
            p + 1,
            cur_pos(inp, p),
        ) {
            Ok((e, q)) => Ok((SExpr::Tsrx(Box::new(STsrxExpr::Switch(Box::new(e)))), q)),
            Err(x) => Err(x),
        },
        is_kw(inp, p + 1, Keyword::Try) ==> sp_tsrx_expr(inp, p) == match sp_tsrx_try(
            inp,
            p + 1,
            cur_pos(inp, p),
        ) {
            Ok((e, q)) => Ok((SExpr::Tsrx(Box::new(STsrxExpr::Try(Box::new(e)))), q)),
            Err(x) => Err(x),
        },
{
    reveal_with_fuel(sp_tsrx_expr, 1);
    reveal_with_fuel(sp_tsrx_code_block, 1);
    reveal_with_fuel(sp_tsrx_if, 1);
    reveal_with_fuel(sp_tsrx_for, 1);
    reveal_with_fuel(sp_tsrx_switch, 1);
    reveal_with_fuel(sp_tsrx_try, 1);
}

/// The parser never sets the finalizer of an `@try`.
pub proof fn law_try_has_no_finalizer(inp: Input, p: int)
    ensures
        sp_tsrx_expr(inp, p) matches Ok((SExpr::Tsrx(t), _)) ==> (*t matches STsrxExpr::Try(e)
            ==> e.finalizer is None),
{
    reveal_with_fuel(sp_tsrx_expr, 1);
    reveal_with_fuel(sp_tsrx_try, 1);
    reveal_with_fuel(sp_tsrx_code_block, 1);
    reveal_with_fuel(sp_tsrx_if, 1);
    reveal_with_fuel(sp_tsrx_for, 1);
    reveal_with_fuel(sp_tsrx_switch, 1);
}

/// A code block read as an expression is not marked as a function body.
pub proof fn law_expression_block_is_not_function_body(inp: Input, p: int)
    ensures
        sp_tsrx_expr(inp, p) matches Ok((SExpr::Tsrx(t), _)) ==> (*t matches STsrxExpr::CodeBlock(
            b,
        ) ==> !b.is_function_body),
{
    reveal_with_fuel(sp_tsrx_expr, 1);
    reveal_with_fuel(sp_tsrx_code_block, 1);
    reveal_with_fuel(sp_tsrx_if, 1);
    reveal_with_fuel(sp_tsrx_for, 1);
    reveal_with_fuel(sp_tsrx_switch, 1);
    reveal_with_fuel(sp_tsrx_try, 1);
    reveal_with_fuel(sp_block, 1);
}

/// A function body written as `@{ .. }` is one expression statement holding
/// a code block marked as a function body.
pub proof fn law_function_body_is_marked(inp: Input, p: int)
    ensures
        sp_tsrx_function_body(inp, p) matches Ok((b, _)) ==> b.stmts.len() == 1 && (
        b.stmts[0] matches SStmt::Expr(es) && (*es.expr matches SExpr::Tsrx(t) && (
        *t matches STsrxExpr::CodeBlock(cb) ==> cb.is_function_body))),
{
    reveal_with_fuel(sp_tsrx_function_body, 1);
    reveal_with_fuel(sp_tsrx_expr, 1);
}

/// A `<style>` element keeps its body as raw source: its CSS is exactly the
/// text between the end of the opening tag and the start of the closing tag.
pub proof fn law_style_keeps_raw_css(inp: Input, p: int)
    ensures
        sp_jsx_element(inp, p) matches Ok((SExpr::Tsrx(t), _)) ==> (*t matches STsrxExpr::StyleElement(
            s,
        ) ==> s.css == inp.src.subrange(s.opening.span.hi as int, s.closing.span.lo as int)),
{
    reveal_with_fuel(sp_jsx_element, 1);
    reveal_with_fuel(sp_jsx_tag, 1);
    reveal_with_fuel(sp_jsx_fragment, 1);
    reveal_with_fuel(sp_jsx_element_body, 1);
    reveal_with_fuel(sp_jsx_name, 1);
    reveal_with_fuel(sp_jsx_attrs, 1);
}

/// Without the TSRX syntax, no `@` begins a TSRX expression.
pub proof fn law_tsrx_needs_its_syntax(inp: Input, p: int)
    requires
        !spec_tsrx(inp.syntax),
    ensures
        !tsrx_start(inp, p),
{
}

/// Each loop form is read back from its name, and a name that is read gives
/// back the same text.
pub proof fn law_for_kind_names(k: JSXForKind, s: Seq<char>)
    ensures
        for_kind_of_name(for_kind_name(k)) == Some(k),
        for_kind_of_name(s) matches Some(k2) ==> for_kind_name(k2) == s,
{
    reveal_strlit("ForStatement");
    reveal_strlit("ForInStatement");
    reveal_strlit("ForOfStatement");
    assert("ForStatement"@ != "ForInStatement"@) by {
        assert("ForStatement"@.len() != "ForInStatement"@.len());
    }
    assert("ForStatement"@ != "ForOfStatement"@) by {
        assert("ForStatement"@.len() != "ForOfStatement"@.len());
    }
    assert("ForInStatement"@ != "ForOfStatement"@) by {
        assert("ForInStatement"@[3] != "ForOfStatement"@[3]);
    }
}

} // verus!
