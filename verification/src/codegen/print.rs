//! The printed form of every node, as spec functions from the model of the
//! syntax tree to text.
//!
//! `m` is the minify flag. A formatting space (`fs`) and a formatting line
//! break (`nl`) are written only when `m` is false; every other space is
//! part of the syntax and is always written.
use vstd::prelude::*;

use crate::ast::{AssignOp, BinaryOp, JSXForKind, UnaryOp, UpdateOp, VarDeclKind};
use crate::view::{
    SBlockStmt, SDecl, SDecorator, SExpr, SForHead, SJSXAttrOrSpread, SJSXAttrValue,
    SJSXCatchClause, SJSXClosingElement, SJSXCodeBlock, SJSXElement, SJSXElementChild,
    SJSXElementName, SJSXForExpr, SJSXFragment, SJSXIfAlternate, SJSXIfExpr, SJSXOpeningElement,
    SJSXStyleElement, SJSXSwitchCase, SJSXSwitchExpr, SJSXTryExpr, SLit, SModule, SModuleItem,
    SParam, SPat, SStmt, STsrxExpr, SVarDecl, SVarDeclOrExpr, SVarDeclarator,
};

verus! {

/// A formatting space: one space, or nothing when minifying.
#[verifier::opaque]
pub open spec fn fs(m: bool) -> Seq<char> {
    if m {
        Seq::empty()
    } else {
        " "@
    }
}

/// A formatting line break: a newline, or nothing when minifying.
#[verifier::opaque]
pub open spec fn nl(m: bool) -> Seq<char> {
    if m {
        Seq::empty()
    } else {
        "\n"@
    }
}

pub open spec fn print_lit(l: SLit) -> Seq<char> {
    match l {
        SLit::Str(s) => s.raw,
        SLit::Num(n) => n.raw,
    }
}

pub open spec fn print_var_kind(k: VarDeclKind) -> Seq<char> {
    match k {
        VarDeclKind::Var => "var"@,
        VarDeclKind::Let => "let"@,
        VarDeclKind::Const => "const"@,
    }
}

#[verifier::opaque]
pub open spec fn print_pat(p: SPat, m: bool) -> Seq<char>
    decreases p, 0int,
{
    match p {
        SPat::Ident(b) => b.id.sym,
        SPat::Expr(e) => print_expr(*e, m),
    }
}

#[verifier::opaque]
pub open spec fn print_expr(e: SExpr, m: bool) -> Seq<char>
    decreases e, 0int,
{
    match e {
        SExpr::Ident(i) => i.sym,
        SExpr::Lit(l) => print_lit(l),
        SExpr::Member(me) => print_expr(*me.obj, m) + "."@ + me.prop.sym,
        SExpr::Paren(pe) => "("@ + print_expr(*pe.expr, m) + ")"@,
        SExpr::JSXElement(el) => print_jsx_element(*el, m),
        SExpr::JSXFragment(f) => print_jsx_fragment(f, m),
        SExpr::Tsrx(t) => print_tsrx(*t, m),
        SExpr::Call(c) => print_expr(*c.callee, m) + "("@ + print_expr_list(c.args, m) + ")"@,
        SExpr::Update(u) => if u.prefix {
            print_update_op(u.op) + print_expr(*u.arg, m)
        } else {
            print_expr(*u.arg, m) + print_update_op(u.op)
        },
        SExpr::Unary(u) => print_unary_op(u.op) + print_expr(*u.arg, m),
        SExpr::Bin(b) => print_expr(*b.left, m) + " "@ + print_bin_op(b.op) + " "@ + print_expr(
            *b.right,
            m,
        ),
        SExpr::Cond(c) => print_expr(*c.test, m) + fs(m) + "?"@ + fs(m) + print_expr(*c.cons, m)
            + fs(m) + ":"@ + fs(m) + print_expr(*c.alt, m),
        SExpr::Assign(a) => print_expr(*a.left, m) + fs(m) + print_assign_op(a.op) + fs(m)
            + print_expr(*a.right, m),
        SExpr::Sequence(q) => print_expr_list(q.exprs, m),
    }
}

/// The expressions, separated by commas.
#[verifier::opaque]
pub open spec fn print_expr_list(s: Seq<SExpr>, m: bool) -> Seq<char>
    decreases s, 0int,
{
    if s.len() == 0 {
        Seq::empty()
    } else if s.len() == 1 {
        print_expr(s[0], m)
    } else {
        print_expr_list(s.drop_last(), m) + ","@ + fs(m) + print_expr(s.last(), m)
    }
}

pub open spec fn print_bin_op(op: BinaryOp) -> Seq<char> {
    match op {
        BinaryOp::EqEq => "=="@,
        BinaryOp::NotEq => "!="@,
        BinaryOp::EqEqEq => "==="@,
        BinaryOp::NotEqEq => "!=="@,
        BinaryOp::Lt => "<"@,
        BinaryOp::LtEq => "<="@,
        BinaryOp::Gt => ">"@,
        BinaryOp::GtEq => ">="@,
        BinaryOp::Add => "+"@,
        BinaryOp::Sub => "-"@,
        BinaryOp::Mul => "*"@,
        BinaryOp::Div => "/"@,
        BinaryOp::Mod => "%"@,
        BinaryOp::LogicalOr => "||"@,
        BinaryOp::LogicalAnd => "&&"@,
    }
}

pub open spec fn print_unary_op(op: UnaryOp) -> Seq<char> {
    match op {
        UnaryOp::Bang => "!"@,
        UnaryOp::Minus => "-"@,
        UnaryOp::Plus => "+"@,
    }
}

pub open spec fn print_update_op(op: UpdateOp) -> Seq<char> {
    match op {
        UpdateOp::PlusPlus => "++"@,
        UpdateOp::MinusMinus => "--"@,
    }
}

pub open spec fn print_assign_op(op: AssignOp) -> Seq<char> {
    match op {
        AssignOp::Assign => "="@,
        AssignOp::AddAssign => "+="@,
        AssignOp::SubAssign => "-="@,
    }
}

#[verifier::opaque]
pub open spec fn print_jsx_name(n: SJSXElementName, m: bool) -> Seq<char>
    decreases n, 0int,
{
    match n {
        SJSXElementName::Ident(i) => i.sym,
        SJSXElementName::JSXExprContainer(c) => "{"@ + print_expr(*c.expr, m) + "}"@,
    }
}

#[verifier::opaque]
pub open spec fn print_jsx_attr(a: SJSXAttrOrSpread, m: bool) -> Seq<char>
    decreases a, 0int,
{
    match a {
        SJSXAttrOrSpread::JSXAttr(a) => if a.shorthand {
            "{"@ + a.name.sym + "}"@
        } else {
            a.name.sym + match a.value {
                Some(SJSXAttrValue::Str(s)) => "="@ + s.raw,
                Some(SJSXAttrValue::JSXExprContainer(c)) => "="@ + "{"@ + print_expr(*c.expr, m)
                    + "}"@,
                None => Seq::empty(),
            }
        },
    }
}

/// Each attribute, after one space.
#[verifier::opaque]
pub open spec fn print_jsx_attrs(s: Seq<SJSXAttrOrSpread>, m: bool) -> Seq<char>
    decreases s, 0int,
{
    if s.len() == 0 {
        Seq::empty()
    } else {
        print_jsx_attrs(s.drop_last(), m) + " "@ + print_jsx_attr(s.last(), m)
    }
}

#[verifier::opaque]
pub open spec fn print_jsx_opening(o: SJSXOpeningElement, m: bool) -> Seq<char>
    decreases o, 0int,
{
    "<"@ + print_jsx_name(o.name, m) + print_jsx_attrs(o.attrs, m) + if o.self_closing {
        "/>"@
    } else {
        ">"@
    }
}

#[verifier::opaque]
pub open spec fn print_jsx_closing(c: SJSXClosingElement, m: bool) -> Seq<char>
    decreases c, 0int,
{
    "</"@ + print_jsx_name(c.name, m) + ">"@
}

#[verifier::opaque]
pub open spec fn print_jsx_child(c: SJSXElementChild, m: bool) -> Seq<char>
    decreases c, 0int,
{
    match c {
        SJSXElementChild::JSXText(t) => t.value,
        SJSXElementChild::JSXExprContainer(c) => "{"@ + print_expr(*c.expr, m) + "}"@,
        SJSXElementChild::JSXElement(e) => print_jsx_element(*e, m),
        SJSXElementChild::JSXFragment(f) => print_jsx_fragment(f, m),
        SJSXElementChild::Tsrx(t) => print_tsrx(*t, m),
    }
}

#[verifier::opaque]
pub open spec fn print_jsx_children(s: Seq<SJSXElementChild>, m: bool) -> Seq<char>
    decreases s, 0int,
{
    if s.len() == 0 {
        Seq::empty()
    } else {
        print_jsx_children(s.drop_last(), m) + print_jsx_child(s.last(), m)
    }
}

#[verifier::opaque]
pub open spec fn print_jsx_element(e: SJSXElement, m: bool) -> Seq<char>
    decreases e, 0int,
{
    print_jsx_opening(e.opening, m) + print_jsx_children(e.children, m) + match e.closing {
        Some(c) => print_jsx_closing(c, m),
        None => Seq::empty(),
    }
}

#[verifier::opaque]
pub open spec fn print_jsx_fragment(f: SJSXFragment, m: bool) -> Seq<char>
    decreases f, 0int,
{
    "<>"@ + print_jsx_children(f.children, m) + "</>"@
}

#[verifier::opaque]
pub open spec fn print_declarator(d: SVarDeclarator, m: bool) -> Seq<char>
    decreases d, 0int,
{
    print_pat(d.name, m) + match d.init {
        Some(e) => fs(m) + "="@ + fs(m) + print_expr(*e, m),
        None => Seq::empty(),
    }
}

/// The declarators, separated by commas.
#[verifier::opaque]
pub open spec fn print_declarators(s: Seq<SVarDeclarator>, m: bool) -> Seq<char>
    decreases s, 0int,
{
    if s.len() == 0 {
        Seq::empty()
    } else if s.len() == 1 {
        print_declarator(s[0], m)
    } else {
        print_declarators(s.drop_last(), m) + ","@ + fs(m) + print_declarator(s.last(), m)
    }
}

/// A declaration without its `;` (as it stands in a `for` head).
#[verifier::opaque]
pub open spec fn print_var_decl(d: SVarDecl, m: bool) -> Seq<char>
    decreases d, 0int,
{
    print_var_kind(d.kind) + " "@ + print_declarators(d.decls, m)
}

#[verifier::opaque]
pub open spec fn print_param(p: SParam, m: bool) -> Seq<char>
    decreases p, 0int,
{
    print_pat(p.pat, m)
}

/// The parameters, separated by commas.
#[verifier::opaque]
pub open spec fn print_params(s: Seq<SParam>, m: bool) -> Seq<char>
    decreases s, 0int,
{
    if s.len() == 0 {
        Seq::empty()
    } else if s.len() == 1 {
        print_param(s[0], m)
    } else {
        print_params(s.drop_last(), m) + ","@ + fs(m) + print_param(s.last(), m)
    }
}

/// `@expr`, followed by one space.
#[verifier::opaque]
pub open spec fn print_decorator(d: SDecorator, m: bool) -> Seq<char>
    decreases d, 0int,
{
    "@"@ + print_expr(*d.expr, m) + " "@
}

/// Each decorator, followed by one space.
#[verifier::opaque]
pub open spec fn print_decorators(s: Seq<SDecorator>, m: bool) -> Seq<char>
    decreases s, 0int,
{
    if s.len() == 0 {
        Seq::empty()
    } else {
        print_decorators(s.drop_last(), m) + print_decorator(s.last(), m)
    }
}

/// Each statement on a line of its own: a formatting line break before each.
#[verifier::opaque]
pub open spec fn print_stmt_lines(s: Seq<SStmt>, m: bool) -> Seq<char>
    decreases s, 0int,
{
    if s.len() == 0 {
        Seq::empty()
    } else {
        print_stmt_lines(s.drop_last(), m) + nl(m) + print_stmt(s.last(), m)
    }
}

/// A statement list as a block prints it: nothing when empty, else its lines
/// and a closing line break.
#[verifier::opaque]
pub open spec fn print_stmt_list(s: Seq<SStmt>, m: bool) -> Seq<char>
    decreases s, 1int,
{
    if s.len() == 0 {
        Seq::empty()
    } else {
        print_stmt_lines(s, m) + nl(m)
    }
}

/// Whether a block is the body of a function written as `@{ .. }`: its one
/// statement is a code block marked as a function body.
pub open spec fn is_tsrx_function_body(b: SBlockStmt) -> bool {
    &&& b.stmts.len() == 1
    &&& b.stmts[0] matches SStmt::Expr(es)
    &&& *es.expr matches SExpr::Tsrx(t)
    &&& *t matches STsrxExpr::CodeBlock(cb)
    &&& cb.is_function_body
}

/// A block; a function body written as `@{ .. }` prints as that code block.
#[verifier::opaque]
pub open spec fn print_block(b: SBlockStmt, m: bool) -> Seq<char>
    decreases b, 0int,
{
    if is_tsrx_function_body(b) {
        print_expr(*b.stmts[0]->Expr_0.expr, m)
    } else {
        "{"@ + print_stmt_list(b.stmts, m) + "}"@
    }
}

#[verifier::opaque]
pub open spec fn print_decl(d: SDecl, m: bool) -> Seq<char>
    decreases d, 0int,
{
    match d {
        SDecl::Var(v) => print_var_decl(*v, m) + ";"@,
        SDecl::Fn(f) => "function "@ + f.ident.sym + "("@ + print_params(f.function.params, m)
            + ")"@ + fs(m) + match f.function.body {
            Some(b) => print_block(b, m),
            None => ";"@,
        },
        SDecl::Class(c) => print_decorators(c.class.decorators, m) + "class "@ + c.ident.sym
            + fs(m) + "{}"@,
    }
}

#[verifier::opaque]
pub open spec fn print_stmt(s: SStmt, m: bool) -> Seq<char>
    decreases s, 0int,
{
    match s {
        SStmt::Block(b) => print_block(b, m),
        SStmt::Empty(_) => ";"@,
        SStmt::Expr(es) => print_expr(*es.expr, m) + ";"@,
        SStmt::Decl(d) => print_decl(d, m),
    }
}

/// Each item of a module, followed by a formatting line break.
pub open spec fn print_module_items(s: Seq<SModuleItem>, m: bool) -> Seq<char>
    decreases s,
{
    if s.len() == 0 {
        Seq::empty()
    } else {
        print_module_items(s.drop_last(), m) + match s.last() {
            SModuleItem::Stmt(st) => print_stmt(st, m),
        } + nl(m)
    }
}

pub open spec fn print_module(md: SModule, m: bool) -> Seq<char> {
    print_module_items(md.body, m)
}

#[verifier::opaque]
pub open spec fn print_for_head(h: SForHead, m: bool) -> Seq<char>
    decreases h, 0int,
{
    match h {
        SForHead::VarDecl(d) => print_var_decl(*d, m),
        SForHead::Pat(p) => print_pat(*p, m),
    }
}

#[verifier::opaque]
pub open spec fn print_var_decl_or_expr(v: SVarDeclOrExpr, m: bool) -> Seq<char>
    decreases v, 0int,
{
    match v {
        SVarDeclOrExpr::VarDecl(d) => print_var_decl(*d, m),
        SVarDeclOrExpr::Expr(e) => print_expr(*e, m),
    }
}

/// `{ setup statements; render }`
#[verifier::opaque]
pub open spec fn print_code_block(b: SJSXCodeBlock, m: bool) -> Seq<char>
    decreases b, 0int,
{
    "{"@ + print_stmt_list(b.body, m) + match b.render {
        Some(r) => print_expr(*r, m),
        None => Seq::empty(),
    } + "}"@
}

#[verifier::opaque]
pub open spec fn print_style_element(s: SJSXStyleElement, m: bool) -> Seq<char>
    decreases s, 0int,
{
    print_jsx_opening(s.opening, m) + s.css + print_jsx_closing(s.closing, m)
}

/// `@else ..` after the consequent, when there is an alternate.
#[verifier::opaque]
pub open spec fn print_else(a: Option<SJSXIfAlternate>, m: bool) -> Seq<char>
    decreases a, 0int,
{
    match a {
        Some(alt) => fs(m) + "@"@ + "else"@ + fs(m) + print_if_alternate(alt, m),
        None => Seq::empty(),
    }
}

/// `if (test) { .. } [@else ..]`, without the leading `@`.
#[verifier::opaque]
pub open spec fn print_if_tail(e: SJSXIfExpr, m: bool) -> Seq<char>
    decreases e, 0int,
{
    "if"@ + fs(m) + "("@ + print_expr(*e.test, m) + ")"@ + fs(m) + print_code_block(
        e.consequent,
        m,
    ) + print_else(e.alternate, m)
}

#[verifier::opaque]
pub open spec fn print_if(e: SJSXIfExpr, m: bool) -> Seq<char>
    decreases e, 1int,
{
    "@"@ + print_if_tail(e, m)
}

#[verifier::opaque]
pub open spec fn print_if_alternate(a: SJSXIfAlternate, m: bool) -> Seq<char>
    decreases a, 0int,
{
    match a {
        SJSXIfAlternate::CodeBlock(b) => print_code_block(b, m),
        SJSXIfAlternate::If(e) => print_if_tail(*e, m),
    }
}

/// The head of a three-part loop: `init; test; update`.
#[verifier::opaque]
pub open spec fn print_for_parts(e: SJSXForExpr, m: bool) -> Seq<char>
    decreases e, 0int,
{
    (match e.init {
        Some(v) => print_var_decl_or_expr(v, m),
        None => Seq::empty(),
    }) + ";"@ + (match e.test {
        Some(t) => fs(m) + print_expr(*t, m),
        None => Seq::empty(),
    }) + ";"@ + (match e.update {
        Some(u) => fs(m) + print_expr(*u, m),
        None => Seq::empty(),
    })
}

/// The head of a `for .. in` or `for .. of` loop.
#[verifier::opaque]
pub open spec fn print_for_in_of(e: SJSXForExpr, m: bool) -> Seq<char>
    decreases e, 0int,
{
    (match e.left {
        Some(h) => print_for_head(h, m),
        None => Seq::empty(),
    }) + " "@ + (if e.kind == JSXForKind::ForInStatement {
        "in"@
    } else {
        "of"@
    }) + " "@ + (match e.right {
        Some(r) => print_expr(*r, m),
        None => Seq::empty(),
    })
}

/// The part of a `@for` head between its brackets, before the options.
#[verifier::opaque]
pub open spec fn print_for_head_of(e: SJSXForExpr, m: bool) -> Seq<char>
    decreases e, 1int,
{
    match e.kind {
        JSXForKind::ForStatement => print_for_parts(e, m),
        _ => print_for_in_of(e, m),
    }
}

/// The `; index i` and `; key k` options of a `@for` head.
#[verifier::opaque]
pub open spec fn print_for_options(e: SJSXForExpr, m: bool) -> Seq<char>
    decreases e, 0int,
{
    (match e.index {
        Some(i) => ";"@ + " "@ + "index"@ + " "@ + i.sym,
        None => Seq::empty(),
    }) + (match e.key {
        Some(k) => ";"@ + " "@ + "key"@ + " "@ + print_expr(*k, m),
        None => Seq::empty(),
    })
}

#[verifier::opaque]
pub open spec fn print_for(e: SJSXForExpr, m: bool) -> Seq<char>
    decreases e, 2int,
{
    "@"@ + "for"@ + (if e.is_await {
        " "@ + "await"@
    } else {
        Seq::empty()
    }) + fs(m) + "("@ + print_for_head_of(e, m) + print_for_options(e, m) + ")"@ + fs(m)
        + print_code_block(e.body, m) + match e.empty {
        Some(b) => fs(m) + "@"@ + "empty"@ + fs(m) + print_code_block(b, m),
        None => Seq::empty(),
    }
}

#[verifier::opaque]
pub open spec fn print_switch_case(c: SJSXSwitchCase, m: bool) -> Seq<char>
    decreases c, 0int,
{
    "@"@ + match c.test {
        Some(t) => "case"@ + " "@ + print_expr(*t, m),
        None => "default"@,
    } + ":"@ + fs(m) + print_code_block(c.consequent, m)
}

#[verifier::opaque]
pub open spec fn print_switch_cases(s: Seq<SJSXSwitchCase>, m: bool) -> Seq<char>
    decreases s, 0int,
{
    if s.len() == 0 {
        Seq::empty()
    } else {
        print_switch_cases(s.drop_last(), m) + print_switch_case(s.last(), m)
    }
}

#[verifier::opaque]
pub open spec fn print_switch(e: SJSXSwitchExpr, m: bool) -> Seq<char>
    decreases e, 0int,
{
    "@"@ + "switch"@ + fs(m) + "("@ + print_expr(*e.discriminant, m) + ")"@ + fs(m) + "{"@
        + print_switch_cases(e.cases, m) + "}"@
}

#[verifier::opaque]
pub open spec fn print_catch(c: SJSXCatchClause, m: bool) -> Seq<char>
    decreases c, 0int,
{
    "@"@ + "catch"@ + fs(m) + "("@ + match c.param {
        Some(p) => print_pat(p, m),
        None => Seq::empty(),
    } + match c.reset {
        Some(r) => ","@ + fs(m) + r.sym,
        None => Seq::empty(),
    } + ")"@ + fs(m) + print_code_block(c.body, m)
}

/// The finalizer is not printed.
#[verifier::opaque]
pub open spec fn print_try(e: SJSXTryExpr, m: bool) -> Seq<char>
    decreases e, 0int,
{
    "@"@ + "try"@ + fs(m) + print_code_block(e.block, m) + match e.pending {
        Some(b) => fs(m) + "@"@ + "pending"@ + fs(m) + print_code_block(b, m),
        None => Seq::empty(),
    } + match e.handler {
        Some(h) => fs(m) + print_catch(h, m),
        None => Seq::empty(),
    }
}

#[verifier::opaque]
pub open spec fn print_tsrx(t: STsrxExpr, m: bool) -> Seq<char>
    decreases t, 0int,
{
    match t {
        STsrxExpr::CodeBlock(b) => "@"@ + print_code_block(b, m),
        STsrxExpr::StyleElement(s) => print_style_element(*s, m),
        STsrxExpr::If(e) => print_if(*e, m),
        STsrxExpr::For(e) => print_for(*e, m),
        STsrxExpr::Switch(e) => print_switch(*e, m),
        STsrxExpr::Try(e) => print_try(*e, m),
    }
}

/// The definition of `print_for`, one level deep.
pub proof fn lemma_print_for(e: SJSXForExpr, m: bool)
    ensures
        print_for(e, m) == "@"@ + "for"@ + (if e.is_await {
            " "@ + "await"@
        } else {
            Seq::empty()
        }) + fs(m) + "("@ + print_for_head_of(e, m) + print_for_options(e, m) + ")"@ + fs(m)
            + print_code_block(e.body, m) + match e.empty {
            Some(b) => fs(m) + "@"@ + "empty"@ + fs(m) + print_code_block(b, m),
            None => Seq::empty(),
        },
{
    reveal_with_fuel(print_for, 1);
    reveal_with_fuel(print_for_head_of, 1);
    reveal_with_fuel(print_for_options, 1);
    reveal_with_fuel(print_code_block, 1);
}

/// The definitions of the two loop heads, one level deep.
pub proof fn lemma_print_for_heads(e: SJSXForExpr, m: bool)
    ensures
        print_for_parts(e, m) == (match e.init {
            Some(v) => print_var_decl_or_expr(v, m),
            None => Seq::empty(),
        }) + ";"@ + (match e.test {
            Some(t) => fs(m) + print_expr(*t, m),
            None => Seq::empty(),
        }) + ";"@ + (match e.update {
            Some(u) => fs(m) + print_expr(*u, m),
            None => Seq::empty(),
        }),
        print_for_in_of(e, m) == (match e.left {
            Some(h) => print_for_head(h, m),
            None => Seq::empty(),
        }) + " "@ + (if e.kind == JSXForKind::ForInStatement {
            "in"@
        } else {
            "of"@
        }) + " "@ + (match e.right {
            Some(r) => print_expr(*r, m),
            None => Seq::empty(),
        }),
{
    reveal_with_fuel(print_for_parts, 1);
    reveal_with_fuel(print_for_in_of, 1);
    reveal_with_fuel(print_var_decl_or_expr, 1);
    reveal_with_fuel(print_expr, 1);
    reveal_with_fuel(print_for_head, 1);
}

/// The definition of `print_try`, one level deep.
pub proof fn lemma_print_try(e: SJSXTryExpr, m: bool)
    ensures
        print_try(e, m) == "@"@ + "try"@ + fs(m) + print_code_block(e.block, m) + (match e.pending {
            Some(b) => fs(m) + "@"@ + "pending"@ + fs(m) + print_code_block(b, m),
            None => Seq::empty(),
        }) + (match e.handler {
            Some(h) => fs(m) + print_catch(h, m),
            None => Seq::empty(),
        }),
{
    reveal_with_fuel(print_try, 1);
    reveal_with_fuel(print_code_block, 1);
    reveal_with_fuel(print_catch, 1);
}

/// The definition of `print_catch`, one level deep.
pub proof fn lemma_print_catch(c: SJSXCatchClause, m: bool)
    ensures
        print_catch(c, m) == "@"@ + "catch"@ + fs(m) + "("@ + (match c.param {
            Some(p) => print_pat(p, m),
            None => Seq::empty(),
        }) + (match c.reset {
            Some(r) => ","@ + fs(m) + r.sym,
            None => Seq::empty(),
        }) + ")"@ + fs(m) + print_code_block(c.body, m),
{
    reveal_with_fuel(print_catch, 1);
    reveal_with_fuel(print_code_block, 1);
    reveal_with_fuel(print_pat, 1);
}

/// The definition of `print_decorator`, one level deep.
pub proof fn lemma_print_decorator(d: SDecorator, m: bool)
    ensures
        print_decorator(d, m) == "@"@ + print_expr(*d.expr, m) + " "@,
{
    reveal_with_fuel(print_decorator, 1);
    reveal_with_fuel(print_expr, 1);
}

/// The parameters with one more at the end.
pub proof fn lemma_print_params_push(s: Seq<SParam>, x: SParam, m: bool)
    ensures
        print_params(s.push(x), m) == if s.len() == 0 {
            print_param(x, m)
        } else {
            print_params(s, m) + ","@ + fs(m) + print_param(x, m)
        },
{
    reveal_with_fuel(print_params, 1);
    reveal_with_fuel(print_param, 1);
    assert(s.push(x).drop_last() =~= s);
}

/// The declarators with one more at the end.
pub proof fn lemma_print_declarators_push(s: Seq<SVarDeclarator>, x: SVarDeclarator, m: bool)
    ensures
        print_declarators(s.push(x), m) == if s.len() == 0 {
            print_declarator(x, m)
        } else {
            print_declarators(s, m) + ","@ + fs(m) + print_declarator(x, m)
        },
{
    reveal_with_fuel(print_declarators, 1);
    reveal_with_fuel(print_declarator, 1);
    assert(s.push(x).drop_last() =~= s);
}

/// The decorators with one more at the end.
pub proof fn lemma_print_decorators_push(s: Seq<SDecorator>, x: SDecorator, m: bool)
    ensures
        print_decorators(s.push(x), m) == print_decorators(s, m) + print_decorator(x, m),
{
    reveal_with_fuel(print_decorators, 1);
    reveal_with_fuel(print_decorator, 1);
    assert(s.push(x).drop_last() =~= s);
}

/// The printed `@for` options: the index option comes first whenever there
/// is an index, the key option comes last whenever there is a key, and with
/// neither nothing is printed.
pub proof fn law_for_options_printed(e: SJSXForExpr, m: bool)
    ensures
        e.index matches Some(i) ==> (";"@ + " "@ + "index"@ + " "@ + i.sym).is_prefix_of(
            print_for_options(e, m),
        ),
        e.key matches Some(k) ==> (";"@ + " "@ + "key"@ + " "@ + print_expr(*k, m)).is_suffix_of(
            print_for_options(e, m),
        ),
        e.index is None && e.key is None ==> print_for_options(e, m) == Seq::<char>::empty(),
        print_for_options(e, m).len() == (match e.index {
            Some(i) => 8 + i.sym.len() as int,
            None => 0int,
        }) + (match e.key {
            Some(k) => 6 + print_expr(*k, m).len() as int,
            None => 0int,
        }),
{
    reveal_with_fuel(print_for_options, 1);
    reveal_with_fuel(print_expr, 1);
    reveal_strlit(";");
    reveal_strlit(" ");
    reveal_strlit("index");
    reveal_strlit("key");
    let o = print_for_options(e, m);
    match e.index {
        Some(i) => {
            let a = ";"@ + " "@ + "index"@ + " "@ + i.sym;
            assert(a.is_prefix_of(o)) by {
                assert(o.subrange(0, a.len() as int) =~= a);
            }
        },
        None => {},
    }
    match e.key {
        Some(k) => {
            let b = ";"@ + " "@ + "key"@ + " "@ + print_expr(*k, m);
            assert(b.is_suffix_of(o)) by {
                assert(o.subrange(o.len() - b.len(), o.len() as int) =~= b);
            }
        },
        None => {},
    }
    if e.index is None && e.key is None {
        assert(o =~= Seq::<char>::empty());
    }
}

} // verus!
