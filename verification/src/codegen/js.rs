//! Printing the script nodes that TSRX expressions hold and stand in.
use vstd::prelude::*;

use crate::ast::{
    AssignOp, BinaryOp, UnaryOp, UpdateOp,
    BlockStmt, Decl, Decorator, Expr, ForHead, JSXAttrOrSpread, JSXAttrValue, JSXClosingElement,
    JSXElement, JSXElementChild, JSXElementName, JSXFragment, JSXOpeningElement, Lit, Module,
    ModuleItem, Param, Pat, Stmt, TsrxExpr, VarDecl, VarDeclKind, VarDeclOrExpr, VarDeclarator,
};
use crate::view::{
    lemma_sv_decorator, lemma_sv_decorator_list_push, lemma_sv_var_declarator,
    lemma_sv_var_declarator_list_push,
    lemma_sv_param_list_push,
    sv_expr_list,
    sv_block_stmt, sv_decl, sv_decorator, sv_decorator_list, sv_expr, sv_expr_stmt, sv_for_head,
    sv_jsx_attr_or_spread, sv_jsx_attr_or_spread_list, sv_jsx_closing_element, sv_jsx_code_block,
    sv_jsx_element, sv_jsx_element_child, sv_jsx_element_child_list, sv_jsx_element_name,
    sv_jsx_fragment, sv_jsx_opening_element, sv_module, sv_module_item, sv_module_item_list,
    sv_param, sv_param_list, sv_pat, sv_stmt, sv_stmt_list, sv_tsrx_expr, sv_var_decl,
    sv_var_decl_or_expr, sv_var_declarator, sv_var_declarator_list,
};
use crate::view::{SExpr, SStmt, STsrxExpr};
use vstd::seq_lib::lemma_concat_associative;
use super::emitter::Emitter;
use super::print::{
    lemma_print_declarators_push, lemma_print_decorators_push,
    lemma_print_decorator, lemma_print_params_push,
    print_assign_op, print_bin_op, print_expr_list, print_unary_op, print_update_op,
    fs, is_tsrx_function_body, print_block, print_decl, print_declarator, print_declarators,
    print_decorator, print_decorators, print_expr, print_for_head, print_jsx_attr, print_jsx_attrs,
    print_jsx_child, print_jsx_children, print_jsx_closing, print_jsx_element, print_jsx_fragment,
    print_jsx_name, print_jsx_opening, print_module, print_module_items, print_param, print_params,
    print_pat, print_stmt, print_stmt_lines, print_stmt_list, print_tsrx, print_var_decl,
    print_var_decl_or_expr,
};

verus! {

impl Pat {
    #[verifier::spinoff_prover]
    pub fn emit(&self, e: &mut Emitter)
        ensures
            final(e).minify == old(e).minify,
            final(e).out@ == old(e).out@ + print_pat(sv_pat(*self), old(e).minify),
        decreases self, 0int,
    {
        proof {
            reveal_with_fuel(print_pat, 1);
            reveal_with_fuel(print_expr, 1);
        }
        match self {
            Pat::Ident(b) => e.write_string(&b.id.sym),
            Pat::Expr(x) => x.emit(e),
        }
    }
}

fn bin_op_str(op: BinaryOp) -> (s: &'static str)
    ensures
        s@ == print_bin_op(op),
{
    match op {
        BinaryOp::EqEq => "==",
        BinaryOp::NotEq => "!=",
        BinaryOp::EqEqEq => "===",
        BinaryOp::NotEqEq => "!==",
        BinaryOp::Lt => "<",
        BinaryOp::LtEq => "<=",
        BinaryOp::Gt => ">",
        BinaryOp::GtEq => ">=",
        BinaryOp::Add => "+",
        BinaryOp::Sub => "-",
        BinaryOp::Mul => "*",
        BinaryOp::Div => "/",
        BinaryOp::Mod => "%",
        BinaryOp::LogicalOr => "||",
        BinaryOp::LogicalAnd => "&&",
    }
}

fn unary_op_str(op: UnaryOp) -> (s: &'static str)
    ensures
        s@ == print_unary_op(op),
{
    match op {
        UnaryOp::Bang => "!",
        UnaryOp::Minus => "-",
        UnaryOp::Plus => "+",
    }
}

fn update_op_str(op: UpdateOp) -> (s: &'static str)
    ensures
        s@ == print_update_op(op),
{
    match op {
        UpdateOp::PlusPlus => "++",
        UpdateOp::MinusMinus => "--",
    }
}

fn assign_op_str(op: AssignOp) -> (s: &'static str)
    ensures
        s@ == print_assign_op(op),
{
    match op {
        AssignOp::Assign => "=",
        AssignOp::AddAssign => "+=",
        AssignOp::SubAssign => "-=",
    }
}

/// Prints the expressions, separated by commas.
#[verifier::spinoff_prover]
pub fn emit_expr_list(exprs: &Vec<Expr>, e: &mut Emitter)
    ensures
        final(e).minify == old(e).minify,
        final(e).out@ == old(e).out@ + print_expr_list(sv_expr_list(exprs@), old(e).minify),
    decreases exprs, 0int,
{
    proof {
        reveal_with_fuel(print_expr_list, 1);
        assert(exprs@.take(0) =~= Seq::empty());
    }
    let ghost m = e.minify;
    let ghost mid = e.out@;
    let mut i: usize = 0;
    while i < exprs.len()
        invariant
            i <= exprs.len(),
            e.minify == m,
            e.out@ == mid + print_expr_list(sv_expr_list(exprs@.take(i as int)), m),
        decreases exprs.len() - i,
    {
        proof {
            reveal_with_fuel(print_expr_list, 1);
            reveal_with_fuel(print_expr, 1);
            assert(exprs@.take(i + 1).drop_last() =~= exprs@.take(i as int));
            assert(sv_expr_list(exprs@.take(i + 1)).drop_last() =~= sv_expr_list(exprs@.take(i as int)));
        }
        if i > 0 {
            e.write(",");
            e.formatting_space();
        }
        exprs[i].emit(e);
        i = i + 1;
    }
    assert(exprs@.take(exprs.len() as int) =~= exprs@);
}

impl Expr {
    #[verifier::spinoff_prover]
    pub fn emit(&self, e: &mut Emitter)
        ensures
            final(e).minify == old(e).minify,
            final(e).out@ == old(e).out@ + print_expr(sv_expr(*self), old(e).minify),
        decreases self, 0int,
    {
        proof {
            reveal_with_fuel(print_expr, 1);
            reveal_with_fuel(print_jsx_element, 1);
            reveal_with_fuel(print_jsx_fragment, 1);
            reveal_with_fuel(print_tsrx, 1);
            reveal_with_fuel(print_expr_list, 1);
        }
        let ghost start = e.out@;
        let ghost m = e.minify;
        match self {
            Expr::Ident(i) => e.write_string(&i.sym),
            Expr::Lit(Lit::Str(s)) => e.write_string(&s.raw),
            Expr::Lit(Lit::Num(n)) => e.write_string(&n.raw),
            Expr::Member(me) => {
                me.obj.emit(e);
                e.write(".");
                e.write_string(&me.prop.sym);
            },
            Expr::Paren(pe) => {
                e.write("(");
                pe.expr.emit(e);
                e.write(")");
            },
            Expr::JSXElement(el) => el.emit(e),
            Expr::JSXFragment(f) => f.emit(e),
            Expr::Tsrx(t) => t.emit(e),
            Expr::Call(c) => {
                c.callee.emit(e);
                e.write("(");
                emit_expr_list(&c.args, e);
                e.write(")");
                assert(e.out@ =~= start + print_expr(sv_expr(*self), m));
            },
            Expr::Update(u) => {
                if u.prefix {
                    e.write(update_op_str(u.op));
                    u.arg.emit(e);
                } else {
                    u.arg.emit(e);
                    e.write(update_op_str(u.op));
                }
                assert(e.out@ =~= start + print_expr(sv_expr(*self), m));
            },
            Expr::Unary(u) => {
                e.write(unary_op_str(u.op));
                u.arg.emit(e);
                assert(e.out@ =~= start + print_expr(sv_expr(*self), m));
            },
            Expr::Bin(b) => {
                b.left.emit(e);
                e.write(" ");
                e.write(bin_op_str(b.op));
                e.write(" ");
                b.right.emit(e);
                assert(e.out@ =~= start + print_expr(sv_expr(*self), m));
            },
            Expr::Cond(c) => {
                c.test.emit(e);
                e.formatting_space();
                e.write("?");
                e.formatting_space();
                c.cons.emit(e);
                e.formatting_space();
                e.write(":");
                e.formatting_space();
                c.alt.emit(e);
                assert(e.out@ =~= start + print_expr(sv_expr(*self), m));
            },
            Expr::Assign(a) => {
                a.left.emit(e);
                e.formatting_space();
                e.write(assign_op_str(a.op));
                e.formatting_space();
                a.right.emit(e);
                assert(e.out@ =~= start + print_expr(sv_expr(*self), m));
            },
            Expr::Sequence(q) => emit_expr_list(&q.exprs, e),
        }
        assert(e.out@ =~= start + print_expr(sv_expr(*self), m));
    }
}

impl JSXElementName {
    #[verifier::spinoff_prover]
    pub fn emit(&self, e: &mut Emitter)
        ensures
            final(e).minify == old(e).minify,
            final(e).out@ == old(e).out@ + print_jsx_name(sv_jsx_element_name(*self), old(e).minify),
        decreases self, 0int,
    {
        proof {
            reveal_with_fuel(print_jsx_name, 1);
            reveal_with_fuel(print_expr, 1);
        }
        let ghost start = e.out@;
        match self {
            JSXElementName::Ident(i) => e.write_string(&i.sym),
            JSXElementName::JSXExprContainer(c) => {
                e.write("{");
                c.expr.emit(e);
                e.write("}");
            },
        }
        assert(e.out@ =~= start + print_jsx_name(sv_jsx_element_name(*self), e.minify));
    }
}

impl JSXAttrOrSpread {
    #[verifier::spinoff_prover]
    pub fn emit(&self, e: &mut Emitter)
        ensures
            final(e).minify == old(e).minify,
            final(e).out@ == old(e).out@ + print_jsx_attr(sv_jsx_attr_or_spread(*self), old(e).minify),
        decreases self, 0int,
    {
        proof {
            reveal_with_fuel(print_jsx_attr, 1);
            reveal_with_fuel(print_expr, 1);
        }
        let ghost start = e.out@;
        match self {
            JSXAttrOrSpread::JSXAttr(a) => {
                if a.shorthand {
                    e.write("{");
                    e.write_string(&a.name.sym);
                    e.write("}");
                } else {
                    e.write_string(&a.name.sym);
                    match &a.value {
                        Some(JSXAttrValue::Str(s)) => {
                            e.write("=");
                            e.write_string(&s.raw);
                        },
                        Some(JSXAttrValue::JSXExprContainer(c)) => {
                            e.write("=");
                            e.write("{");
                            c.expr.emit(e);
                            e.write("}");
                        },
                        None => {},
                    }
                }
            },
        }
        assert(e.out@ =~= start + print_jsx_attr(sv_jsx_attr_or_spread(*self), e.minify));
    }
}

impl JSXOpeningElement {
    #[verifier::spinoff_prover]
    pub fn emit(&self, e: &mut Emitter)
        ensures
            final(e).minify == old(e).minify,
            final(e).out@ == old(e).out@ + print_jsx_opening(sv_jsx_opening_element(*self), old(e).minify),
        decreases self, 0int,
    {
        proof {
            reveal_with_fuel(print_jsx_opening, 1);
            reveal_with_fuel(print_jsx_attrs, 1);
            reveal_with_fuel(print_jsx_name, 1);
        }
        let ghost start = e.out@;
        let ghost m = e.minify;
        e.write("<");
        self.name.emit(e);
        let ghost mid = e.out@;
        let mut i: usize = 0;
        while i < self.attrs.len()
            invariant
                i <= self.attrs.len(),
                e.minify == m,
                e.out@ == mid + print_jsx_attrs(sv_jsx_attr_or_spread_list(self.attrs@.take(i as int)), m),
            decreases self.attrs.len() - i,
        {
            proof {
                reveal_with_fuel(print_jsx_attrs, 1);
                reveal_with_fuel(print_jsx_attr, 1);
            }
            proof {
                assert(self.attrs@.take(i + 1).drop_last() =~= self.attrs@.take(i as int));
                assert(sv_jsx_attr_or_spread_list(self.attrs@.take(i + 1)).drop_last()
                    =~= sv_jsx_attr_or_spread_list(self.attrs@.take(i as int)));
            }
            e.write(" ");
            self.attrs[i].emit(e);
            i = i + 1;
        }
        assert(self.attrs@.take(self.attrs.len() as int) =~= self.attrs@);
        if self.self_closing {
            e.write("/>");
        } else {
            e.write(">");
        }
        assert(e.out@ =~= start + print_jsx_opening(sv_jsx_opening_element(*self), m));
    }
}

impl JSXClosingElement {
    #[verifier::spinoff_prover]
    pub fn emit(&self, e: &mut Emitter)
        ensures
            final(e).minify == old(e).minify,
            final(e).out@ == old(e).out@ + print_jsx_closing(sv_jsx_closing_element(*self), old(e).minify),
        decreases self, 0int,
    {
        proof {
            reveal_with_fuel(print_jsx_closing, 1);
            reveal_with_fuel(print_jsx_name, 1);
        }
        let ghost start = e.out@;
        e.write("</");
        self.name.emit(e);
        e.write(">");
        assert(e.out@ =~= start + print_jsx_closing(sv_jsx_closing_element(*self), e.minify));
    }
}

impl JSXElementChild {
    #[verifier::spinoff_prover]
    pub fn emit(&self, e: &mut Emitter)
        ensures
            final(e).minify == old(e).minify,
            final(e).out@ == old(e).out@ + print_jsx_child(sv_jsx_element_child(*self), old(e).minify),
        decreases self, 0int,
    {
        proof {
            reveal_with_fuel(print_jsx_child, 1);
            reveal_with_fuel(print_expr, 1);
            reveal_with_fuel(print_jsx_element, 1);
            reveal_with_fuel(print_jsx_fragment, 1);
            reveal_with_fuel(print_tsrx, 1);
        }
        let ghost start = e.out@;
        match self {
            JSXElementChild::JSXText(t) => e.write_string(&t.value),
            JSXElementChild::JSXExprContainer(c) => {
                e.write("{");
                c.expr.emit(e);
                e.write("}");
            },
            JSXElementChild::JSXElement(el) => el.emit(e),
            JSXElementChild::JSXFragment(f) => f.emit(e),
            JSXElementChild::Tsrx(t) => t.emit(e),
        }
        assert(e.out@ =~= start + print_jsx_child(sv_jsx_element_child(*self), e.minify));
    }
}

/// Prints each child in turn.
#[verifier::spinoff_prover]
pub fn emit_children(children: &Vec<JSXElementChild>, e: &mut Emitter)
    ensures
        final(e).minify == old(e).minify,
        final(e).out@ == old(e).out@ + print_jsx_children(sv_jsx_element_child_list(children@), old(e).minify),
    decreases children, 0int,
{
    proof {
        reveal_with_fuel(print_jsx_children, 1);
        reveal_with_fuel(print_jsx_child, 1);
    }
    let ghost start = e.out@;
    let ghost m = e.minify;
    let mut i: usize = 0;
    while i < children.len()
        invariant
            i <= children.len(),
            e.minify == m,
            e.out@ == start + print_jsx_children(sv_jsx_element_child_list(children@.take(i as int)), m),
        decreases children.len() - i,
    {
        proof {
            reveal_with_fuel(print_jsx_children, 1);
            reveal_with_fuel(print_jsx_child, 1);
        }
        proof {
            assert(children@.take(i + 1).drop_last() =~= children@.take(i as int));
            assert(sv_jsx_element_child_list(children@.take(i + 1)).drop_last()
                =~= sv_jsx_element_child_list(children@.take(i as int)));
        }
        children[i].emit(e);
        i = i + 1;
    }
    assert(children@.take(children.len() as int) =~= children@);
}

impl JSXElement {
    #[verifier::spinoff_prover]
    pub fn emit(&self, e: &mut Emitter)
        ensures
            final(e).minify == old(e).minify,
            final(e).out@ == old(e).out@ + print_jsx_element(sv_jsx_element(*self), old(e).minify),
        decreases self, 0int,
    {
        proof {
            reveal_with_fuel(print_jsx_element, 1);
            reveal_with_fuel(print_jsx_children, 1);
            reveal_with_fuel(print_jsx_closing, 1);
            reveal_with_fuel(print_jsx_opening, 1);
        }
        let ghost start = e.out@;
        self.opening.emit(e);
        emit_children(&self.children, e);
        match &self.closing {
            Some(c) => c.emit(e),
            None => {},
        }
        assert(e.out@ =~= start + print_jsx_element(sv_jsx_element(*self), e.minify));
    }
}

impl JSXFragment {
    #[verifier::spinoff_prover]
    pub fn emit(&self, e: &mut Emitter)
        ensures
            final(e).minify == old(e).minify,
            final(e).out@ == old(e).out@ + print_jsx_fragment(sv_jsx_fragment(*self), old(e).minify),
        decreases self, 0int,
    {
        proof {
            reveal_with_fuel(print_jsx_fragment, 1);
            reveal_with_fuel(print_jsx_children, 1);
        }
        let ghost start = e.out@;
        e.write("<>");
        emit_children(&self.children, e);
        e.write("</>");
        assert(e.out@ =~= start + print_jsx_fragment(sv_jsx_fragment(*self), e.minify));
    }
}

impl VarDeclarator {
    #[verifier::spinoff_prover]
    pub fn emit(&self, e: &mut Emitter)
        ensures
            final(e).minify == old(e).minify,
            final(e).out@ == old(e).out@ + print_declarator(sv_var_declarator(*self), old(e).minify),
        decreases self, 0int,
    {
        proof {
            lemma_sv_var_declarator(*self);
        }
        proof {
            reveal_with_fuel(print_declarator, 1);
            reveal_with_fuel(print_expr, 1);
            reveal_with_fuel(print_pat, 1);
        }
        let ghost start = e.out@;
        self.name.emit(e);
        match &self.init {
            Some(x) => {
                e.formatting_space();
                e.write("=");
                e.formatting_space();
                x.emit(e);
            },
            None => {},
        }
        assert(e.out@ =~= start + print_declarator(sv_var_declarator(*self), e.minify));
    }
}

/// Prints the declarators, separated by commas.
#[verifier::spinoff_prover]
pub fn emit_declarators(decls: &Vec<VarDeclarator>, e: &mut Emitter)
    ensures
        final(e).minify == old(e).minify,
        final(e).out@ == old(e).out@ + print_declarators(sv_var_declarator_list(decls@), old(e).minify),
    decreases decls, 0int,
{
    let ghost m = e.minify;
    let ghost mid = e.out@;
    let mut i: usize = 0;
    while i < decls.len()
        invariant
            i <= decls.len(),
            e.minify == m,
            i > 0 ==> e.out@ == mid + print_declarators(sv_var_declarator_list(decls@.take(i as int)), m),
            i == 0 ==> e.out@ == mid,
        decreases decls.len() - i,
    {
        let ghost l = sv_var_declarator_list(decls@.take(i as int));
        proof {
            assert(decls@.take(i + 1) =~= decls@.take(i as int).push(decls@[i as int]));
            lemma_sv_var_declarator_list_push(decls@.take(i as int), decls@[i as int]);
            if i == 0 {
                assert(decls@.take(0) =~= Seq::<VarDeclarator>::empty());
                assert(l.len() == 0);
            }
            lemma_print_declarators_push(l, sv_var_declarator(decls@[i as int]), m);
        }
        if i > 0 {
            e.write(",");
            proof {
                lemma_concat_associative(mid, print_declarators(l, m), ","@);
            }
            e.formatting_space();
            proof {
                lemma_concat_associative(mid, print_declarators(l, m) + ","@, fs(m));
            }
        }
        decls[i].emit(e);
        proof {
            if i > 0 {
                lemma_concat_associative(
                    mid,
                    print_declarators(l, m) + ","@ + fs(m),
                    print_declarator(sv_var_declarator(decls@[i as int]), m),
                );
            }
        }
        i = i + 1;
    }
    proof {
        assert(decls@.take(decls.len() as int) =~= decls@);
        if decls.len() == 0 {
            reveal_with_fuel(print_declarators, 1);
            assert(decls@ =~= Seq::<VarDeclarator>::empty());
            assert(e.out@ =~= mid + print_declarators(sv_var_declarator_list(decls@), m));
        }
    }
}

impl VarDecl {
    /// Prints the declaration without a `;`.
    #[verifier::spinoff_prover]
    pub fn emit(&self, e: &mut Emitter)
        ensures
            final(e).minify == old(e).minify,
            final(e).out@ == old(e).out@ + print_var_decl(sv_var_decl(*self), old(e).minify),
        decreases self, 0int,
    {
        proof {
            reveal_with_fuel(print_var_decl, 1);
            reveal_with_fuel(print_declarators, 1);
        }
        let ghost start = e.out@;
        let ghost m = e.minify;
        match self.kind {
            VarDeclKind::Var => e.write("var"),
            VarDeclKind::Let => e.write("let"),
            VarDeclKind::Const => e.write("const"),
        }
        e.write(" ");
        emit_declarators(&self.decls, e);
        assert(e.out@ =~= start + print_var_decl(sv_var_decl(*self), m));
    }
}

impl ForHead {
    #[verifier::spinoff_prover]
    pub fn emit(&self, e: &mut Emitter)
        ensures
            final(e).minify == old(e).minify,
            final(e).out@ == old(e).out@ + print_for_head(sv_for_head(*self), old(e).minify),
        decreases self, 0int,
    {
        proof {
            reveal_with_fuel(print_for_head, 1);
            reveal_with_fuel(print_pat, 1);
            reveal_with_fuel(print_var_decl, 1);
        }
        match self {
            ForHead::VarDecl(d) => d.emit(e),
            ForHead::Pat(p) => p.emit(e),
        }
    }
}

impl VarDeclOrExpr {
    #[verifier::spinoff_prover]
    pub fn emit(&self, e: &mut Emitter)
        ensures
            final(e).minify == old(e).minify,
            final(e).out@ == old(e).out@ + print_var_decl_or_expr(sv_var_decl_or_expr(*self), old(e).minify),
        decreases self, 0int,
    {
        proof {
            reveal_with_fuel(print_var_decl_or_expr, 1);
            reveal_with_fuel(print_expr, 1);
            reveal_with_fuel(print_var_decl, 1);
        }
        match self {
            VarDeclOrExpr::VarDecl(d) => d.emit(e),
            VarDeclOrExpr::Expr(x) => x.emit(e),
        }
    }
}

/// Prints a statement list as a block holds it: each statement after a
/// formatting line break, and one more line break after the last.
#[verifier::spinoff_prover]
pub fn emit_stmt_list(stmts: &Vec<Stmt>, e: &mut Emitter)
    ensures
        final(e).minify == old(e).minify,
        final(e).out@ == old(e).out@ + print_stmt_list(sv_stmt_list(stmts@), old(e).minify),
    decreases stmts, 0int,
{
    proof {
        reveal_with_fuel(print_stmt_list, 1);
        reveal_with_fuel(print_stmt_lines, 1);
    }
    let ghost start = e.out@;
    let ghost m = e.minify;
    let mut i: usize = 0;
    while i < stmts.len()
        invariant
            i <= stmts.len(),
            e.minify == m,
            e.out@ == start + print_stmt_lines(sv_stmt_list(stmts@.take(i as int)), m),
        decreases stmts.len() - i,
    {
        proof {
            reveal_with_fuel(print_stmt_lines, 1);
            reveal_with_fuel(print_stmt, 1);
        }
        proof {
            assert(stmts@.take(i + 1).drop_last() =~= stmts@.take(i as int));
            assert(sv_stmt_list(stmts@.take(i + 1)).drop_last() =~= sv_stmt_list(stmts@.take(i as int)));
        }
        e.formatting_newline();
        stmts[i].emit(e);
        i = i + 1;
    }
    assert(stmts@.take(stmts.len() as int) =~= stmts@);
    if stmts.len() > 0 {
        e.formatting_newline();
    }
    assert(e.out@ =~= start + print_stmt_list(sv_stmt_list(stmts@), m));
}

impl BlockStmt {
    #[verifier::spinoff_prover]
    pub fn emit(&self, e: &mut Emitter)
        ensures
            final(e).minify == old(e).minify,
            final(e).out@ == old(e).out@ + print_block(sv_block_stmt(*self), old(e).minify),
        decreases self, 0int,
    {
        proof {
            reveal_with_fuel(print_block, 1);
            reveal_with_fuel(print_stmt_list, 1);
            reveal_with_fuel(print_expr, 1);
        }
        let ghost start = e.out@;
        let ghost sb = sv_block_stmt(*self);
        proof {
            if self.stmts.len() == 1 {
                assert(self.stmts@.drop_last() =~= Seq::<Stmt>::empty());
                assert(sb.stmts =~= seq![sv_stmt(self.stmts@[0])]);
            }
        }
        if self.stmts.len() == 1 {
            if let Stmt::Expr(es) = &self.stmts[0] {
                if let Expr::Tsrx(t) = &*es.expr {
                    if let TsrxExpr::CodeBlock(cb) = &**t {
                        if cb.is_function_body {
                            assert(sb.stmts[0] == SStmt::Expr(sv_expr_stmt(*es)));
                            assert(sv_expr(*es.expr) == SExpr::Tsrx(Box::new(sv_tsrx_expr(**t))));
                            assert(sv_tsrx_expr(**t) == STsrxExpr::CodeBlock(sv_jsx_code_block(*cb)));
                            assert(is_tsrx_function_body(sb));
                            es.expr.emit(e);
                            return;
                        }
                    }
                }
            }
        }
        assert(!is_tsrx_function_body(sb));
        e.write("{");
        emit_stmt_list(&self.stmts, e);
        e.write("}");
        assert(e.out@ =~= start + print_block(sv_block_stmt(*self), e.minify));
    }
}

impl Param {
    #[verifier::spinoff_prover]
    pub fn emit(&self, e: &mut Emitter)
        ensures
            final(e).minify == old(e).minify,
            final(e).out@ == old(e).out@ + print_param(sv_param(*self), old(e).minify),
        decreases self, 0int,
    {
        proof {
            crate::view::lemma_sv_param(*self);
            reveal_with_fuel(print_param, 1);
            reveal_with_fuel(print_pat, 1);
        }
        self.pat.emit(e);
    }
}

impl Decorator {
    #[verifier::spinoff_prover]
    pub fn emit(&self, e: &mut Emitter)
        ensures
            final(e).minify == old(e).minify,
            final(e).out@ == old(e).out@ + print_decorator(sv_decorator(*self), old(e).minify),
        decreases self, 0int,
    {
        proof {
            lemma_sv_decorator(*self);
        }
        let ghost m = e.minify;
        let ghost start = e.out@;
        let ghost x = print_expr(sv_expr(*self.expr), m);
        proof {
            lemma_print_decorator(sv_decorator(*self), m);
        }
        e.write("@");
        self.expr.emit(e);
        proof {
            lemma_concat_associative(start, "@"@, x);
        }
        e.write(" ");
        proof {
            lemma_concat_associative(start, "@"@ + x, " "@);
        }
    }
}

/// Prints the parameters, separated by commas.
#[verifier::spinoff_prover]
pub fn emit_params(params: &Vec<Param>, e: &mut Emitter)
    ensures
        final(e).minify == old(e).minify,
        final(e).out@ == old(e).out@ + print_params(sv_param_list(params@), old(e).minify),
    decreases params, 0int,
{
    let ghost m = e.minify;
    let ghost mid = e.out@;
    let mut i: usize = 0;
    while i < params.len()
        invariant
            i <= params.len(),
            e.minify == m,
            i > 0 ==> e.out@ == mid + print_params(sv_param_list(params@.take(i as int)), m),
            i == 0 ==> e.out@ == mid,
        decreases params.len() - i,
    {
        let ghost l = sv_param_list(params@.take(i as int));
        let ghost x = sv_param(params@[i as int]);
        proof {
            assert(params@.take(i + 1) =~= params@.take(i as int).push(params@[i as int]));
            lemma_sv_param_list_push(params@.take(i as int), params@[i as int]);
            if i == 0 {
                assert(params@.take(0) =~= Seq::<Param>::empty());
                assert(l.len() == 0);
            }
            lemma_print_params_push(l, x, m);
        }
        let ghost before = e.out@;
        if i > 0 {
            e.write(",");
            proof {
                lemma_concat_associative(mid, print_params(l, m), ","@);
            }
            e.formatting_space();
            proof {
                lemma_concat_associative(mid, print_params(l, m) + ","@, fs(m));
            }
        }
        params[i].emit(e);
        proof {
            if i > 0 {
                lemma_concat_associative(mid, print_params(l, m) + ","@ + fs(m), print_param(x, m));
            }
        }
        i = i + 1;
    }
    proof {
        assert(params@.take(params.len() as int) =~= params@);
        if params.len() == 0 {
            reveal_with_fuel(print_params, 1);
            assert(params@ =~= Seq::<Param>::empty());
            assert(e.out@ =~= mid + print_params(sv_param_list(params@), m));
        }
    }
}

/// Prints each decorator as `@expr` followed by a space.
#[verifier::spinoff_prover]
pub fn emit_decorators(decorators: &Vec<Decorator>, e: &mut Emitter)
    ensures
        final(e).minify == old(e).minify,
        final(e).out@ == old(e).out@ + print_decorators(sv_decorator_list(decorators@), old(e).minify),
    decreases decorators, 0int,
{
    proof {
        reveal_with_fuel(print_decorators, 1);
        assert(decorators@.take(0) =~= Seq::<Decorator>::empty());
        assert(e.out@ =~= e.out@ + print_decorators(sv_decorator_list(decorators@.take(0)), e.minify));
    }
    let ghost m = e.minify;
    let ghost mid = e.out@;
    let mut i: usize = 0;
    while i < decorators.len()
        invariant
            i <= decorators.len(),
            e.minify == m,
            e.out@ == mid + print_decorators(sv_decorator_list(decorators@.take(i as int)), m),
        decreases decorators.len() - i,
    {
        let ghost l = sv_decorator_list(decorators@.take(i as int));
        proof {
            assert(decorators@.take(i + 1) =~= decorators@.take(i as int).push(decorators@[i as int]));
            lemma_sv_decorator_list_push(decorators@.take(i as int), decorators@[i as int]);
            lemma_print_decorators_push(l, sv_decorator(decorators@[i as int]), m);
        }
        decorators[i].emit(e);
        proof {
            lemma_concat_associative(mid, print_decorators(l, m), print_decorator(sv_decorator(decorators@[i as int]), m));
        }
        i = i + 1;
    }
    assert(decorators@.take(decorators.len() as int) =~= decorators@);
}

impl Decl {
    #[verifier::spinoff_prover]
    pub fn emit(&self, e: &mut Emitter)
        ensures
            final(e).minify == old(e).minify,
            final(e).out@ == old(e).out@ + print_decl(sv_decl(*self), old(e).minify),
        decreases self, 0int,
    {
        proof {
            reveal_with_fuel(print_decl, 1);
            reveal_with_fuel(print_block, 1);
            reveal_with_fuel(print_decorators, 1);
            reveal_with_fuel(print_params, 1);
            reveal_with_fuel(print_var_decl, 1);
        }
        let ghost start = e.out@;
        let ghost m = e.minify;
        match self {
            Decl::Var(v) => {
                v.emit(e);
                e.write(";");
            },
            Decl::Fn(f) => {
                e.write("function ");
                e.write_string(&f.ident.sym);
                e.write("(");
                emit_params(&f.function.params, e);
                e.write(")");
                e.formatting_space();
                match &f.function.body {
                    Some(b) => b.emit(e),
                    None => e.write(";"),
                }
            },
            Decl::Class(c) => {
                emit_decorators(&c.class.decorators, e);
                e.write("class ");
                e.write_string(&c.ident.sym);
                e.formatting_space();
                e.write("{}");
            },
        }
        assert(e.out@ =~= start + print_decl(sv_decl(*self), m));
    }
}

impl Stmt {
    #[verifier::spinoff_prover]
    pub fn emit(&self, e: &mut Emitter)
        ensures
            final(e).minify == old(e).minify,
            final(e).out@ == old(e).out@ + print_stmt(sv_stmt(*self), old(e).minify),
        decreases self, 0int,
    {
        proof {
            reveal_with_fuel(print_stmt, 1);
            reveal_with_fuel(print_block, 1);
            reveal_with_fuel(print_decl, 1);
            reveal_with_fuel(print_expr, 1);
        }
        let ghost start = e.out@;
        match self {
            Stmt::Block(b) => b.emit(e),
            Stmt::Empty(_) => e.write(";"),
            Stmt::Expr(es) => {
                es.expr.emit(e);
                e.write(";");
            },
            Stmt::Decl(d) => d.emit(e),
        }
        assert(e.out@ =~= start + print_stmt(sv_stmt(*self), e.minify));
    }
}

impl Module {
    /// Prints each item followed by a formatting line break.
    #[verifier::spinoff_prover]
    pub fn emit(&self, e: &mut Emitter)
        ensures
            final(e).minify == old(e).minify,
            final(e).out@ == old(e).out@ + print_module(sv_module(*self), old(e).minify),
    {
        let ghost start = e.out@;
        let ghost m = e.minify;
        let mut i: usize = 0;
        while i < self.body.len()
            invariant
                i <= self.body.len(),
                e.minify == m,
                e.out@ == start + print_module_items(sv_module_item_list(self.body@.take(i as int)), m),
            decreases self.body.len() - i,
        {
            proof {
                reveal_with_fuel(print_stmt, 1);
            }
            proof {
                assert(self.body@.take(i + 1).drop_last() =~= self.body@.take(i as int));
                assert(sv_module_item_list(self.body@.take(i + 1)).drop_last()
                    =~= sv_module_item_list(self.body@.take(i as int)));
            }
            match &self.body[i] {
                ModuleItem::Stmt(s) => s.emit(e),
            }
            e.formatting_newline();
            i = i + 1;
        }
        assert(self.body@.take(self.body.len() as int) =~= self.body@);
    }
}

} // verus!
