//! Printing the TSRX expressions.
use vstd::prelude::*;

use crate::ast::{
    JSXCatchClause, JSXCodeBlock, JSXForExpr, JSXForKind, JSXIfAlternate, JSXIfExpr,
    JSXStyleElement, JSXSwitchCase, JSXSwitchExpr, JSXTryExpr, TsrxExpr,
};
use crate::view::{
    sv_jsx_catch_clause, sv_jsx_code_block, sv_jsx_for_expr, sv_jsx_if_alternate, sv_jsx_if_expr,
    sv_jsx_style_element, sv_jsx_switch_case, sv_jsx_switch_case_list, sv_jsx_switch_expr,
    sv_jsx_try_expr, sv_stmt_list, sv_tsrx_expr,
};
use vstd::seq_lib::lemma_concat_associative;

use super::emitter::Emitter;
use super::js::emit_stmt_list;
use super::print::{
    lemma_print_catch, lemma_print_for_heads, lemma_print_try, print_for_parts, print_for_in_of,
    fs, lemma_print_for, nl, print_catch, print_code_block, print_else, print_expr, print_for,
    print_for_head, print_for_head_of, print_for_options, print_if, print_if_alternate,
    print_if_tail, print_jsx_closing, print_jsx_opening, print_pat, print_stmt_list,
    print_style_element, print_switch, print_switch_case, print_switch_cases, print_try, print_tsrx,
    print_var_decl_or_expr,
};

verus! {

impl TsrxExpr {
    #[verifier::spinoff_prover]
    pub fn emit(&self, e: &mut Emitter)
        ensures
            final(e).minify == old(e).minify,
            final(e).out@ == old(e).out@ + print_tsrx(sv_tsrx_expr(*self), old(e).minify),
        decreases self, 0int,
    {
        proof {
            reveal_with_fuel(print_tsrx, 1);
            reveal_with_fuel(print_code_block, 1);
            reveal_with_fuel(print_for, 1);
            reveal_with_fuel(print_if, 1);
            reveal_with_fuel(print_style_element, 1);
            reveal_with_fuel(print_switch, 1);
            reveal_with_fuel(print_try, 1);
        }
        let ghost start = e.out@;
        match self {
            TsrxExpr::CodeBlock(block) => {
                e.write("@");
                block.emit(e);
            },
            TsrxExpr::StyleElement(style) => style.emit(e),
            TsrxExpr::If(if_expr) => if_expr.emit(e),
            TsrxExpr::For(for_expr) => for_expr.emit(e),
            TsrxExpr::Switch(switch_expr) => switch_expr.emit(e),
            TsrxExpr::Try(try_expr) => try_expr.emit(e),
        }
        assert(e.out@ =~= start + print_tsrx(sv_tsrx_expr(*self), e.minify));
    }
}

impl JSXCodeBlock {
    #[verifier::spinoff_prover]
    pub fn emit(&self, e: &mut Emitter)
        ensures
            final(e).minify == old(e).minify,
            final(e).out@ == old(e).out@ + print_code_block(sv_jsx_code_block(*self), old(e).minify),
        decreases self, 0int,
    {
        proof {
            reveal_with_fuel(print_code_block, 1);
            reveal_with_fuel(print_expr, 1);
            reveal_with_fuel(print_stmt_list, 1);
        }
        let ghost start = e.out@;
        e.write("{");
        emit_stmt_list(&self.body, e);
        if let Some(render) = &self.render {
            render.emit(e);
        }
        e.write("}");
        assert(e.out@ =~= start + print_code_block(sv_jsx_code_block(*self), e.minify));
    }
}

impl JSXStyleElement {
    #[verifier::spinoff_prover]
    pub fn emit(&self, e: &mut Emitter)
        ensures
            final(e).minify == old(e).minify,
            final(e).out@ == old(e).out@ + print_style_element(sv_jsx_style_element(*self), old(e).minify),
        decreases self, 0int,
    {
        proof {
            reveal_with_fuel(print_style_element, 1);
            reveal_with_fuel(print_jsx_closing, 1);
            reveal_with_fuel(print_jsx_opening, 1);
        }
        let ghost start = e.out@;
        self.opening.emit(e);
        e.write_string(&self.css);
        self.closing.emit(e);
        assert(e.out@ =~= start + print_style_element(sv_jsx_style_element(*self), e.minify));
    }
}

impl JSXIfExpr {
    #[verifier::spinoff_prover]
    pub fn emit(&self, e: &mut Emitter)
        ensures
            final(e).minify == old(e).minify,
            final(e).out@ == old(e).out@ + print_if(sv_jsx_if_expr(*self), old(e).minify),
        decreases self, 0int,
    {
        proof {
            reveal_with_fuel(print_if, 1);
            reveal_with_fuel(print_if_tail, 1);
            reveal_with_fuel(print_code_block, 1);
            reveal_with_fuel(print_else, 1);
            reveal_with_fuel(print_expr, 1);
        }
        let ghost start = e.out@;
        let ghost m = e.minify;
        e.write("@");
        e.write("if");
        e.formatting_space();
        e.write("(");
        self.test.emit(e);
        e.write(")");
        e.formatting_space();
        self.consequent.emit(e);
        emit_else(&self.alternate, e);
        assert(e.out@ =~= start + print_if(sv_jsx_if_expr(*self), m));
    }
}

/// `@else ..` after the consequent of an `@if`, when it has an alternate.
#[verifier::spinoff_prover]
fn emit_else(alternate: &Option<JSXIfAlternate>, e: &mut Emitter)
    ensures
        final(e).minify == old(e).minify,
        final(e).out@ == old(e).out@ + print_else(
            match alternate {
                Some(a) => Some(sv_jsx_if_alternate(*a)),
                None => None,
            },
            old(e).minify,
        ),
    decreases alternate, 0int,
{
    proof {
        reveal_with_fuel(print_else, 1);
        reveal_with_fuel(print_if_alternate, 1);
    }
    let ghost start = e.out@;
    if let Some(alternate) = alternate {
        e.formatting_space();
        e.write("@");
        e.write("else");
        e.formatting_space();
        alternate.emit(e);
    }
    assert(e.out@ =~= start + print_else(
        match alternate {
            Some(a) => Some(sv_jsx_if_alternate(*a)),
            None => None,
        },
        e.minify,
    ));
}

impl JSXIfAlternate {
    #[verifier::spinoff_prover]
    pub fn emit(&self, e: &mut Emitter)
        ensures
            final(e).minify == old(e).minify,
            final(e).out@ == old(e).out@ + print_if_alternate(sv_jsx_if_alternate(*self), old(e).minify),
        decreases self, 0int,
    {
        proof {
            reveal_with_fuel(print_if_alternate, 1);
            reveal_with_fuel(print_code_block, 1);
            reveal_with_fuel(print_if_tail, 1);
            reveal_with_fuel(print_else, 1);
            reveal_with_fuel(print_expr, 1);
        }
        let ghost start = e.out@;
        let ghost m = e.minify;
        match self {
            JSXIfAlternate::CodeBlock(block) => block.emit(e),
            JSXIfAlternate::If(if_expr) => {
                e.write("if");
                e.formatting_space();
                e.write("(");
                if_expr.test.emit(e);
                e.write(")");
                e.formatting_space();
                if_expr.consequent.emit(e);
                emit_else(&if_expr.alternate, e);
                assert(e.out@ =~= start + print_if_tail(sv_jsx_if_expr(**if_expr), m));
            },
        }
        assert(e.out@ =~= start + print_if_alternate(sv_jsx_if_alternate(*self), m));
    }
}

impl JSXForExpr {
    #[verifier::spinoff_prover]
    pub fn emit(&self, e: &mut Emitter)
        ensures
            final(e).minify == old(e).minify,
            final(e).out@ == old(e).out@ + print_for(sv_jsx_for_expr(*self), old(e).minify),
        decreases self, 2int,
    {
        proof {
            lemma_print_for(sv_jsx_for_expr(*self), e.minify);
        }
        let ghost start = e.out@;
        let ghost m = e.minify;
        let ghost s = sv_jsx_for_expr(*self);
        e.write("@");
        e.write("for");
        let ghost a1 = "@"@ + "for"@;
        proof {
            lemma_concat_associative(start, "@"@, "for"@);
        }
        if self.is_await {
            e.write(" ");
            e.write("await");
        }
        let ghost c2 = if s.is_await {
            " "@ + "await"@
        } else {
            Seq::empty()
        };
        proof {
            assert(e.out@ =~= (start + a1) + c2);
            lemma_concat_associative(start, a1, c2);
        }
        let ghost a2 = a1 + c2;
        e.formatting_space();
        proof {
            lemma_concat_associative(start, a2, fs(m));
        }
        let ghost a3 = a2 + fs(m);
        e.write("(");
        proof {
            lemma_concat_associative(start, a3, "("@);
        }
        let ghost a4 = a3 + "("@;
        self.emit_head(e);
        proof {
            lemma_concat_associative(start, a4, print_for_head_of(s, m));
        }
        let ghost a5 = a4 + print_for_head_of(s, m);
        self.emit_options(e);
        proof {
            lemma_concat_associative(start, a5, print_for_options(s, m));
        }
        let ghost a6 = a5 + print_for_options(s, m);
        e.write(")");
        proof {
            lemma_concat_associative(start, a6, ")"@);
        }
        let ghost a7 = a6 + ")"@;
        e.formatting_space();
        proof {
            lemma_concat_associative(start, a7, fs(m));
        }
        let ghost a8 = a7 + fs(m);
        self.body.emit(e);
        proof {
            lemma_concat_associative(start, a8, print_code_block(s.body, m));
        }
        let ghost a9 = a8 + print_code_block(s.body, m);
        let ghost d1 = e.out@;
        if let Some(empty) = &self.empty {
            e.formatting_space();
            e.write("@");
            e.write("empty");
            e.formatting_space();
            empty.emit(e);
        }
        let ghost c10 = match s.empty {
            Some(b) => fs(m) + "@"@ + "empty"@ + fs(m) + print_code_block(b, m),
            None => Seq::empty(),
        };
        proof {
            assert(e.out@ =~= d1 + c10);
            lemma_concat_associative(start, a9, c10);
        }
        assert(a9 + c10 == print_for(s, m));
    }

    /// The loop head between the brackets: the fields that `kind` uses.
    #[verifier::spinoff_prover]
    fn emit_head(&self, e: &mut Emitter)
        ensures
            final(e).minify == old(e).minify,
            final(e).out@ == old(e).out@ + print_for_head_of(sv_jsx_for_expr(*self), old(e).minify),
        decreases self, 1int,
    {
        proof {
            reveal_with_fuel(print_for_head_of, 1);
            reveal_with_fuel(print_for_parts, 1);
            reveal_with_fuel(print_for_in_of, 1);
        }
        match self.kind {
            JSXForKind::ForStatement => self.emit_parts(e),
            JSXForKind::ForInStatement | JSXForKind::ForOfStatement => self.emit_in_of(e),
        }
    }

    /// `init; test; update`
    #[verifier::spinoff_prover]
    #[verifier::rlimit(60)]
    fn emit_parts(&self, e: &mut Emitter)
        ensures
            final(e).minify == old(e).minify,
            final(e).out@ == old(e).out@ + print_for_parts(sv_jsx_for_expr(*self), old(e).minify),
        decreases self, 0int,
    {
        proof {
            lemma_print_for_heads(sv_jsx_for_expr(*self), e.minify);
        }
        let ghost head_start = e.out@;
        let ghost m = e.minify;
        let ghost s = sv_jsx_for_expr(*self);
        if let Some(init) = &self.init {
            init.emit(e);
        }
        let ghost b1 = e.out@;
        assert(b1 =~= head_start + match s.init {
            Some(v) => print_var_decl_or_expr(v, m),
            None => Seq::empty(),
        });
        e.write(";");
        let ghost b2 = e.out@;
        if let Some(test) = &self.test {
            e.formatting_space();
            test.emit(e);
        }
        let ghost b3 = e.out@;
        assert(b3 =~= b2 + match s.test {
            Some(t) => fs(m) + print_expr(*t, m),
            None => Seq::empty(),
        });
        e.write(";");
        let ghost b4 = e.out@;
        if let Some(update) = &self.update {
            e.formatting_space();
            update.emit(e);
        }
        assert(e.out@ =~= b4 + match s.update {
            Some(u) => fs(m) + print_expr(*u, m),
            None => Seq::empty(),
        });
        assert(e.out@ =~= head_start + print_for_parts(s, m));
    }

    /// `left in right` or `left of right`
    #[verifier::spinoff_prover]
    fn emit_in_of(&self, e: &mut Emitter)
        ensures
            final(e).minify == old(e).minify,
            final(e).out@ == old(e).out@ + print_for_in_of(sv_jsx_for_expr(*self), old(e).minify),
        decreases self, 0int,
    {
        proof {
            lemma_print_for_heads(sv_jsx_for_expr(*self), e.minify);
        }
        let ghost head_start = e.out@;
        let ghost m = e.minify;
        let ghost s = sv_jsx_for_expr(*self);
        if let Some(left) = &self.left {
            left.emit(e);
        }
        let ghost b1 = e.out@;
        assert(b1 =~= head_start + match s.left {
            Some(h) => print_for_head(h, m),
            None => Seq::empty(),
        });
        e.write(" ");
        if self.kind == JSXForKind::ForInStatement {
            e.write("in");
        } else {
            e.write("of");
        }
        e.write(" ");
        let ghost b2 = e.out@;
        if let Some(right) = &self.right {
            right.emit(e);
        }
        assert(e.out@ =~= b2 + match s.right {
            Some(r) => print_expr(*r, m),
            None => Seq::empty(),
        });
        assert(e.out@ =~= head_start + print_for_in_of(s, m));
    }

    /// The `; index i` and `; key k` options.
    #[verifier::spinoff_prover]
    fn emit_options(&self, e: &mut Emitter)
        ensures
            final(e).minify == old(e).minify,
            final(e).out@ == old(e).out@ + print_for_options(sv_jsx_for_expr(*self), old(e).minify),
        decreases self, 1int,
    {
        proof {
            reveal_with_fuel(print_for_options, 1);
            reveal_with_fuel(print_expr, 1);
        }
        let ghost options_start = e.out@;
        let ghost m = e.minify;
        let ghost s = sv_jsx_for_expr(*self);
        if let Some(index) = &self.index {
            e.write(";");
            e.write(" ");
            e.write("index");
            e.write(" ");
            e.write_string(&index.sym);
        }
        let ghost c1 = e.out@;
        assert(c1 =~= options_start + match s.index {
            Some(i) => ";"@ + " "@ + "index"@ + " "@ + i.sym,
            None => Seq::empty(),
        });
        if let Some(key) = &self.key {
            e.write(";");
            e.write(" ");
            e.write("key");
            e.write(" ");
            key.emit(e);
        }
        assert(e.out@ =~= c1 + match s.key {
            Some(k) => ";"@ + " "@ + "key"@ + " "@ + print_expr(*k, m),
            None => Seq::empty(),
        });
        assert(e.out@ =~= options_start + print_for_options(s, m));
    }
}

impl JSXSwitchExpr {
    #[verifier::spinoff_prover]
    pub fn emit(&self, e: &mut Emitter)
        ensures
            final(e).minify == old(e).minify,
            final(e).out@ == old(e).out@ + print_switch(sv_jsx_switch_expr(*self), old(e).minify),
        decreases self, 0int,
    {
        proof {
            reveal_with_fuel(print_switch, 1);
            reveal_with_fuel(print_expr, 1);
            reveal_with_fuel(print_switch_cases, 1);
        }
        let ghost start = e.out@;
        let ghost m = e.minify;
        e.write("@");
        e.write("switch");
        e.formatting_space();
        e.write("(");
        self.discriminant.emit(e);
        e.write(")");
        e.formatting_space();
        e.write("{");
        let ghost mid = e.out@;
        let mut i: usize = 0;
        while i < self.cases.len()
            invariant
                i <= self.cases.len(),
                e.minify == m,
                e.out@ == mid + print_switch_cases(sv_jsx_switch_case_list(self.cases@.take(i as int)), m),
            decreases self.cases.len() - i,
        {
            proof {
                reveal_with_fuel(print_switch_cases, 1);
                reveal_with_fuel(print_switch_case, 1);
            }
            proof {
                assert(self.cases@.take(i + 1).drop_last() =~= self.cases@.take(i as int));
                assert(sv_jsx_switch_case_list(self.cases@.take(i + 1)).drop_last()
                    =~= sv_jsx_switch_case_list(self.cases@.take(i as int)));
            }
            self.cases[i].emit(e);
            i = i + 1;
        }
        assert(self.cases@.take(self.cases.len() as int) =~= self.cases@);
        e.write("}");
        assert(e.out@ =~= start + print_switch(sv_jsx_switch_expr(*self), m));
    }
}

impl JSXSwitchCase {
    #[verifier::spinoff_prover]
    pub fn emit(&self, e: &mut Emitter)
        ensures
            final(e).minify == old(e).minify,
            final(e).out@ == old(e).out@ + print_switch_case(sv_jsx_switch_case(*self), old(e).minify),
        decreases self, 0int,
    {
        proof {
            reveal_with_fuel(print_switch_case, 1);
            reveal_with_fuel(print_code_block, 1);
            reveal_with_fuel(print_expr, 1);
        }
        let ghost start = e.out@;
        e.write("@");
        if let Some(test) = &self.test {
            e.write("case");
            e.write(" ");
            test.emit(e);
        } else {
            e.write("default");
        }
        e.write(":");
        e.formatting_space();
        self.consequent.emit(e);
        assert(e.out@ =~= start + print_switch_case(sv_jsx_switch_case(*self), e.minify));
    }
}

impl JSXTryExpr {
    /// The finalizer is not printed.
    #[verifier::spinoff_prover]
    pub fn emit(&self, e: &mut Emitter)
        ensures
            final(e).minify == old(e).minify,
            final(e).out@ == old(e).out@ + print_try(sv_jsx_try_expr(*self), old(e).minify),
        decreases self, 0int,
    {
        proof {
            lemma_print_try(sv_jsx_try_expr(*self), e.minify);
        }
        let ghost m = e.minify;
        let ghost t = sv_jsx_try_expr(*self);
        let ghost start = e.out@;
        e.write("@");
        e.write("try");
        e.formatting_space();
        self.block.emit(e);
        let ghost a1 = e.out@;
        if let Some(pending) = &self.pending {
            e.formatting_space();
            e.write("@");
            e.write("pending");
            e.formatting_space();
            pending.emit(e);
        }
        let ghost a2 = e.out@;
        assert(a2 =~= a1 + match t.pending {
            Some(b) => fs(m) + "@"@ + "pending"@ + fs(m) + print_code_block(b, m),
            None => Seq::empty(),
        });
        if let Some(handler) = &self.handler {
            e.formatting_space();
            handler.emit(e);
        }
        assert(e.out@ =~= a2 + match t.handler {
            Some(h) => fs(m) + print_catch(h, m),
            None => Seq::empty(),
        });
        assert(e.out@ =~= start + print_try(t, m));
    }
}

impl JSXCatchClause {
    #[verifier::spinoff_prover]
    pub fn emit(&self, e: &mut Emitter)
        ensures
            final(e).minify == old(e).minify,
            final(e).out@ == old(e).out@ + print_catch(sv_jsx_catch_clause(*self), old(e).minify),
        decreases self, 0int,
    {
        proof {
            lemma_print_catch(sv_jsx_catch_clause(*self), e.minify);
        }
        let ghost m = e.minify;
        let ghost c = sv_jsx_catch_clause(*self);
        let ghost start = e.out@;
        e.write("@");
        e.write("catch");
        e.formatting_space();
        e.write("(");
        let ghost a1 = e.out@;
        if let Some(param) = &self.param {
            param.emit(e);
        }
        let ghost a2 = e.out@;
        assert(a2 =~= a1 + match c.param {
            Some(p) => print_pat(p, m),
            None => Seq::empty(),
        });
        if let Some(reset) = &self.reset {
            e.write(",");
            e.formatting_space();
            e.write_string(&reset.sym);
        }
        let ghost a3 = e.out@;
        assert(a3 =~= a2 + match c.reset {
            Some(r) => ","@ + fs(m) + r.sym,
            None => Seq::empty(),
        });
        e.write(")");
        e.formatting_space();
        self.body.emit(e);
        assert(e.out@ =~= start + print_catch(c, m));
    }
}

} // verus!
