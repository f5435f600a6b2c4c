use tsrx::ast::{
    AssignOp, BinaryOp, UnaryOp, UpdateOp, BlockStmt, Expr, ExprStmt, Ident, JSXElement, JSXElementName, JSXForKind, JSXOpeningElement,
    Stmt, TsrxExpr,
};
use tsrx::parser::grammar::{ErrorKind, Expectation};
use tsrx::parser::Parser;
use tsrx::span::Span;
use tsrx::syntax::{EsSyntax, Syntax, TsSyntax};
use tsrx::token::Punct;

fn syntax() -> Syntax {
    Syntax::Typescript(TsSyntax {
        tsrx: true,
        ..Default::default()
    })
}

fn sp(lo: usize, hi: usize) -> Span {
    Span { lo, hi }
}

fn ident(name: &str) -> Ident {
    Ident { span: sp(0, 0), sym: name.to_string() }
}

fn element(name: &str) -> Expr {
    Expr::JSXElement(Box::new(JSXElement {
        span: sp(0, 0),
        opening: JSXOpeningElement {
            span: sp(0, 0),
            name: JSXElementName::Ident(ident(name)),
            attrs: vec![],
            self_closing: true,
        },
        children: vec![],
        closing: None,
    }))
}

fn expr_stmt(e: Expr) -> Stmt {
    Stmt::Expr(ExprStmt { span: sp(0, 0), expr: Box::new(e) })
}

fn tsrx_expr(source: &str) -> Result<Box<Expr>, tsrx::parser::grammar::ParseError> {
    let mut parser = Parser::new(source, syntax());
    parser.parse_tsrx_expr()
}

#[test]
fn code_block_moves_final_element_to_render() {
    let block = BlockStmt {
        span: sp(1, 9),
        stmts: vec![expr_stmt(Expr::Ident(ident("a"))), expr_stmt(element("A"))],
    };
    let cb = Parser::tsrx_code_block_from_block(block, false);
    assert_eq!(cb.body.len(), 1);
    assert!(matches!(cb.body[0], Stmt::Expr(_)));
    assert!(matches!(cb.render.as_deref(), Some(Expr::JSXElement(_))));
    assert_eq!(cb.span, sp(1, 9));
    assert!(!cb.is_function_body);
}

#[test]
fn code_block_keeps_final_plain_expression_in_body() {
    let block = BlockStmt {
        span: sp(0, 4),
        stmts: vec![expr_stmt(element("A")), expr_stmt(Expr::Ident(ident("a")))],
    };
    let cb = Parser::tsrx_code_block_from_block(block, true);
    assert_eq!(cb.body.len(), 2);
    assert!(cb.render.is_none());
    assert!(cb.is_function_body);
}

#[test]
fn empty_code_block_has_no_render() {
    let cb = Parser::tsrx_code_block_from_block(BlockStmt { span: sp(0, 2), stmts: vec![] }, false);
    assert!(cb.body.is_empty());
    assert!(cb.render.is_none());
}

#[test]
fn render_expressions_are_elements_fragments_and_tsrx() {
    assert!(Parser::is_tsrx_render_expr(&element("A")));
    assert!(!Parser::is_tsrx_render_expr(&Expr::Ident(ident("a"))));
    let t = tsrx_expr("@{ <A /> }").unwrap();
    assert!(Parser::is_tsrx_render_expr(&t));
}

#[test]
fn for_kind_names_round_trip() {
    for kind in [JSXForKind::ForStatement, JSXForKind::ForInStatement, JSXForKind::ForOfStatement] {
        assert_eq!(JSXForKind::from_str(kind.as_str()), Ok(kind));
        assert_eq!(kind.as_str().parse::<JSXForKind>(), Ok(kind));
    }
    assert_eq!(JSXForKind::ForInStatement.as_str(), "ForInStatement");
    assert_eq!(JSXForKind::from_str("ForEachStatement"), Err(()));
    assert_eq!(JSXForKind::default(), JSXForKind::ForStatement);
}

#[test]
fn three_part_for_sets_only_its_fields() {
    let e = tsrx_expr("@for (let i = 0; i; i) { <A /> }").unwrap();
    let Expr::Tsrx(t) = *e else { panic!("expected a TSRX expression") };
    let TsrxExpr::For(f) = *t else { panic!("expected a JSXForExpression") };
    assert_eq!(f.kind, JSXForKind::ForStatement);
    assert!(f.init.is_some() && f.test.is_some() && f.update.is_some());
    assert!(f.left.is_none() && f.right.is_none());
    assert!(!f.is_await);
}

#[test]
fn for_in_sets_only_its_fields() {
    let e = tsrx_expr("@for await (const k in obj) { <A /> }").unwrap();
    let Expr::Tsrx(t) = *e else { panic!("expected a TSRX expression") };
    let TsrxExpr::For(f) = *t else { panic!("expected a JSXForExpression") };
    assert_eq!(f.kind, JSXForKind::ForInStatement);
    assert!(f.init.is_none() && f.test.is_none() && f.update.is_none());
    assert!(f.left.is_some() && f.right.is_some());
    assert!(f.is_await);
}

#[test]
fn try_never_has_finalizer() {
    let e = tsrx_expr("@try { <A /> } @catch (e) { <B /> }").unwrap();
    let Expr::Tsrx(t) = *e else { panic!("expected a TSRX expression") };
    let TsrxExpr::Try(t) = *t else { panic!("expected a JSXTryExpression") };
    assert!(t.finalizer.is_none());
    assert!(t.pending.is_none());
    assert!(t.handler.as_ref().unwrap().reset.is_none());
}

#[test]
fn function_body_wraps_marked_code_block() {
    let mut parser = Parser::new("@{ <main /> }", syntax());
    let body = parser.parse_tsrx_function_body().unwrap();
    assert_eq!(body.stmts.len(), 1);
    let Stmt::Expr(es) = &body.stmts[0] else { panic!("expected an expression statement") };
    let Expr::Tsrx(t) = &*es.expr else { panic!("expected a TSRX expression") };
    let TsrxExpr::CodeBlock(b) = &**t else { panic!("expected a JSXCodeBlock") };
    assert!(b.is_function_body);
    assert_eq!(body.span, es.span);
    assert_eq!(body.span, sp(0, 13));
}

#[test]
fn expression_code_block_is_not_function_body() {
    let e = tsrx_expr("@{ <main /> }").unwrap();
    let Expr::Tsrx(t) = *e else { panic!("expected a TSRX expression") };
    let TsrxExpr::CodeBlock(b) = *t else { panic!("expected a JSXCodeBlock") };
    assert!(!b.is_function_body);
}

#[test]
fn tsrx_start_needs_tsrx_syntax() {
    let tsx = Syntax::Typescript(TsSyntax { tsx: true, decorators: true, tsrx: false });
    assert!(!Parser::new("@{ }", tsx).is_tsrx_expr_start());
    assert!(!Parser::new("@if (a) {}", Syntax::Es(EsSyntax { jsx: true, decorators: true })).is_tsrx_expr_start());
    assert!(Parser::new("@{ }", syntax()).is_tsrx_expr_start());
    assert!(Parser::new("@try { }", syntax()).is_tsrx_expr_start());
    assert!(!Parser::new("@sealed class A {}", syntax()).is_tsrx_expr_start());
}

#[test]
fn contextual_word_matches_whole_word() {
    let parser = Parser::new("pending { }", syntax());
    assert!(parser.is_contextual_word("pending"));
    assert!(!parser.is_contextual_word("pend"));
    assert!(!parser.is_contextual_word("empty"));
}

#[test]
fn condition_reads_parenthesized_expression() {
    let mut parser = Parser::new("(visible) {", syntax());
    let e = parser.parse_tsrx_condition().unwrap();
    assert!(matches!(*e, Expr::Ident(ref i) if i.sym == "visible"));
    assert_eq!(parser.pos(), 3);
    let mut parser = Parser::new("visible", syntax());
    assert_eq!(parser.parse_tsrx_condition().unwrap_err().kind, ErrorKind::Expected(Punct::LParen));
    let mut parser = Parser::new("(visible {", syntax());
    assert_eq!(parser.parse_tsrx_condition().unwrap_err().kind, ErrorKind::Expected(Punct::RParen));
}

#[test]
fn unknown_directive_is_rejected() {
    let err = tsrx_expr("@while (a) { }").unwrap_err();
    assert_eq!(err.kind, ErrorKind::Unexpected(Expectation::TsrxContainer));
}

#[test]
fn bad_for_option_is_rejected() {
    let err = tsrx_expr("@for (const x of xs; order x) { }").unwrap_err();
    assert_eq!(err.kind, ErrorKind::Unexpected(Expectation::IndexOrKey));
}

#[test]
fn bad_switch_case_is_rejected() {
    let err = tsrx_expr("@switch (x) { @when 1: { } }").unwrap_err();
    assert_eq!(err.kind, ErrorKind::Unexpected(Expectation::CaseOrDefault));
    let err = tsrx_expr("@switch (x) { <A /> }").unwrap_err();
    assert_eq!(err.kind, ErrorKind::Expected(Punct::At));
}

#[test]
fn if_without_parenthesis_is_rejected() {
    let err = tsrx_expr("@if visible { }").unwrap_err();
    assert_eq!(err.kind, ErrorKind::Expected(Punct::LParen));
}

#[test]
fn mismatched_closing_tag_is_rejected() {
    let mut parser = Parser::new("<a></b>", syntax());
    assert_eq!(parser.parse_expr().unwrap_err().kind, ErrorKind::ClosingTagMismatch);
}

#[test]
fn style_element_keeps_css_source() {
    let src = "<style>.a { color: red; }</style>";
    let mut parser = Parser::new(src, syntax());
    let e = parser.parse_expr().unwrap();
    let Expr::Tsrx(t) = *e else { panic!("expected a TSRX expression") };
    let TsrxExpr::StyleElement(s) = *t else { panic!("expected a JSXStyleElement") };
    assert_eq!(s.css, ".a { color: red; }");
    assert_eq!(&src[s.opening.span.hi..s.closing.span.lo], s.css);
    assert_eq!(s.span, sp(0, src.len()));
}

#[test]
fn same_source_parses_to_equal_trees() {
    let src = "@if (a) { <A x={b} /> } @else { @{ let c = 1; <>{c}</> } }";
    assert_eq!(tsrx_expr(src).unwrap(), tsrx_expr(src).unwrap());
    assert_ne!(tsrx_expr(src).unwrap(), tsrx_expr("@if (a) { <A x={b} /> }").unwrap());
}

#[test]
fn for_loop_with_comparison_and_increment() {
    let e = tsrx_expr("@for (let i = 0; i < n; i++) { <Row /> }").unwrap();
    let Expr::Tsrx(t) = *e else { panic!("expected a TSRX expression") };
    let TsrxExpr::For(f) = *t else { panic!("expected a JSXForExpression") };
    assert_eq!(f.kind, JSXForKind::ForStatement);
    assert!(f.init.is_some() && f.left.is_none() && f.right.is_none() && !f.is_await);
    assert!(f.index.is_none() && f.key.is_none() && f.empty.is_none());
    assert!(matches!(f.test.as_deref(), Some(Expr::Bin(b)) if b.op == BinaryOp::Lt));
    assert!(matches!(
        f.update.as_deref(),
        Some(Expr::Update(u)) if u.op == UpdateOp::PlusPlus && !u.prefix
    ));
}

#[test]
fn condition_accepts_any_expression() {
    for src in ["(a, b)", "(a > 0)", "(f(x))", "(a && !b || c === d)", "(x ? y : z)", "(a = b)"] {
        let mut parser = Parser::new(src, syntax());
        assert!(parser.parse_tsrx_condition().is_ok(), "{src}");
    }
    let mut parser = Parser::new("(a, b)", syntax());
    let e = parser.parse_tsrx_condition().unwrap();
    assert!(matches!(*e, Expr::Sequence(ref s) if s.exprs.len() == 2));
}

#[test]
fn binary_operators_group_by_precedence() {
    let mut parser = Parser::new("a + b * c - d", syntax());
    let e = parser.parse_expr().unwrap();
    let Expr::Bin(sub) = *e else { panic!("expected a binary expression") };
    assert_eq!(sub.op, BinaryOp::Sub);
    let Expr::Bin(add) = *sub.left else { panic!("expected a binary expression") };
    assert_eq!(add.op, BinaryOp::Add);
    assert!(matches!(*add.right, Expr::Bin(ref m) if m.op == BinaryOp::Mul));
}

#[test]
fn calls_members_and_assignments() {
    let mut parser = Parser::new("x.y += f(a, b)(c).d", syntax());
    let e = parser.parse_expr().unwrap();
    let Expr::Assign(a) = *e else { panic!("expected an assignment") };
    assert_eq!(a.op, AssignOp::AddAssign);
    assert!(matches!(*a.left, Expr::Member(_)));
    let Expr::Member(m) = *a.right else { panic!("expected a member expression") };
    let Expr::Call(outer) = *m.obj else { panic!("expected a call") };
    assert_eq!(outer.args.len(), 1);
    assert!(matches!(*outer.callee, Expr::Call(ref inner) if inner.args.len() == 2));
}

#[test]
fn unary_and_conditional_expressions() {
    let mut parser = Parser::new("!a ? -b : ++c", syntax());
    let e = parser.parse_expr().unwrap();
    let Expr::Cond(c) = *e else { panic!("expected a conditional") };
    assert!(matches!(*c.test, Expr::Unary(ref u) if u.op == UnaryOp::Bang));
    assert!(matches!(*c.cons, Expr::Unary(ref u) if u.op == UnaryOp::Minus));
    assert!(matches!(*c.alt, Expr::Update(ref u) if u.prefix));
}

#[test]
fn invalid_assignment_target_is_rejected() {
    let mut parser = Parser::new("1 = 2", syntax());
    assert_eq!(parser.parse_expr().unwrap_err().kind, ErrorKind::Unexpected(Expectation::AssignTarget));
    let mut parser = Parser::new("f()++", syntax());
    assert_eq!(parser.parse_expr().unwrap_err().kind, ErrorKind::Unexpected(Expectation::AssignTarget));
}

#[test]
fn declarator_init_stops_at_comma() {
    let mut parser = Parser::new("let a = 1, b = a + 1;", syntax());
    let d = parser.parse_var_decl().unwrap();
    assert_eq!(d.decls.len(), 2);
}
