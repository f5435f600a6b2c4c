use tsrx::ast::{
    Decl, Expr, JSXAttr, JSXAttrOrSpread, JSXElementChild, JSXElementName, JSXForKind,
    JSXIfAlternate, ModuleItem, Stmt, TsrxExpr, ExprStmt, Module,
};
use tsrx::parser::Parser;
use tsrx::syntax::{Syntax, TsSyntax};

fn syntax() -> Syntax {
    Syntax::Typescript(TsSyntax {
        tsrx: true,
        ..Default::default()
    })
}

fn expr(source: &'static str) -> Box<Expr> {
    let mut parser = Parser::new(source, syntax());
    parser.parse_expr().unwrap()
}

fn module(source: &'static str, syntax: Syntax) -> Module {
    let mut parser = Parser::new(source, syntax);
    parser.parse_module().unwrap()
}

#[test]
fn parses_statement_container_ast() {
    let parsed = expr("@{ const greeting = 'hello'; <h1>{greeting}</h1> }");
    let Expr::Tsrx(tsrx) = *parsed else {
        panic!("expected a TSRX expression")
    };
    let TsrxExpr::CodeBlock(block) = *tsrx else {
        panic!("expected a JSXCodeBlock")
    };

    assert_eq!(block.body.len(), 1);
    assert!(matches!(block.body[0], Stmt::Decl(Decl::Var(_))));
    assert!(matches!(block.render.as_deref(), Some(Expr::JSXElement(_))));
    assert!(!block.is_function_body);
}

#[test]
fn marks_direct_function_body() {
    let module = module("function View() @{ <main /> }", syntax());
    let ModuleItem::Stmt(Stmt::Decl(Decl::Fn(function))) = &module.body[0] else {
        panic!("expected a function declaration")
    };
    let body = function.function.body.as_ref().expect("function body");
    let Stmt::Expr(ExprStmt { expr, .. }) = &body.stmts[0] else {
        panic!("expected the TSRX body wrapper")
    };
    let Expr::Tsrx(tsrx) = &**expr else {
        panic!("expected a TSRX expression")
    };
    let TsrxExpr::CodeBlock(block) = &**tsrx else {
        panic!("expected a JSXCodeBlock")
    };

    assert!(block.is_function_body);
    assert!(matches!(block.render.as_deref(), Some(Expr::JSXElement(_))));
}

#[test]
fn parses_if_expression_ast() {
    let parsed = expr(
        "@if (visible) { <Shown /> } @else if (pending) { <Loading /> } @else { <Hidden /> }",
    );
    let Expr::Tsrx(tsrx) = *parsed else {
        panic!("expected a TSRX expression")
    };
    let TsrxExpr::If(if_expr) = *tsrx else {
        panic!("expected a JSXIfExpression")
    };

    assert!(matches!(*if_expr.test, Expr::Ident(_)));
    assert!(matches!(
        if_expr.consequent.render.as_deref(),
        Some(Expr::JSXElement(_))
    ));
    assert!(matches!(if_expr.alternate, Some(JSXIfAlternate::If(_))));
}

#[test]
fn parses_for_options_and_empty_block() {
    let parsed = expr(
        "@for (const item of items; index index; key item.id) { <Row item={item} /> } @empty \
         { <Empty /> }",
    );
    let Expr::Tsrx(tsrx) = *parsed else {
        panic!("expected a TSRX expression")
    };
    let TsrxExpr::For(for_expr) = *tsrx else {
        panic!("expected a JSXForExpression")
    };

    assert_eq!(for_expr.kind, JSXForKind::ForOfStatement);
    assert_eq!(
        for_expr.index.as_ref().map(|ident| ident.sym.as_str()),
        Some("index")
    );
    assert!(for_expr.key.is_some());
    assert!(for_expr.empty.is_some());
}

#[test]
fn parses_switch_and_try_expressions() {
    let switch = expr("@switch (state) { @case 'ready': { <Ready /> } @default: { <Idle /> } }");
    let Expr::Tsrx(switch) = *switch else {
        panic!("expected a TSRX expression")
    };
    let TsrxExpr::Switch(switch) = *switch else {
        panic!("expected a JSXSwitchExpression")
    };
    assert_eq!(switch.cases.len(), 2);
    assert!(switch.cases[0].test.is_some());
    assert!(switch.cases[1].test.is_none());

    let try_expr = expr(
        "@try { <Content /> } @pending { <Loading /> } @catch (error, reset) { <ErrorView /> }",
    );
    let Expr::Tsrx(try_expr) = *try_expr else {
        panic!("expected a TSRX expression")
    };
    let TsrxExpr::Try(try_expr) = *try_expr else {
        panic!("expected a JSXTryExpression")
    };
    assert!(try_expr.pending.is_some());
    assert_eq!(
        try_expr
            .handler
            .as_ref()
            .and_then(|handler| handler.reset.as_ref())
            .map(|ident| ident.sym.as_str()),
        Some("reset")
    );
}

#[test]
fn parses_directives_as_jsx_children() {
    let parsed = expr(
        "<main>before @if (visible) { <Shown /> } after @for (const item of items) { <Row /> \
         }</main>",
    );
    let Expr::JSXElement(element) = *parsed else {
        panic!("expected a JSX element")
    };

    assert_eq!(element.children.len(), 4);
    assert!(matches!(element.children[0], JSXElementChild::JSXText(_)));
    assert!(matches!(
        element.children[1],
        JSXElementChild::Tsrx(ref expr) if matches!(**expr, TsrxExpr::If(_))
    ));
    assert!(matches!(element.children[2], JSXElementChild::JSXText(_)));
    assert!(matches!(
        element.children[3],
        JSXElementChild::Tsrx(ref expr) if matches!(**expr, TsrxExpr::For(_))
    ));
}

#[test]
fn parses_dynamic_tags_and_shorthand_attributes() {
    let parsed = expr("<{Tag} {value}></{Tag}>");
    let Expr::JSXElement(element) = *parsed else {
        panic!("expected a JSX element")
    };

    assert!(matches!(
        element.opening.name,
        JSXElementName::JSXExprContainer(_)
    ));
    assert!(matches!(
        element.opening.attrs[0],
        JSXAttrOrSpread::JSXAttr(JSXAttr {
            shorthand: true,
            ..
        })
    ));
    assert!(matches!(
        element.closing.as_ref().map(|closing| &closing.name),
        Some(JSXElementName::JSXExprContainer(_))
    ));
}

#[test]
fn tsx_mode_does_not_enable_tsrx() {
    let syntax = Syntax::Typescript(TsSyntax {
        tsx: true,
        decorators: true,
        ..Default::default()
    });
    module("@sealed class Example {}", syntax);
}
