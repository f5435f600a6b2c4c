use tsrx::ast::Expr;
use tsrx::codegen::emitter::Emitter;
use tsrx::parser::Parser;
use tsrx::syntax::{Syntax, TsSyntax};

fn syntax() -> Syntax {
    Syntax::Typescript(TsSyntax {
        tsrx: true,
        ..Default::default()
    })
}

fn parse(source: &str) -> Box<Expr> {
    let mut parser = Parser::new(source, syntax());
    parser.parse_expr().unwrap()
}

fn print(source: &str, minify: bool) -> String {
    let expr = parse(source);
    let mut emitter = Emitter::new(minify);
    expr.emit(&mut emitter);
    emitter.out
}

#[test]
fn prints_if_chain() {
    let src = "@if (a) { <A /> } @else if (b) { <B /> } @else { <C /> }";
    assert_eq!(print(src, false), "@if (a) {<A/>} @else if (b) {<B/>} @else {<C/>}");
}

#[test]
fn prints_if_chain_minified_without_space_before_if() {
    let src = "@if (a) { <A /> } @else if (b) { <B /> } @else { <C /> }";
    assert_eq!(print(src, true), "@if(a){<A/>}@elseif(b){<B/>}@else{<C/>}");
}

#[test]
fn prints_for_of_with_options_and_empty() {
    let src = "@for (const item of items; index i; key item.id) { <Row item={item} /> } @empty { <Empty /> }";
    assert_eq!(
        print(src, false),
        "@for (const item of items; index i; key item.id) {<Row item={item}/>} @empty {<Empty/>}"
    );
    assert_eq!(
        print(src, true),
        "@for(const item of items; index i; key item.id){<Row item={item}/>}@empty{<Empty/>}"
    );
}

#[test]
fn prints_for_await() {
    assert_eq!(print("@for await (const x of xs) { <A /> }", false), "@for await (const x of xs) {<A/>}");
}

#[test]
fn prints_three_part_for() {
    let src = "@for (let i = 0; i; i) { <A /> }";
    assert_eq!(print(src, false), "@for (let i = 0; i; i) {<A/>}");
    assert_eq!(print(src, true), "@for(let i=0;i;i){<A/>}");
}

#[test]
fn prints_for_in() {
    assert_eq!(print("@for (const k in obj) { <A /> }", true), "@for(const k in obj){<A/>}");
}

#[test]
fn prints_code_block_with_setup_statements() {
    let src = "@{ const greeting = 'hello'; <h1>{greeting}</h1> }";
    assert_eq!(print(src, false), "@{\nconst greeting = 'hello';\n<h1>{greeting}</h1>}");
    assert_eq!(print(src, true), "@{const greeting='hello';<h1>{greeting}</h1>}");
}

#[test]
fn prints_code_block_without_render() {
    assert_eq!(print("@{ let a = 1; }", true), "@{let a=1;}");
    assert_eq!(print("@{ }", false), "@{}");
}

#[test]
fn prints_switch() {
    let src = "@switch (state) { @case 'ready': { <Ready /> } @default: { <Idle /> } }";
    assert_eq!(print(src, false), "@switch (state) {@case 'ready': {<Ready/>}@default: {<Idle/>}}");
    assert_eq!(print(src, true), "@switch(state){@case 'ready':{<Ready/>}@default:{<Idle/>}}");
}

#[test]
fn prints_try_with_pending_and_catch() {
    let src = "@try { <Content /> } @pending { <Loading /> } @catch (error, reset) { <ErrorView /> }";
    assert_eq!(
        print(src, false),
        "@try {<Content/>} @pending {<Loading/>} @catch (error, reset) {<ErrorView/>}"
    );
    assert_eq!(print(src, true), "@try{<Content/>}@pending{<Loading/>}@catch(error,reset){<ErrorView/>}");
}

#[test]
fn prints_catch_without_param() {
    assert_eq!(print("@try { <A /> } @catch () { <B /> }", true), "@try{<A/>}@catch(){<B/>}");
}

#[test]
fn prints_jsx_with_directive_children() {
    let src = "<main>before @if (visible) { <Shown /> } after</main>";
    assert_eq!(print(src, true), "<main>before @if(visible){<Shown/>} after</main>");
}

#[test]
fn prints_dynamic_tag_and_shorthand_attribute() {
    assert_eq!(print("<{Tag} {value}></{Tag}>", false), "<{Tag} {value}></{Tag}>");
}

#[test]
fn prints_fragment_and_string_attribute() {
    assert_eq!(print("<><a href=\"x\" /></>", true), "<><a href=\"x\"/></>");
}

#[test]
fn prints_style_element_css_verbatim() {
    let src = "<style>.a { color: red; }</style>";
    assert_eq!(print(src, false), "<style>.a { color: red; }</style>");
}

#[test]
fn emitter_appends_to_what_is_written() {
    let expr = parse("@{ <A /> }");
    let mut emitter = Emitter::new(true);
    emitter.write("x = ");
    expr.emit(&mut emitter);
    assert_eq!(emitter.out, "x = @{<A/>}");
}

#[test]
fn prints_module_statements() {
    let mut parser = Parser::new("function View() @{ <main /> }\nlet a = 1, b;", syntax());
    let module = parser.parse_module().unwrap();
    let mut emitter = Emitter::new(false);
    module.emit(&mut emitter);
    assert_eq!(emitter.out, "function View() @{<main/>}\nlet a = 1, b;\n");
}

#[test]
fn prints_plain_function_body_as_block() {
    let mut parser = Parser::new("function f(a, b) { a; }", syntax());
    let module = parser.parse_module().unwrap();
    let mut emitter = Emitter::new(false);
    module.emit(&mut emitter);
    assert_eq!(emitter.out, "function f(a, b) {\na;\n}\n");
    let mut emitter = Emitter::new(true);
    module.emit(&mut emitter);
    assert_eq!(emitter.out, "function f(a,b){a;}");
}

#[test]
fn prints_decorated_class() {
    let syntax = Syntax::Typescript(TsSyntax { tsx: true, decorators: true, tsrx: false });
    let mut parser = Parser::new("@sealed class Example {}", syntax);
    let module = parser.parse_module().unwrap();
    let mut emitter = Emitter::new(true);
    module.emit(&mut emitter);
    assert_eq!(emitter.out, "@sealed class Example{}");
}

#[test]
fn prints_operators_calls_and_sequences() {
    let src = "@if (a > 0 && !b) { <A x={f(a, b)} /> }";
    assert_eq!(print(src, false), "@if (a > 0 && !b) {<A x={f(a, b)}/>}");
    assert_eq!(print(src, true), "@if(a > 0 && !b){<A x={f(a,b)}/>}");
    let src = "@for (let i = 0; i < n; i++) { <Row /> }";
    assert_eq!(print(src, false), "@for (let i = 0; i < n; i++) {<Row/>}");
    assert_eq!(print(src, true), "@for(let i=0;i < n;i++){<Row/>}");
    assert_eq!(print("@{ x = a ? (b, c) : --d; }", true), "@{x=a?(b,c):--d;}");
    assert_eq!(print("@{ x -= a - -b; }", false), "@{\nx -= a - -b;\n}");
}
