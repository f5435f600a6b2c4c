//! The mathematical model of the syntax tree: each node type has a spec
//! counterpart in which strings are `Seq<char>` and vectors are `Seq`.
use vstd::prelude::*;

use crate::ast::{AssignExpr, AssignOp, BinExpr, BinaryOp, CallExpr, CondExpr, SeqExpr, UnaryExpr, UnaryOp, UpdateExpr, UpdateOp, 
    BindingIdent, BlockStmt, Class, ClassDecl, Decl, Decorator, EmptyStmt, Expr, ExprStmt, FnDecl,
    ForHead, Function, Ident, JSXAttr, JSXAttrOrSpread, JSXAttrValue, JSXCatchClause,
    JSXClosingElement, JSXCodeBlock, JSXElement, JSXElementChild, JSXElementName, JSXExprContainer,
    JSXForExpr, JSXForKind, JSXFragment, JSXIfAlternate, JSXIfExpr, JSXOpeningElement,
    JSXStyleElement, JSXSwitchCase, JSXSwitchExpr, JSXText, JSXTryExpr, Lit, MemberExpr, Module,
    ModuleItem, Number, Param, ParenExpr, Pat, Stmt, Str, TsrxExpr, VarDecl, VarDeclKind,
    VarDeclOrExpr, VarDeclarator,
};
use crate::span::Span;

verus! {

pub struct SIdent {
    pub span: Span,
    pub sym: Seq<char>,
}

pub struct SBindingIdent {
    pub id: SIdent,
}

pub enum SPat {
    Ident(SBindingIdent),
    Expr(Box<SExpr>),
}

pub struct SStr {
    pub span: Span,
    pub value: Seq<char>,
    pub raw: Seq<char>,
}

pub struct SNumber {
    pub span: Span,
    pub raw: Seq<char>,
}

pub enum SLit {
    Str(SStr),
    Num(SNumber),
}

pub struct SMemberExpr {
    pub span: Span,
    pub obj: Box<SExpr>,
    pub prop: SIdent,
}

pub struct SParenExpr {
    pub span: Span,
    pub expr: Box<SExpr>,
}

pub enum SExpr {
    Ident(SIdent),
    Lit(SLit),
    Member(SMemberExpr),
    Paren(SParenExpr),
    JSXElement(Box<SJSXElement>),
    JSXFragment(SJSXFragment),
    Tsrx(Box<STsrxExpr>),
    Call(SCallExpr),
    Update(SUpdateExpr),
    Unary(SUnaryExpr),
    Bin(SBinExpr),
    Cond(SCondExpr),
    Assign(SAssignExpr),
    Sequence(SSeqExpr),
}

pub struct SCallExpr {
    pub span: Span,
    pub callee: Box<SExpr>,
    pub args: Seq<SExpr>,
}

pub struct SUpdateExpr {
    pub span: Span,
    pub op: UpdateOp,
    pub prefix: bool,
    pub arg: Box<SExpr>,
}

pub struct SUnaryExpr {
    pub span: Span,
    pub op: UnaryOp,
    pub arg: Box<SExpr>,
}

pub struct SBinExpr {
    pub span: Span,
    pub op: BinaryOp,
    pub left: Box<SExpr>,
    pub right: Box<SExpr>,
}

pub struct SCondExpr {
    pub span: Span,
    pub test: Box<SExpr>,
    pub cons: Box<SExpr>,
    pub alt: Box<SExpr>,
}

pub struct SAssignExpr {
    pub span: Span,
    pub op: AssignOp,
    pub left: Box<SExpr>,
    pub right: Box<SExpr>,
}

pub struct SSeqExpr {
    pub span: Span,
    pub exprs: Seq<SExpr>,
}

pub struct SExprStmt {
    pub span: Span,
    pub expr: Box<SExpr>,
}

pub struct SEmptyStmt {
    pub span: Span,
}

pub struct SBlockStmt {
    pub span: Span,
    pub stmts: Seq<SStmt>,
}

pub struct SVarDeclarator {
    pub span: Span,
    pub name: SPat,
    pub init: Option<Box<SExpr>>,
}

pub struct SVarDecl {
    pub span: Span,
    pub kind: VarDeclKind,
    pub decls: Seq<SVarDeclarator>,
}

pub struct SParam {
    pub span: Span,
    pub pat: SPat,
}

pub struct SFunction {
    pub span: Span,
    pub params: Seq<SParam>,
    pub body: Option<SBlockStmt>,
}

pub struct SFnDecl {
    pub ident: SIdent,
    pub function: Box<SFunction>,
}

pub struct SDecorator {
    pub span: Span,
    pub expr: Box<SExpr>,
}

pub struct SClass {
    pub span: Span,
    pub decorators: Seq<SDecorator>,
}

pub struct SClassDecl {
    pub ident: SIdent,
    pub class: Box<SClass>,
}

pub enum SDecl {
    Var(Box<SVarDecl>),
    Fn(SFnDecl),
    Class(SClassDecl),
}

pub enum SStmt {
    Block(SBlockStmt),
    Empty(SEmptyStmt),
    Expr(SExprStmt),
    Decl(SDecl),
}

pub enum SModuleItem {
    Stmt(SStmt),
}

pub struct SModule {
    pub span: Span,
    pub body: Seq<SModuleItem>,
}

pub enum SForHead {
    VarDecl(Box<SVarDecl>),
    Pat(Box<SPat>),
}

pub enum SVarDeclOrExpr {
    VarDecl(Box<SVarDecl>),
    Expr(Box<SExpr>),
}

pub struct SJSXExprContainer {
    pub span: Span,
    pub expr: Box<SExpr>,
}

pub enum SJSXElementName {
    Ident(SIdent),
    JSXExprContainer(SJSXExprContainer),
}

pub enum SJSXAttrValue {
    Str(SStr),
    JSXExprContainer(SJSXExprContainer),
}

pub struct SJSXAttr {
    pub span: Span,
    pub name: SIdent,
    pub value: Option<SJSXAttrValue>,
    pub shorthand: bool,
}

pub enum SJSXAttrOrSpread {
    JSXAttr(SJSXAttr),
}

pub struct SJSXOpeningElement {
    pub span: Span,
    pub name: SJSXElementName,
    pub attrs: Seq<SJSXAttrOrSpread>,
    pub self_closing: bool,
}

pub struct SJSXClosingElement {
    pub span: Span,
    pub name: SJSXElementName,
}

pub struct SJSXText {
    pub span: Span,
    pub value: Seq<char>,
}

pub enum SJSXElementChild {
    JSXText(SJSXText),
    JSXExprContainer(SJSXExprContainer),
    JSXElement(Box<SJSXElement>),
    JSXFragment(SJSXFragment),
    Tsrx(Box<STsrxExpr>),
}

pub struct SJSXElement {
    pub span: Span,
    pub opening: SJSXOpeningElement,
    pub children: Seq<SJSXElementChild>,
    pub closing: Option<SJSXClosingElement>,
}

pub struct SJSXFragment {
    pub span: Span,
    pub children: Seq<SJSXElementChild>,
}

pub enum STsrxExpr {
    CodeBlock(SJSXCodeBlock),
    StyleElement(Box<SJSXStyleElement>),
    If(Box<SJSXIfExpr>),
    For(Box<SJSXForExpr>),
    Switch(Box<SJSXSwitchExpr>),
    Try(Box<SJSXTryExpr>),
}

pub struct SJSXCodeBlock {
    pub span: Span,
    pub body: Seq<SStmt>,
    pub render: Option<Box<SExpr>>,
    pub is_function_body: bool,
}

pub struct SJSXStyleElement {
    pub span: Span,
    pub opening: SJSXOpeningElement,
    pub css: Seq<char>,
    pub closing: SJSXClosingElement,
}

pub struct SJSXIfExpr {
    pub span: Span,
    pub test: Box<SExpr>,
    pub consequent: SJSXCodeBlock,
    pub alternate: Option<SJSXIfAlternate>,
}

pub enum SJSXIfAlternate {
    CodeBlock(SJSXCodeBlock),
    If(Box<SJSXIfExpr>),
}

pub struct SJSXForExpr {
    pub span: Span,
    pub kind: JSXForKind,
    pub init: Option<SVarDeclOrExpr>,
    pub test: Option<Box<SExpr>>,
    pub update: Option<Box<SExpr>>,
    pub left: Option<SForHead>,
    pub right: Option<Box<SExpr>>,
    pub is_await: bool,
    pub body: SJSXCodeBlock,
    pub index: Option<SIdent>,
    pub key: Option<Box<SExpr>>,
    pub empty: Option<SJSXCodeBlock>,
}

pub struct SJSXSwitchCase {
    pub span: Span,
    pub test: Option<Box<SExpr>>,
    pub consequent: SJSXCodeBlock,
}

pub struct SJSXSwitchExpr {
    pub span: Span,
    pub discriminant: Box<SExpr>,
    pub cases: Seq<SJSXSwitchCase>,
}

pub struct SJSXCatchClause {
    pub span: Span,
    pub param: Option<SPat>,
    pub reset: Option<SIdent>,
    pub body: SJSXCodeBlock,
}

pub struct SJSXTryExpr {
    pub span: Span,
    pub block: SJSXCodeBlock,
    pub pending: Option<SJSXCodeBlock>,
    pub handler: Option<SJSXCatchClause>,
    pub finalizer: Option<SBlockStmt>,
}

pub open spec fn sv_ident(x: Ident) -> SIdent
{
    SIdent {
        span: x.span,
        sym: x.sym@,
    }
}

pub open spec fn sv_binding_ident(x: BindingIdent) -> SBindingIdent
{
    SBindingIdent {
        id: sv_ident(x.id),
    }
}

pub open spec fn sv_pat(x: Pat) -> SPat
    decreases x,
{
    match x {
        Pat::Ident(y) => SPat::Ident(sv_binding_ident(y)),
        Pat::Expr(y) => SPat::Expr(Box::new(sv_expr(*y))),
    }
}

pub open spec fn sv_str(x: Str) -> SStr
{
    SStr {
        span: x.span,
        value: x.value@,
        raw: x.raw@,
    }
}

pub open spec fn sv_number(x: Number) -> SNumber
{
    SNumber {
        span: x.span,
        raw: x.raw@,
    }
}

pub open spec fn sv_lit(x: Lit) -> SLit
{
    match x {
        Lit::Str(y) => SLit::Str(sv_str(y)),
        Lit::Num(y) => SLit::Num(sv_number(y)),
    }
}

pub open spec fn sv_member_expr(x: MemberExpr) -> SMemberExpr
    decreases x,
{
    SMemberExpr {
        span: x.span,
        obj: Box::new(sv_expr(*x.obj)),
        prop: sv_ident(x.prop),
    }
}

pub open spec fn sv_paren_expr(x: ParenExpr) -> SParenExpr
    decreases x,
{
    SParenExpr {
        span: x.span,
        expr: Box::new(sv_expr(*x.expr)),
    }
}

pub open spec fn sv_expr(x: Expr) -> SExpr
    decreases x,
{
    match x {
        Expr::Ident(y) => SExpr::Ident(sv_ident(y)),
        Expr::Lit(y) => SExpr::Lit(sv_lit(y)),
        Expr::Member(y) => SExpr::Member(sv_member_expr(y)),
        Expr::Paren(y) => SExpr::Paren(sv_paren_expr(y)),
        Expr::JSXElement(y) => SExpr::JSXElement(Box::new(sv_jsx_element(*y))),
        Expr::JSXFragment(y) => SExpr::JSXFragment(sv_jsx_fragment(y)),
        Expr::Tsrx(y) => SExpr::Tsrx(Box::new(sv_tsrx_expr(*y))),
        Expr::Call(y) => SExpr::Call(sv_call_expr(y)),
        Expr::Update(y) => SExpr::Update(sv_update_expr(y)),
        Expr::Unary(y) => SExpr::Unary(sv_unary_expr(y)),
        Expr::Bin(y) => SExpr::Bin(sv_bin_expr(y)),
        Expr::Cond(y) => SExpr::Cond(sv_cond_expr(y)),
        Expr::Assign(y) => SExpr::Assign(sv_assign_expr(y)),
        Expr::Sequence(y) => SExpr::Sequence(sv_seq_expr(y)),
    }
}

pub open spec fn sv_expr_stmt(x: ExprStmt) -> SExprStmt
    decreases x,
{
    SExprStmt {
        span: x.span,
        expr: Box::new(sv_expr(*x.expr)),
    }
}

pub open spec fn sv_empty_stmt(x: EmptyStmt) -> SEmptyStmt
    decreases x,
{
    SEmptyStmt {
        span: x.span,
    }
}

pub open spec fn sv_block_stmt(x: BlockStmt) -> SBlockStmt
    decreases x,
{
    SBlockStmt {
        span: x.span,
        stmts: sv_stmt_list(x.stmts@),
    }
}

#[verifier::opaque]
pub open spec fn sv_var_declarator(x: VarDeclarator) -> SVarDeclarator
    decreases x,
{
    SVarDeclarator {
        span: x.span,
        name: sv_pat(x.name),
        init: match x.init { Some(v) => Some(Box::new(sv_expr(*v))), None => None },
    }
}

pub open spec fn sv_var_decl(x: VarDecl) -> SVarDecl
    decreases x,
{
    SVarDecl {
        span: x.span,
        kind: x.kind,
        decls: sv_var_declarator_list(x.decls@),
    }
}

#[verifier::opaque]
pub open spec fn sv_param(x: Param) -> SParam
    decreases x,
{
    SParam {
        span: x.span,
        pat: sv_pat(x.pat),
    }
}

pub open spec fn sv_function(x: Function) -> SFunction
    decreases x,
{
    SFunction {
        span: x.span,
        params: sv_param_list(x.params@),
        body: match x.body { Some(v) => Some(sv_block_stmt(v)), None => None },
    }
}

pub open spec fn sv_fn_decl(x: FnDecl) -> SFnDecl
    decreases x,
{
    SFnDecl {
        ident: sv_ident(x.ident),
        function: Box::new(sv_function(*x.function)),
    }
}

#[verifier::opaque]
pub open spec fn sv_decorator(x: Decorator) -> SDecorator
    decreases x,
{
    SDecorator {
        span: x.span,
        expr: Box::new(sv_expr(*x.expr)),
    }
}

pub open spec fn sv_class(x: Class) -> SClass
    decreases x,
{
    SClass {
        span: x.span,
        decorators: sv_decorator_list(x.decorators@),
    }
}

pub open spec fn sv_class_decl(x: ClassDecl) -> SClassDecl
    decreases x,
{
    SClassDecl {
        ident: sv_ident(x.ident),
        class: Box::new(sv_class(*x.class)),
    }
}

pub open spec fn sv_decl(x: Decl) -> SDecl
    decreases x,
{
    match x {
        Decl::Var(y) => SDecl::Var(Box::new(sv_var_decl(*y))),
        Decl::Fn(y) => SDecl::Fn(sv_fn_decl(y)),
        Decl::Class(y) => SDecl::Class(sv_class_decl(y)),
    }
}

pub open spec fn sv_stmt(x: Stmt) -> SStmt
    decreases x,
{
    match x {
        Stmt::Block(y) => SStmt::Block(sv_block_stmt(y)),
        Stmt::Empty(y) => SStmt::Empty(sv_empty_stmt(y)),
        Stmt::Expr(y) => SStmt::Expr(sv_expr_stmt(y)),
        Stmt::Decl(y) => SStmt::Decl(sv_decl(y)),
    }
}

pub open spec fn sv_module_item(x: ModuleItem) -> SModuleItem
    decreases x,
{
    match x {
        ModuleItem::Stmt(y) => SModuleItem::Stmt(sv_stmt(y)),
    }
}

pub open spec fn sv_module(x: Module) -> SModule
    decreases x,
{
    SModule {
        span: x.span,
        body: sv_module_item_list(x.body@),
    }
}

pub open spec fn sv_for_head(x: ForHead) -> SForHead
    decreases x,
{
    match x {
        ForHead::VarDecl(y) => SForHead::VarDecl(Box::new(sv_var_decl(*y))),
        ForHead::Pat(y) => SForHead::Pat(Box::new(sv_pat(*y))),
    }
}

pub open spec fn sv_var_decl_or_expr(x: VarDeclOrExpr) -> SVarDeclOrExpr
    decreases x,
{
    match x {
        VarDeclOrExpr::VarDecl(y) => SVarDeclOrExpr::VarDecl(Box::new(sv_var_decl(*y))),
        VarDeclOrExpr::Expr(y) => SVarDeclOrExpr::Expr(Box::new(sv_expr(*y))),
    }
}

pub open spec fn sv_jsx_expr_container(x: JSXExprContainer) -> SJSXExprContainer
    decreases x,
{
    SJSXExprContainer {
        span: x.span,
        expr: Box::new(sv_expr(*x.expr)),
    }
}

pub open spec fn sv_jsx_element_name(x: JSXElementName) -> SJSXElementName
    decreases x,
{
    match x {
        JSXElementName::Ident(y) => SJSXElementName::Ident(sv_ident(y)),
        JSXElementName::JSXExprContainer(y) => SJSXElementName::JSXExprContainer(sv_jsx_expr_container(y)),
    }
}

pub open spec fn sv_jsx_attr_value(x: JSXAttrValue) -> SJSXAttrValue
    decreases x,
{
    match x {
        JSXAttrValue::Str(y) => SJSXAttrValue::Str(sv_str(y)),
        JSXAttrValue::JSXExprContainer(y) => SJSXAttrValue::JSXExprContainer(sv_jsx_expr_container(y)),
    }
}

pub open spec fn sv_jsx_attr(x: JSXAttr) -> SJSXAttr
    decreases x,
{
    SJSXAttr {
        span: x.span,
        name: sv_ident(x.name),
        value: match x.value { Some(v) => Some(sv_jsx_attr_value(v)), None => None },
        shorthand: x.shorthand,
    }
}

pub open spec fn sv_jsx_attr_or_spread(x: JSXAttrOrSpread) -> SJSXAttrOrSpread
    decreases x,
{
    match x {
        JSXAttrOrSpread::JSXAttr(y) => SJSXAttrOrSpread::JSXAttr(sv_jsx_attr(y)),
    }
}

pub open spec fn sv_jsx_opening_element(x: JSXOpeningElement) -> SJSXOpeningElement
    decreases x,
{
    SJSXOpeningElement {
        span: x.span,
        name: sv_jsx_element_name(x.name),
        attrs: sv_jsx_attr_or_spread_list(x.attrs@),
        self_closing: x.self_closing,
    }
}

pub open spec fn sv_jsx_closing_element(x: JSXClosingElement) -> SJSXClosingElement
    decreases x,
{
    SJSXClosingElement {
        span: x.span,
        name: sv_jsx_element_name(x.name),
    }
}

pub open spec fn sv_jsx_text(x: JSXText) -> SJSXText
{
    SJSXText {
        span: x.span,
        value: x.value@,
    }
}

pub open spec fn sv_jsx_element_child(x: JSXElementChild) -> SJSXElementChild
    decreases x,
{
    match x {
        JSXElementChild::JSXText(y) => SJSXElementChild::JSXText(sv_jsx_text(y)),
        JSXElementChild::JSXExprContainer(y) => SJSXElementChild::JSXExprContainer(sv_jsx_expr_container(y)),
        JSXElementChild::JSXElement(y) => SJSXElementChild::JSXElement(Box::new(sv_jsx_element(*y))),
        JSXElementChild::JSXFragment(y) => SJSXElementChild::JSXFragment(sv_jsx_fragment(y)),
        JSXElementChild::Tsrx(y) => SJSXElementChild::Tsrx(Box::new(sv_tsrx_expr(*y))),
    }
}

pub open spec fn sv_jsx_element(x: JSXElement) -> SJSXElement
    decreases x,
{
    SJSXElement {
        span: x.span,
        opening: sv_jsx_opening_element(x.opening),
        children: sv_jsx_element_child_list(x.children@),
        closing: match x.closing { Some(v) => Some(sv_jsx_closing_element(v)), None => None },
    }
}

pub open spec fn sv_jsx_fragment(x: JSXFragment) -> SJSXFragment
    decreases x,
{
    SJSXFragment {
        span: x.span,
        children: sv_jsx_element_child_list(x.children@),
    }
}

pub open spec fn sv_tsrx_expr(x: TsrxExpr) -> STsrxExpr
    decreases x,
{
    match x {
        TsrxExpr::CodeBlock(y) => STsrxExpr::CodeBlock(sv_jsx_code_block(y)),
        TsrxExpr::StyleElement(y) => STsrxExpr::StyleElement(Box::new(sv_jsx_style_element(*y))),
        TsrxExpr::If(y) => STsrxExpr::If(Box::new(sv_jsx_if_expr(*y))),
        TsrxExpr::For(y) => STsrxExpr::For(Box::new(sv_jsx_for_expr(*y))),
        TsrxExpr::Switch(y) => STsrxExpr::Switch(Box::new(sv_jsx_switch_expr(*y))),
        TsrxExpr::Try(y) => STsrxExpr::Try(Box::new(sv_jsx_try_expr(*y))),
    }
}

pub open spec fn sv_jsx_code_block(x: JSXCodeBlock) -> SJSXCodeBlock
    decreases x,
{
    SJSXCodeBlock {
        span: x.span,
        body: sv_stmt_list(x.body@),
        render: match x.render { Some(v) => Some(Box::new(sv_expr(*v))), None => None },
        is_function_body: x.is_function_body,
    }
}

pub open spec fn sv_jsx_style_element(x: JSXStyleElement) -> SJSXStyleElement
    decreases x,
{
    SJSXStyleElement {
        span: x.span,
        opening: sv_jsx_opening_element(x.opening),
        css: x.css@,
        closing: sv_jsx_closing_element(x.closing),
    }
}

pub open spec fn sv_jsx_if_expr(x: JSXIfExpr) -> SJSXIfExpr
    decreases x,
{
    SJSXIfExpr {
        span: x.span,
        test: Box::new(sv_expr(*x.test)),
        consequent: sv_jsx_code_block(x.consequent),
        alternate: match x.alternate { Some(v) => Some(sv_jsx_if_alternate(v)), None => None },
    }
}

pub open spec fn sv_jsx_if_alternate(x: JSXIfAlternate) -> SJSXIfAlternate
    decreases x,
{
    match x {
        JSXIfAlternate::CodeBlock(y) => SJSXIfAlternate::CodeBlock(sv_jsx_code_block(y)),
        JSXIfAlternate::If(y) => SJSXIfAlternate::If(Box::new(sv_jsx_if_expr(*y))),
    }
}

pub open spec fn sv_jsx_for_expr(x: JSXForExpr) -> SJSXForExpr
    decreases x,
{
    SJSXForExpr {
        span: x.span,
        kind: x.kind,
        init: match x.init { Some(v) => Some(sv_var_decl_or_expr(v)), None => None },
        test: match x.test { Some(v) => Some(Box::new(sv_expr(*v))), None => None },
        update: match x.update { Some(v) => Some(Box::new(sv_expr(*v))), None => None },
        left: match x.left { Some(v) => Some(sv_for_head(v)), None => None },
        right: match x.right { Some(v) => Some(Box::new(sv_expr(*v))), None => None },
        is_await: x.is_await,
        body: sv_jsx_code_block(x.body),
        index: match x.index { Some(v) => Some(sv_ident(v)), None => None },
        key: match x.key { Some(v) => Some(Box::new(sv_expr(*v))), None => None },
        empty: match x.empty { Some(v) => Some(sv_jsx_code_block(v)), None => None },
    }
}

pub open spec fn sv_jsx_switch_case(x: JSXSwitchCase) -> SJSXSwitchCase
    decreases x,
{
    SJSXSwitchCase {
        span: x.span,
        test: match x.test { Some(v) => Some(Box::new(sv_expr(*v))), None => None },
        consequent: sv_jsx_code_block(x.consequent),
    }
}

pub open spec fn sv_jsx_switch_expr(x: JSXSwitchExpr) -> SJSXSwitchExpr
    decreases x,
{
    SJSXSwitchExpr {
        span: x.span,
        discriminant: Box::new(sv_expr(*x.discriminant)),
        cases: sv_jsx_switch_case_list(x.cases@),
    }
}

pub open spec fn sv_jsx_catch_clause(x: JSXCatchClause) -> SJSXCatchClause
    decreases x,
{
    SJSXCatchClause {
        span: x.span,
        param: match x.param { Some(v) => Some(sv_pat(v)), None => None },
        reset: match x.reset { Some(v) => Some(sv_ident(v)), None => None },
        body: sv_jsx_code_block(x.body),
    }
}

pub open spec fn sv_jsx_try_expr(x: JSXTryExpr) -> SJSXTryExpr
    decreases x,
{
    SJSXTryExpr {
        span: x.span,
        block: sv_jsx_code_block(x.block),
        pending: match x.pending { Some(v) => Some(sv_jsx_code_block(v)), None => None },
        handler: match x.handler { Some(v) => Some(sv_jsx_catch_clause(v)), None => None },
        finalizer: match x.finalizer { Some(v) => Some(sv_block_stmt(v)), None => None },
    }
}

pub open spec fn sv_decorator_list(s: Seq<Decorator>) -> Seq<SDecorator>
    decreases s,
{
    if s.len() == 0 {
        Seq::empty()
    } else {
        sv_decorator_list(s.drop_last()).push(sv_decorator(s.last()))
    }
}

pub open spec fn sv_jsx_attr_or_spread_list(s: Seq<JSXAttrOrSpread>) -> Seq<SJSXAttrOrSpread>
    decreases s,
{
    if s.len() == 0 {
        Seq::empty()
    } else {
        sv_jsx_attr_or_spread_list(s.drop_last()).push(sv_jsx_attr_or_spread(s.last()))
    }
}

pub open spec fn sv_jsx_element_child_list(s: Seq<JSXElementChild>) -> Seq<SJSXElementChild>
    decreases s,
{
    if s.len() == 0 {
        Seq::empty()
    } else {
        sv_jsx_element_child_list(s.drop_last()).push(sv_jsx_element_child(s.last()))
    }
}

pub open spec fn sv_jsx_switch_case_list(s: Seq<JSXSwitchCase>) -> Seq<SJSXSwitchCase>
    decreases s,
{
    if s.len() == 0 {
        Seq::empty()
    } else {
        sv_jsx_switch_case_list(s.drop_last()).push(sv_jsx_switch_case(s.last()))
    }
}

pub open spec fn sv_module_item_list(s: Seq<ModuleItem>) -> Seq<SModuleItem>
    decreases s,
{
    if s.len() == 0 {
        Seq::empty()
    } else {
        sv_module_item_list(s.drop_last()).push(sv_module_item(s.last()))
    }
}

pub open spec fn sv_param_list(s: Seq<Param>) -> Seq<SParam>
    decreases s,
{
    if s.len() == 0 {
        Seq::empty()
    } else {
        sv_param_list(s.drop_last()).push(sv_param(s.last()))
    }
}

pub open spec fn sv_call_expr(y: CallExpr) -> SCallExpr
    decreases y,
{
    SCallExpr { span: y.span, callee: Box::new(sv_expr(*y.callee)), args: sv_expr_list(y.args@) }
}

pub open spec fn sv_update_expr(y: UpdateExpr) -> SUpdateExpr
    decreases y,
{
    SUpdateExpr { span: y.span, op: y.op, prefix: y.prefix, arg: Box::new(sv_expr(*y.arg)) }
}

pub open spec fn sv_unary_expr(y: UnaryExpr) -> SUnaryExpr
    decreases y,
{
    SUnaryExpr { span: y.span, op: y.op, arg: Box::new(sv_expr(*y.arg)) }
}

pub open spec fn sv_bin_expr(y: BinExpr) -> SBinExpr
    decreases y,
{
    SBinExpr { span: y.span, op: y.op, left: Box::new(sv_expr(*y.left)), right: Box::new(sv_expr(*y.right)) }
}

pub open spec fn sv_cond_expr(y: CondExpr) -> SCondExpr
    decreases y,
{
    SCondExpr {
        span: y.span,
        test: Box::new(sv_expr(*y.test)),
        cons: Box::new(sv_expr(*y.cons)),
        alt: Box::new(sv_expr(*y.alt)),
    }
}

pub open spec fn sv_assign_expr(y: AssignExpr) -> SAssignExpr
    decreases y,
{
    SAssignExpr { span: y.span, op: y.op, left: Box::new(sv_expr(*y.left)), right: Box::new(sv_expr(*y.right)) }
}

pub open spec fn sv_seq_expr(y: SeqExpr) -> SSeqExpr
    decreases y,
{
    SSeqExpr { span: y.span, exprs: sv_expr_list(y.exprs@) }
}

pub open spec fn sv_expr_list(s: Seq<Expr>) -> Seq<SExpr>
    decreases s,
{
    if s.len() == 0 {
        Seq::empty()
    } else {
        sv_expr_list(s.drop_last()).push(sv_expr(s.last()))
    }
}

pub open spec fn sv_stmt_list(s: Seq<Stmt>) -> Seq<SStmt>
    decreases s,
{
    if s.len() == 0 {
        Seq::empty()
    } else {
        sv_stmt_list(s.drop_last()).push(sv_stmt(s.last()))
    }
}

pub open spec fn sv_var_declarator_list(s: Seq<VarDeclarator>) -> Seq<SVarDeclarator>
    decreases s,
{
    if s.len() == 0 {
        Seq::empty()
    } else {
        sv_var_declarator_list(s.drop_last()).push(sv_var_declarator(s.last()))
    }
}

/// The model of a parameter list with one more parameter at the end.
pub proof fn lemma_sv_param_list_push(s: Seq<Param>, p: Param)
    ensures
        sv_param_list(s.push(p)) == sv_param_list(s).push(sv_param(p)),
{
    reveal_with_fuel(sv_param, 1);
    assert(s.push(p).drop_last() =~= s);
}

/// The definition of `sv_param`.
pub proof fn lemma_sv_param(x: Param)
    ensures
        sv_param(x) == (SParam { span: x.span, pat: sv_pat(x.pat) }),
{
    reveal_with_fuel(sv_param, 1);
}

/// The definition of `sv_var_declarator`.
pub proof fn lemma_sv_var_declarator(x: VarDeclarator)
    ensures
        sv_var_declarator(x) == (SVarDeclarator {
            span: x.span,
            name: sv_pat(x.name),
            init: match x.init {
                Some(v) => Some(Box::new(sv_expr(*v))),
                None => None,
            },
        }),
{
    reveal_with_fuel(sv_var_declarator, 1);
}

/// The definition of `sv_decorator`.
pub proof fn lemma_sv_decorator(x: Decorator)
    ensures
        sv_decorator(x) == (SDecorator { span: x.span, expr: Box::new(sv_expr(*x.expr)) }),
{
    reveal_with_fuel(sv_decorator, 1);
}

/// The model of a declarator list with one more declarator at the end.
pub proof fn lemma_sv_var_declarator_list_push(s: Seq<VarDeclarator>, p: VarDeclarator)
    ensures
        sv_var_declarator_list(s.push(p)) == sv_var_declarator_list(s).push(sv_var_declarator(p)),
{
    reveal_with_fuel(sv_var_declarator, 1);
    assert(s.push(p).drop_last() =~= s);
}

/// The model of a decorator list with one more decorator at the end.
pub proof fn lemma_sv_decorator_list_push(s: Seq<Decorator>, p: Decorator)
    ensures
        sv_decorator_list(s.push(p)) == sv_decorator_list(s).push(sv_decorator(p)),
{
    reveal_with_fuel(sv_decorator, 1);
    assert(s.push(p).drop_last() =~= s);
}

} // verus!
