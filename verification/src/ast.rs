//! The syntax tree: the script nodes that TSRX uses and the TSRX nodes.
use vstd::prelude::*;

use crate::span::Span;

verus! {

/// An identifier and its name.
#[derive(Clone, Debug, PartialEq, Eq, Hash)]
pub struct Ident {
    pub span: Span,
    pub sym: String,
}

/// A copy of an identifier.
pub fn clone_ident(id: &Ident) -> (r: Ident)
    ensures
        r.span == id.span,
        r.sym@ == id.sym@,
{
    Ident { span: id.span, sym: id.sym.clone() }
}

/// An identifier in a binding position.
#[derive(Clone, Debug, PartialEq, Eq, Hash)]
pub struct BindingIdent {
    pub id: Ident,
}

/// A binding pattern.
#[derive(Debug, PartialEq, Eq, Hash)]
pub enum Pat {
    Ident(BindingIdent),
    Expr(Box<Expr>),
}

/// A string literal; `raw` keeps the quotes.
#[derive(Clone, Debug, PartialEq, Eq, Hash)]
pub struct Str {
    pub span: Span,
    pub value: String,
    pub raw: String,
}

/// A numeric literal, kept as written.
#[derive(Clone, Debug, PartialEq, Eq, Hash)]
pub struct Number {
    pub span: Span,
    pub raw: String,
}

#[derive(Clone, Debug, PartialEq, Eq, Hash)]
pub enum Lit {
    Str(Str),
    Num(Number),
}

/// `obj.prop`
#[derive(Debug, PartialEq, Eq, Hash)]
pub struct MemberExpr {
    pub span: Span,
    pub obj: Box<Expr>,
    pub prop: Ident,
}

/// `(expr)`
#[derive(Debug, PartialEq, Eq, Hash)]
pub struct ParenExpr {
    pub span: Span,
    pub expr: Box<Expr>,
}

#[derive(Debug, PartialEq, Eq, Hash)]
pub enum Expr {
    Ident(Ident),
    Lit(Lit),
    Member(MemberExpr),
    Paren(ParenExpr),
    JSXElement(Box<JSXElement>),
    JSXFragment(JSXFragment),
    Tsrx(Box<TsrxExpr>),
    Call(CallExpr),
    Update(UpdateExpr),
    Unary(UnaryExpr),
    Bin(BinExpr),
    Cond(CondExpr),
    Assign(AssignExpr),
    Sequence(SeqExpr),
}

/// `callee(args)`
#[derive(Debug, PartialEq, Eq, Hash)]
pub struct CallExpr {
    pub span: Span,
    pub callee: Box<Expr>,
    pub args: Vec<Expr>,
}

#[derive(Clone, Copy, PartialEq, Eq, Structural, Debug, Hash)]
pub enum UpdateOp {
    /// `++`
    PlusPlus,
    /// `--`
    MinusMinus,
}

/// `++arg`, `arg++`, `--arg` or `arg--`.
#[derive(Debug, PartialEq, Eq, Hash)]
pub struct UpdateExpr {
    pub span: Span,
    pub op: UpdateOp,
    pub prefix: bool,
    pub arg: Box<Expr>,
}

#[derive(Clone, Copy, PartialEq, Eq, Structural, Debug, Hash)]
pub enum UnaryOp {
    /// `!`
    Bang,
    /// `-`
    Minus,
    /// `+`
    Plus,
}

/// `op arg`
#[derive(Debug, PartialEq, Eq, Hash)]
pub struct UnaryExpr {
    pub span: Span,
    pub op: UnaryOp,
    pub arg: Box<Expr>,
}

#[derive(Clone, Copy, PartialEq, Eq, Structural, Debug, Hash)]
pub enum BinaryOp {
    /// `==`
    EqEq,
    /// `!=`
    NotEq,
    /// `===`
    EqEqEq,
    /// `!==`
    NotEqEq,
    /// `<`
    Lt,
    /// `<=`
    LtEq,
    /// `>`
    Gt,
    /// `>=`
    GtEq,
    /// `+`
    Add,
    /// `-`
    Sub,
    /// `*`
    Mul,
    /// `/`
    Div,
    /// `%`
    Mod,
    /// `||`
    LogicalOr,
    /// `&&`
    LogicalAnd,
}

/// `left op right`
#[derive(Debug, PartialEq, Eq, Hash)]
pub struct BinExpr {
    pub span: Span,
    pub op: BinaryOp,
    pub left: Box<Expr>,
    pub right: Box<Expr>,
}

/// `test ? cons : alt`
#[derive(Debug, PartialEq, Eq, Hash)]
pub struct CondExpr {
    pub span: Span,
    pub test: Box<Expr>,
    pub cons: Box<Expr>,
    pub alt: Box<Expr>,
}

#[derive(Clone, Copy, PartialEq, Eq, Structural, Debug, Hash)]
pub enum AssignOp {
    /// `=`
    Assign,
    /// `+=`
    AddAssign,
    /// `-=`
    SubAssign,
}

/// `left op right`, where `left` is an identifier or a member expression.
#[derive(Debug, PartialEq, Eq, Hash)]
pub struct AssignExpr {
    pub span: Span,
    pub op: AssignOp,
    pub left: Box<Expr>,
    pub right: Box<Expr>,
}

/// `a, b, ..`: two or more expressions.
#[derive(Debug, PartialEq, Eq, Hash)]
pub struct SeqExpr {
    pub span: Span,
    pub exprs: Vec<Expr>,
}

#[derive(Debug, PartialEq, Eq, Hash)]
pub struct ExprStmt {
    pub span: Span,
    pub expr: Box<Expr>,
}

#[derive(Debug, PartialEq, Eq, Hash)]
pub struct EmptyStmt {
    pub span: Span,
}

/// `{ stmts }`
#[derive(Debug, PartialEq, Eq, Hash)]
pub struct BlockStmt {
    pub span: Span,
    pub stmts: Vec<Stmt>,
}

/// The body of a function.
pub type FunctionBody = BlockStmt;

#[derive(Clone, Copy, PartialEq, Eq, Structural, Debug, Hash)]
pub enum VarDeclKind {
    Var,
    Let,
    Const,
}

/// `name = init`
#[derive(Debug, PartialEq, Eq, Hash)]
pub struct VarDeclarator {
    pub span: Span,
    pub name: Pat,
    pub init: Option<Box<Expr>>,
}

/// `const a = 1, b`
#[derive(Debug, PartialEq, Eq, Hash)]
pub struct VarDecl {
    pub span: Span,
    pub kind: VarDeclKind,
    pub decls: Vec<VarDeclarator>,
}

#[derive(Debug, PartialEq, Eq, Hash)]
pub struct Param {
    pub span: Span,
    pub pat: Pat,
}

#[derive(Debug, PartialEq, Eq, Hash)]
pub struct Function {
    pub span: Span,
    pub params: Vec<Param>,
    pub body: Option<BlockStmt>,
}

/// `function ident(params) body`
#[derive(Debug, PartialEq, Eq, Hash)]
pub struct FnDecl {
    pub ident: Ident,
    pub function: Box<Function>,
}

/// `@expr` before a class.
#[derive(Debug, PartialEq, Eq, Hash)]
pub struct Decorator {
    pub span: Span,
    pub expr: Box<Expr>,
}

/// A class with an empty body.
#[derive(Debug, PartialEq, Eq, Hash)]
pub struct Class {
    pub span: Span,
    pub decorators: Vec<Decorator>,
}

/// `class ident {}`
#[derive(Debug, PartialEq, Eq, Hash)]
pub struct ClassDecl {
    pub ident: Ident,
    pub class: Box<Class>,
}

#[derive(Debug, PartialEq, Eq, Hash)]
pub enum Decl {
    Var(Box<VarDecl>),
    Fn(FnDecl),
    Class(ClassDecl),
}

#[derive(Debug, PartialEq, Eq, Hash)]
pub enum Stmt {
    Block(BlockStmt),
    Empty(EmptyStmt),
    Expr(ExprStmt),
    Decl(Decl),
}

#[derive(Debug, PartialEq, Eq, Hash)]
pub enum ModuleItem {
    Stmt(Stmt),
}

#[derive(Debug, PartialEq, Eq, Hash)]
pub struct Module {
    pub span: Span,
    pub body: Vec<ModuleItem>,
}

/// The left side of a `for-in` or `for-of` head.
#[derive(Debug, PartialEq, Eq, Hash)]
pub enum ForHead {
    VarDecl(Box<VarDecl>),
    Pat(Box<Pat>),
}

/// The initializer of a three-part `for` head.
#[derive(Debug, PartialEq, Eq, Hash)]
pub enum VarDeclOrExpr {
    VarDecl(Box<VarDecl>),
    Expr(Box<Expr>),
}

/// `{expr}` inside JSX.
#[derive(Debug, PartialEq, Eq, Hash)]
pub struct JSXExprContainer {
    pub span: Span,
    pub expr: Box<Expr>,
}

/// A tag name: a word, or a dynamic `{expr}` tag.
#[derive(Debug, PartialEq, Eq, Hash)]
pub enum JSXElementName {
    Ident(Ident),
    JSXExprContainer(JSXExprContainer),
}

#[derive(Debug, PartialEq, Eq, Hash)]
pub enum JSXAttrValue {
    Str(Str),
    JSXExprContainer(JSXExprContainer),
}

/// `name`, `name="v"`, `name={e}`, or the shorthand `{name}`.
#[derive(Debug, PartialEq, Eq, Hash)]
pub struct JSXAttr {
    pub span: Span,
    pub name: Ident,
    pub value: Option<JSXAttrValue>,
    pub shorthand: bool,
}

#[derive(Debug, PartialEq, Eq, Hash)]
pub enum JSXAttrOrSpread {
    JSXAttr(JSXAttr),
}

#[derive(Debug, PartialEq, Eq, Hash)]
pub struct JSXOpeningElement {
    pub span: Span,
    pub name: JSXElementName,
    pub attrs: Vec<JSXAttrOrSpread>,
    pub self_closing: bool,
}

#[derive(Debug, PartialEq, Eq, Hash)]
pub struct JSXClosingElement {
    pub span: Span,
    pub name: JSXElementName,
}

/// Text between JSX tags, as written.
#[derive(Clone, Debug, PartialEq, Eq, Hash)]
pub struct JSXText {
    pub span: Span,
    pub value: String,
}

#[derive(Debug, PartialEq, Eq, Hash)]
pub enum JSXElementChild {
    JSXText(JSXText),
    JSXExprContainer(JSXExprContainer),
    JSXElement(Box<JSXElement>),
    JSXFragment(JSXFragment),
    Tsrx(Box<TsrxExpr>),
}

#[derive(Debug, PartialEq, Eq, Hash)]
pub struct JSXElement {
    pub span: Span,
    pub opening: JSXOpeningElement,
    pub children: Vec<JSXElementChild>,
    pub closing: Option<JSXClosingElement>,
}

/// `<>children</>`
#[derive(Debug, PartialEq, Eq, Hash)]
pub struct JSXFragment {
    pub span: Span,
    pub children: Vec<JSXElementChild>,
}

/// An expression introduced by the TSRX grammar.
#[derive(Debug, PartialEq, Eq, Hash)]
pub enum TsrxExpr {
    CodeBlock(JSXCodeBlock),
    StyleElement(Box<JSXStyleElement>),
    If(Box<JSXIfExpr>),
    For(Box<JSXForExpr>),
    Switch(Box<JSXSwitchExpr>),
    Try(Box<JSXTryExpr>),
}

/// A TSRX statement container (`@{ ... }`).
///
/// Setup statements are stored in `body`; the final template expression is
/// stored separately in `render` so consumers do not need to infer which
/// expression statement is the rendered value.
#[derive(Debug, PartialEq, Eq, Hash)]
pub struct JSXCodeBlock {
    pub span: Span,
    pub body: Vec<Stmt>,
    pub render: Option<Box<Expr>>,
    /// True when this code block was written directly as a function body.
    pub is_function_body: bool,
}

/// A `<style>` element whose body is captured as raw CSS source.
#[derive(Debug, PartialEq, Eq, Hash)]
pub struct JSXStyleElement {
    pub span: Span,
    pub opening: JSXOpeningElement,
    pub css: String,
    pub closing: JSXClosingElement,
}

/// A TSRX `@if` expression.
#[derive(Debug, PartialEq, Eq, Hash)]
pub struct JSXIfExpr {
    pub span: Span,
    pub test: Box<Expr>,
    pub consequent: JSXCodeBlock,
    pub alternate: Option<JSXIfAlternate>,
}

#[derive(Debug, PartialEq, Eq, Hash)]
pub enum JSXIfAlternate {
    CodeBlock(JSXCodeBlock),
    If(Box<JSXIfExpr>),
}

/// The JavaScript loop form used by a TSRX `@for` expression.
#[derive(Clone, Copy, PartialEq, Eq, Structural, PartialOrd, Ord, Debug, Hash)]
pub enum JSXForKind {
    /// `ForStatement`
    ForStatement,
    /// `ForInStatement`
    ForInStatement,
    /// `ForOfStatement`
    ForOfStatement,
}

/// The name of each loop form.
pub open spec fn for_kind_name(k: JSXForKind) -> Seq<char> {
    match k {
        JSXForKind::ForStatement => "ForStatement"@,
        JSXForKind::ForInStatement => "ForInStatement"@,
        JSXForKind::ForOfStatement => "ForOfStatement"@,
    }
}

/// The loop form with the name `s`, if any.
pub open spec fn for_kind_of_name(s: Seq<char>) -> Option<JSXForKind> {
    if s == "ForStatement"@ {
        Some(JSXForKind::ForStatement)
    } else if s == "ForInStatement"@ {
        Some(JSXForKind::ForInStatement)
    } else if s == "ForOfStatement"@ {
        Some(JSXForKind::ForOfStatement)
    } else {
        None
    }
}

/// Whether two strings hold the same characters.
fn str_eq(a: &str, b: &str) -> (r: bool)
    ensures
        r == (a@ == b@),
{
    let n = a.unicode_len();
    if n != b.unicode_len() {
        return false;
    }
    let mut i: usize = 0;
    while i < n
        invariant
            n == a@.len(),
            n == b@.len(),
            i <= n,
            a@.take(i as int) == b@.take(i as int),
        decreases n - i,
    {
        if a.get_char(i) != b.get_char(i) {
            assert(a@[i as int] != b@[i as int]);
            return false;
        }
        assert(a@.take(i + 1) =~= a@.take(i as int).push(a@[i as int]));
        assert(b@.take(i + 1) =~= b@.take(i as int).push(b@[i as int]));
        i = i + 1;
    }
    assert(a@ =~= a@.take(n as int));
    assert(b@ =~= b@.take(n as int));
    true
}

impl JSXForKind {
    /// The name of the loop form, as its node type is called.
    pub fn as_str(&self) -> (s: &'static str)
        ensures
            s@ == for_kind_name(*self),
    {
        match self {
            JSXForKind::ForStatement => "ForStatement",
            JSXForKind::ForInStatement => "ForInStatement",
            JSXForKind::ForOfStatement => "ForOfStatement",
        }
    }

    /// The loop form with the name `s`; `Err(())` for any other text.
    pub fn from_str(s: &str) -> (r: Result<JSXForKind, ()>)
        ensures
            r == match for_kind_of_name(s@) {
                Some(k) => Ok::<JSXForKind, ()>(k),
                None => Err(()),
            },
    {
        if str_eq(s, "ForStatement") {
            Ok(JSXForKind::ForStatement)
        } else if str_eq(s, "ForInStatement") {
            Ok(JSXForKind::ForInStatement)
        } else if str_eq(s, "ForOfStatement") {
            Ok(JSXForKind::ForOfStatement)
        } else {
            Err(())
        }
    }
}

impl Default for JSXForKind {
    fn default() -> (r: JSXForKind)
        ensures
            r == JSXForKind::ForStatement,
    {
        JSXForKind::ForStatement
    }
}

impl std::str::FromStr for JSXForKind {
    type Err = ();

    fn from_str(s: &str) -> Result<JSXForKind, ()> {
        JSXForKind::from_str(s)
    }
}

/// A TSRX `@for` expression.
///
/// The fields mirror JavaScript's three loop forms. Only fields belonging to
/// `kind` are populated.
#[derive(Debug, PartialEq, Eq, Hash)]
pub struct JSXForExpr {
    pub span: Span,
    pub kind: JSXForKind,
    pub init: Option<VarDeclOrExpr>,
    pub test: Option<Box<Expr>>,
    pub update: Option<Box<Expr>>,
    pub left: Option<ForHead>,
    pub right: Option<Box<Expr>>,
    pub is_await: bool,
    pub body: JSXCodeBlock,
    pub index: Option<Ident>,
    pub key: Option<Box<Expr>>,
    pub empty: Option<JSXCodeBlock>,
}

/// A case in a TSRX `@switch` expression.
#[derive(Debug, PartialEq, Eq, Hash)]
pub struct JSXSwitchCase {
    pub span: Span,
    pub test: Option<Box<Expr>>,
    pub consequent: JSXCodeBlock,
}

/// A TSRX `@switch` expression.
#[derive(Debug, PartialEq, Eq, Hash)]
pub struct JSXSwitchExpr {
    pub span: Span,
    pub discriminant: Box<Expr>,
    pub cases: Vec<JSXSwitchCase>,
}

/// The catch clause of a TSRX `@try` expression.
#[derive(Debug, PartialEq, Eq, Hash)]
pub struct JSXCatchClause {
    pub span: Span,
    pub param: Option<Pat>,
    pub reset: Option<Ident>,
    pub body: JSXCodeBlock,
}

/// A TSRX `@try` expression.
#[derive(Debug, PartialEq, Eq, Hash)]
pub struct JSXTryExpr {
    pub span: Span,
    pub block: JSXCodeBlock,
    pub pending: Option<JSXCodeBlock>,
    pub handler: Option<JSXCatchClause>,
    pub finalizer: Option<BlockStmt>,
}

} // verus!
