//! The dialect options a source text is parsed with.
use vstd::prelude::*;

verus! {

/// Options of the ECMAScript dialect.
#[derive(Clone, Copy, PartialEq, Eq, Structural, Debug)]
pub struct EsSyntax {
    pub jsx: bool,
    pub decorators: bool,
}

/// Options of the TypeScript dialect.
///
/// `tsrx` turns on the TSRX template grammar (`@{ ... }`, `@if`, `@for`,
/// `@switch`, `@try`), which also enables JSX.
#[derive(Clone, Copy, PartialEq, Eq, Structural, Debug)]
pub struct TsSyntax {
    pub tsx: bool,
    pub decorators: bool,
    pub tsrx: bool,
}

impl Default for TsSyntax {
    fn default() -> (s: TsSyntax)
        ensures
            s == (TsSyntax { tsx: false, decorators: false, tsrx: false }),
    {
        TsSyntax { tsx: false, decorators: false, tsrx: false }
    }
}

impl Default for EsSyntax {
    fn default() -> (s: EsSyntax)
        ensures
            s == (EsSyntax { jsx: false, decorators: false }),
    {
        EsSyntax { jsx: false, decorators: false }
    }
}

/// The dialect a source text is parsed as.
#[derive(Clone, Copy, PartialEq, Eq, Structural, Debug)]
pub enum Syntax {
    Es(EsSyntax),
    Typescript(TsSyntax),
}

pub open spec fn spec_tsrx(s: Syntax) -> bool {
    match s {
        Syntax::Es(_) => false,
        Syntax::Typescript(t) => t.tsrx,
    }
}

pub open spec fn spec_jsx(s: Syntax) -> bool {
    match s {
        Syntax::Es(e) => e.jsx,
        Syntax::Typescript(t) => t.tsx || t.tsrx,
    }
}

pub open spec fn spec_decorators(s: Syntax) -> bool {
    match s {
        Syntax::Es(e) => e.decorators,
        Syntax::Typescript(t) => t.decorators,
    }
}

impl Syntax {
    /// Whether the TSRX template grammar is on.
    pub fn tsrx(self) -> (b: bool)
        ensures
            b == spec_tsrx(self),
    {
        match self {
            Syntax::Es(_) => false,
            Syntax::Typescript(t) => t.tsrx,
        }
    }

    /// Whether JSX elements are parsed.
    pub fn jsx(self) -> (b: bool)
        ensures
            b == spec_jsx(self),
    {
        match self {
            Syntax::Es(e) => e.jsx,
            Syntax::Typescript(t) => t.tsx || t.tsrx,
        }
    }

    /// Whether `@expr` decorators are parsed.
    pub fn decorators(self) -> (b: bool)
        ensures
            b == spec_decorators(self),
    {
        match self {
            Syntax::Es(e) => e.decorators,
            Syntax::Typescript(t) => t.decorators,
        }
    }
}

} // verus!
