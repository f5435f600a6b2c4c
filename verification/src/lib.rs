//! The TSRX template grammar: tokens, a parser for TSRX expressions and the
//! script around them, the syntax tree, and a code generator.
pub mod span;
pub mod syntax;
pub mod token;
pub mod lexer;
pub mod ast;
pub mod view;
pub mod parser;
pub mod codegen;
pub mod laws;
