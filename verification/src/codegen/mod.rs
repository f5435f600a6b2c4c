//! Printing the syntax tree back to source text.
pub mod print;
pub mod emitter;
pub mod js;
pub mod tsrx;
