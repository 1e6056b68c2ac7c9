//! Compiler for a whitespace-significant reactive markup language.
//!
//! Source text is scanned into tokens, parsed into a document tree and
//! compiled into HTML, CSS and a self-contained JavaScript program.

pub mod codegen;
pub mod compiler;
pub mod lexer;
pub mod number;
pub mod parser;
pub mod text;
