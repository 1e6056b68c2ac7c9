//! The parsers: tokens to a document tree, and expression text to an
//! expression tree.

use vstd::prelude::*;

pub mod ast;
pub mod expr_grammar;
pub mod expr_lexer;
pub mod expr_parser;
pub mod expr_primary;
pub mod grammar;
pub mod parser;

pub use ast::{Document, Expression, Node};
pub use parser::Parser;

verus! {

/// A parsing failure, with the line and column at which it was found.
#[derive(Debug, Clone, PartialEq)]
pub struct ParseError {
    pub message: String,
    pub line: usize,
    pub column: usize,
}

/// What a [`ParseError`] holds.
pub ghost struct ParseErrorView {
    pub message: Seq<char>,
    pub line: usize,
    pub column: usize,
}

impl View for ParseError {
    type V = ParseErrorView;

    open spec fn view(&self) -> ParseErrorView {
        ParseErrorView { message: self.message@, line: self.line, column: self.column }
    }
}

impl ParseErrorView {
    /// The error as one line of text.
    pub open spec fn rendered(self) -> Seq<char> {
        "Parse error at line "@ + crate::text::decimal(self.line as nat) + ", column "@
            + crate::text::decimal(self.column as nat) + ": "@ + self.message
    }
}

impl ParseError {
    /// The error as one line of text, with its position.
    pub fn to_string(&self) -> (r: String)
        ensures
            r@ == self@.rendered(),
    {
        let mut r = String::from_str("Parse error at line ");
        crate::text::push_decimal(&mut r, self.line);
        r.append(", column ");
        crate::text::push_decimal(&mut r, self.column);
        r.append(": ");
        r.append(self.message.as_str());
        r
    }
}

} // verus!
