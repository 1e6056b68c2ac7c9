//! The scanner: source text to a flat stream of tokens, with indentation
//! resolved into explicit block markers.

use vstd::prelude::*;

pub mod laws;
pub mod rules;
pub mod scanner;
pub mod token;

pub use scanner::{Scanner, ScannerMode};
pub use token::{Span, Token, TokenKind};

verus! {

/// A scanning failure, with the line and column at which it was found.
#[derive(Debug, Clone, PartialEq)]
pub struct LexerError {
    pub message: String,
    pub line: usize,
    pub column: usize,
}

/// What a [`LexerError`] holds.
pub ghost struct LexerErrorView {
    pub message: Seq<char>,
    pub line: usize,
    pub column: usize,
}

impl View for LexerError {
    type V = LexerErrorView;

    open spec fn view(&self) -> LexerErrorView {
        LexerErrorView { message: self.message@, line: self.line, column: self.column }
    }
}

impl LexerErrorView {
    /// The error as one line of text.
    pub open spec fn rendered(self) -> Seq<char> {
        "Lexer error at line "@ + crate::text::decimal(self.line as nat) + ", column "@
            + crate::text::decimal(self.column as nat) + ": "@ + self.message
    }
}

impl LexerError {
    /// The error as one line of text, with its position.
    pub fn to_string(&self) -> (r: String)
        ensures
            r@ == self@.rendered(),
    {
        let mut r = String::from_str("Lexer error at line ");
        crate::text::push_decimal(&mut r, self.line);
        r.append(", column ");
        crate::text::push_decimal(&mut r, self.column);
        r.append(": ");
        r.append(self.message.as_str());
        r
    }
}

} // verus!
