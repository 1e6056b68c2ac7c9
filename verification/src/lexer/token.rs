//! Tokens of the source language.

use vstd::prelude::*;
use vstd::string::*;
use crate::number::{Number, NumberView};
use crate::text::{debug_quote, debug_quoted, is_text};

verus! {

/// A position in source text: offsets in characters, and the line and column
/// at which the token starts (both counted from 1).
#[derive(Debug, Clone, Copy, PartialEq, Eq)]
pub struct Span {
    pub start: usize,
    pub end: usize,
    pub line: usize,
    pub column: usize,
}

impl Span {
    pub fn new(start: usize, end: usize, line: usize, column: usize) -> (span: Self)
        ensures
            span == (Span { start, end, line, column }),
    {
        Span { start, end, line, column }
    }
}

/// The kinds of token. Variants that stand for text or a value carry it.
#[derive(Debug, PartialEq)]
pub enum TokenKind {
    // Structure
    Indent,
    Dedent,
    Newline,
    // Literals
    Identifier(String),
    String(String),
    Number(Number),
    Boolean(bool),
    Null,
    Comment(String),
    Interpolation(String),
    // Prefixes
    Dot,
    Colon,
    At,
    Dollar,
    Hash,
    Plus,
    // Punctuation
    Equals,
    Comma,
    LParen,
    RParen,
    // Keywords
    State,
    Computed,
    Fn,
    Async,
    Watch,
    Props,
    Emit,
    Import,
    Page,
    Config,
    // End of input
    Eof,
}

/// What a [`TokenKind`] holds.
pub ghost enum TokenKindView {
    Indent,
    Dedent,
    Newline,
    Identifier(Seq<char>),
    String(Seq<char>),
    Number(NumberView),
    Boolean(bool),
    Null,
    Comment(Seq<char>),
    Interpolation(Seq<char>),
    Dot,
    Colon,
    At,
    Dollar,
    Hash,
    Plus,
    Equals,
    Comma,
    LParen,
    RParen,
    State,
    Computed,
    Fn,
    Async,
    Watch,
    Props,
    Emit,
    Import,
    Page,
    Config,
    Eof,
}

impl View for TokenKind {
    type V = TokenKindView;

    open spec fn view(&self) -> TokenKindView {
        match self {
            TokenKind::Indent => TokenKindView::Indent,
            TokenKind::Dedent => TokenKindView::Dedent,
            TokenKind::Newline => TokenKindView::Newline,
            TokenKind::Identifier(s) => TokenKindView::Identifier(s@),
            TokenKind::String(s) => TokenKindView::String(s@),
            TokenKind::Number(n) => TokenKindView::Number(n@),
            TokenKind::Boolean(b) => TokenKindView::Boolean(*b),
            TokenKind::Null => TokenKindView::Null,
            TokenKind::Comment(s) => TokenKindView::Comment(s@),
            TokenKind::Interpolation(s) => TokenKindView::Interpolation(s@),
            TokenKind::Dot => TokenKindView::Dot,
            TokenKind::Colon => TokenKindView::Colon,
            TokenKind::At => TokenKindView::At,
            TokenKind::Dollar => TokenKindView::Dollar,
            TokenKind::Hash => TokenKindView::Hash,
            TokenKind::Plus => TokenKindView::Plus,
            TokenKind::Equals => TokenKindView::Equals,
            TokenKind::Comma => TokenKindView::Comma,
            TokenKind::LParen => TokenKindView::LParen,
            TokenKind::RParen => TokenKindView::RParen,
            TokenKind::State => TokenKindView::State,
            TokenKind::Computed => TokenKindView::Computed,
            TokenKind::Fn => TokenKindView::Fn,
            TokenKind::Async => TokenKindView::Async,
            TokenKind::Watch => TokenKindView::Watch,
            TokenKind::Props => TokenKindView::Props,
            TokenKind::Emit => TokenKindView::Emit,
            TokenKind::Import => TokenKindView::Import,
            TokenKind::Page => TokenKindView::Page,
            TokenKind::Config => TokenKindView::Config,
            TokenKind::Eof => TokenKindView::Eof,
        }
    }
}

impl TokenKindView {
    /// The kind as diagnostics name it: the variant's name, and in brackets
    /// what it carries.
    pub open spec fn debug_text(self) -> Seq<char> {
        match self {
            TokenKindView::Indent => "Indent"@,
            TokenKindView::Dedent => "Dedent"@,
            TokenKindView::Newline => "Newline"@,
            TokenKindView::Identifier(s) => "Identifier("@ + debug_quoted(s) + ")"@,
            TokenKindView::String(s) => "String("@ + debug_quoted(s) + ")"@,
            TokenKindView::Number(n) => "Number("@ + n.debug_rendered() + ")"@,
            TokenKindView::Boolean(b) => if b {
                "Boolean(true)"@
            } else {
                "Boolean(false)"@
            },
            TokenKindView::Null => "Null"@,
            TokenKindView::Comment(s) => "Comment("@ + debug_quoted(s) + ")"@,
            TokenKindView::Interpolation(s) => "Interpolation("@ + debug_quoted(s) + ")"@,
            TokenKindView::Dot => "Dot"@,
            TokenKindView::Colon => "Colon"@,
            TokenKindView::At => "At"@,
            TokenKindView::Dollar => "Dollar"@,
            TokenKindView::Hash => "Hash"@,
            TokenKindView::Plus => "Plus"@,
            TokenKindView::Equals => "Equals"@,
            TokenKindView::Comma => "Comma"@,
            TokenKindView::LParen => "LParen"@,
            TokenKindView::RParen => "RParen"@,
            TokenKindView::State => "State"@,
            TokenKindView::Computed => "Computed"@,
            TokenKindView::Fn => "Fn"@,
            TokenKindView::Async => "Async"@,
            TokenKindView::Watch => "Watch"@,
            TokenKindView::Props => "Props"@,
            TokenKindView::Emit => "Emit"@,
            TokenKindView::Import => "Import"@,
            TokenKindView::Page => "Page"@,
            TokenKindView::Config => "Config"@,
            TokenKindView::Eof => "Eof"@,
        }
    }

    /// One of the six prefix symbols `.` `:` `@` `$` `#` `+`, after which
    /// keywords are read as names.
    pub open spec fn suppresses_keywords(self) -> bool {
        self is Dot || self is Colon || self is At || self is Dollar || self is Hash || self is Plus
    }
}

fn wrapped(name: &str, inner: &str) -> (r: String)
    ensures
        r@ == name@ + inner@ + ")"@,
{
    let mut r = String::from_str(name);
    r.append(inner);
    r.append(")");
    r
}

impl TokenKind {
    /// The kind as diagnostics name it.
    pub fn debug_text(&self) -> (r: String)
        ensures
            r@ == self@.debug_text(),
    {
        match self {
            TokenKind::Indent => String::from_str("Indent"),
            TokenKind::Dedent => String::from_str("Dedent"),
            TokenKind::Newline => String::from_str("Newline"),
            TokenKind::Identifier(s) => wrapped("Identifier(", debug_quote(s.as_str()).as_str()),
            TokenKind::String(s) => wrapped("String(", debug_quote(s.as_str()).as_str()),
            TokenKind::Number(n) => wrapped("Number(", n.to_debug_text().as_str()),
            TokenKind::Boolean(b) => if *b {
                String::from_str("Boolean(true)")
            } else {
                String::from_str("Boolean(false)")
            },
            TokenKind::Null => String::from_str("Null"),
            TokenKind::Comment(s) => wrapped("Comment(", debug_quote(s.as_str()).as_str()),
            TokenKind::Interpolation(s) => wrapped(
                "Interpolation(",
                debug_quote(s.as_str()).as_str(),
            ),
            TokenKind::Dot => String::from_str("Dot"),
            TokenKind::Colon => String::from_str("Colon"),
            TokenKind::At => String::from_str("At"),
            TokenKind::Dollar => String::from_str("Dollar"),
            TokenKind::Hash => String::from_str("Hash"),
            TokenKind::Plus => String::from_str("Plus"),
            TokenKind::Equals => String::from_str("Equals"),
            TokenKind::Comma => String::from_str("Comma"),
            TokenKind::LParen => String::from_str("LParen"),
            TokenKind::RParen => String::from_str("RParen"),
            TokenKind::State => String::from_str("State"),
            TokenKind::Computed => String::from_str("Computed"),
            TokenKind::Fn => String::from_str("Fn"),
            TokenKind::Async => String::from_str("Async"),
            TokenKind::Watch => String::from_str("Watch"),
            TokenKind::Props => String::from_str("Props"),
            TokenKind::Emit => String::from_str("Emit"),
            TokenKind::Import => String::from_str("Import"),
            TokenKind::Page => String::from_str("Page"),
            TokenKind::Config => String::from_str("Config"),
            TokenKind::Eof => String::from_str("Eof"),
        }
    }
}

impl Clone for TokenKind {
    fn clone(&self) -> (r: Self)
        ensures
            r@ == self@,
    {
        match self {
            TokenKind::Indent => TokenKind::Indent,
            TokenKind::Dedent => TokenKind::Dedent,
            TokenKind::Newline => TokenKind::Newline,
            TokenKind::Identifier(s) => TokenKind::Identifier(s.clone()),
            TokenKind::String(s) => TokenKind::String(s.clone()),
            TokenKind::Number(n) => TokenKind::Number(n.clone()),
            TokenKind::Boolean(b) => TokenKind::Boolean(*b),
            TokenKind::Null => TokenKind::Null,
            TokenKind::Comment(s) => TokenKind::Comment(s.clone()),
            TokenKind::Interpolation(s) => TokenKind::Interpolation(s.clone()),
            TokenKind::Dot => TokenKind::Dot,
            TokenKind::Colon => TokenKind::Colon,
            TokenKind::At => TokenKind::At,
            TokenKind::Dollar => TokenKind::Dollar,
            TokenKind::Hash => TokenKind::Hash,
            TokenKind::Plus => TokenKind::Plus,
            TokenKind::Equals => TokenKind::Equals,
            TokenKind::Comma => TokenKind::Comma,
            TokenKind::LParen => TokenKind::LParen,
            TokenKind::RParen => TokenKind::RParen,
            TokenKind::State => TokenKind::State,
            TokenKind::Computed => TokenKind::Computed,
            TokenKind::Fn => TokenKind::Fn,
            TokenKind::Async => TokenKind::Async,
            TokenKind::Watch => TokenKind::Watch,
            TokenKind::Props => TokenKind::Props,
            TokenKind::Emit => TokenKind::Emit,
            TokenKind::Import => TokenKind::Import,
            TokenKind::Page => TokenKind::Page,
            TokenKind::Config => TokenKind::Config,
            TokenKind::Eof => TokenKind::Eof,
        }
    }
}

/// A token: its kind and where it stands in the source.
#[derive(Debug, PartialEq)]
pub struct Token {
    pub kind: TokenKind,
    pub span: Span,
}

/// What a [`Token`] holds.
pub ghost struct TokenView {
    pub kind: TokenKindView,
    pub span: Span,
}

impl View for Token {
    type V = TokenView;

    open spec fn view(&self) -> TokenView {
        TokenView { kind: self.kind@, span: self.span }
    }
}

impl Token {
    pub fn new(kind: TokenKind, span: Span) -> (token: Self)
        ensures
            token == (Token { kind, span }),
    {
        Token { kind, span }
    }
}

impl Clone for Token {
    fn clone(&self) -> (r: Self)
        ensures
            r@ == self@,
    {
        Token { kind: self.kind.clone(), span: self.span }
    }
}

/// The views of a sequence of tokens.
pub open spec fn token_views(tokens: Seq<Token>) -> Seq<TokenView> {
    Seq::new(tokens.len(), |i: int| tokens[i]@)
}

/// The tags of elements that have no content and no closing tag.
pub open spec fn is_void_tag(tag: Seq<char>) -> bool {
    ||| tag == "area"@
    ||| tag == "base"@
    ||| tag == "br"@
    ||| tag == "col"@
    ||| tag == "embed"@
    ||| tag == "hr"@
    ||| tag == "img"@
    ||| tag == "input"@
    ||| tag == "link"@
    ||| tag == "meta"@
    ||| tag == "param"@
    ||| tag == "source"@
    ||| tag == "track"@
    ||| tag == "wbr"@
}

/// Whether `tag` names a void element.
pub fn is_void_element(tag: &str) -> (b: bool)
    ensures
        b == is_void_tag(tag@),
{
    let t = String::from_str(tag);
    is_text(&t, "area") || is_text(&t, "base") || is_text(&t, "br") || is_text(&t, "col")
        || is_text(&t, "embed") || is_text(&t, "hr") || is_text(&t, "img") || is_text(
        &t,
        "input",
    ) || is_text(&t, "link") || is_text(&t, "meta") || is_text(&t, "param") || is_text(
        &t,
        "source",
    ) || is_text(&t, "track") || is_text(&t, "wbr")
}

} // verus!
