//! The scanning rules: what the scanner computes, as functions from the
//! source characters and a scanning state to the next state.

use vstd::prelude::*;
use crate::lexer::token::{Span, TokenKindView, TokenView};
use crate::lexer::LexerErrorView;
use crate::number::{is_literal, literal_value, number_end};
use crate::text::{
    bump, char_at, char_is_alphabetic, char_is_alphanumeric, decimal, is_digit, is_word_char,
    trimmed, unescaped,
};

verus! {

/// The column `steps` characters to the right of `column`, or the largest
/// column that can be held.
pub open spec fn column_after(column: usize, steps: int) -> usize {
    if column + steps <= usize::MAX {
        (column + steps) as usize
    } else {
        usize::MAX
    }
}

/// How far the scanner has come: the position of the next character with its
/// line and column, the tokens so far, the open indentation levels (the
/// innermost last), and whether a line starts here.
pub ghost struct ScanState {
    pub pos: int,
    pub line: usize,
    pub column: usize,
    pub tokens: Seq<TokenView>,
    pub indents: Seq<usize>,
    pub at_line_start: bool,
}

impl ScanState {
    /// The state before the first character.
    pub open spec fn initial() -> ScanState {
        ScanState {
            pos: 0,
            line: 1,
            column: 1,
            tokens: Seq::empty(),
            indents: seq![0usize],
            at_line_start: true,
        }
    }

    /// The empty span at the current position.
    pub open spec fn here(self) -> Span {
        Span {
            start: self.pos as usize,
            end: self.pos as usize,
            line: self.line,
            column: self.column,
        }
    }

    /// The state with one more token.
    pub open spec fn with_token(self, kind: TokenKindView, span: Span) -> ScanState {
        ScanState { tokens: self.tokens.push(TokenView { kind, span }), ..self }
    }

    /// The state with a token of no extent at the current position.
    pub open spec fn emit(self, kind: TokenKindView) -> ScanState {
        self.with_token(kind, self.here())
    }

    /// The state one character further, unless the text has ended.
    pub open spec fn advance(self, chars: Seq<char>) -> ScanState {
        if self.pos < chars.len() {
            ScanState { pos: self.pos + 1, column: bump(self.column), ..self }
        } else {
            self
        }
    }

    /// The state at `end`, further on in the same line.
    pub open spec fn moved_to(self, end: int) -> ScanState {
        ScanState { pos: end, column: column_after(self.column, end - self.pos), ..self }
    }

    /// The state at the start of the next line.
    pub open spec fn next_line(self) -> ScanState {
        ScanState { line: bump(self.line), column: 1, at_line_start: true, ..self }
    }

    /// The error `message` at the current position.
    pub open spec fn error(self, message: Seq<char>) -> LexerErrorView {
        LexerErrorView { message, line: self.line, column: self.column }
    }

    /// The span from the current position to `end`.
    pub open spec fn span_to(self, end: int) -> Span {
        Span { start: self.pos as usize, end: end as usize, line: self.line, column: self.column }
    }

    /// Whether the last token is a prefix symbol, so that a keyword spelling
    /// that comes next is a name.
    pub open spec fn after_prefix(self) -> bool {
        self.tokens.len() > 0 && self.tokens.last().kind.suppresses_keywords()
    }
}

/// The outcome of one scanning step.
pub type Scanned = Result<ScanState, LexerErrorView>;

// -- strings ----------------------------------------------------------------
/// Why a string literal has no end.
pub ghost enum StringFault {
    /// The text ends behind a backslash, at the given position.
    Escape(int),
    /// The text ends before the closing quote.
    Open,
}

/// The rest of a string literal from `pos` on: its value, with `value` read
/// so far, and the position behind its closing quote.
#[verifier::opaque]
pub open spec fn string_rest(chars: Seq<char>, pos: int, quote: char, value: Seq<char>) -> Result<
    (Seq<char>, int),
    StringFault,
>
    decreases chars.len() - pos,
{
    if !(0 <= pos < chars.len()) {
        Err(StringFault::Open)
    } else if chars[pos] == quote {
        Ok((value, pos + 1))
    } else if chars[pos] == '\\' {
        if pos + 1 >= chars.len() {
            Err(StringFault::Escape(pos + 1))
        } else {
            string_rest(chars, pos + 2, quote, value + unescaped(chars[pos + 1], quote))
        }
    } else {
        string_rest(chars, pos + 1, quote, value.push(chars[pos]))
    }
}

/// The string literal that starts with the quote at the current position.
/// Braces in it are kept as they are.
pub open spec fn string(chars: Seq<char>, st: ScanState) -> Scanned {
    match string_rest(chars, st.pos + 1, chars[st.pos], Seq::empty()) {
        Ok((value, end)) => Ok(
            st.with_token(TokenKindView::String(value), st.span_to(end)).moved_to(end),
        ),
        Err(StringFault::Escape(at)) => Err(
            st.moved_to(at).error("Unterminated escape sequence"@),
        ),
        Err(StringFault::Open) => Err(st.error("Unterminated string"@)),
    }
}

// -- interpolation ----------------------------------------------------------
/// Where an interpolation region ends: its content, the position behind its
/// closing brace, and the line and column there.
pub ghost struct Region {
    pub content: Seq<char>,
    pub end: int,
    pub line: usize,
    pub column: usize,
}

/// The rest of an interpolation region from `pos` on, with `depth` braces
/// open and `content` read so far; `None` where the text ends first.
#[verifier::opaque]
pub open spec fn region_rest(
    chars: Seq<char>,
    pos: int,
    depth: int,
    content: Seq<char>,
    line: usize,
    column: usize,
) -> Option<Region>
    decreases chars.len() - pos,
{
    if depth <= 0 {
        Some(Region { content, end: pos, line, column })
    } else if !(0 <= pos < chars.len()) {
        None
    } else if chars[pos] == '{' {
        region_rest(chars, pos + 1, depth + 1, content.push(chars[pos]), line, bump(column))
    } else if chars[pos] == '}' {
        region_rest(
            chars,
            pos + 1,
            depth - 1,
            if depth > 1 {
                content.push(chars[pos])
            } else {
                content
            },
            line,
            bump(column),
        )
    } else if chars[pos] == '\n' {
        region_rest(chars, pos + 1, depth, content.push(chars[pos]), bump(line), 1)
    } else {
        region_rest(chars, pos + 1, depth, content.push(chars[pos]), line, bump(column))
    }
}

/// The interpolation region that starts with the brace at the current
/// position: braces inside it are counted, so that nested braces stay in the
/// content, which is kept without the white space around it.
pub open spec fn interpolation(chars: Seq<char>, st: ScanState) -> Scanned {
    match region_rest(chars, st.pos + 1, 1, Seq::empty(), st.line, bump(st.column)) {
        Some(region) => Ok(
            ScanState {
                pos: region.end,
                line: region.line,
                column: region.column,
                ..st.with_token(
                    TokenKindView::Interpolation(trimmed(region.content)),
                    st.span_to(region.end),
                )
            },
        ),
        None => Err(st.error("Unterminated interpolation"@)),
    }
}

// -- names, numbers, comments -----------------------------------------------
/// Whether the character at `pos` continues a name: a letter, a number or
/// `_`, or a hyphen that is directly followed by a letter or a number.
pub open spec fn continues_name(chars: Seq<char>, pos: int) -> bool {
    0 <= pos < chars.len() && (is_word_char(chars[pos]) || (chars[pos] == '-'
        && char_is_alphanumeric(char_at(chars, pos + 1))))
}

/// The end of the run of name characters that starts at `pos`.
#[verifier::opaque]
pub open spec fn name_end(chars: Seq<char>, pos: int) -> int
    decreases chars.len() - pos,
{
    if continues_name(chars, pos) {
        name_end(chars, pos + 1)
    } else {
        pos
    }
}

/// The literals, which are recognised in every place.
pub open spec fn literal_or_name(text: Seq<char>) -> TokenKindView {
    if text == "true"@ {
        TokenKindView::Boolean(true)
    } else if text == "false"@ {
        TokenKindView::Boolean(false)
    } else if text == "null"@ {
        TokenKindView::Null
    } else {
        TokenKindView::Identifier(text)
    }
}

/// The keywords and literals.
pub open spec fn keyword_or_name(text: Seq<char>) -> TokenKindView {
    if text == "state"@ {
        TokenKindView::State
    } else if text == "computed"@ {
        TokenKindView::Computed
    } else if text == "fn"@ {
        TokenKindView::Fn
    } else if text == "async"@ {
        TokenKindView::Async
    } else if text == "watch"@ {
        TokenKindView::Watch
    } else if text == "props"@ {
        TokenKindView::Props
    } else if text == "emit"@ {
        TokenKindView::Emit
    } else if text == "import"@ {
        TokenKindView::Import
    } else if text == "page"@ {
        TokenKindView::Page
    } else if text == "config"@ {
        TokenKindView::Config
    } else {
        literal_or_name(text)
    }
}

/// The name, keyword or literal that starts at the current position. Behind
/// one of the six prefix symbols keywords are read as names; the literals
/// are recognised there too.
pub open spec fn identifier(chars: Seq<char>, st: ScanState) -> ScanState {
    let end = name_end(chars, st.pos + 1);
    let text = chars.subrange(st.pos, end);
    let kind = if st.after_prefix() {
        literal_or_name(text)
    } else {
        keyword_or_name(text)
    };
    st.with_token(kind, st.span_to(end)).moved_to(end)
}

/// The number literal that starts with the digit at the current position.
pub open spec fn number(chars: Seq<char>, st: ScanState) -> Scanned {
    let end = number_end(chars, st.pos + 1);
    let text = chars.subrange(st.pos, end);
    if is_literal(text) {
        Ok(st.with_token(TokenKindView::Number(literal_value(text)), st.span_to(end)).moved_to(end))
    } else {
        Err(st.error("Invalid number: '"@ + text + "'"@))
    }
}

/// The first line break at or behind `pos`, or the end of the text.
#[verifier::opaque]
pub open spec fn line_end(chars: Seq<char>, pos: int) -> int
    decreases chars.len() - pos,
{
    if 0 <= pos < chars.len() && chars[pos] != '\n' && chars[pos] != '\r' {
        line_end(chars, pos + 1)
    } else {
        pos
    }
}

/// Where the text of the comment at `pos` starts: behind `//` and one space.
pub open spec fn comment_start(chars: Seq<char>, pos: int) -> int {
    if char_at(chars, pos + 2) == ' ' {
        pos + 3
    } else {
        pos + 2
    }
}

/// The comment that starts with `//` at the current position and runs to the
/// end of the line.
pub open spec fn comment(chars: Seq<char>, st: ScanState) -> ScanState {
    let start = comment_start(chars, st.pos);
    let end = line_end(chars, start);
    st.with_token(TokenKindView::Comment(chars.subrange(start, end)), st.span_to(end)).moved_to(
        end,
    )
}

// -- indentation ------------------------------------------------------------
/// The end of the run of spaces that starts at `pos`.
#[verifier::opaque]
pub open spec fn spaces_end(chars: Seq<char>, pos: int) -> int
    decreases chars.len() - pos,
{
    if 0 <= pos < chars.len() && chars[pos] == ' ' {
        spaces_end(chars, pos + 1)
    } else {
        pos
    }
}

/// The state after closing every level that is indented deeper than
/// `spaces`, with one block end for each.
#[verifier::opaque]
pub open spec fn dedent(st: ScanState, spaces: usize) -> ScanState
    decreases st.indents.len(),
{
    if st.indents.len() > 1 && st.indents.last() > spaces {
        dedent(ScanState { indents: st.indents.drop_last(), ..st }.emit(TokenKindView::Dedent), spaces)
    } else {
        st
    }
}

/// The message for an indentation that matches no open level.
pub open spec fn mismatch_message(spaces: usize) -> Seq<char> {
    "Indentation does not match any outer level (got "@ + decimal(spaces as nat) + " spaces)"@
}

/// The state behind the indentation of the line that starts at the current
/// position. Blank lines and lines that hold only a comment leave the levels
/// as they are; deeper indentation opens a block; shallower indentation
/// closes blocks and has to match an open level.
pub open spec fn indentation(chars: Seq<char>, st: ScanState) -> Scanned {
    let end = spaces_end(chars, st.pos);
    let spaces = (end - st.pos) as usize;
    let at = st.moved_to(end);
    let next = char_at(chars, end);
    if end < chars.len() && next == '\t' {
        Err(at.error("Tabs are not allowed for indentation, use spaces"@))
    } else if end >= chars.len() || next == '\n' || next == '\r' {
        Ok(at)
    } else if next == '/' && char_at(chars, end + 1) == '/' {
        Ok(at)
    } else if spaces > at.indents.last() {
        Ok(ScanState { indents: at.indents.push(spaces), ..at }.emit(TokenKindView::Indent))
    } else if spaces < at.indents.last() {
        let closed = dedent(at, spaces);
        if closed.indents.last() != spaces {
            Err(closed.error(mismatch_message(spaces)))
        } else {
            Ok(closed)
        }
    } else {
        Ok(at)
    }
}

// -- one step ---------------------------------------------------------------
/// The token that a single character is by itself, if it is one.
pub open spec fn symbol(c: char) -> Option<TokenKindView> {
    if c == '.' {
        Some(TokenKindView::Dot)
    } else if c == ':' {
        Some(TokenKindView::Colon)
    } else if c == '@' {
        Some(TokenKindView::At)
    } else if c == '$' {
        Some(TokenKindView::Dollar)
    } else if c == '#' {
        Some(TokenKindView::Hash)
    } else if c == '+' {
        Some(TokenKindView::Plus)
    } else if c == '=' {
        Some(TokenKindView::Equals)
    } else if c == ',' {
        Some(TokenKindView::Comma)
    } else if c == '(' {
        Some(TokenKindView::LParen)
    } else if c == ')' {
        Some(TokenKindView::RParen)
    } else {
        None
    }
}

/// The state behind a line break that starts with a carriage return: a line
/// feed directly behind it belongs to the same break.
pub open spec fn carriage_return(chars: Seq<char>, st: ScanState) -> ScanState {
    let behind = st.advance(chars);
    let end = if behind.pos < chars.len() && chars[behind.pos] == '\n' {
        behind.advance(chars)
    } else {
        behind
    };
    end.emit(TokenKindView::Newline).next_line()
}

/// One step in the middle of a line: what the character at the current
/// position starts. `html` says whether `{` opens an interpolation region.
pub open spec fn scan_char(chars: Seq<char>, st: ScanState, html: bool) -> Scanned {
    let ch = char_at(chars, st.pos);
    if ch == ' ' || ch == '\t' {
        Ok(st.advance(chars))
    } else if ch == '\n' {
        Ok(st.emit(TokenKindView::Newline).advance(chars).next_line())
    } else if ch == '\r' {
        Ok(carriage_return(chars, st))
    } else if ch == '/' && char_at(chars, st.pos + 1) == '/' {
        Ok(comment(chars, st))
    } else if ch == '"' || ch == '\'' {
        string(chars, st)
    } else if ch == '{' && html {
        interpolation(chars, st)
    } else if is_digit(ch) {
        number(chars, st)
    } else if symbol(ch) is Some {
        Ok(st.emit(symbol(ch)->Some_0).advance(chars))
    } else if char_is_alphabetic(ch) || ch == '_' {
        Ok(identifier(chars, st))
    } else {
        Err(st.error("Unexpected character: '"@.push(ch) + "'"@))
    }
}

/// One step of the scanner, from a position inside the text: at the start of
/// a line the indentation is read first.
pub open spec fn scan_token(chars: Seq<char>, st: ScanState, html: bool) -> Scanned {
    if st.at_line_start {
        match indentation(chars, st) {
            Err(e) => Err(e),
            Ok(indented) => {
                let inside = ScanState { at_line_start: false, ..indented };
                if inside.pos >= chars.len() {
                    Ok(inside)
                } else {
                    scan_char(chars, inside, html)
                }
            },
        }
    } else {
        scan_char(chars, st, html)
    }
}

/// The state at the end of the text, step by step from `st`.
#[verifier::opaque]
pub open spec fn scan_all(chars: Seq<char>, st: ScanState, html: bool) -> Scanned
    decreases chars.len() - st.pos,
{
    if st.pos >= chars.len() {
        Ok(st)
    } else {
        match scan_token(chars, st, html) {
            Err(e) => Err(e),
            Ok(next) => if st.pos < next.pos <= chars.len() {
                scan_all(chars, next, html)
            } else {
                Ok(next)
            },
        }
    }
}

/// The state after closing every block that is still open.
#[verifier::opaque]
pub open spec fn close_blocks(st: ScanState) -> ScanState
    decreases st.indents.len(),
{
    if st.indents.len() > 1 {
        close_blocks(
            ScanState { indents: st.indents.drop_last(), ..st }.emit(TokenKindView::Dedent),
        )
    } else {
        st
    }
}

/// The tokens of a source text: those of its characters, a block end for
/// each block that is open at the end, and the end-of-input token.
pub open spec fn tokenize(chars: Seq<char>) -> Result<Seq<TokenView>, LexerErrorView> {
    match scan_all(chars, ScanState::initial(), true) {
        Err(e) => Err(e),
        Ok(st) => Ok(close_blocks(st).emit(TokenKindView::Eof).tokens),
    }
}

// -- balance ----------------------------------------------------------------
/// How many tokens of `tokens` start a block.
pub open spec fn block_starts(tokens: Seq<TokenView>) -> nat
    decreases tokens.len(),
{
    if tokens.len() == 0 {
        0
    } else {
        block_starts(tokens.drop_last()) + if tokens.last().kind is Indent {
            1nat
        } else {
            0nat
        }
    }
}

/// How many tokens of `tokens` end a block.
pub open spec fn block_ends(tokens: Seq<TokenView>) -> nat
    decreases tokens.len(),
{
    if tokens.len() == 0 {
        0
    } else {
        block_ends(tokens.drop_last()) + if tokens.last().kind is Dedent {
            1nat
        } else {
            0nat
        }
    }
}

/// How many tokens of `tokens` are the end of input.
pub open spec fn input_ends(tokens: Seq<TokenView>) -> nat
    decreases tokens.len(),
{
    if tokens.len() == 0 {
        0
    } else {
        input_ends(tokens.drop_last()) + if tokens.last().kind is Eof {
            1nat
        } else {
            0nat
        }
    }
}

/// The blocks that the tokens leave open are those of the open indentation
/// levels, and the end of input has not been written.
pub open spec fn balanced(st: ScanState) -> bool {
    &&& st.indents.len() >= 1
    &&& block_starts(st.tokens) == block_ends(st.tokens) + st.indents.len() - 1
    &&& input_ends(st.tokens) == 0
}

} // verus!
