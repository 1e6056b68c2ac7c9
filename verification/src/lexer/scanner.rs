//! The indentation-aware scanner.

use vstd::prelude::*;
use vstd::string::*;
use crate::lexer::rules::{
    balanced, block_ends, block_starts, input_ends, close_blocks, column_after, comment, dedent, identifier,
    indentation, interpolation, keyword_or_name, line_end, literal_or_name, name_end, number,
    region_rest, scan_all, scan_char, scan_token, ScanState, spaces_end, string, string_rest,
    StringFault, symbol, tokenize,
};
use crate::lexer::token::{Span, Token, token_views, TokenKind, TokenKindView, TokenView};
use crate::lexer::{LexerError, LexerErrorView};
use crate::number::{Number, number_end};
use crate::text::{lemma_length_fits, 
    bump, char_at, increment, is_ascii_digit, is_name_char, is_text, push_decimal, push_range,
    push_unescaped, string_of_range, to_chars, trim_string,
};

verus! {

/// How the scanner reads braces.
#[derive(Debug, Clone, Copy, PartialEq, Eq, Structural)]
pub enum ScannerMode {
    /// `{expr}` is an interpolation region.
    Html,
    /// `{` and `}` are ordinary characters.
    Expression,
}

/// The view of the scanner's result.
pub open spec fn tokens_result_view(r: Result<Vec<Token>, LexerError>) -> Result<
    Seq<TokenView>,
    LexerErrorView,
> {
    match r {
        Ok(tokens) => Ok(token_views(tokens@)),
        Err(e) => Err(e@),
    }
}

fn column_plus(column: usize, steps: usize) -> (r: usize)
    ensures
        r == column_after(column, steps as int),
{
    if steps <= usize::MAX - column {
        column + steps
    } else {
        usize::MAX
    }
}

/// The character at `pos`, or NUL past the end.
fn char_or_nul(chars: &Vec<char>, pos: usize) -> (c: char)
    ensures
        c == char_at(chars@, pos as int),
        chars@.len() <= usize::MAX,
{
    if pos < chars.len() {
        chars[pos]
    } else {
        '\0'
    }
}

/// Reads a string literal from the quote at `start`: its value and the
/// position behind its closing quote, or why it has no end.
fn read_string(chars: &Vec<char>, start: usize) -> (r: Result<(String, usize), Option<usize>>)
    requires
        start < chars@.len(),
    ensures
        match string_rest(chars@, start + 1, chars@[start as int], Seq::empty()) {
            Ok((value, end)) => r matches Ok((v, e)) && v@ == value && e == end && start < end
                <= chars@.len(),
            Err(StringFault::Escape(at)) => r == Err::<(String, usize), Option<usize>>(
                Some(at as usize),
            ) && start < at <= chars@.len(),
            Err(StringFault::Open) => r == Err::<(String, usize), Option<usize>>(None),
        },
{
    proof {
        lemma_length_fits(chars);
    }
    let quote = chars[start];
    let mut value = String::new();
    let mut pos = start + 1;
    while pos < chars.len() && chars[pos] != quote
        invariant
            start < pos <= chars@.len(),
            quote == chars@[start as int],
            string_rest(chars@, pos as int, quote, value@) == string_rest(
                chars@,
                start + 1,
                quote,
                Seq::empty(),
            ),
        decreases chars@.len() - pos,
    {
        proof {
            reveal(string_rest);
        }
        if chars[pos] == '\\' {
            if pos + 1 >= chars.len() {
                return Err(Some(pos + 1));
            }
            push_unescaped(&mut value, chars[pos + 1], quote);
            pos += 2;
        } else {
            value.push(chars[pos]);
            pos += 1;
        }
    }
    proof {
        reveal(string_rest);
    }
    if pos >= chars.len() {
        return Err(None);
    }
    Ok((value, pos + 1))
}

/// Reads an interpolation region from the brace at `start`: its content, the
/// position behind its closing brace, and the line and column there.
fn read_region(chars: &Vec<char>, start: usize, line: usize, column: usize) -> (r: Option<
    (String, usize, usize, usize),
>)
    requires
        start < chars@.len(),
    ensures
        match region_rest(chars@, start + 1, 1, Seq::empty(), line, bump(column)) {
            Some(region) => r matches Some((content, end, l, c)) && content@ == region.content
                && end == region.end && l == region.line && c == region.column && start < end
                <= chars@.len(),
            None => r is None,
        },
{
    proof {
        lemma_length_fits(chars);
    }
    let mut content = String::new();
    let mut depth: usize = 1;
    let mut pos = start + 1;
    let first_line = line;
    let first_column = column;
    let mut line = first_line;
    let mut column = increment(first_column);
    while pos < chars.len() && depth > 0
        invariant
            start < pos <= chars@.len(),
            depth <= pos - start,
            region_rest(chars@, pos as int, depth as int, content@, line, column) == region_rest(
                chars@,
                start + 1,
                1,
                Seq::empty(),
                first_line,
                bump(first_column),
            ),
        decreases chars@.len() - pos,
    {
        proof {
            reveal(region_rest);
        }
        let c = chars[pos];
        if c == '{' {
            depth += 1;
            content.push(c);
            column = increment(column);
        } else if c == '}' {
            depth -= 1;
            if depth > 0 {
                content.push(c);
            }
            column = increment(column);
        } else if c == '\n' {
            content.push(c);
            line = increment(line);
            column = 1;
        } else {
            content.push(c);
            column = increment(column);
        }
        pos += 1;
    }
    proof {
        reveal(region_rest);
    }
    if depth > 0 {
        return None;
    }
    Some((content, pos, line, column))
}

/// The end of the run of name characters that starts at `from`.
fn find_name_end(chars: &Vec<char>, from: usize) -> (end: usize)
    requires
        from <= chars@.len(),
    ensures
        end == name_end(chars@, from as int),
        from <= end <= chars@.len(),
{
    let mut pos = from;
    while pos < chars.len() && (is_name_char(chars[pos]) || (chars[pos] == '-' && char_or_nul(
        chars,
        pos + 1,
    ).is_alphanumeric()))
        invariant
            from <= pos <= chars@.len(),
            name_end(chars@, pos as int) == name_end(chars@, from as int),
        decreases chars@.len() - pos,
    {
        proof {
            reveal(name_end);
        }
        pos += 1;
    }
    proof {
        reveal(name_end);
    }
    pos
}

/// The end of the run of digits and points that starts at `from`.
fn find_number_end(chars: &Vec<char>, from: usize) -> (end: usize)
    requires
        from <= chars@.len(),
    ensures
        end == number_end(chars@, from as int),
        from <= end <= chars@.len(),
{
    let mut pos = from;
    while pos < chars.len() && (is_ascii_digit(chars[pos]) || chars[pos] == '.')
        invariant
            from <= pos <= chars@.len(),
            number_end(chars@, pos as int) == number_end(chars@, from as int),
        decreases chars@.len() - pos,
    {
        pos += 1;
    }
    pos
}

/// The first line break at or behind `from`, or the end of the text.
fn find_line_end(chars: &Vec<char>, from: usize) -> (end: usize)
    requires
        from <= chars@.len(),
    ensures
        end == line_end(chars@, from as int),
        from <= end <= chars@.len(),
{
    let mut pos = from;
    while pos < chars.len() && chars[pos] != '\n' && chars[pos] != '\r'
        invariant
            from <= pos <= chars@.len(),
            line_end(chars@, pos as int) == line_end(chars@, from as int),
        decreases chars@.len() - pos,
    {
        proof {
            reveal(line_end);
        }
        pos += 1;
    }
    proof {
        reveal(line_end);
    }
    pos
}

/// The end of the run of spaces that starts at `from`.
fn find_spaces_end(chars: &Vec<char>, from: usize) -> (end: usize)
    requires
        from <= chars@.len(),
    ensures
        end == spaces_end(chars@, from as int),
        from <= end <= chars@.len(),
{
    let mut pos = from;
    while pos < chars.len() && chars[pos] == ' '
        invariant
            from <= pos <= chars@.len(),
            spaces_end(chars@, pos as int) == spaces_end(chars@, from as int),
        decreases chars@.len() - pos,
    {
        proof {
            reveal(spaces_end);
        }
        pos += 1;
    }
    proof {
        reveal(spaces_end);
    }
    pos
}

fn literal_or_ident(ident: String) -> (kind: TokenKind)
    ensures
        kind@ == literal_or_name(ident@),
{
    if is_text(&ident, "true") {
        TokenKind::Boolean(true)
    } else if is_text(&ident, "false") {
        TokenKind::Boolean(false)
    } else if is_text(&ident, "null") {
        TokenKind::Null
    } else {
        TokenKind::Identifier(ident)
    }
}

fn symbol_kind(c: char) -> (kind: Option<TokenKind>)
    ensures
        match symbol(c) {
            Some(k) => kind matches Some(x) && x@ == k,
            None => kind is None,
        },
{
    if c == '.' {
        Some(TokenKind::Dot)
    } else if c == ':' {
        Some(TokenKind::Colon)
    } else if c == '@' {
        Some(TokenKind::At)
    } else if c == '$' {
        Some(TokenKind::Dollar)
    } else if c == '#' {
        Some(TokenKind::Hash)
    } else if c == '+' {
        Some(TokenKind::Plus)
    } else if c == '=' {
        Some(TokenKind::Equals)
    } else if c == ',' {
        Some(TokenKind::Comma)
    } else if c == '(' {
        Some(TokenKind::LParen)
    } else if c == ')' {
        Some(TokenKind::RParen)
    } else {
        None
    }
}

/// The scanner: the source characters and how far they have been read.
pub struct Scanner {
    chars: Vec<char>,
    pos: usize,
    line: usize,
    column: usize,
    tokens: Vec<Token>,
    indent_stack: Vec<usize>,
    at_line_start: bool,
    mode: ScannerMode,
}

impl Scanner {
    /// The characters that are being read.
    pub closed spec fn source(&self) -> Seq<char> {
        self.chars@
    }

    /// How far the scanner has come.
    pub closed spec fn state(&self) -> ScanState {
        ScanState {
            pos: self.pos as int,
            line: self.line,
            column: self.column,
            tokens: token_views(self.tokens@),
            indents: self.indent_stack@,
            at_line_start: self.at_line_start,
        }
    }

    /// How braces are read.
    pub closed spec fn reads_html(&self) -> bool {
        self.mode == ScannerMode::Html
    }

    spec fn wf(&self) -> bool {
        &&& self.pos <= self.chars@.len()
        &&& balanced(self.state())
    }

    /// What a scanning step keeps: the characters and the mode.
    spec fn same_source(&self, before: Self) -> bool {
        self.chars == before.chars && self.mode == before.mode
    }

    /// A scanner at the start of `source`.
    pub fn new(source: &str) -> (scanner: Self)
        ensures
            scanner.source() == source@,
            scanner.state() == ScanState::initial(),
            scanner.reads_html(),
    {
        let mut indent_stack: Vec<usize> = Vec::new();
        indent_stack.push(0);
        let scanner = Scanner {
            chars: to_chars(source),
            pos: 0,
            line: 1,
            column: 1,
            tokens: Vec::new(),
            indent_stack,
            at_line_start: true,
            mode: ScannerMode::Html,
        };
        assert(scanner.indent_stack@ =~= seq![0usize]);
        assert(token_views(scanner.tokens@) =~= Seq::empty());
        scanner
    }

    /// A scanner at the start of `source` that reads braces as `mode` says.
    pub fn with_mode(source: &str, mode: ScannerMode) -> (scanner: Self)
        ensures
            scanner.source() == source@,
            scanner.state() == ScanState::initial(),
            scanner.reads_html() == (mode == ScannerMode::Html),
    {
        let mut scanner = Scanner::new(source);
        scanner.mode = mode;
        scanner
    }

    /// The tokens of `source`. Block starts and block ends are balanced, and
    /// the last token is the end of input.
    pub fn tokenize(source: &str) -> (r: Result<Vec<Token>, LexerError>)
        ensures
            tokens_result_view(r) == tokenize(source@),
            r matches Ok(tokens) ==> block_starts(token_views(tokens@)) == block_ends(
                token_views(tokens@),
            ) && tokens@.len() > 0 && tokens@.last()@.kind is Eof && input_ends(
                token_views(tokens@),
            ) == 1,
    {
        let mut scanner = Scanner::new(source);
        match scanner.scan_tokens() {
            Ok(()) => Ok(scanner.tokens),
            Err(e) => Err(e),
        }
    }

    /// Scans to the end of the text, closes the open blocks and adds the
    /// end-of-input token.
    fn scan_tokens(&mut self) -> (r: Result<(), LexerError>)
        requires
            old(self).wf(),
        ensures
            final(self).same_source(*old(self)),
            match scan_all(old(self).chars@, old(self).state(), old(self).reads_html()) {
                Ok(st) => r is Ok && final(self).state() == close_blocks(st).emit(
                    TokenKindView::Eof,
                ) && block_starts(final(self).state().tokens) == block_ends(
                    final(self).state().tokens,
                ) && input_ends(final(self).state().tokens) == 1,
                Err(e) => r matches Err(x) && x@ == e,
            },
    {
        while !self.is_at_end()
            invariant
                self.wf(),
                self.same_source(*old(self)),
                scan_all(self.chars@, self.state(), self.reads_html()) == scan_all(
                    old(self).chars@,
                    old(self).state(),
                    old(self).reads_html(),
                ),
            decreases self.chars@.len() - self.pos,
        {
            proof {
                reveal(scan_all);
            }
            match self.scan_token() {
                Ok(()) => {},
                Err(e) => {
                    return Err(e);
                },
            }
        }
        proof {
            reveal(scan_all);
        }
        let ghost at_end = self.state();
        while self.indent_stack.len() > 1
            invariant
                self.wf(),
                self.same_source(*old(self)),
                close_blocks(self.state()) == close_blocks(at_end),
            decreases self.indent_stack@.len(),
        {
            proof {
                reveal(close_blocks);
            }
            self.indent_stack.pop();
            self.emit(TokenKind::Dedent);
        }
        proof {
            reveal(close_blocks);
        }
        self.emit(TokenKind::Eof);
        Ok(())
    }

    /// One step of the scanner, from a position inside the text.
    fn scan_token(&mut self) -> (r: Result<(), LexerError>)
        requires
            old(self).wf(),
            old(self).pos < old(self).chars@.len(),
        ensures
            final(self).same_source(*old(self)),
            match scan_token(old(self).chars@, old(self).state(), old(self).reads_html()) {
                Ok(st) => r is Ok && final(self).state() == st && final(self).wf() && old(
                    self,
                ).pos < final(self).pos,
                Err(e) => r matches Err(x) && x@ == e,
            },
    {
        if self.at_line_start {
            match self.handle_indentation() {
                Ok(()) => {},
                Err(e) => {
                    return Err(e);
                },
            }
            self.at_line_start = false;
            if self.is_at_end() {
                return Ok(());
            }
        }
        self.scan_char()
    }

    /// One step in the middle of a line.
    fn scan_char(&mut self) -> (r: Result<(), LexerError>)
        requires
            old(self).wf(),
            old(self).pos < old(self).chars@.len(),
        ensures
            final(self).same_source(*old(self)),
            match scan_char(old(self).chars@, old(self).state(), old(self).reads_html()) {
                Ok(st) => r is Ok && final(self).state() == st && final(self).wf() && old(
                    self,
                ).pos < final(self).pos,
                Err(e) => r matches Err(x) && x@ == e,
            },
    {
        let ch = self.peek();
        if ch == ' ' || ch == '\t' {
            self.advance();
            Ok(())
        } else if ch == '\n' {
            self.emit(TokenKind::Newline);
            self.advance();
            self.start_line();
            Ok(())
        } else if ch == '\r' {
            self.advance();
            if !self.is_at_end() && self.peek() == '\n' {
                self.advance();
            }
            self.emit(TokenKind::Newline);
            self.start_line();
            Ok(())
        } else if ch == '/' && self.peek_next() == '/' {
            self.scan_comment();
            Ok(())
        } else if ch == '"' || ch == '\'' {
            self.scan_string()
        } else if ch == '{' && self.mode == ScannerMode::Html {
            self.scan_interpolation()
        } else if is_ascii_digit(ch) {
            self.scan_number()
        } else if let Some(kind) = symbol_kind(ch) {
            self.emit(kind);
            self.advance();
            Ok(())
        } else if ch.is_alphabetic() || ch == '_' {
            self.scan_identifier();
            Ok(())
        } else {
            let mut message = String::from_str("Unexpected character: '");
            message.push(ch);
            message.append("'");
            Err(self.error(message))
        }
    }

    /// Reads the indentation of the line that starts here.
    fn handle_indentation(&mut self) -> (r: Result<(), LexerError>)
        requires
            old(self).wf(),
        ensures
            final(self).same_source(*old(self)),
            match indentation(old(self).chars@, old(self).state()) {
                Ok(st) => r is Ok && final(self).state() == st && final(self).wf() && old(
                    self,
                ).pos <= final(self).pos,
                Err(e) => r matches Err(x) && x@ == e,
            },
    {
        let end = find_spaces_end(&self.chars, self.pos);
        let spaces = end - self.pos;
        self.move_to(end);
        let next = self.peek();
        if !self.is_at_end() && next == '\t' {
            return Err(
                self.error(String::from_str("Tabs are not allowed for indentation, use spaces")),
            );
        }
        if self.is_at_end() || next == '\n' || next == '\r' {
            return Ok(());
        }
        if next == '/' && self.peek_next() == '/' {
            return Ok(());
        }
        let current = self.indent_stack[self.indent_stack.len() - 1];
        if spaces > current {
            self.indent_stack.push(spaces);
            self.emit(TokenKind::Indent);
        } else if spaces < current {
            let ghost at = self.state();
            while self.indent_stack.len() > 1 && self.indent_stack[self.indent_stack.len() - 1]
                > spaces
                invariant
                    self.wf(),
                    self.same_source(*old(self)),
                    self.pos == end,
                    dedent(self.state(), spaces) == dedent(at, spaces),
                decreases self.indent_stack@.len(),
            {
                proof {
                    reveal(dedent);
                }
                self.indent_stack.pop();
                self.emit(TokenKind::Dedent);
            }
            proof {
                reveal(dedent);
            }
            if self.indent_stack[self.indent_stack.len() - 1] != spaces {
                let mut message = String::from_str(
                    "Indentation does not match any outer level (got ",
                );
                push_decimal(&mut message, spaces);
                message.append(" spaces)");
                return Err(self.error(message));
            }
        }
        Ok(())
    }

    /// Reads the string literal that starts with the quote at the current
    /// position.
    fn scan_string(&mut self) -> (r: Result<(), LexerError>)
        requires
            old(self).wf(),
            old(self).pos < old(self).chars@.len(),
        ensures
            final(self).same_source(*old(self)),
            match string(old(self).chars@, old(self).state()) {
                Ok(st) => r is Ok && final(self).state() == st && final(self).wf() && old(
                    self,
                ).pos < final(self).pos,
                Err(e) => r matches Err(x) && x@ == e,
            },
    {
        proof {
            lemma_length_fits(&self.chars);
        }
        match read_string(&self.chars, self.pos) {
            Ok((value, end)) => {
                self.push_token(TokenKind::String(value), end);
                Ok(())
            },
            Err(Some(at)) => Err(
                LexerError {
                    message: String::from_str("Unterminated escape sequence"),
                    line: self.line,
                    column: column_plus(self.column, at - self.pos),
                },
            ),
            Err(None) => Err(self.error(String::from_str("Unterminated string"))),
        }
    }

    /// Reads the interpolation region that starts with the brace at the
    /// current position.
    fn scan_interpolation(&mut self) -> (r: Result<(), LexerError>)
        requires
            old(self).wf(),
            old(self).pos < old(self).chars@.len(),
        ensures
            final(self).same_source(*old(self)),
            match interpolation(old(self).chars@, old(self).state()) {
                Ok(st) => r is Ok && final(self).state() == st && final(self).wf() && old(
                    self,
                ).pos < final(self).pos,
                Err(e) => r matches Err(x) && x@ == e,
            },
    {
        match read_region(&self.chars, self.pos, self.line, self.column) {
            Some((content, end, line, column)) => {
                self.push_token(TokenKind::Interpolation(trim_string(&content)), end);
                self.line = line;
                self.column = column;
                Ok(())
            },
            None => Err(self.error(String::from_str("Unterminated interpolation"))),
        }
    }

    /// Reads the name, keyword or literal that starts at the current
    /// position.
    fn scan_identifier(&mut self)
        requires
            old(self).wf(),
            old(self).pos < old(self).chars@.len(),
        ensures
            final(self).same_source(*old(self)),
            final(self).state() == identifier(old(self).chars@, old(self).state()),
            final(self).wf(),
            old(self).pos < final(self).pos,
    {
        proof {
            lemma_length_fits(&self.chars);
        }
        let end = find_name_end(&self.chars, self.pos + 1);
        let ident = string_of_range(&self.chars, self.pos, end);
        let after_prefix = self.tokens.len() > 0 && match self.tokens[self.tokens.len() - 1].kind {
            TokenKind::Dot | TokenKind::Colon | TokenKind::At | TokenKind::Dollar
            | TokenKind::Hash | TokenKind::Plus => true,
            _ => false,
        };
        let kind = if after_prefix {
            literal_or_ident(ident)
        } else {
            Scanner::keyword_or_ident(ident)
        };
        self.push_token(kind, end);
    }

    /// Reads the number literal that starts with the digit at the current
    /// position.
    fn scan_number(&mut self) -> (r: Result<(), LexerError>)
        requires
            old(self).wf(),
            old(self).pos < old(self).chars@.len(),
        ensures
            final(self).same_source(*old(self)),
            match number(old(self).chars@, old(self).state()) {
                Ok(st) => r is Ok && final(self).state() == st && final(self).wf() && old(
                    self,
                ).pos < final(self).pos,
                Err(e) => r matches Err(x) && x@ == e,
            },
    {
        proof {
            lemma_length_fits(&self.chars);
        }
        let end = find_number_end(&self.chars, self.pos + 1);
        match Number::parse_range(&self.chars, self.pos, end) {
            Some(value) => {
                self.push_token(TokenKind::Number(value), end);
                Ok(())
            },
            None => {
                let mut message = String::from_str("Invalid number: '");
                push_range(&mut message, &self.chars, self.pos, end);
                message.append("'");
                Err(self.error(message))
            },
        }
    }

    /// Reads the comment that starts with `//` at the current position.
    fn scan_comment(&mut self)
        requires
            old(self).wf(),
            old(self).pos + 1 < old(self).chars@.len(),
        ensures
            final(self).same_source(*old(self)),
            final(self).state() == comment(old(self).chars@, old(self).state()),
            final(self).wf(),
            old(self).pos < final(self).pos,
    {
        proof {
            lemma_length_fits(&self.chars);
        }
        let start = if char_or_nul(&self.chars, self.pos + 2) == ' ' {
            self.pos + 3
        } else {
            self.pos + 2
        };
        let end = find_line_end(&self.chars, start);
        let content = string_of_range(&self.chars, start, end);
        self.push_token(TokenKind::Comment(content), end);
    }

    /// The keyword, literal or name that `ident` is.
    fn keyword_or_ident(ident: String) -> (kind: TokenKind)
        ensures
            kind@ == keyword_or_name(ident@),
    {
        if is_text(&ident, "state") {
            TokenKind::State
        } else if is_text(&ident, "computed") {
            TokenKind::Computed
        } else if is_text(&ident, "fn") {
            TokenKind::Fn
        } else if is_text(&ident, "async") {
            TokenKind::Async
        } else if is_text(&ident, "watch") {
            TokenKind::Watch
        } else if is_text(&ident, "props") {
            TokenKind::Props
        } else if is_text(&ident, "emit") {
            TokenKind::Emit
        } else if is_text(&ident, "import") {
            TokenKind::Import
        } else if is_text(&ident, "page") {
            TokenKind::Page
        } else if is_text(&ident, "config") {
            TokenKind::Config
        } else {
            literal_or_ident(ident)
        }
    }

    // -- helpers ------------------------------------------------------------

    /// Adds a token of kind `kind` that runs from the current position to
    /// `end`, and moves there.
    fn push_token(&mut self, kind: TokenKind, end: usize)
        requires
            old(self).wf(),
            old(self).pos < end <= old(self).chars@.len(),
            !(kind@ is Indent),
            !(kind@ is Dedent),
            !(kind@ is Eof),
        ensures
            final(self).same_source(*old(self)),
            final(self).state() == old(self).state().with_token(
                kind@,
                old(self).state().span_to(end as int),
            ).moved_to(end as int),
            final(self).wf(),
            final(self).pos == end,
    {
        let span = Span::new(self.pos, end, self.line, self.column);
        self.add(Token::new(kind, span));
        self.move_to(end);
    }

    /// Adds a token of no extent at the current position.
    fn emit(&mut self, kind: TokenKind)
        requires
            old(self).pos <= old(self).chars@.len(),
        ensures
            final(self).same_source(*old(self)),
            final(self).state() == old(self).state().emit(kind@),
            final(self).pos == old(self).pos,
            final(self).indent_stack == old(self).indent_stack,
            block_starts(final(self).state().tokens) == block_starts(old(self).state().tokens) + (
            if kind@ is Indent {
                1nat
            } else {
                0nat
            }),
            block_ends(final(self).state().tokens) == block_ends(old(self).state().tokens) + (
            if kind@ is Dedent {
                1nat
            } else {
                0nat
            }),
            input_ends(final(self).state().tokens) == input_ends(old(self).state().tokens) + (
            if kind@ is Eof {
                1nat
            } else {
                0nat
            }),
    {
        let span = Span::new(self.pos, self.pos, self.line, self.column);
        self.add(Token::new(kind, span));
    }

    /// Adds `token` to the tokens.
    fn add(&mut self, token: Token)
        ensures
            final(self).same_source(*old(self)),
            final(self).state() == (ScanState {
                tokens: old(self).state().tokens.push(token@),
                ..old(self).state()
            }),
            final(self).pos == old(self).pos,
            final(self).line == old(self).line,
            final(self).column == old(self).column,
            final(self).indent_stack == old(self).indent_stack,
            block_starts(final(self).state().tokens) == block_starts(old(self).state().tokens) + (
            if token@.kind is Indent {
                1nat
            } else {
                0nat
            }),
            block_ends(final(self).state().tokens) == block_ends(old(self).state().tokens) + (
            if token@.kind is Dedent {
                1nat
            } else {
                0nat
            }),
            input_ends(final(self).state().tokens) == input_ends(old(self).state().tokens) + (
            if token@.kind is Eof {
                1nat
            } else {
                0nat
            }),
    {
        let ghost before = token_views(self.tokens@);
        self.tokens.push(token);
        assert(token_views(self.tokens@) =~= before.push(token@));
        assert(before.push(token@).drop_last() =~= before);
    }

    fn peek(&self) -> (c: char)
        ensures
            c == char_at(self.chars@, self.pos as int),
    {
        char_or_nul(&self.chars, self.pos)
    }

    fn peek_next(&self) -> (c: char)
        requires
            self.pos < self.chars@.len(),
        ensures
            c == char_at(self.chars@, self.pos + 1),
    {
        proof {
            lemma_length_fits(&self.chars);
        }
        char_or_nul(&self.chars, self.pos + 1)
    }

    fn advance(&mut self)
        requires
            old(self).wf(),
        ensures
            final(self).same_source(*old(self)),
            final(self).state() == old(self).state().advance(old(self).chars@),
            final(self).wf(),
    {
        if !self.is_at_end() {
            self.pos += 1;
            self.column = increment(self.column);
        }
    }

    /// Moves to `end`, further on in the same line.
    fn move_to(&mut self, end: usize)
        requires
            old(self).pos <= end <= old(self).chars@.len(),
        ensures
            final(self).same_source(*old(self)),
            final(self).state() == old(self).state().moved_to(end as int),
            final(self).pos == end,
            final(self).indent_stack == old(self).indent_stack,
            final(self).tokens == old(self).tokens,
    {
        self.column = column_plus(self.column, end - self.pos);
        self.pos = end;
    }

    /// Goes on to the start of the next line.
    fn start_line(&mut self)
        ensures
            final(self).same_source(*old(self)),
            final(self).state() == old(self).state().next_line(),
            final(self).pos == old(self).pos,
            final(self).indent_stack == old(self).indent_stack,
            final(self).tokens == old(self).tokens,
    {
        self.line = increment(self.line);
        self.column = 1;
        self.at_line_start = true;
    }

    fn is_at_end(&self) -> (b: bool)
        ensures
            b == (self.pos >= self.chars@.len()),
            self.chars@.len() <= usize::MAX,
    {
        self.pos >= self.chars.len()
    }

    fn error(&self, message: String) -> (e: LexerError)
        ensures
            e@ == self.state().error(message@),
    {
        LexerError { message, line: self.line, column: self.column }
    }
}

} // verus!
