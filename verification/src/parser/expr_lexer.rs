//! The tokenizer of the expression language that stands in attribute
//! values, interpolation regions and computed fields.

use vstd::prelude::*;
use vstd::string::*;
use crate::number::{is_literal, literal_value, Number, number_end, NumberView};
use crate::parser::ast::ExprSpan;
use crate::text::{lemma_length_fits, 
    char_at, char_is_whitespace, is_ascii_digit, is_digit, is_name_char, is_text, is_word_char,
    push_unescaped, skip_whitespace_from, string_of_range, to_chars, unescaped,
};

verus! {

/// The kinds of expression token.
#[derive(Debug, Clone, Copy, PartialEq, Eq, Structural)]
pub enum TokenKind {
    // Literals
    Number,
    String,
    Boolean,
    Null,
    Undefined,
    // Identifiers and keywords
    Identifier,
    Typeof,
    // Arithmetic
    Plus,
    Minus,
    Star,
    Slash,
    Percent,
    // Comparison
    EqEq,
    NotEq,
    StrictEq,
    StrictNotEq,
    Lt,
    Gt,
    Lte,
    Gte,
    // Logical
    And,
    Or,
    Not,
    QuestionQuestion,
    // Assignment
    Eq,
    PlusEq,
    MinusEq,
    StarEq,
    SlashEq,
    // Postfix
    PlusPlus,
    MinusMinus,
    // Delimiters
    LParen,
    RParen,
    LBracket,
    RBracket,
    LBrace,
    RBrace,
    // Punctuation
    Dot,
    Comma,
    Colon,
    Semicolon,
    Question,
    Arrow,
    OptionalChain,
    // Interpolation
    InterpolationStart,
    InterpolationEnd,
    // End of input
    Eof,
}

impl TokenKind {
    /// The name of the kind, as diagnostics write it.
    pub open spec fn name(self) -> Seq<char> {
        match self {
            TokenKind::Number => "Number"@,
            TokenKind::String => "String"@,
            TokenKind::Boolean => "Boolean"@,
            TokenKind::Null => "Null"@,
            TokenKind::Undefined => "Undefined"@,
            TokenKind::Identifier => "Identifier"@,
            TokenKind::Typeof => "Typeof"@,
            TokenKind::Plus => "Plus"@,
            TokenKind::Minus => "Minus"@,
            TokenKind::Star => "Star"@,
            TokenKind::Slash => "Slash"@,
            TokenKind::Percent => "Percent"@,
            TokenKind::EqEq => "EqEq"@,
            TokenKind::NotEq => "NotEq"@,
            TokenKind::StrictEq => "StrictEq"@,
            TokenKind::StrictNotEq => "StrictNotEq"@,
            TokenKind::Lt => "Lt"@,
            TokenKind::Gt => "Gt"@,
            TokenKind::Lte => "Lte"@,
            TokenKind::Gte => "Gte"@,
            TokenKind::And => "And"@,
            TokenKind::Or => "Or"@,
            TokenKind::Not => "Not"@,
            TokenKind::QuestionQuestion => "QuestionQuestion"@,
            TokenKind::Eq => "Eq"@,
            TokenKind::PlusEq => "PlusEq"@,
            TokenKind::MinusEq => "MinusEq"@,
            TokenKind::StarEq => "StarEq"@,
            TokenKind::SlashEq => "SlashEq"@,
            TokenKind::PlusPlus => "PlusPlus"@,
            TokenKind::MinusMinus => "MinusMinus"@,
            TokenKind::LParen => "LParen"@,
            TokenKind::RParen => "RParen"@,
            TokenKind::LBracket => "LBracket"@,
            TokenKind::RBracket => "RBracket"@,
            TokenKind::LBrace => "LBrace"@,
            TokenKind::RBrace => "RBrace"@,
            TokenKind::Dot => "Dot"@,
            TokenKind::Comma => "Comma"@,
            TokenKind::Colon => "Colon"@,
            TokenKind::Semicolon => "Semicolon"@,
            TokenKind::Question => "Question"@,
            TokenKind::Arrow => "Arrow"@,
            TokenKind::OptionalChain => "OptionalChain"@,
            TokenKind::InterpolationStart => "InterpolationStart"@,
            TokenKind::InterpolationEnd => "InterpolationEnd"@,
            TokenKind::Eof => "Eof"@,
        }
    }

    /// The name of the kind, as diagnostics write it.
    pub fn debug_text(&self) -> (r: String)
        ensures
            r@ == self.name(),
    {
        match self {
            TokenKind::Number => String::from_str("Number"),
            TokenKind::String => String::from_str("String"),
            TokenKind::Boolean => String::from_str("Boolean"),
            TokenKind::Null => String::from_str("Null"),
            TokenKind::Undefined => String::from_str("Undefined"),
            TokenKind::Identifier => String::from_str("Identifier"),
            TokenKind::Typeof => String::from_str("Typeof"),
            TokenKind::Plus => String::from_str("Plus"),
            TokenKind::Minus => String::from_str("Minus"),
            TokenKind::Star => String::from_str("Star"),
            TokenKind::Slash => String::from_str("Slash"),
            TokenKind::Percent => String::from_str("Percent"),
            TokenKind::EqEq => String::from_str("EqEq"),
            TokenKind::NotEq => String::from_str("NotEq"),
            TokenKind::StrictEq => String::from_str("StrictEq"),
            TokenKind::StrictNotEq => String::from_str("StrictNotEq"),
            TokenKind::Lt => String::from_str("Lt"),
            TokenKind::Gt => String::from_str("Gt"),
            TokenKind::Lte => String::from_str("Lte"),
            TokenKind::Gte => String::from_str("Gte"),
            TokenKind::And => String::from_str("And"),
            TokenKind::Or => String::from_str("Or"),
            TokenKind::Not => String::from_str("Not"),
            TokenKind::QuestionQuestion => String::from_str("QuestionQuestion"),
            TokenKind::Eq => String::from_str("Eq"),
            TokenKind::PlusEq => String::from_str("PlusEq"),
            TokenKind::MinusEq => String::from_str("MinusEq"),
            TokenKind::StarEq => String::from_str("StarEq"),
            TokenKind::SlashEq => String::from_str("SlashEq"),
            TokenKind::PlusPlus => String::from_str("PlusPlus"),
            TokenKind::MinusMinus => String::from_str("MinusMinus"),
            TokenKind::LParen => String::from_str("LParen"),
            TokenKind::RParen => String::from_str("RParen"),
            TokenKind::LBracket => String::from_str("LBracket"),
            TokenKind::RBracket => String::from_str("RBracket"),
            TokenKind::LBrace => String::from_str("LBrace"),
            TokenKind::RBrace => String::from_str("RBrace"),
            TokenKind::Dot => String::from_str("Dot"),
            TokenKind::Comma => String::from_str("Comma"),
            TokenKind::Colon => String::from_str("Colon"),
            TokenKind::Semicolon => String::from_str("Semicolon"),
            TokenKind::Question => String::from_str("Question"),
            TokenKind::Arrow => String::from_str("Arrow"),
            TokenKind::OptionalChain => String::from_str("OptionalChain"),
            TokenKind::InterpolationStart => String::from_str("InterpolationStart"),
            TokenKind::InterpolationEnd => String::from_str("InterpolationEnd"),
            TokenKind::Eof => String::from_str("Eof"),
        }
    }
}

/// What a token carries besides its kind.
#[derive(Debug, PartialEq)]
pub enum TokenValue {
    /// The token carries nothing.
    Nothing,
    Number(Number),
    String(String),
    Boolean(bool),
    Identifier(String),
}

/// What a [`TokenValue`] holds.
pub ghost enum TokenValueView {
    Nothing,
    Number(NumberView),
    String(Seq<char>),
    Boolean(bool),
    Identifier(Seq<char>),
}

impl View for TokenValue {
    type V = TokenValueView;

    open spec fn view(&self) -> TokenValueView {
        match self {
            TokenValue::Nothing => TokenValueView::Nothing,
            TokenValue::Number(n) => TokenValueView::Number(n@),
            TokenValue::String(s) => TokenValueView::String(s@),
            TokenValue::Boolean(b) => TokenValueView::Boolean(*b),
            TokenValue::Identifier(s) => TokenValueView::Identifier(s@),
        }
    }
}

impl Clone for TokenValue {
    fn clone(&self) -> (r: Self)
        ensures
            r@ == self@,
    {
        match self {
            TokenValue::Nothing => TokenValue::Nothing,
            TokenValue::Number(n) => TokenValue::Number(n.clone()),
            TokenValue::String(s) => TokenValue::String(s.clone()),
            TokenValue::Boolean(b) => TokenValue::Boolean(*b),
            TokenValue::Identifier(s) => TokenValue::Identifier(s.clone()),
        }
    }
}

/// An expression token: its kind, where it stands, and what it carries.
#[derive(Debug, PartialEq)]
pub struct Token {
    pub kind: TokenKind,
    pub span: ExprSpan,
    pub value: TokenValue,
}

/// What a [`Token`] holds.
pub ghost struct TokenView {
    pub kind: TokenKind,
    pub span: ExprSpan,
    pub value: TokenValueView,
}

impl View for Token {
    type V = TokenView;

    open spec fn view(&self) -> TokenView {
        TokenView { kind: self.kind, span: self.span, value: self.value@ }
    }
}

impl Clone for Token {
    fn clone(&self) -> (r: Self)
        ensures
            r@ == self@,
    {
        Token { kind: self.kind, span: self.span, value: self.value.clone() }
    }
}

/// The views of a sequence of tokens.
pub open spec fn token_views(tokens: Seq<Token>) -> Seq<TokenView> {
    Seq::new(tokens.len(), |i: int| tokens[i]@)
}

/// A failure of the expression tokenizer, with the characters it is about.
#[derive(Debug, Clone, PartialEq)]
pub struct ExprLexerError {
    pub message: String,
    pub span: ExprSpan,
}

/// What an [`ExprLexerError`] holds.
pub ghost struct ExprLexerErrorView {
    pub message: Seq<char>,
    pub span: ExprSpan,
}

impl View for ExprLexerError {
    type V = ExprLexerErrorView;

    open spec fn view(&self) -> ExprLexerErrorView {
        ExprLexerErrorView { message: self.message@, span: self.span }
    }
}

impl ExprLexerErrorView {
    /// The error as one line of text.
    pub open spec fn rendered(self) -> Seq<char> {
        "Expression lexer error at position "@ + crate::text::decimal(self.span.start as nat)
            + ": "@ + self.message
    }
}

impl ExprLexerError {
    /// The error as one line of text, with its position.
    pub fn to_string(&self) -> (r: String)
        ensures
            r@ == self@.rendered(),
    {
        let mut r = String::from_str("Expression lexer error at position ");
        crate::text::push_decimal(&mut r, self.span.start);
        r.append(": ");
        r.append(self.message.as_str());
        r
    }
}

// ---------------------------------------------------------------------------
// What the tokenizer computes
// ---------------------------------------------------------------------------
/// One token, and the position at which the next one is looked for.
pub ghost struct Lexed {
    pub token: TokenView,
    pub next: int,
}

/// The outcome of reading one token.
pub type LexResult = Result<Lexed, ExprLexerErrorView>;

/// The span from `start` to `end`.
pub open spec fn span_of(start: int, end: int) -> ExprSpan {
    ExprSpan { start: start as usize, end: end as usize }
}

/// A token without a value that covers `chars[start..end]`.
pub open spec fn plain(kind: TokenKind, start: int, end: int) -> LexResult {
    Ok(
        Lexed {
            token: TokenView { kind, span: span_of(start, end), value: TokenValueView::Nothing },
            next: end,
        },
    )
}

/// A character that may start a name: an ASCII letter, `_` or `$`.
pub open spec fn is_name_start(c: char) -> bool {
    ('a' <= c <= 'z') || ('A' <= c <= 'Z') || c == '_' || c == '$'
}

/// A character that may continue a name.
pub open spec fn is_name_part(c: char) -> bool {
    is_word_char(c) || c == '$'
}

/// The end of the run of name characters that starts at `pos`.
pub open spec fn name_end(chars: Seq<char>, pos: int) -> int
    decreases chars.len() - pos,
{
    if 0 <= pos < chars.len() && is_name_part(chars[pos]) {
        name_end(chars, pos + 1)
    } else {
        pos
    }
}

/// The number literal that starts with the digit at `start`: the whole run
/// of digits and points has to be one literal.
pub open spec fn number_token(chars: Seq<char>, start: int) -> LexResult {
    let end = number_end(chars, start + 1);
    let text = chars.subrange(start, end);
    if is_literal(text) {
        Ok(
            Lexed {
                token: TokenView {
                    kind: TokenKind::Number,
                    span: span_of(start, end),
                    value: TokenValueView::Number(literal_value(text)),
                },
                next: end,
            },
        )
    } else {
        Err(
            ExprLexerErrorView {
                message: "Invalid number: '"@ + text + "'"@,
                span: span_of(start, end),
            },
        )
    }
}

/// The word that starts at `start`, a start character and the name
/// characters that follow it: a literal, a keyword or a name.
pub open spec fn word_token(chars: Seq<char>, start: int) -> LexResult {
    let end = name_end(chars, start + 1);
    let text = chars.subrange(start, end);
    let (kind, value) = if text == "true"@ {
        (TokenKind::Boolean, TokenValueView::Boolean(true))
    } else if text == "false"@ {
        (TokenKind::Boolean, TokenValueView::Boolean(false))
    } else if text == "null"@ {
        (TokenKind::Null, TokenValueView::Nothing)
    } else if text == "undefined"@ {
        (TokenKind::Undefined, TokenValueView::Nothing)
    } else if text == "typeof"@ {
        (TokenKind::Typeof, TokenValueView::Nothing)
    } else {
        (TokenKind::Identifier, TokenValueView::Identifier(text))
    };
    Ok(Lexed { token: TokenView { kind, span: span_of(start, end), value }, next: end })
}

/// The rest of a string literal: `pos` is the next character to read, `start`
/// the opening quote, `value` what has been read so far.
pub open spec fn string_rest(
    chars: Seq<char>,
    pos: int,
    quote: char,
    start: int,
    value: Seq<char>,
) -> LexResult
    decreases chars.len() - pos,
{
    if !(0 <= pos < chars.len()) {
        Err(ExprLexerErrorView { message: "Unterminated string"@, span: span_of(start, pos) })
    } else if chars[pos] == quote {
        Ok(
            Lexed {
                token: TokenView {
                    kind: TokenKind::String,
                    span: span_of(start, pos + 1),
                    value: TokenValueView::String(value),
                },
                next: pos + 1,
            },
        )
    } else if chars[pos] == '\\' {
        if pos + 1 >= chars.len() {
            Err(
                ExprLexerErrorView {
                    message: "Unterminated escape sequence"@,
                    span: span_of(start, pos + 1),
                },
            )
        } else {
            string_rest(chars, pos + 2, quote, start, value + unescaped(chars[pos + 1], quote))
        }
    } else {
        string_rest(chars, pos + 1, quote, start, value.push(chars[pos]))
    }
}

/// The operator or punctuation mark at `pos`, the longest that matches, and
/// its length; `None` where no mark starts with that character.
pub open spec fn mark_at(chars: Seq<char>, pos: int) -> Option<(TokenKind, int)> {
    let c = char_at(chars, pos);
    let c1 = char_at(chars, pos + 1);
    let c2 = char_at(chars, pos + 2);
    if c == '=' {
        if c1 == '=' {
            if c2 == '=' {
                Some((TokenKind::StrictEq, 3))
            } else {
                Some((TokenKind::EqEq, 2))
            }
        } else if c1 == '>' {
            Some((TokenKind::Arrow, 2))
        } else {
            Some((TokenKind::Eq, 1))
        }
    } else if c == '!' {
        if c1 == '=' {
            if c2 == '=' {
                Some((TokenKind::StrictNotEq, 3))
            } else {
                Some((TokenKind::NotEq, 2))
            }
        } else {
            Some((TokenKind::Not, 1))
        }
    } else if c == '&' {
        if c1 == '&' {
            Some((TokenKind::And, 2))
        } else {
            None
        }
    } else if c == '|' {
        if c1 == '|' {
            Some((TokenKind::Or, 2))
        } else {
            None
        }
    } else if c == '+' {
        if c1 == '+' {
            Some((TokenKind::PlusPlus, 2))
        } else if c1 == '=' {
            Some((TokenKind::PlusEq, 2))
        } else {
            Some((TokenKind::Plus, 1))
        }
    } else if c == '-' {
        if c1 == '-' {
            Some((TokenKind::MinusMinus, 2))
        } else if c1 == '=' {
            Some((TokenKind::MinusEq, 2))
        } else {
            Some((TokenKind::Minus, 1))
        }
    } else if c == '*' {
        if c1 == '=' {
            Some((TokenKind::StarEq, 2))
        } else {
            Some((TokenKind::Star, 1))
        }
    } else if c == '/' {
        if c1 == '=' {
            Some((TokenKind::SlashEq, 2))
        } else {
            Some((TokenKind::Slash, 1))
        }
    } else if c == '<' {
        if c1 == '=' {
            Some((TokenKind::Lte, 2))
        } else {
            Some((TokenKind::Lt, 1))
        }
    } else if c == '>' {
        if c1 == '=' {
            Some((TokenKind::Gte, 2))
        } else {
            Some((TokenKind::Gt, 1))
        }
    } else if c == '?' {
        if c1 == '?' {
            Some((TokenKind::QuestionQuestion, 2))
        } else if c1 == '.' {
            Some((TokenKind::OptionalChain, 2))
        } else {
            Some((TokenKind::Question, 1))
        }
    } else if c == '{' {
        if c1 == '{' {
            Some((TokenKind::InterpolationStart, 2))
        } else {
            Some((TokenKind::LBrace, 1))
        }
    } else if c == '}' {
        if c1 == '}' {
            Some((TokenKind::InterpolationEnd, 2))
        } else {
            Some((TokenKind::RBrace, 1))
        }
    } else if c == '%' {
        Some((TokenKind::Percent, 1))
    } else if c == '(' {
        Some((TokenKind::LParen, 1))
    } else if c == ')' {
        Some((TokenKind::RParen, 1))
    } else if c == '[' {
        Some((TokenKind::LBracket, 1))
    } else if c == ']' {
        Some((TokenKind::RBracket, 1))
    } else if c == '.' {
        Some((TokenKind::Dot, 1))
    } else if c == ',' {
        Some((TokenKind::Comma, 1))
    } else if c == ':' {
        Some((TokenKind::Colon, 1))
    } else if c == ';' {
        Some((TokenKind::Semicolon, 1))
    } else {
        None
    }
}

/// The token that starts at `start`, which is inside the text and holds no
/// white space.
pub open spec fn token_at(chars: Seq<char>, start: int) -> LexResult {
    let ch = char_at(chars, start);
    if is_digit(ch) {
        number_token(chars, start)
    } else if ch == '\'' || ch == '"' || ch == '`' {
        string_rest(chars, start + 1, ch, start, Seq::empty())
    } else if is_name_start(ch) {
        word_token(chars, start)
    } else {
        match mark_at(chars, start) {
            Some((kind, len)) => plain(kind, start, start + len),
            None => Err(
                ExprLexerErrorView {
                    message: "Unexpected character: '"@.push(ch) + "'"@,
                    span: span_of(start, start + 1),
                },
            ),
        }
    }
}

/// The next token at or after `pos`: white space is skipped, and the end of
/// the text gives the end-of-input token.
pub open spec fn next_token(chars: Seq<char>, pos: int) -> LexResult {
    let start = skip_whitespace_from(chars, pos);
    if start >= chars.len() {
        plain(TokenKind::Eof, start, start)
    } else {
        token_at(chars, start)
    }
}

/// The tokens from `pos` on, after those of `done`, up to and including the
/// end-of-input token.
pub open spec fn tokens_from(chars: Seq<char>, pos: int, done: Seq<TokenView>) -> Result<
    Seq<TokenView>,
    ExprLexerErrorView,
>
    decreases chars.len() - pos,
{
    match next_token(chars, pos) {
        Err(e) => Err(e),
        Ok(lexed) => if lexed.token.kind != TokenKind::Eof && pos < lexed.next <= chars.len() {
            tokens_from(chars, lexed.next, done.push(lexed.token))
        } else {
            Ok(done.push(lexed.token))
        },
    }
}

/// The tokens of an expression text.
pub open spec fn tokenize(chars: Seq<char>) -> Result<Seq<TokenView>, ExprLexerErrorView> {
    tokens_from(chars, 0, Seq::empty())
}

/// The view of the tokenizer's result.
pub open spec fn tokens_result_view(r: Result<Vec<Token>, ExprLexerError>) -> Result<
    Seq<TokenView>,
    ExprLexerErrorView,
> {
    match r {
        Ok(tokens) => Ok(token_views(tokens@)),
        Err(e) => Err(e@),
    }
}

/// The view of the result of reading one token, given where the tokenizer
/// stands afterwards.
pub open spec fn lexed_view(r: Result<Token, ExprLexerError>, next: int) -> LexResult {
    match r {
        Ok(token) => Ok(Lexed { token: token@, next }),
        Err(e) => Err(e@),
    }
}

/// White space is skipped forwards, and never past the end of the text.
pub proof fn lemma_skip_whitespace_bounds(chars: Seq<char>, from: int)
    requires
        0 <= from <= chars.len(),
    ensures
        from <= skip_whitespace_from(chars, from) <= chars.len(),
    decreases chars.len() - from,
{
    if from < chars.len() && char_is_whitespace(chars[from]) {
        lemma_skip_whitespace_bounds(chars, from + 1);
    }
}

// ---------------------------------------------------------------------------
// The tokenizer
// ---------------------------------------------------------------------------
/// A tokenizer over one expression text.
pub struct ExprLexer {
    chars: Vec<char>,
    pos: usize,
}

impl ExprLexer {
    /// The text that is being read.
    pub closed spec fn text(&self) -> Seq<char> {
        self.chars@
    }

    /// The position of the next character to read.
    pub closed spec fn offset(&self) -> int {
        self.pos as int
    }

    #[verifier::type_invariant]
    spec fn inside(&self) -> bool {
        self.pos <= self.chars@.len()
    }

    /// A tokenizer at the start of `source`.
    pub fn new(source: &str) -> (lexer: Self)
        ensures
            lexer.text() == source@,
            lexer.offset() == 0,
    {
        ExprLexer { chars: to_chars(source), pos: 0 }
    }

    /// The tokens of `source`. The last of them, and no other, is the
    /// end-of-input token.
    pub fn tokenize(source: &str) -> (r: Result<Vec<Token>, ExprLexerError>)
        ensures
            tokens_result_view(r) == tokenize(source@),
            r matches Ok(tokens) ==> tokens@.len() > 0 && tokens@.last().kind == TokenKind::Eof
                && forall|i: int| 0 <= i < tokens@.len() - 1 ==> tokens@[i].kind != TokenKind::Eof,
    {
        let mut lexer = ExprLexer::new(source);
        let mut tokens: Vec<Token> = Vec::new();
        assert(token_views(tokens@) =~= Seq::empty());
        loop
            invariant_except_break
                lexer.text() == source@,
                0 <= lexer.offset() <= source@.len(),
                tokens_from(source@, lexer.offset(), token_views(tokens@)) == tokenize(source@),
                forall|i: int| 0 <= i < tokens@.len() ==> tokens@[i].kind != TokenKind::Eof,
            ensures
                tokenize(source@) == Ok::<Seq<TokenView>, ExprLexerErrorView>(
                    token_views(tokens@),
                ),
                tokens@.len() > 0,
                tokens@.last().kind == TokenKind::Eof,
                forall|i: int| 0 <= i < tokens@.len() - 1 ==> tokens@[i].kind != TokenKind::Eof,
            decreases source@.len() - lexer.offset(),
        {
            let ghost done = token_views(tokens@);
            let token = match lexer.next_token() {
                Ok(token) => token,
                Err(e) => {
                    return Err(e);
                },
            };
            let is_eof = token.kind == TokenKind::Eof;
            tokens.push(token);
            assert(token_views(tokens@) =~= done.push(token@));
            if is_eof {
                break ;
            }
        }
        Ok(tokens)
    }

    /// Reads the next token and moves behind it.
    pub fn next_token(&mut self) -> (r: Result<Token, ExprLexerError>)
        ensures
            final(self).text() == old(self).text(),
            old(self).offset() <= final(self).offset() <= final(self).text().len(),
            r is Ok ==> lexed_view(r, final(self).offset()) == next_token(
                old(self).text(),
                old(self).offset(),
            ),
            r is Err ==> lexed_view(r, 0) == next_token(old(self).text(), old(self).offset()),
            r matches Ok(token) && token.kind != TokenKind::Eof ==> old(self).offset()
                < final(self).offset(),
    {
        proof {
            use_type_invariant(&*self);
            lemma_skip_whitespace_bounds(self.chars@, self.pos as int);
        }
        self.skip_whitespace();
        proof {
            use_type_invariant(&*self);
        }
        if self.is_at_end() {
            return Ok(
                Token {
                    kind: TokenKind::Eof,
                    span: ExprSpan::new(self.pos, self.pos),
                    value: TokenValue::Nothing,
                },
            );
        }
        let start = self.pos;
        let ch = self.current();
        if is_ascii_digit(ch) {
            return self.read_number(start);
        }
        if ch == '\'' || ch == '"' || ch == '`' {
            return self.read_string(start);
        }
        if (ch >= 'a' && ch <= 'z') || (ch >= 'A' && ch <= 'Z') || ch == '_' || ch == '$' {
            return self.read_identifier(start);
        }
        let next = self.peek();
        let (kind, len): (Option<TokenKind>, usize) = if ch == '=' {
            if next == Some('=') {
                if self.peek_at(2) == Some('=') {
                    (Some(TokenKind::StrictEq), 3)
                } else {
                    (Some(TokenKind::EqEq), 2)
                }
            } else if next == Some('>') {
                (Some(TokenKind::Arrow), 2)
            } else {
                (Some(TokenKind::Eq), 1)
            }
        } else if ch == '!' {
            if next == Some('=') {
                if self.peek_at(2) == Some('=') {
                    (Some(TokenKind::StrictNotEq), 3)
                } else {
                    (Some(TokenKind::NotEq), 2)
                }
            } else {
                (Some(TokenKind::Not), 1)
            }
        } else if ch == '&' {
            if next == Some('&') {
                (Some(TokenKind::And), 2)
            } else {
                (None, 1)
            }
        } else if ch == '|' {
            if next == Some('|') {
                (Some(TokenKind::Or), 2)
            } else {
                (None, 1)
            }
        } else if ch == '+' {
            if next == Some('+') {
                (Some(TokenKind::PlusPlus), 2)
            } else if next == Some('=') {
                (Some(TokenKind::PlusEq), 2)
            } else {
                (Some(TokenKind::Plus), 1)
            }
        } else if ch == '-' {
            if next == Some('-') {
                (Some(TokenKind::MinusMinus), 2)
            } else if next == Some('=') {
                (Some(TokenKind::MinusEq), 2)
            } else {
                (Some(TokenKind::Minus), 1)
            }
        } else if ch == '*' {
            if next == Some('=') {
                (Some(TokenKind::StarEq), 2)
            } else {
                (Some(TokenKind::Star), 1)
            }
        } else if ch == '/' {
            if next == Some('=') {
                (Some(TokenKind::SlashEq), 2)
            } else {
                (Some(TokenKind::Slash), 1)
            }
        } else if ch == '<' {
            if next == Some('=') {
                (Some(TokenKind::Lte), 2)
            } else {
                (Some(TokenKind::Lt), 1)
            }
        } else if ch == '>' {
            if next == Some('=') {
                (Some(TokenKind::Gte), 2)
            } else {
                (Some(TokenKind::Gt), 1)
            }
        } else if ch == '?' {
            if next == Some('?') {
                (Some(TokenKind::QuestionQuestion), 2)
            } else if next == Some('.') {
                (Some(TokenKind::OptionalChain), 2)
            } else {
                (Some(TokenKind::Question), 1)
            }
        } else if ch == '{' {
            if next == Some('{') {
                (Some(TokenKind::InterpolationStart), 2)
            } else {
                (Some(TokenKind::LBrace), 1)
            }
        } else if ch == '}' {
            if next == Some('}') {
                (Some(TokenKind::InterpolationEnd), 2)
            } else {
                (Some(TokenKind::RBrace), 1)
            }
        } else if ch == '%' {
            (Some(TokenKind::Percent), 1)
        } else if ch == '(' {
            (Some(TokenKind::LParen), 1)
        } else if ch == ')' {
            (Some(TokenKind::RParen), 1)
        } else if ch == '[' {
            (Some(TokenKind::LBracket), 1)
        } else if ch == ']' {
            (Some(TokenKind::RBracket), 1)
        } else if ch == '.' {
            (Some(TokenKind::Dot), 1)
        } else if ch == ',' {
            (Some(TokenKind::Comma), 1)
        } else if ch == ':' {
            (Some(TokenKind::Colon), 1)
        } else if ch == ';' {
            (Some(TokenKind::Semicolon), 1)
        } else {
            (None, 1)
        };
        match kind {
            Some(kind) => {
                self.advance_n(len);
                Ok(self.token(kind, start, TokenValue::Nothing))
            },
            None => {
                let mut message = String::from_str("Unexpected character: '");
                message.push(ch);
                message.append("'");
                Err(ExprLexerError { message, span: ExprSpan::new(start, start + 1) })
            },
        }
    }

    fn read_number(&mut self, start: usize) -> (r: Result<Token, ExprLexerError>)
        requires
            start == old(self).offset(),
            start < old(self).text().len(),
        ensures
            final(self).text() == old(self).text(),
            start < final(self).offset() <= final(self).text().len(),
            r is Ok ==> lexed_view(r, final(self).offset()) == number_token(
                old(self).text(),
                start as int,
            ),
            r is Err ==> lexed_view(r, 0) == number_token(old(self).text(), start as int),
    {
        self.advance();
        while !self.is_at_end() && (is_ascii_digit(self.current()) || self.current() == '.')
            invariant
                self.chars@ == old(self).chars@,
                start < self.pos <= self.chars@.len(),
                number_end(self.chars@, self.pos as int) == number_end(self.chars@, start + 1),
            decreases self.chars@.len() - self.pos,
        {
            self.advance();
        }
        let ghost text = self.chars@.subrange(start as int, self.pos as int);
        match Number::parse_range(&self.chars, start, self.pos) {
            Some(n) => Ok(self.token(TokenKind::Number, start, TokenValue::Number(n))),
            None => {
                let mut message = String::from_str("Invalid number: '");
                crate::text::push_range(&mut message, &self.chars, start, self.pos);
                message.append("'");
                Err(ExprLexerError { message, span: ExprSpan::new(start, self.pos) })
            },
        }
    }

    fn read_string(&mut self, start: usize) -> (r: Result<Token, ExprLexerError>)
        requires
            start == old(self).offset(),
            start < old(self).text().len(),
        ensures
            final(self).text() == old(self).text(),
            start < final(self).offset() <= final(self).text().len(),
            r is Ok ==> lexed_view(r, final(self).offset()) == string_rest(
                old(self).text(),
                start + 1,
                old(self).text()[start as int],
                start as int,
                Seq::empty(),
            ),
            r is Err ==> lexed_view(r, 0) == string_rest(
                old(self).text(),
                start + 1,
                old(self).text()[start as int],
                start as int,
                Seq::empty(),
            ),
    {
        let quote = self.current();
        self.advance();
        let mut value = String::new();
        while !self.is_at_end() && self.current() != quote
            invariant
                self.chars@ == old(self).chars@,
                start < self.pos <= self.chars@.len(),
                quote == self.chars@[start as int],
                string_rest(self.chars@, self.pos as int, quote, start as int, value@)
                    == string_rest(self.chars@, start + 1, quote, start as int, Seq::empty()),
            decreases self.chars@.len() - self.pos,
        {
            if self.current() == '\\' {
                self.advance();
                if self.is_at_end() {
                    return Err(
                        ExprLexerError {
                            message: String::from_str("Unterminated escape sequence"),
                            span: ExprSpan::new(start, self.pos),
                        },
                    );
                }
                push_unescaped(&mut value, self.current(), quote);
            } else {
                value.push(self.current());
            }
            self.advance();
        }
        if self.is_at_end() {
            return Err(
                ExprLexerError {
                    message: String::from_str("Unterminated string"),
                    span: ExprSpan::new(start, self.pos),
                },
            );
        }
        self.advance();
        Ok(self.token(TokenKind::String, start, TokenValue::String(value)))
    }

    fn read_identifier(&mut self, start: usize) -> (r: Result<Token, ExprLexerError>)
        requires
            start == old(self).offset(),
            start < old(self).text().len(),
            is_name_start(old(self).text()[start as int]),
        ensures
            final(self).text() == old(self).text(),
            start < final(self).offset() <= final(self).text().len(),
            lexed_view(r, final(self).offset()) == word_token(old(self).text(), start as int),
    {
        self.advance();
        while !self.is_at_end() && (is_name_char(self.current()) || self.current() == '$')
            invariant
                self.chars@ == old(self).chars@,
                start < self.pos <= self.chars@.len(),
                name_end(self.chars@, self.pos as int) == name_end(self.chars@, start + 1),
            decreases self.chars@.len() - self.pos,
        {
            self.advance();
        }
        let text = string_of_range(&self.chars, start, self.pos);
        if is_text(&text, "true") {
            Ok(self.token(TokenKind::Boolean, start, TokenValue::Boolean(true)))
        } else if is_text(&text, "false") {
            Ok(self.token(TokenKind::Boolean, start, TokenValue::Boolean(false)))
        } else if is_text(&text, "null") {
            Ok(self.token(TokenKind::Null, start, TokenValue::Nothing))
        } else if is_text(&text, "undefined") {
            Ok(self.token(TokenKind::Undefined, start, TokenValue::Nothing))
        } else if is_text(&text, "typeof") {
            Ok(self.token(TokenKind::Typeof, start, TokenValue::Nothing))
        } else {
            Ok(self.token(TokenKind::Identifier, start, TokenValue::Identifier(text)))
        }
    }

    fn token(&self, kind: TokenKind, start: usize, value: TokenValue) -> (token: Token)
        ensures
            token == (Token { kind, span: ExprSpan { start, end: self.pos }, value }),
    {
        Token { kind, span: ExprSpan::new(start, self.pos), value }
    }

    fn current(&self) -> (c: char)
        requires
            self.offset() < self.text().len(),
        ensures
            c == self.text()[self.offset()],
    {
        self.chars[self.pos]
    }

    fn peek(&self) -> (c: Option<char>)
        ensures
            c == if self.offset() + 1 < self.text().len() {
                Some(self.text()[self.offset() + 1])
            } else {
                None
            },
    {
        self.peek_at(1)
    }

    fn peek_at(&self, offset: usize) -> (c: Option<char>)
        ensures
            c == if self.offset() + offset < self.text().len() {
                Some(self.text()[self.offset() + offset])
            } else {
                None
            },
    {
        proof {
            use_type_invariant(self);
        }
        if offset < self.chars.len() - self.pos {
            Some(self.chars[self.pos + offset])
        } else {
            None
        }
    }

    fn advance(&mut self)
        requires
            old(self).offset() < old(self).text().len(),
        ensures
            final(self).text() == old(self).text(),
            final(self).offset() == old(self).offset() + 1,
    {
        proof {
            lemma_length_fits(&self.chars);
        }
        self.pos += 1;
    }

    fn advance_n(&mut self, n: usize)
        requires
            old(self).offset() + n <= old(self).text().len(),
        ensures
            final(self).text() == old(self).text(),
            final(self).offset() == old(self).offset() + n,
    {
        proof {
            lemma_length_fits(&self.chars);
        }
        self.pos += n;
    }

    fn is_at_end(&self) -> (b: bool)
        ensures
            b == (self.offset() >= self.text().len()),
            self.text().len() <= usize::MAX,
    {
        self.pos >= self.chars.len()
    }

    fn skip_whitespace(&mut self)
        ensures
            final(self).text() == old(self).text(),
            final(self).offset() == skip_whitespace_from(old(self).text(), old(self).offset()),
    {
        while !self.is_at_end() && self.current().is_whitespace()
            invariant
                self.chars@ == old(self).chars@,
                skip_whitespace_from(self.chars@, self.pos as int) == skip_whitespace_from(
                    self.chars@,
                    old(self).pos as int,
                ),
            decreases self.chars@.len() - self.pos,
        {
            self.advance();
        }
    }
}

} // verus!
