//! The expression parser: recursive descent over the expression tokens, one
//! function for each tier of precedence. Every function takes the tokens and
//! a position, and returns its result with the position behind what it read.

use vstd::prelude::*;
use vstd::string::*;
use crate::parser::ast::{
    AssignOp, BinaryOp, Expression, ExprKind, ExprKindView, ExprSpan, ExprView, PostfixOp, UnaryOp,
};
use crate::parser::expr_grammar::{
    arrow, assign_op, assignment, binary, binary_op, binary_rest, call_member, column_of, error_at,
    expected_identifier, kind_at, name_at, operand, parse, postfix, postfix_op, postfix_rest,
    result_view, stepped, ternary, token_at, unary, unary_op,
};
use crate::parser::expr_lexer::{ExprLexer, Token, token_views, TokenKind, TokenValue, TokenView};
use crate::parser::ParseError;
use crate::text::string_views;

verus! {

pub(crate) fn column(start: usize) -> (c: usize)
    ensures
        c == column_of(start),
{
    if start < usize::MAX {
        start + 1
    } else {
        start
    }
}

pub(crate) fn message_with(prefix: &str, kind: TokenKind) -> (r: String)
    ensures
        r@ == prefix@ + kind.name(),
{
    let mut r = String::from_str(prefix);
    r.append(kind.debug_text().as_str());
    r
}

fn assign_operator(kind: TokenKind) -> (r: Option<AssignOp>)
    ensures
        r == assign_op(kind),
{
    match kind {
        TokenKind::Eq => Some(AssignOp::Assign),
        TokenKind::PlusEq => Some(AssignOp::AddAssign),
        TokenKind::MinusEq => Some(AssignOp::SubAssign),
        TokenKind::StarEq => Some(AssignOp::MulAssign),
        TokenKind::SlashEq => Some(AssignOp::DivAssign),
        _ => None,
    }
}

fn binary_operator(tier: u8, kind: TokenKind) -> (r: Option<BinaryOp>)
    ensures
        r == binary_op(tier as int, kind),
{
    if tier == 0 {
        match kind {
            TokenKind::QuestionQuestion => Some(BinaryOp::NullishCoalescing),
            _ => None,
        }
    } else if tier == 1 {
        match kind {
            TokenKind::Or => Some(BinaryOp::Or),
            _ => None,
        }
    } else if tier == 2 {
        match kind {
            TokenKind::And => Some(BinaryOp::And),
            _ => None,
        }
    } else if tier == 3 {
        match kind {
            TokenKind::EqEq => Some(BinaryOp::Eq),
            TokenKind::NotEq => Some(BinaryOp::Neq),
            TokenKind::StrictEq => Some(BinaryOp::StrictEq),
            TokenKind::StrictNotEq => Some(BinaryOp::StrictNeq),
            _ => None,
        }
    } else if tier == 4 {
        match kind {
            TokenKind::Lt => Some(BinaryOp::Lt),
            TokenKind::Gt => Some(BinaryOp::Gt),
            TokenKind::Lte => Some(BinaryOp::Lte),
            TokenKind::Gte => Some(BinaryOp::Gte),
            _ => None,
        }
    } else if tier == 5 {
        match kind {
            TokenKind::Plus => Some(BinaryOp::Add),
            TokenKind::Minus => Some(BinaryOp::Sub),
            _ => None,
        }
    } else if tier == 6 {
        match kind {
            TokenKind::Star => Some(BinaryOp::Mul),
            TokenKind::Slash => Some(BinaryOp::Div),
            TokenKind::Percent => Some(BinaryOp::Mod),
            _ => None,
        }
    } else {
        None
    }
}

fn unary_operator(kind: TokenKind) -> (r: Option<UnaryOp>)
    ensures
        r == unary_op(kind),
{
    match kind {
        TokenKind::Not => Some(UnaryOp::Not),
        TokenKind::Minus => Some(UnaryOp::Neg),
        TokenKind::Typeof => Some(UnaryOp::Typeof),
        _ => None,
    }
}

fn postfix_operator(kind: TokenKind) -> (r: Option<PostfixOp>)
    ensures
        r == postfix_op(kind),
{
    match kind {
        TokenKind::PlusPlus => Some(PostfixOp::Increment),
        TokenKind::MinusMinus => Some(PostfixOp::Decrement),
        _ => None,
    }
}

pub(crate) fn one_name(name: String) -> (names: Vec<String>)
    ensures
        string_views(names@) == seq![name@],
{
    let mut names: Vec<String> = Vec::new();
    names.push(name);
    assert(string_views(names@) =~= seq![name@]);
    names
}

pub(crate) fn identifier_expression(name: String, span: ExprSpan) -> (e: Expression)
    ensures
        e@ == (ExprView { kind: ExprKindView::Identifier(name@), span }),
{
    Expression { kind: ExprKind::Identifier(name), span }
}

pub(crate) fn arrow_expression(params: Vec<String>, body: Expression, start: usize) -> (e:
    Expression)
    ensures
        e@ == arrow(string_views(params@), body@, start),
{
    let span = ExprSpan::new(start, body.span.end);
    Expression { kind: ExprKind::Arrow { params, body: Box::new(body) }, span }
}

/// The kind of the token at `pos`; past the end, the end of input.
pub(crate) fn peek_kind(tokens: &Vec<Token>, pos: usize) -> (kind: TokenKind)
    ensures
        kind == kind_at(token_views(tokens@), pos as int),
        tokens@.len() <= usize::MAX,
{
    if pos < tokens.len() {
        tokens[pos].kind
    } else {
        TokenKind::Eof
    }
}

/// The span of the token at `pos`; past the end, the empty span at 0.
pub(crate) fn peek_span(tokens: &Vec<Token>, pos: usize) -> (span: ExprSpan)
    ensures
        span == token_at(token_views(tokens@), pos as int).span,
        tokens@.len() <= usize::MAX,
{
    if pos < tokens.len() {
        tokens[pos].span
    } else {
        ExprSpan::new(0, 0)
    }
}

/// The error `message`, placed at the token at `pos`.
pub(crate) fn error(tokens: &Vec<Token>, pos: usize, message: String) -> (e: ParseError)
    ensures
        e@ == error_at(token_views(tokens@), pos as int, message@),
{
    let span = peek_span(tokens, pos);
    ParseError { message, line: 1, column: column(span.start) }
}

/// The name that the token at `pos` carries, or the error of a token that
/// carries none.
pub(crate) fn expect_identifier(tokens: &Vec<Token>, pos: usize) -> (r: Result<String, ParseError>)
    ensures
        match name_at(token_views(tokens@), pos as int) {
            Some(name) => r matches Ok(s) && s@ == name && pos < tokens@.len(),
            None => r matches Err(e) && e@ == expected_identifier(
                token_views(tokens@),
                pos as int,
            ),
        },
{
    if pos < tokens.len() {
        if let TokenValue::Identifier(name) = &tokens[pos].value {
            return Ok(name.clone());
        }
    }
    Err(error(tokens, pos, message_with("Expected identifier, got ", peek_kind(tokens, pos))))
}

/// A parser over one stream of expression tokens.
pub struct ExprParser {
    tokens: Vec<Token>,
    pos: usize,
}

impl ExprParser {
    /// The tokens that are being read.
    pub closed spec fn stream(&self) -> Seq<TokenView> {
        token_views(self.tokens@)
    }

    /// The index of the next token to read.
    pub closed spec fn position(&self) -> int {
        self.pos as int
    }

    /// A parser at the start of `tokens`.
    pub fn new(tokens: Vec<Token>) -> (parser: Self)
        ensures
            parser.stream() == token_views(tokens@),
            parser.position() == 0,
    {
        ExprParser { tokens, pos: 0 }
    }

    /// Parses `source` as one expression.
    pub fn parse(source: &str) -> (r: Result<Expression, ParseError>)
        ensures
            result_view(r) == parse(source@),
    {
        let tokens = match ExprLexer::tokenize(source) {
            Ok(tokens) => tokens,
            Err(e) => {
                return Err(ParseError { message: e.message, line: 1, column: column(e.span.start) });
            },
        };
        let mut parser = ExprParser::new(tokens);
        let expr = match parser.parse_expression() {
            Ok(expr) => expr,
            Err(e) => {
                return Err(e);
            },
        };
        let kind = peek_kind(&parser.tokens, parser.pos);
        if kind != TokenKind::Eof {
            return Err(error(&parser.tokens, parser.pos, message_with("Unexpected token: ", kind)));
        }
        Ok(expr)
    }

    /// Parses one expression from the current position and moves behind it.
    fn parse_expression(&mut self) -> (r: Result<Expression, ParseError>)
        requires
            old(self).pos <= old(self).tokens@.len(),
        ensures
            final(self).tokens == old(self).tokens,
            stepped(
                old(self).tokens@,
                old(self).pos,
                (r, final(self).pos),
                assignment(old(self).stream(), old(self).pos as int),
            ),
    {
        let (r, next) = ExprParser::parse_assignment(&self.tokens, self.pos);
        self.pos = next;
        r
    }

    pub(crate) fn parse_assignment(tokens: &Vec<Token>, pos: usize) -> (r: (
        Result<Expression, ParseError>,
        usize,
    ))
        requires
            pos <= tokens@.len(),
        ensures
            stepped(tokens@, pos, r, assignment(token_views(tokens@), pos as int)),
        decreases tokens@.len() - pos, 14int, 0int,
    {
        proof {
            reveal(assignment);
            reveal(ternary);
        }
        let (target, p) = ExprParser::parse_ternary(tokens, pos);
        let target = match target {
            Ok(e) => e,
            Err(e) => {
                return (Err(e), p);
            },
        };
        match assign_operator(peek_kind(tokens, p)) {
            Some(op) => {
                let (value, q) = ExprParser::parse_assignment(tokens, p + 1);
                let value = match value {
                    Ok(e) => e,
                    Err(e) => {
                        return (Err(e), q);
                    },
                };
                let span = ExprSpan::new(target.span.start, value.span.end);
                (
                    Ok(
                        Expression {
                            kind: ExprKind::Assignment {
                                target: Box::new(target),
                                op,
                                value: Box::new(value),
                            },
                            span,
                        },
                    ),
                    q,
                )
            },
            None => (Ok(target), p),
        }
    }

    fn parse_ternary(tokens: &Vec<Token>, pos: usize) -> (r: (
        Result<Expression, ParseError>,
        usize,
    ))
        requires
            pos <= tokens@.len(),
        ensures
            stepped(tokens@, pos, r, ternary(token_views(tokens@), pos as int)),
        decreases tokens@.len() - pos, 13int, 0int,
    {
        proof {
            reveal(ternary);
            reveal(binary);
            reveal(assignment);
        }
        let (condition, p) = ExprParser::parse_binary(tokens, pos, 0);
        let condition = match condition {
            Ok(e) => e,
            Err(e) => {
                return (Err(e), p);
            },
        };
        if peek_kind(tokens, p) != TokenKind::Question {
            return (Ok(condition), p);
        }
        let (consequent, q) = ExprParser::parse_assignment(tokens, p + 1);
        let consequent = match consequent {
            Ok(e) => e,
            Err(e) => {
                return (Err(e), q);
            },
        };
        if peek_kind(tokens, q) != TokenKind::Colon {
            return (
                Err(error(tokens, q, String::from_str("Expected ':' in ternary expression"))),
                q,
            );
        }
        let (alternate, r) = ExprParser::parse_assignment(tokens, q + 1);
        let alternate = match alternate {
            Ok(e) => e,
            Err(e) => {
                return (Err(e), r);
            },
        };
        let span = ExprSpan::new(condition.span.start, alternate.span.end);
        (
            Ok(
                Expression {
                    kind: ExprKind::Ternary {
                        condition: Box::new(condition),
                        consequent: Box::new(consequent),
                        alternate: Box::new(alternate),
                    },
                    span,
                },
            ),
            r,
        )
    }

    /// One tier of binary operators; `tier` counts from 0 (`??`) to 6
    /// (multiplicative).
    fn parse_binary(tokens: &Vec<Token>, pos: usize, tier: u8) -> (r: (
        Result<Expression, ParseError>,
        usize,
    ))
        requires
            pos <= tokens@.len(),
            tier <= 6,
        ensures
            stepped(tokens@, pos, r, binary(token_views(tokens@), pos as int, tier as int)),
        decreases tokens@.len() - pos, 12 - tier, 1int,
    {
        proof {
            reveal(binary);
            reveal(operand);
            reveal(binary_rest);
        }
        let (first, first_end) = ExprParser::parse_operand(tokens, pos, tier);
        let mut left = match first {
            Ok(e) => e,
            Err(e) => {
                return (Err(e), first_end);
            },
        };
        let mut p = first_end;
        loop
            invariant
                pos < p <= tokens@.len(),
                tier <= 6,
                binary_rest(token_views(tokens@), p as int, tier as int, left@) == binary(
                    token_views(tokens@),
                    pos as int,
                    tier as int,
                ),
            ensures
                binary_op(tier as int, kind_at(token_views(tokens@), p as int)) is None,
            decreases tokens@.len() - p,
        {
            proof {
                reveal(operand);
                reveal(binary_rest);
            }
            let op = match binary_operator(tier, peek_kind(tokens, p)) {
                Some(op) => op,
                None => {
                    break ;
                },
            };
            let (right, q) = ExprParser::parse_operand(tokens, p + 1, tier);
            let right = match right {
                Ok(e) => e,
                Err(e) => {
                    return (Err(e), q);
                },
            };
            let span = ExprSpan::new(left.span.start, right.span.end);
            left =
            Expression {
                kind: ExprKind::Binary { left: Box::new(left), op, right: Box::new(right) },
                span,
            };
            p = q;
        }
        proof {
            reveal(binary_rest);
        }
        (Ok(left), p)
    }

    fn parse_operand(tokens: &Vec<Token>, pos: usize, tier: u8) -> (r: (
        Result<Expression, ParseError>,
        usize,
    ))
        requires
            pos <= tokens@.len(),
            tier <= 6,
        ensures
            stepped(tokens@, pos, r, operand(token_views(tokens@), pos as int, tier as int)),
        decreases tokens@.len() - pos, 12 - tier, 0int,
    {
        proof {
            reveal(operand);
            reveal(binary);
            reveal(unary);
        }
        if tier < 6 {
            ExprParser::parse_binary(tokens, pos, tier + 1)
        } else {
            ExprParser::parse_unary(tokens, pos)
        }
    }

    fn parse_unary(tokens: &Vec<Token>, pos: usize) -> (r: (Result<Expression, ParseError>, usize))
        requires
            pos <= tokens@.len(),
        ensures
            stepped(tokens@, pos, r, unary(token_views(tokens@), pos as int)),
        decreases tokens@.len() - pos, 5int, 0int,
    {
        proof {
            reveal(unary);
            reveal(postfix);
        }
        let start = peek_span(tokens, pos).start;
        match unary_operator(peek_kind(tokens, pos)) {
            Some(op) => {
                let (operand, q) = ExprParser::parse_unary(tokens, pos + 1);
                let operand = match operand {
                    Ok(e) => e,
                    Err(e) => {
                        return (Err(e), q);
                    },
                };
                let span = ExprSpan::new(start, operand.span.end);
                (
                    Ok(
                        Expression {
                            kind: ExprKind::Unary { op, operand: Box::new(operand) },
                            span,
                        },
                    ),
                    q,
                )
            },
            None => ExprParser::parse_postfix(tokens, pos),
        }
    }

    fn parse_postfix(tokens: &Vec<Token>, pos: usize) -> (r: (
        Result<Expression, ParseError>,
        usize,
    ))
        requires
            pos <= tokens@.len(),
        ensures
            stepped(tokens@, pos, r, postfix(token_views(tokens@), pos as int)),
        decreases tokens@.len() - pos, 4int, 0int,
    {
        proof {
            reveal(postfix);
            reveal(call_member);
        }
        let (first, first_end) = ExprParser::parse_call_member(tokens, pos);
        let mut expr = match first {
            Ok(e) => e,
            Err(e) => {
                return (Err(e), first_end);
            },
        };
        let ghost operand = expr@;
        let mut p = first_end;
        loop
            invariant
                pos < p <= tokens@.len(),
                first_end <= p,
                postfix_rest(token_views(tokens@), p as int, expr@) == postfix_rest(
                    token_views(tokens@),
                    first_end as int,
                    operand,
                ),
            ensures
                postfix_op(kind_at(token_views(tokens@), p as int)) is None,
            decreases tokens@.len() - p,
        {
            proof {
                reveal(postfix_rest);
            }
            let op = match postfix_operator(peek_kind(tokens, p)) {
                Some(op) => op,
                None => {
                    break ;
                },
            };
            let end = peek_span(tokens, p).end;
            let span = ExprSpan::new(expr.span.start, end);
            expr = Expression { kind: ExprKind::Postfix { operand: Box::new(expr), op }, span };
            p = p + 1;
        }
        proof {
            reveal(postfix_rest);
        }
        (Ok(expr), p)
    }
}

} // verus!
