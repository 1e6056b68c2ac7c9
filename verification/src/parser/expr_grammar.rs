//! The grammar of expressions: what the expression parser computes, as
//! functions from a token stream and a position to an expression and the
//! position behind it.
//!
//! From the loosest binding to the tightest: assignment, ternary, the seven
//! tiers of binary operators (`??`, `||`, `&&`, equality, comparison,
//! additive, multiplicative), unary, postfix, call and member access,
//! primary. Each function is opaque; its definition is revealed where a
//! proof goes through it.
//!
//! A definition that repeats itself does so from a position further on, and
//! says so where it does: this is what makes the definitions well-founded.
//! Every step of the parser that succeeds reads at least one token, so the
//! other branch of such a test is never taken when the parser runs.

use vstd::prelude::*;
use crate::number::NumberView;
use crate::parser::ast::{
    AssignOp, BinaryOp, Expression, ExprKindView, ExprSpan, ExprView, ObjectPropertyView,
    PostfixOp, UnaryOp,
};
use crate::parser::expr_lexer::{ExprLexerErrorView, Token, TokenKind, TokenValueView, TokenView};
use crate::parser::{ParseError, ParseErrorView};

verus! {

/// An expression, and the position of the first token behind it.
pub type Parsed = Result<(ExprView, int), ParseErrorView>;

/// A list of expressions, and the position of the first token behind it.
pub type ParsedList = Result<(Seq<ExprView>, int), ParseErrorView>;

/// A list of names, and the position of the first token behind it.
pub type ParsedNames = Result<(Seq<Seq<char>>, int), ParseErrorView>;

/// The token that is read past the end of the stream.
pub open spec fn end_token() -> TokenView {
    TokenView {
        kind: TokenKind::Eof,
        span: ExprSpan { start: 0, end: 0 },
        value: TokenValueView::Nothing,
    }
}

/// The token at `pos`; past the end of the stream, the end-of-input token.
pub open spec fn token_at(ts: Seq<TokenView>, pos: int) -> TokenView {
    if 0 <= pos < ts.len() {
        ts[pos]
    } else {
        end_token()
    }
}

/// The kind of the token at `pos`.
pub open spec fn kind_at(ts: Seq<TokenView>, pos: int) -> TokenKind {
    token_at(ts, pos).kind
}

/// The column, counted from 1, of the character at offset `start`.
pub open spec fn column_of(start: usize) -> usize {
    if start < usize::MAX {
        (start + 1) as usize
    } else {
        start
    }
}

/// The error `message`, placed at the token at `pos`.
pub open spec fn error_at(ts: Seq<TokenView>, pos: int, message: Seq<char>) -> ParseErrorView {
    ParseErrorView { message, line: 1, column: column_of(token_at(ts, pos).span.start) }
}

/// The name that the token carries, if it carries one.
pub open spec fn name_at(ts: Seq<TokenView>, pos: int) -> Option<Seq<char>> {
    match token_at(ts, pos).value {
        TokenValueView::Identifier(name) => Some(name),
        _ => None,
    }
}

/// The error of a token that should have been a name.
pub open spec fn expected_identifier(ts: Seq<TokenView>, pos: int) -> ParseErrorView {
    error_at(ts, pos, "Expected identifier, got "@ + kind_at(ts, pos).name())
}

/// The error of a token that starts no expression, or that follows one.
pub open spec fn unexpected_token(ts: Seq<TokenView>, pos: int) -> ParseErrorView {
    error_at(ts, pos, "Unexpected token: "@ + kind_at(ts, pos).name())
}

/// The span from the start of `first` to `end`.
pub open spec fn span_to(first: ExprView, end: usize) -> ExprSpan {
    ExprSpan { start: first.span.start, end }
}

pub open spec fn assign_op(kind: TokenKind) -> Option<AssignOp> {
    match kind {
        TokenKind::Eq => Some(AssignOp::Assign),
        TokenKind::PlusEq => Some(AssignOp::AddAssign),
        TokenKind::MinusEq => Some(AssignOp::SubAssign),
        TokenKind::StarEq => Some(AssignOp::MulAssign),
        TokenKind::SlashEq => Some(AssignOp::DivAssign),
        _ => None,
    }
}

/// The binary operator that `kind` writes on the given tier, tiers counted
/// from 0 (`??`) to 6 (multiplicative).
pub open spec fn binary_op(tier: int, kind: TokenKind) -> Option<BinaryOp> {
    if tier == 0 {
        match kind {
            TokenKind::QuestionQuestion => Some(BinaryOp::NullishCoalescing),
            _ => None,
        }
    } else if tier == 1 {
        match kind {
            TokenKind::Or => Some(BinaryOp::Or),
            _ => None,
        }
    } else if tier == 2 {
        match kind {
            TokenKind::And => Some(BinaryOp::And),
            _ => None,
        }
    } else if tier == 3 {
        match kind {
            TokenKind::EqEq => Some(BinaryOp::Eq),
            TokenKind::NotEq => Some(BinaryOp::Neq),
            TokenKind::StrictEq => Some(BinaryOp::StrictEq),
            TokenKind::StrictNotEq => Some(BinaryOp::StrictNeq),
            _ => None,
        }
    } else if tier == 4 {
        match kind {
            TokenKind::Lt => Some(BinaryOp::Lt),
            TokenKind::Gt => Some(BinaryOp::Gt),
            TokenKind::Lte => Some(BinaryOp::Lte),
            TokenKind::Gte => Some(BinaryOp::Gte),
            _ => None,
        }
    } else if tier == 5 {
        match kind {
            TokenKind::Plus => Some(BinaryOp::Add),
            TokenKind::Minus => Some(BinaryOp::Sub),
            _ => None,
        }
    } else if tier == 6 {
        match kind {
            TokenKind::Star => Some(BinaryOp::Mul),
            TokenKind::Slash => Some(BinaryOp::Div),
            TokenKind::Percent => Some(BinaryOp::Mod),
            _ => None,
        }
    } else {
        None
    }
}

pub open spec fn unary_op(kind: TokenKind) -> Option<UnaryOp> {
    match kind {
        TokenKind::Not => Some(UnaryOp::Not),
        TokenKind::Minus => Some(UnaryOp::Neg),
        TokenKind::Typeof => Some(UnaryOp::Typeof),
        _ => None,
    }
}

pub open spec fn postfix_op(kind: TokenKind) -> Option<PostfixOp> {
    match kind {
        TokenKind::PlusPlus => Some(PostfixOp::Increment),
        TokenKind::MinusMinus => Some(PostfixOp::Decrement),
        _ => None,
    }
}

/// The position behind an optional comma at `pos`.
pub open spec fn after_comma(ts: Seq<TokenView>, pos: int) -> int {
    if kind_at(ts, pos) == TokenKind::Comma {
        pos + 1
    } else {
        pos
    }
}

/// An arrow function of the given parameters, from offset `start` to the end
/// of its body.
pub open spec fn arrow(params: Seq<Seq<char>>, body: ExprView, start: usize) -> ExprView {
    ExprView {
        kind: ExprKindView::Arrow { params, body: Box::new(body) },
        span: ExprSpan { start, end: body.span.end },
    }
}

/// Whether the parenthesis at `pos` opens the parameters of an arrow
/// function: its matching close is directly followed by `=>`. `depth` counts
/// the parentheses that are open before `pos`.
#[verifier::opaque]
pub open spec fn arrow_ahead(ts: Seq<TokenView>, pos: int, depth: int) -> bool
    decreases ts.len() - pos,
{
    if !(0 <= pos < ts.len()) {
        false
    } else if ts[pos].kind == TokenKind::LParen {
        arrow_ahead(ts, pos + 1, depth + 1)
    } else if ts[pos].kind == TokenKind::RParen {
        if depth == 1 {
            kind_at(ts, pos + 1) == TokenKind::Arrow
        } else {
            arrow_ahead(ts, pos + 1, depth - 1)
        }
    } else if ts[pos].kind == TokenKind::Eof {
        false
    } else {
        arrow_ahead(ts, pos + 1, depth)
    }
}

/// The names of a parameter list from `pos` on, each with an optional comma
/// behind it, up to a `)` or the end of input.
#[verifier::opaque]
pub open spec fn arrow_params(ts: Seq<TokenView>, pos: int, names: Seq<Seq<char>>) -> ParsedNames
    decreases ts.len() - pos,
{
    if !(0 <= pos < ts.len()) || kind_at(ts, pos) == TokenKind::RParen || kind_at(ts, pos)
        == TokenKind::Eof {
        Ok((names, pos))
    } else {
        match name_at(ts, pos) {
            Some(name) => arrow_params(ts, after_comma(ts, pos + 1), names.push(name)),
            None => Err(expected_identifier(ts, pos)),
        }
    }
}

/// Assignment, which groups to the right: `target op value`.
#[verifier::opaque]
pub open spec fn assignment(ts: Seq<TokenView>, pos: int) -> Parsed
    decreases ts.len() - pos, 14int, 0int,
{
    match ternary(ts, pos) {
        Err(e) => Err(e),
        Ok((target, p)) => match assign_op(kind_at(ts, p)) {
            Some(op) if pos <= p < ts.len() => match assignment(ts, p + 1) {
                Err(e) => Err(e),
                Ok((value, q)) => Ok(
                    (
                        ExprView {
                            kind: ExprKindView::Assignment {
                                target: Box::new(target),
                                op,
                                value: Box::new(value),
                            },
                            span: span_to(target, value.span.end),
                        },
                        q,
                    ),
                ),
            },
            _ => Ok((target, p)),
        },
    }
}

/// `condition ? consequent : alternate`, both branches assignments.
#[verifier::opaque]
pub open spec fn ternary(ts: Seq<TokenView>, pos: int) -> Parsed
    decreases ts.len() - pos, 13int, 0int,
{
    match binary(ts, pos, 0) {
        Err(e) => Err(e),
        Ok((condition, p)) => if kind_at(ts, p) == TokenKind::Question && pos <= p < ts.len() {
            match assignment(ts, p + 1) {
                Err(e) => Err(e),
                Ok((consequent, q)) => if kind_at(ts, q) != TokenKind::Colon {
                    Err(error_at(ts, q, "Expected ':' in ternary expression"@))
                } else if !(p < q < ts.len()) {
                    Ok((condition, p))
                } else {
                    match assignment(ts, q + 1) {
                        Err(e) => Err(e),
                        Ok((alternate, r)) => Ok(
                            (
                                ExprView {
                                    kind: ExprKindView::Ternary {
                                        condition: Box::new(condition),
                                        consequent: Box::new(consequent),
                                        alternate: Box::new(alternate),
                                    },
                                    span: span_to(condition, alternate.span.end),
                                },
                                r,
                            ),
                        ),
                    }
                },
            }
        } else {
            Ok((condition, p))
        },
    }
}

/// A chain of binary operators of one tier, which groups to the left.
#[verifier::opaque]
pub open spec fn binary(ts: Seq<TokenView>, pos: int, tier: int) -> Parsed
    decreases ts.len() - pos, 12 - tier, 1int,
{
    if !(0 <= tier <= 6) {
        Err(unexpected_token(ts, pos))
    } else {
        match operand(ts, pos, tier) {
            Err(e) => Err(e),
            Ok((left, p)) => if pos <= p <= ts.len() {
                binary_rest(ts, p, tier, left)
            } else {
                Ok((left, p))
            },
        }
    }
}

/// An operand of the operators of `tier`: a chain of the next tier, or on the
/// last tier a unary expression.
#[verifier::opaque]
pub open spec fn operand(ts: Seq<TokenView>, pos: int, tier: int) -> Parsed
    decreases ts.len() - pos, 12 - tier, 0int,
{
    if 0 <= tier < 6 {
        binary(ts, pos, tier + 1)
    } else if tier == 6 {
        unary(ts, pos)
    } else {
        Err(unexpected_token(ts, pos))
    }
}

/// The rest of a chain of binary operators, with `left` read so far.
#[verifier::opaque]
pub open spec fn binary_rest(ts: Seq<TokenView>, pos: int, tier: int, left: ExprView) -> Parsed
    decreases ts.len() - pos, 12 - tier, 0int,
{
    match binary_op(tier, kind_at(ts, pos)) {
        Some(op) if 0 <= pos < ts.len() && 0 <= tier <= 6 => match operand(ts, pos + 1, tier) {
            Err(e) => Err(e),
            Ok((right, q)) => {
                let joined = ExprView {
                    kind: ExprKindView::Binary {
                        left: Box::new(left),
                        op,
                        right: Box::new(right),
                    },
                    span: span_to(left, right.span.end),
                };
                if pos < q <= ts.len() {
                    binary_rest(ts, q, tier, joined)
                } else {
                    Ok((joined, q))
                }
            },
        },
        _ => Ok((left, pos)),
    }
}

/// Prefix operators, which may be chained.
#[verifier::opaque]
pub open spec fn unary(ts: Seq<TokenView>, pos: int) -> Parsed
    decreases ts.len() - pos, 5int, 0int,
{
    match unary_op(kind_at(ts, pos)) {
        Some(op) if 0 <= pos < ts.len() => match unary(ts, pos + 1) {
            Err(e) => Err(e),
            Ok((operand, q)) => Ok(
                (
                    ExprView {
                        kind: ExprKindView::Unary { op, operand: Box::new(operand) },
                        span: ExprSpan {
                            start: token_at(ts, pos).span.start,
                            end: operand.span.end,
                        },
                    },
                    q,
                ),
            ),
        },
        _ => postfix(ts, pos),
    }
}

/// `++` and `--` behind an expression.
#[verifier::opaque]
pub open spec fn postfix(ts: Seq<TokenView>, pos: int) -> Parsed
    decreases ts.len() - pos, 4int, 0int,
{
    match call_member(ts, pos) {
        Err(e) => Err(e),
        Ok((e, p)) => Ok(postfix_rest(ts, p, e)),
    }
}

/// The postfix operators from `pos` on, applied to `operand`.
#[verifier::opaque]
pub open spec fn postfix_rest(ts: Seq<TokenView>, pos: int, operand: ExprView) -> (ExprView, int)
    decreases ts.len() - pos,
{
    match postfix_op(kind_at(ts, pos)) {
        Some(op) if 0 <= pos < ts.len() => postfix_rest(
            ts,
            pos + 1,
            ExprView {
                kind: ExprKindView::Postfix { operand: Box::new(operand), op },
                span: span_to(operand, token_at(ts, pos).span.end),
            },
        ),
        _ => (operand, pos),
    }
}

/// A primary expression and the member accesses and calls behind it.
#[verifier::opaque]
pub open spec fn call_member(ts: Seq<TokenView>, pos: int) -> Parsed
    decreases ts.len() - pos, 3int, 0int,
{
    match primary(ts, pos) {
        Err(e) => Err(e),
        Ok((e, p)) => if pos <= p <= ts.len() {
            member_rest(ts, p, e)
        } else {
            Ok((e, p))
        },
    }
}

/// `object.name`: a member access that is not computed.
pub open spec fn named_member(object: ExprView, name: Seq<char>, at: TokenView) -> ExprView {
    ExprView {
        kind: ExprKindView::Member {
            object: Box::new(object),
            property: Box::new(ExprView { kind: ExprKindView::Identifier(name), span: at.span }),
            computed: false,
        },
        span: span_to(object, at.span.end),
    }
}

/// A token that starts a member access or a call.
pub open spec fn starts_suffix(kind: TokenKind) -> bool {
    kind == TokenKind::Dot || kind == TokenKind::OptionalChain || kind == TokenKind::LBracket
        || kind == TokenKind::LParen
}

/// One member access or call at `pos`, applied to `object`: `.name`,
/// `?.name`, `[index]` or `(arguments)`.
#[verifier::opaque]
pub open spec fn member_step(ts: Seq<TokenView>, pos: int, object: ExprView) -> Parsed
    decreases ts.len() - pos, 0int, 0int,
{
    if !(0 <= pos < ts.len()) {
        Ok((object, pos))
    } else if kind_at(ts, pos) == TokenKind::Dot || kind_at(ts, pos) == TokenKind::OptionalChain {
        match name_at(ts, pos + 1) {
            Some(name) => Ok((named_member(object, name, token_at(ts, pos + 1)), pos + 2)),
            None => Err(expected_identifier(ts, pos + 1)),
        }
    } else if kind_at(ts, pos) == TokenKind::LBracket {
        match assignment(ts, pos + 1) {
            Err(e) => Err(e),
            Ok((index, q)) => if kind_at(ts, q) != TokenKind::RBracket {
                Err(error_at(ts, q, "Expected ']'"@))
            } else {
                Ok(
                    (
                        ExprView {
                            kind: ExprKindView::Member {
                                object: Box::new(object),
                                property: Box::new(index),
                                computed: true,
                            },
                            span: span_to(object, token_at(ts, q).span.end),
                        },
                        q + 1,
                    ),
                )
            },
        }
    } else if kind_at(ts, pos) == TokenKind::LParen {
        match arguments(ts, pos + 1) {
            Err(e) => Err(e),
            Ok((args, q)) => if kind_at(ts, q) != TokenKind::RParen {
                Err(error_at(ts, q, "Expected ')'"@))
            } else {
                Ok(
                    (
                        ExprView {
                            kind: ExprKindView::Call { callee: Box::new(object), arguments: args },
                            span: span_to(object, token_at(ts, q).span.end),
                        },
                        q + 1,
                    ),
                )
            },
        }
    } else {
        Ok((object, pos))
    }
}

/// The member accesses and calls from `pos` on, applied to `object`.
#[verifier::opaque]
pub open spec fn member_rest(ts: Seq<TokenView>, pos: int, object: ExprView) -> Parsed
    decreases ts.len() - pos, 0int, 1int,
{
    if 0 <= pos < ts.len() && starts_suffix(kind_at(ts, pos)) {
        match member_step(ts, pos, object) {
            Err(e) => Err(e),
            Ok((e, q)) => if pos < q <= ts.len() {
                member_rest(ts, q, e)
            } else {
                Ok((e, q))
            },
        }
    } else {
        Ok((object, pos))
    }
}

/// The arguments of a call: none before a `)`, else assignments with commas
/// between them.
#[verifier::opaque]
pub open spec fn arguments(ts: Seq<TokenView>, pos: int) -> ParsedList
    decreases ts.len() - pos, 15int, 0int,
{
    if kind_at(ts, pos) == TokenKind::RParen {
        Ok((Seq::empty(), pos))
    } else {
        match assignment(ts, pos) {
            Err(e) => Err(e),
            Ok((first, p)) => if pos <= p <= ts.len() {
                arguments_rest(ts, p, seq![first])
            } else {
                Ok((seq![first], p))
            },
        }
    }
}

/// The arguments behind the first, each after a comma.
#[verifier::opaque]
pub open spec fn arguments_rest(ts: Seq<TokenView>, pos: int, args: Seq<ExprView>) -> ParsedList
    decreases ts.len() - pos, 0int, 0int,
{
    if kind_at(ts, pos) == TokenKind::Comma && 0 <= pos < ts.len() {
        match assignment(ts, pos + 1) {
            Err(e) => Err(e),
            Ok((next, q)) => if pos < q <= ts.len() {
                arguments_rest(ts, q, args.push(next))
            } else {
                Ok((args.push(next), q))
            },
        }
    } else {
        Ok((args, pos))
    }
}

/// The parameter list that an expression in parentheses stands for when `=>`
/// follows it: only a lone name can be read so.
pub open spec fn params_of(e: ExprView) -> Result<Seq<Seq<char>>, ParseErrorView> {
    match e.kind {
        ExprKindView::Identifier(name) => Ok(seq![name]),
        _ => Err(
            ParseErrorView {
                message: "Invalid arrow function parameters"@,
                line: 1,
                column: column_of(e.span.start),
            },
        ),
    }
}

/// The literal or name that the token `token` is by itself.
pub open spec fn atom(token: TokenView) -> ExprView {
    ExprView {
        kind: match token.kind {
            TokenKind::Number => ExprKindView::Number(
                match token.value {
                    TokenValueView::Number(n) => n,
                    _ => NumberView::zero(),
                },
            ),
            TokenKind::String => ExprKindView::String(
                match token.value {
                    TokenValueView::String(s) => s,
                    _ => Seq::empty(),
                },
            ),
            TokenKind::Boolean => ExprKindView::Boolean(
                match token.value {
                    TokenValueView::Boolean(b) => b,
                    _ => false,
                },
            ),
            TokenKind::Null => ExprKindView::Null,
            TokenKind::Undefined => ExprKindView::Undefined,
            _ => ExprKindView::Identifier(
                match token.value {
                    TokenValueView::Identifier(s) => s,
                    _ => Seq::empty(),
                },
            ),
        },
        span: token.span,
    }
}

/// Literals, names, expressions in parentheses, array and object literals,
/// and arrow functions.
#[verifier::opaque]
pub open spec fn primary(ts: Seq<TokenView>, pos: int) -> Parsed
    decreases ts.len() - pos, 2int, 0int,
{
    let token = token_at(ts, pos);
    if !(0 <= pos < ts.len()) {
        Err(unexpected_token(ts, pos))
    } else {
        match token.kind {
            TokenKind::Number | TokenKind::String | TokenKind::Boolean | TokenKind::Null
            | TokenKind::Undefined => Ok((atom(token), pos + 1)),
            TokenKind::Identifier => if kind_at(ts, pos + 1) == TokenKind::Arrow {
                match assignment(ts, pos + 2) {
                    Err(e) => Err(e),
                    Ok((body, q)) => Ok(
                        (
                            arrow(
                                seq![atom(token).kind->Identifier_0],
                                body,
                                token.span.start,
                            ),
                            q,
                        ),
                    ),
                }
            } else {
                Ok((atom(token), pos + 1))
            },
            TokenKind::LParen => parenthesized(ts, pos),
            TokenKind::LBracket => array_items(ts, pos + 1, Seq::empty(), token.span.start),
            TokenKind::LBrace => object_properties(ts, pos + 1, Seq::empty(), token.span.start),
            _ => Err(unexpected_token(ts, pos)),
        }
    }
}

/// What starts with the parenthesis at `pos`: an arrow function where `=>`
/// follows its matching close, else an expression in parentheses.
#[verifier::opaque]
pub open spec fn parenthesized(ts: Seq<TokenView>, pos: int) -> Parsed
    decreases ts.len() - pos, 1int, 1int,
{
    if !(0 <= pos < ts.len()) {
        Err(unexpected_token(ts, pos))
    } else if arrow_ahead(ts, pos, 0) {
        arrow_function(ts, pos)
    } else {
        match assignment(ts, pos + 1) {
            Err(e) => Err(e),
            Ok((inner, p)) => if kind_at(ts, p) != TokenKind::RParen {
                Err(error_at(ts, p, "Expected ')'"@))
            } else if kind_at(ts, p + 1) == TokenKind::Arrow && pos < p {
                match params_of(inner) {
                    Err(e) => Err(e),
                    Ok(params) => match assignment(ts, p + 2) {
                        Err(e) => Err(e),
                        Ok((body, q)) => Ok(
                            (arrow(params, body, token_at(ts, pos).span.start), q),
                        ),
                    },
                }
            } else {
                Ok((inner, p + 1))
            },
        }
    }
}

/// `(a, b) => body`, from the parenthesis at `pos`.
#[verifier::opaque]
pub open spec fn arrow_function(ts: Seq<TokenView>, pos: int) -> Parsed
    decreases ts.len() - pos, 1int, 0int,
{
    match arrow_params(ts, pos + 1, Seq::empty()) {
        Err(e) => Err(e),
        Ok((params, p)) => if kind_at(ts, p) != TokenKind::RParen {
            Err(error_at(ts, p, "Expected ')' after arrow parameters"@))
        } else if kind_at(ts, p + 1) != TokenKind::Arrow {
            Err(error_at(ts, p + 1, "Expected '=>'"@))
        } else if !(pos < p) {
            Err(unexpected_token(ts, pos))
        } else {
            match assignment(ts, p + 2) {
                Err(e) => Err(e),
                Ok((body, q)) => Ok((arrow(params, body, token_at(ts, pos).span.start), q)),
            }
        },
    }
}

/// The items of an array literal from `pos` on, each with an optional comma
/// behind it, and the closing bracket. `start` is the offset of the opening
/// bracket.
#[verifier::opaque]
pub open spec fn array_items(ts: Seq<TokenView>, pos: int, items: Seq<ExprView>, start: usize)
    -> Parsed
    decreases ts.len() - pos, 15int, 0int,
{
    if kind_at(ts, pos) == TokenKind::RBracket {
        Ok(
            (
                ExprView {
                    kind: ExprKindView::Array(items),
                    span: ExprSpan { start, end: token_at(ts, pos).span.end },
                },
                pos + 1,
            ),
        )
    } else if kind_at(ts, pos) == TokenKind::Eof {
        Err(error_at(ts, pos, "Expected ']'"@))
    } else {
        match assignment(ts, pos) {
            Err(e) => Err(e),
            Ok((item, p)) => if pos < p <= ts.len() {
                array_items(ts, after_comma(ts, p), items.push(item), start)
            } else {
                Err(unexpected_token(ts, pos))
            },
        }
    }
}

/// One property of an object literal at `pos`: `key: value`, or `key` alone,
/// which stands for `key: key`.
#[verifier::opaque]
pub open spec fn property(ts: Seq<TokenView>, pos: int) -> Result<
    (ObjectPropertyView, int),
    ParseErrorView,
>
    decreases ts.len() - pos, 0int, 0int,
{
    match name_at(ts, pos) {
        None => Err(expected_identifier(ts, pos)),
        Some(key) => if kind_at(ts, pos + 1) == TokenKind::Colon {
            match assignment(ts, pos + 2) {
                Err(e) => Err(e),
                Ok((value, p)) => Ok((ObjectPropertyView { key, value, shorthand: false }, p)),
            }
        } else {
            Ok(
                (
                    ObjectPropertyView {
                        key,
                        value: ExprView {
                            kind: ExprKindView::Identifier(key),
                            span: token_at(ts, pos).span,
                        },
                        shorthand: true,
                    },
                    pos + 1,
                ),
            )
        },
    }
}

/// The properties of an object literal from `pos` on, each with an optional
/// comma behind it, and the closing brace. `start` is the offset of the
/// opening brace.
#[verifier::opaque]
pub open spec fn object_properties(
    ts: Seq<TokenView>,
    pos: int,
    properties: Seq<ObjectPropertyView>,
    start: usize,
) -> Parsed
    decreases ts.len() - pos, 15int, 0int,
{
    if kind_at(ts, pos) == TokenKind::RBrace {
        Ok(
            (
                ExprView {
                    kind: ExprKindView::Object(properties),
                    span: ExprSpan { start, end: token_at(ts, pos).span.end },
                },
                pos + 1,
            ),
        )
    } else if kind_at(ts, pos) == TokenKind::Eof {
        Err(error_at(ts, pos, "Expected '}'"@))
    } else {
        match property(ts, pos) {
            Err(e) => Err(e),
            Ok((p, next)) => if pos < next <= ts.len() {
                object_properties(ts, after_comma(ts, next), properties.push(p), start)
            } else {
                Err(unexpected_token(ts, pos))
            },
        }
    }
}

/// The expression that a whole token stream stands for: one assignment, with
/// nothing but the end of input behind it.
pub open spec fn parse_tokens(ts: Seq<TokenView>) -> Result<ExprView, ParseErrorView> {
    match assignment(ts, 0) {
        Err(e) => Err(e),
        Ok((e, p)) => if kind_at(ts, p) != TokenKind::Eof {
            Err(unexpected_token(ts, p))
        } else {
            Ok(e)
        },
    }
}

/// The error of the parser for an error of the tokenizer.
pub open spec fn lexer_error(e: ExprLexerErrorView) -> ParseErrorView {
    ParseErrorView { message: e.message, line: 1, column: column_of(e.span.start) }
}

/// The expression that a text stands for.
pub open spec fn parse(chars: Seq<char>) -> Result<ExprView, ParseErrorView> {
    match crate::parser::expr_lexer::tokenize(chars) {
        Err(e) => Err(lexer_error(e)),
        Ok(ts) => parse_tokens(ts),
    }
}

/// The view of a parsing step's result, given where the parser stands
/// afterwards.
pub open spec fn parsed_view(r: Result<Expression, ParseError>, next: int) -> Parsed {
    match r {
        Ok(e) => Ok((e@, next)),
        Err(e) => Err(e@),
    }
}

/// What one parsing step returns: a result and the position behind what
/// was read, which lies at or behind `pos`, and behind it on success.
pub open spec fn stepped(
    tokens: Seq<Token>,
    pos: usize,
    r: (Result<Expression, ParseError>, usize),
    expected: Parsed,
) -> bool {
    &&& pos <= r.1 <= tokens.len()
    &&& parsed_view(r.0, r.1 as int) == expected
    &&& (r.0 is Ok ==> pos < r.1)
}

/// The view of a result of the parser.
pub open spec fn result_view(r: Result<Expression, ParseError>) -> Result<
    ExprView,
    ParseErrorView,
> {
    match r {
        Ok(e) => Ok(e@),
        Err(e) => Err(e@),
    }
}

} // verus!
