//! The tightest tiers of the expression parser: primary expressions and the
//! member accesses and calls behind them.

use vstd::prelude::*;
use vstd::string::*;
use crate::number::Number;
use crate::parser::ast::{
    expr_views, lemma_expr_views_empty, lemma_expr_views_push, lemma_property_views_empty,
    lemma_property_views_push, property_views, ExprKind, ExprSpan, ExprView, Expression,
    ObjectProperty,
};
use crate::parser::expr_grammar::{
    arguments, arguments_rest, array_items, arrow_ahead, arrow_function, arrow_params, assignment,
    atom, call_member, kind_at, member_rest, member_step, object_properties, params_of,
    parenthesized, primary, property, starts_suffix, stepped, token_at,
};
use crate::parser::expr_lexer::{Token, token_views, TokenKind, TokenValue};
use crate::parser::expr_parser::{
    arrow_expression, column, error, expect_identifier, ExprParser, identifier_expression,
    message_with, one_name, peek_kind, peek_span,
};
use crate::parser::ParseError;
use crate::text::{lemma_length_fits, string_views};

verus! {

impl ExprParser {
    pub(crate) fn parse_call_member(tokens: &Vec<Token>, pos: usize) -> (r: (
        Result<Expression, ParseError>,
        usize,
    ))
        requires
            pos <= tokens@.len(),
        ensures
            stepped(tokens@, pos, r, call_member(token_views(tokens@), pos as int)),
        decreases tokens@.len() - pos, 3int, 0int,
    {
        proof {
            reveal(call_member);
            reveal(primary);
            reveal(member_rest);
        }
        let (first, first_end) = ExprParser::parse_primary(tokens, pos);
        let mut expr = match first {
            Ok(e) => e,
            Err(e) => {
                return (Err(e), first_end);
            },
        };
        let mut p = first_end;
        while p < tokens.len() && ExprParser::at_suffix(tokens, p)
            invariant
                pos < p <= tokens@.len(),
                member_rest(token_views(tokens@), p as int, expr@) == call_member(
                    token_views(tokens@),
                    pos as int,
                ),
            decreases tokens@.len() - p,
        {
            proof {
                reveal(member_rest);
                reveal(member_step);
            }
            let (next, q) = ExprParser::parse_suffix(tokens, p, expr);
            expr = match next {
                Ok(e) => e,
                Err(e) => {
                    return (Err(e), q);
                },
            };
            p = q;
        }
        proof {
            reveal(member_rest);
        }
        (Ok(expr), p)
    }

    fn at_suffix(tokens: &Vec<Token>, pos: usize) -> (b: bool)
        ensures
            b == starts_suffix(kind_at(token_views(tokens@), pos as int)),
    {
        match peek_kind(tokens, pos) {
            TokenKind::Dot | TokenKind::OptionalChain | TokenKind::LBracket | TokenKind::LParen => true,
            _ => false,
        }
    }

    /// One member access or call, applied to `object`.
    fn parse_suffix(tokens: &Vec<Token>, pos: usize, object: Expression) -> (r: (
        Result<Expression, ParseError>,
        usize,
    ))
        requires
            pos < tokens@.len(),
            starts_suffix(kind_at(token_views(tokens@), pos as int)),
        ensures
            stepped(tokens@, pos, r, member_step(token_views(tokens@), pos as int, object@)),
        decreases tokens@.len() - pos, 0int, 3int,
    {
        match peek_kind(tokens, pos) {
            TokenKind::Dot | TokenKind::OptionalChain => ExprParser::parse_named_member(
                tokens,
                pos,
                object,
            ),
            TokenKind::LBracket => ExprParser::parse_computed_member(tokens, pos, object),
            _ => ExprParser::parse_call(tokens, pos, object),
        }
    }

    /// `.name` or `?.name` behind `object`.
    fn parse_named_member(tokens: &Vec<Token>, pos: usize, object: Expression) -> (r: (
        Result<Expression, ParseError>,
        usize,
    ))
        requires
            pos < tokens@.len(),
            kind_at(token_views(tokens@), pos as int) == TokenKind::Dot || kind_at(
                token_views(tokens@),
                pos as int,
            ) == TokenKind::OptionalChain,
        ensures
            stepped(tokens@, pos, r, member_step(token_views(tokens@), pos as int, object@)),
    {
        proof {
            reveal(member_step);
        }
        proof {
            lemma_length_fits(tokens);
        }
        let prop_span = peek_span(tokens, pos + 1);
        let name = match expect_identifier(tokens, pos + 1) {
            Ok(name) => name,
            Err(e) => {
                return (Err(e), pos + 1);
            },
        };
        let span = ExprSpan::new(object.span.start, prop_span.end);
        let property = identifier_expression(name, prop_span);
        (
            Ok(
                Expression {
                    kind: ExprKind::Member {
                        object: Box::new(object),
                        property: Box::new(property),
                        computed: false,
                    },
                    span,
                },
            ),
            pos + 2,
        )
    }

    /// `[index]` behind `object`.
    fn parse_computed_member(tokens: &Vec<Token>, pos: usize, object: Expression) -> (r: (
        Result<Expression, ParseError>,
        usize,
    ))
        requires
            pos < tokens@.len(),
            kind_at(token_views(tokens@), pos as int) == TokenKind::LBracket,
        ensures
            stepped(tokens@, pos, r, member_step(token_views(tokens@), pos as int, object@)),
        decreases tokens@.len() - pos, 0int, 2int,
    {
        proof {
            reveal(member_step);
            reveal(assignment);
        }
        proof {
            lemma_length_fits(tokens);
        }
        let (index, p) = ExprParser::parse_assignment(tokens, pos + 1);
        let index = match index {
            Ok(e) => e,
            Err(e) => {
                return (Err(e), p);
            },
        };
        if peek_kind(tokens, p) != TokenKind::RBracket {
            return (Err(error(tokens, p, String::from_str("Expected ']'"))), p);
        }
        let end = peek_span(tokens, p).end;
        let span = ExprSpan::new(object.span.start, end);
        (
            Ok(
                Expression {
                    kind: ExprKind::Member {
                        object: Box::new(object),
                        property: Box::new(index),
                        computed: true,
                    },
                    span,
                },
            ),
            p + 1,
        )
    }

    /// `(arguments)` behind `callee`.
    fn parse_call(tokens: &Vec<Token>, pos: usize, callee: Expression) -> (r: (
        Result<Expression, ParseError>,
        usize,
    ))
        requires
            pos < tokens@.len(),
            kind_at(token_views(tokens@), pos as int) == TokenKind::LParen,
        ensures
            stepped(tokens@, pos, r, member_step(token_views(tokens@), pos as int, callee@)),
        decreases tokens@.len() - pos, 0int, 2int,
    {
        proof {
            reveal(member_step);
            reveal(arguments);
        }
        proof {
            lemma_length_fits(tokens);
        }
        let (args, p) = ExprParser::parse_arguments(tokens, pos + 1);
        let args = match args {
            Ok(args) => args,
            Err(e) => {
                return (Err(e), p);
            },
        };
        if peek_kind(tokens, p) != TokenKind::RParen {
            return (Err(error(tokens, p, String::from_str("Expected ')'"))), p);
        }
        let end = peek_span(tokens, p).end;
        let span = ExprSpan::new(callee.span.start, end);
        (
            Ok(
                Expression {
                    kind: ExprKind::Call { callee: Box::new(callee), arguments: args },
                    span,
                },
            ),
            p + 1,
        )
    }

    /// The arguments of a call, from behind its opening parenthesis.
    fn parse_arguments(tokens: &Vec<Token>, pos: usize) -> (r: (
        Result<Vec<Expression>, ParseError>,
        usize,
    ))
        requires
            pos <= tokens@.len(),
        ensures
            pos <= r.1 <= tokens@.len(),
            match arguments(token_views(tokens@), pos as int) {
                Ok((args, next)) => r.0 matches Ok(v) && expr_views(v@) == args && r.1 == next,
                Err(e) => r.0 matches Err(x) && x@ == e,
            },
        decreases tokens@.len() - pos, 15int, 0int,
    {
        proof {
            reveal(arguments);
            reveal(arguments_rest);
            reveal(assignment);
        }
        let mut args: Vec<Expression> = Vec::new();
        proof {
            lemma_expr_views_empty();
        }
        if peek_kind(tokens, pos) == TokenKind::RParen {
            return (Ok(args), pos);
        }
        let (first, first_end) = ExprParser::parse_assignment(tokens, pos);
        let first = match first {
            Ok(e) => e,
            Err(e) => {
                return (Err(e), first_end);
            },
        };
        proof {
            lemma_expr_views_push(args@, first);
            assert(Seq::<ExprView>::empty().push(first@) =~= seq![first@]);
        }
        args.push(first);
        let mut p = first_end;
        while peek_kind(tokens, p) == TokenKind::Comma
            invariant
                pos < p <= tokens@.len(),
                arguments_rest(token_views(tokens@), p as int, expr_views(args@)) == arguments(
                    token_views(tokens@),
                    pos as int,
                ),
            decreases tokens@.len() - p,
        {
            proof {
                reveal(arguments_rest);
                reveal(assignment);
            }
            let (next, q) = ExprParser::parse_assignment(tokens, p + 1);
            let next = match next {
                Ok(e) => e,
                Err(e) => {
                    return (Err(e), q);
                },
            };
            proof {
                lemma_expr_views_push(args@, next);
            }
            args.push(next);
            p = q;
        }
        proof {
            reveal(arguments_rest);
        }
        (Ok(args), p)
    }

    /// The literal or name that the token at `pos` is by itself.
    fn atom_at(tokens: &Vec<Token>, pos: usize) -> (e: Expression)
        requires
            pos < tokens@.len(),
        ensures
            e@ == atom(token_views(tokens@)[pos as int]),
    {
        let token = &tokens[pos];
        let kind = match token.kind {
            TokenKind::Number => ExprKind::Number(
                match &token.value {
                    TokenValue::Number(n) => n.clone(),
                    _ => Number::zero(),
                },
            ),
            TokenKind::String => ExprKind::String(
                match &token.value {
                    TokenValue::String(s) => s.clone(),
                    _ => String::new(),
                },
            ),
            TokenKind::Boolean => ExprKind::Boolean(
                match &token.value {
                    TokenValue::Boolean(b) => *b,
                    _ => false,
                },
            ),
            TokenKind::Null => ExprKind::Null,
            TokenKind::Undefined => ExprKind::Undefined,
            _ => ExprKind::Identifier(
                match &token.value {
                    TokenValue::Identifier(s) => s.clone(),
                    _ => String::new(),
                },
            ),
        };
        Expression { kind, span: token.span }
    }

    pub(crate) fn parse_primary(tokens: &Vec<Token>, pos: usize) -> (r: (
        Result<Expression, ParseError>,
        usize,
    ))
        requires
            pos <= tokens@.len(),
        ensures
            stepped(tokens@, pos, r, primary(token_views(tokens@), pos as int)),
        decreases tokens@.len() - pos, 2int, 0int,
    {
        proof {
            reveal(primary);
            reveal(assignment);
            reveal(parenthesized);
            reveal(array_items);
            reveal(object_properties);
        }
        if pos >= tokens.len() {
            return (
                Err(error(tokens, pos, message_with("Unexpected token: ", peek_kind(tokens, pos)))),
                pos,
            );
        }
        let kind = tokens[pos].kind;
        match kind {
            TokenKind::Number | TokenKind::String | TokenKind::Boolean | TokenKind::Null
            | TokenKind::Undefined => (Ok(ExprParser::atom_at(tokens, pos)), pos + 1),
            TokenKind::Identifier => {
                let e = ExprParser::atom_at(tokens, pos);
                if peek_kind(tokens, pos + 1) == TokenKind::Arrow {
                    let start = e.span.start;
                    let name = match e.kind {
                        ExprKind::Identifier(name) => name,
                        _ => String::new(),
                    };
                    let (body, q) = ExprParser::parse_assignment(tokens, pos + 2);
                    let body = match body {
                        Ok(e) => e,
                        Err(e) => {
                            return (Err(e), q);
                        },
                    };
                    return (Ok(arrow_expression(one_name(name), body, start)), q);
                }
                (Ok(e), pos + 1)
            },
            TokenKind::LParen => ExprParser::parse_parenthesized(tokens, pos),
            TokenKind::LBracket => ExprParser::parse_array_literal(tokens, pos),
            TokenKind::LBrace => ExprParser::parse_object_literal(tokens, pos),
            _ => (Err(error(tokens, pos, message_with("Unexpected token: ", kind))), pos),
        }
    }

    fn parse_parenthesized(tokens: &Vec<Token>, pos: usize) -> (r: (
        Result<Expression, ParseError>,
        usize,
    ))
        requires
            pos < tokens@.len(),
            kind_at(token_views(tokens@), pos as int) == TokenKind::LParen,
        ensures
            stepped(tokens@, pos, r, parenthesized(token_views(tokens@), pos as int)),
        decreases tokens@.len() - pos, 1int, 1int,
    {
        proof {
            reveal(parenthesized);
            reveal(arrow_function);
            reveal(assignment);
        }
        if ExprParser::is_arrow_params(tokens, pos) {
            return ExprParser::parse_arrow_function(tokens, pos);
        }
        proof {
            lemma_length_fits(tokens);
        }
        let start = peek_span(tokens, pos).start;
        let (inner, p) = ExprParser::parse_assignment(tokens, pos + 1);
        let inner = match inner {
            Ok(e) => e,
            Err(e) => {
                return (Err(e), p);
            },
        };
        if peek_kind(tokens, p) != TokenKind::RParen {
            return (Err(error(tokens, p, String::from_str("Expected ')'"))), p);
        }
        if peek_kind(tokens, p + 1) == TokenKind::Arrow {
            let params = match ExprParser::expr_to_params(&inner) {
                Ok(params) => params,
                Err(e) => {
                    return (Err(e), p + 1);
                },
            };
            let (body, q) = ExprParser::parse_assignment(tokens, p + 2);
            let body = match body {
                Ok(e) => e,
                Err(e) => {
                    return (Err(e), q);
                },
            };
            return (Ok(arrow_expression(params, body, start)), q);
        }
        (Ok(inner), p + 1)
    }

    fn parse_array_literal(tokens: &Vec<Token>, pos: usize) -> (r: (
        Result<Expression, ParseError>,
        usize,
    ))
        requires
            pos < tokens@.len(),
            kind_at(token_views(tokens@), pos as int) == TokenKind::LBracket,
        ensures
            stepped(
                tokens@,
                pos,
                r,
                array_items(
                    token_views(tokens@),
                    pos + 1,
                    Seq::empty(),
                    token_at(token_views(tokens@), pos as int).span.start,
                ),
            ),
        decreases tokens@.len() - pos, 1int, 0int,
    {
        proof {
            reveal(array_items);
            reveal(assignment);
        }
        proof {
            lemma_length_fits(tokens);
        }
        let start = peek_span(tokens, pos).start;
        let mut elements: Vec<Expression> = Vec::new();
        proof {
            lemma_expr_views_empty();
        }
        let mut p = pos + 1;
        while peek_kind(tokens, p) != TokenKind::RBracket && peek_kind(tokens, p) != TokenKind::Eof
            invariant
                pos < p <= tokens@.len(),
                tokens@.len() <= usize::MAX,
                start == token_at(token_views(tokens@), pos as int).span.start,
                array_items(token_views(tokens@), p as int, expr_views(elements@), start)
                    == array_items(token_views(tokens@), pos + 1, Seq::empty(), start),
            decreases tokens@.len() - p,
        {
            proof {
                reveal(array_items);
                reveal(assignment);
            }
            let (item, q) = ExprParser::parse_assignment(tokens, p);
            let item = match item {
                Ok(e) => e,
                Err(e) => {
                    return (Err(e), q);
                },
            };
            proof {
                lemma_expr_views_push(elements@, item);
            }
            elements.push(item);
            p = if peek_kind(tokens, q) == TokenKind::Comma {
                q + 1
            } else {
                q
            };
        }
        proof {
            reveal(array_items);
        }
        if peek_kind(tokens, p) != TokenKind::RBracket {
            return (Err(error(tokens, p, String::from_str("Expected ']'"))), p);
        }
        let end = peek_span(tokens, p).end;
        (
            Ok(Expression { kind: ExprKind::Array(elements), span: ExprSpan::new(start, end) }),
            p + 1,
        )
    }

    /// One property of an object literal: `key: value`, or `key` alone.
    fn parse_property(tokens: &Vec<Token>, pos: usize) -> (r: (
        Result<ObjectProperty, ParseError>,
        usize,
    ))
        requires
            pos <= tokens@.len(),
        ensures
            pos <= r.1 <= tokens@.len(),
            match property(token_views(tokens@), pos as int) {
                Ok((p, next)) => r.0 matches Ok(x) && x@ == p && r.1 == next && pos < next,
                Err(e) => r.0 matches Err(x) && x@ == e,
            },
        decreases tokens@.len() - pos, 0int, 0int,
    {
        proof {
            reveal(property);
            reveal(assignment);
        }
        proof {
            lemma_length_fits(tokens);
        }
        let key_span = peek_span(tokens, pos);
        let key = match expect_identifier(tokens, pos) {
            Ok(key) => key,
            Err(e) => {
                return (Err(e), pos);
            },
        };
        if peek_kind(tokens, pos + 1) == TokenKind::Colon {
            let (value, q) = ExprParser::parse_assignment(tokens, pos + 2);
            let value = match value {
                Ok(e) => e,
                Err(e) => {
                    return (Err(e), q);
                },
            };
            (Ok(ObjectProperty { key, value, shorthand: false }), q)
        } else {
            let value = identifier_expression(key.clone(), key_span);
            (Ok(ObjectProperty { key, value, shorthand: true }), pos + 1)
        }
    }

    fn parse_object_literal(tokens: &Vec<Token>, pos: usize) -> (r: (
        Result<Expression, ParseError>,
        usize,
    ))
        requires
            pos < tokens@.len(),
            kind_at(token_views(tokens@), pos as int) == TokenKind::LBrace,
        ensures
            stepped(
                tokens@,
                pos,
                r,
                object_properties(
                    token_views(tokens@),
                    pos + 1,
                    Seq::empty(),
                    token_at(token_views(tokens@), pos as int).span.start,
                ),
            ),
        decreases tokens@.len() - pos, 1int, 0int,
    {
        proof {
            reveal(object_properties);
            reveal(property);
        }
        proof {
            lemma_length_fits(tokens);
        }
        let start = peek_span(tokens, pos).start;
        let mut properties: Vec<ObjectProperty> = Vec::new();
        proof {
            lemma_property_views_empty();
        }
        let mut p = pos + 1;
        while peek_kind(tokens, p) != TokenKind::RBrace && peek_kind(tokens, p) != TokenKind::Eof
            invariant
                pos < p <= tokens@.len(),
                tokens@.len() <= usize::MAX,
                start == token_at(token_views(tokens@), pos as int).span.start,
                object_properties(
                    token_views(tokens@),
                    p as int,
                    property_views(properties@),
                    start,
                ) == object_properties(token_views(tokens@), pos + 1, Seq::empty(), start),
            decreases tokens@.len() - p,
        {
            proof {
                reveal(object_properties);
                reveal(property);
            }
            let (property, q) = ExprParser::parse_property(tokens, p);
            let property = match property {
                Ok(x) => x,
                Err(e) => {
                    return (Err(e), q);
                },
            };
            proof {
                lemma_property_views_push(properties@, property);
            }
            properties.push(property);
            p = if peek_kind(tokens, q) == TokenKind::Comma {
                q + 1
            } else {
                q
            };
        }
        proof {
            reveal(object_properties);
        }
        if peek_kind(tokens, p) != TokenKind::RBrace {
            return (Err(error(tokens, p, String::from_str("Expected '}'"))), p);
        }
        let end = peek_span(tokens, p).end;
        (
            Ok(
                Expression { kind: ExprKind::Object(properties), span: ExprSpan::new(start, end) },
            ),
            p + 1,
        )
    }

    /// Whether the parenthesis at `pos` opens the parameters of an arrow
    /// function.
    fn is_arrow_params(tokens: &Vec<Token>, pos: usize) -> (b: bool)
        requires
            pos < tokens@.len(),
            kind_at(token_views(tokens@), pos as int) == TokenKind::LParen,
        ensures
            b == arrow_ahead(token_views(tokens@), pos as int, 0),
    {
        proof {
            reveal(arrow_ahead);
        }
        let mut depth: usize = 0;
        let mut i = pos;
        while i < tokens.len()
            invariant
                pos <= i <= tokens@.len(),
                depth <= i - pos,
                i > pos ==> depth >= 1,
                kind_at(token_views(tokens@), pos as int) == TokenKind::LParen,
                arrow_ahead(token_views(tokens@), i as int, depth as int) == arrow_ahead(
                    token_views(tokens@),
                    pos as int,
                    0,
                ),
            decreases tokens@.len() - i,
        {
            proof {
                reveal(arrow_ahead);
            }
            match tokens[i].kind {
                TokenKind::LParen => {
                    depth += 1;
                },
                TokenKind::RParen => {
                    depth -= 1;
                    if depth == 0 {
                        return peek_kind(tokens, i + 1) == TokenKind::Arrow;
                    }
                },
                TokenKind::Eof => {
                    return false;
                },
                _ => {},
            }
            i += 1;
        }
        false
    }

    /// `(a, b) => body`, from its opening parenthesis.
    fn parse_arrow_function(tokens: &Vec<Token>, pos: usize) -> (r: (
        Result<Expression, ParseError>,
        usize,
    ))
        requires
            pos < tokens@.len(),
            kind_at(token_views(tokens@), pos as int) == TokenKind::LParen,
        ensures
            stepped(tokens@, pos, r, arrow_function(token_views(tokens@), pos as int)),
        decreases tokens@.len() - pos, 1int, 0int,
    {
        proof {
            reveal(arrow_function);
            reveal(arrow_params);
            reveal(assignment);
        }
        proof {
            lemma_length_fits(tokens);
        }
        let start = peek_span(tokens, pos).start;
        let mut params: Vec<String> = Vec::new();
        assert(string_views(params@) =~= Seq::empty());
        let mut p = pos + 1;
        while p < tokens.len() && peek_kind(tokens, p) != TokenKind::RParen && peek_kind(tokens, p)
            != TokenKind::Eof
            invariant
                pos < p <= tokens@.len(),
                tokens@.len() <= usize::MAX,
                start == token_at(token_views(tokens@), pos as int).span.start,
                kind_at(token_views(tokens@), pos as int) == TokenKind::LParen,
                arrow_params(token_views(tokens@), p as int, string_views(params@))
                    == arrow_params(token_views(tokens@), pos + 1, Seq::empty()),
            decreases tokens@.len() - p,
        {
            proof {
                reveal(arrow_function);
                reveal(arrow_params);
            }
            let ghost names = string_views(params@);
            let name = match expect_identifier(tokens, p) {
                Ok(name) => name,
                Err(e) => {
                    return (Err(e), p);
                },
            };
            params.push(name);
            assert(string_views(params@) =~= names.push(name@));
            p = if peek_kind(tokens, p + 1) == TokenKind::Comma {
                p + 2
            } else {
                p + 1
            };
        }
        proof {
            reveal(arrow_params);
        }
        if peek_kind(tokens, p) != TokenKind::RParen {
            return (
                Err(error(tokens, p, String::from_str("Expected ')' after arrow parameters"))),
                p,
            );
        }
        if peek_kind(tokens, p + 1) != TokenKind::Arrow {
            return (Err(error(tokens, p + 1, String::from_str("Expected '=>'"))), p + 1);
        }
        let (body, q) = ExprParser::parse_assignment(tokens, p + 2);
        let body = match body {
            Ok(e) => e,
            Err(e) => {
                return (Err(e), q);
            },
        };
        (Ok(arrow_expression(params, body, start)), q)
    }

    /// Reads an expression that stood in parentheses as a parameter list.
    fn expr_to_params(expr: &Expression) -> (r: Result<Vec<String>, ParseError>)
        ensures
            match params_of(expr@) {
                Ok(names) => r matches Ok(v) && string_views(v@) == names,
                Err(e) => r matches Err(x) && x@ == e,
            },
    {
        match &expr.kind {
            ExprKind::Identifier(name) => Ok(one_name(name.clone())),
            _ => Err(
                ParseError {
                    message: String::from_str("Invalid arrow function parameters"),
                    line: 1,
                    column: column(expr.span.start),
                },
            ),
        }
    }
}

} // verus!
