//! The document parser: recursive descent over the scanner's tokens. Every
//! function takes the tokens and a position, and returns what it read with
//! the position behind it.

use vstd::prelude::*;
use vstd::string::*;
use crate::lexer::token::{Token, token_views, TokenKind, TokenView};
use crate::lexer::Scanner;
use crate::parser::ast::{
    Attribute, attribute_views, AttributePrefix, computed_field_views, ComputedBlock,
    ComputedField, Document, Element, ElementView, Expression, ExprKind, ExprSpan, Node,
    node_views, NodeView, option_view, push_attribute, push_computed_field, push_name, push_node,
    push_state_field, state_field_views, StateBlock, StateField,
};
use crate::parser::expr_parser::ExprParser;
use crate::parser::grammar::{
    after_newlines, bare, block_end, children, collected, computed_block, computed_field,
    computed_fields, element, ends_fields, error_at, event_modifiers, expected_identifier,
    expression_value, inline_value, is_end, kind_at, line_source, modifier, modifiers, name_at,
    nodes_from, optional_value, parse, parse_tokens, Partial, plain_value, prefixed_attribute,
    source_part, state_block, state_field, state_fields, top_level,
};
use crate::parser::{ParseError, ParseErrorView};
use crate::text::{join_strings, lemma_length_fits, push_replaced, string_views};

verus! {

fn is_at_end(tokens: &Vec<Token>, pos: usize) -> (b: bool)
    ensures
        b == is_end(token_views(tokens@), pos as int),
        tokens@.len() <= usize::MAX,
{
    pos >= tokens.len() || matches!(tokens[pos].kind, TokenKind::Eof)
}

fn at_newline(tokens: &Vec<Token>, pos: usize) -> (b: bool)
    ensures
        b == (kind_at(token_views(tokens@), pos as int) is Newline),
        b ==> pos < tokens@.len(),
        tokens@.len() <= usize::MAX,
{
    pos < tokens.len() && matches!(tokens[pos].kind, TokenKind::Newline)
}

fn at_indent(tokens: &Vec<Token>, pos: usize) -> (b: bool)
    ensures
        b == (kind_at(token_views(tokens@), pos as int) is Indent),
        b ==> pos < tokens@.len(),
        tokens@.len() <= usize::MAX,
{
    pos < tokens.len() && matches!(tokens[pos].kind, TokenKind::Indent)
}

fn at_dedent(tokens: &Vec<Token>, pos: usize) -> (b: bool)
    ensures
        b == (kind_at(token_views(tokens@), pos as int) is Dedent),
        b ==> pos < tokens@.len(),
        tokens@.len() <= usize::MAX,
{
    pos < tokens.len() && matches!(tokens[pos].kind, TokenKind::Dedent)
}

fn at_colon(tokens: &Vec<Token>, pos: usize) -> (b: bool)
    ensures
        b == (kind_at(token_views(tokens@), pos as int) is Colon),
        b ==> pos < tokens@.len(),
        tokens@.len() <= usize::MAX,
{
    pos < tokens.len() && matches!(tokens[pos].kind, TokenKind::Colon)
}

fn at_equals(tokens: &Vec<Token>, pos: usize) -> (b: bool)
    ensures
        b == (kind_at(token_views(tokens@), pos as int) is Equals),
        b ==> pos < tokens@.len(),
        tokens@.len() <= usize::MAX,
{
    pos < tokens.len() && matches!(tokens[pos].kind, TokenKind::Equals)
}

fn at_dot(tokens: &Vec<Token>, pos: usize) -> (b: bool)
    ensures
        b == (kind_at(token_views(tokens@), pos as int) is Dot),
        b ==> pos < tokens@.len(),
        tokens@.len() <= usize::MAX,
{
    pos < tokens.len() && matches!(tokens[pos].kind, TokenKind::Dot)
}

/// The error `message`, placed at the token at `pos`.
fn error(tokens: &Vec<Token>, pos: usize, message: String) -> (e: ParseError)
    ensures
        e@ == error_at(token_views(tokens@), pos as int, message@),
{
    if pos < tokens.len() {
        ParseError { message, line: tokens[pos].span.line, column: tokens[pos].span.column }
    } else {
        ParseError { message, line: 0, column: 0 }
    }
}

/// The error of the token at `pos`, which is not what `expected` names.
fn unexpected(tokens: &Vec<Token>, pos: usize, expected: &str) -> (e: ParseError)
    ensures
        e@ == error_at(
            token_views(tokens@),
            pos as int,
            expected@ + kind_at(token_views(tokens@), pos as int).debug_text(),
        ),
{
    let mut message = String::from_str(expected);
    if pos < tokens.len() {
        message.append(tokens[pos].kind.debug_text().as_str());
    } else {
        message.append(TokenKind::Eof.debug_text().as_str());
    }
    error(tokens, pos, message)
}

/// The name that the token at `pos` is, or the error of a token that is none.
fn expect_identifier(tokens: &Vec<Token>, pos: usize) -> (r: Result<String, ParseError>)
    ensures
        match name_at(token_views(tokens@), pos as int) {
            Some(name) => r matches Ok(s) && s@ == name && pos < tokens@.len(),
            None => r matches Err(e) && e@ == expected_identifier(
                token_views(tokens@),
                pos as int,
            ),
        },
        tokens@.len() <= usize::MAX,
{
    if pos < tokens.len() {
        if let TokenKind::Identifier(name) = &tokens[pos].kind {
            return Ok(name.clone());
        }
    }
    Err(unexpected(tokens, pos, "Expected identifier, got "))
}

/// The first position at or behind `pos` that holds no line break.
fn skip_newlines(tokens: &Vec<Token>, pos: usize) -> (next: usize)
    ensures
        next == after_newlines(token_views(tokens@), pos as int),
        pos <= next,
        pos <= tokens@.len() ==> next <= tokens@.len(),
{
    let mut next = pos;
    while at_newline(tokens, next)
        invariant
            pos <= next,
            pos <= tokens@.len() ==> next <= tokens@.len(),
            after_newlines(token_views(tokens@), next as int) == after_newlines(
                token_views(tokens@),
                pos as int,
            ),
        decreases tokens@.len() - next,
    {
        proof {
            reveal(after_newlines);
        }
        next += 1;
    }
    proof {
        reveal(after_newlines);
    }
    next
}

/// The position behind a block end at `pos`, if there is one.
fn skip_block_end(tokens: &Vec<Token>, pos: usize) -> (next: usize)
    ensures
        next == block_end(token_views(tokens@), pos as int),
        pos <= next,
        pos <= tokens@.len() ==> next <= tokens@.len(),
{
    if at_dedent(tokens, pos) {
        pos + 1
    } else {
        pos
    }
}

/// An expression that was read from a single token.
fn bare_expression(kind: ExprKind) -> (e: Expression)
    ensures
        e@ == bare(kind@),
{
    Expression { kind, span: ExprSpan::new(0, 0) }
}

/// The view of a value with the position behind it.
pub open spec fn value_view(r: Result<(Expression, usize), ParseError>) -> Result<
    (crate::parser::ast::ExprView, int),
    ParseErrorView,
> {
    match r {
        Ok((e, next)) => Ok((e@, next as int)),
        Err(e) => Err(e@),
    }
}

/// The view of a node with the position behind it.
pub open spec fn node_view(r: Result<(Node, usize), ParseError>) -> Result<
    (NodeView, int),
    ParseErrorView,
> {
    match r {
        Ok((node, next)) => Ok((node@, next as int)),
        Err(e) => Err(e@),
    }
}

/// The view of the parser's result.
pub open spec fn document_view(r: Result<Document, ParseError>) -> Result<
    crate::parser::ast::DocumentView,
    ParseErrorView,
> {
    match r {
        Ok(doc) => Ok(doc@),
        Err(e) => Err(e@),
    }
}

/// The text that a token contributes to the source of a computed field.
fn part_text(kind: &TokenKind) -> (r: Option<String>)
    ensures
        match source_part(kind@) {
            Some(text) => r matches Some(s) && s@ == text,
            None => r is None,
        },
{
    match kind {
        TokenKind::Identifier(s) => Some(s.clone()),
        TokenKind::Number(n) => Some(n.to_text()),
        TokenKind::String(s) => {
            let mut escaped = String::new();
            push_replaced(&mut escaped, s.as_str(), '\\', "\\\\");
            let mut quoted = String::from_str("\"");
            push_replaced(&mut quoted, escaped.as_str(), '"', "\\\"");
            quoted.append("\"");
            assert(escaped@ =~= crate::text::replaced(s@, '\\', "\\\\"@));
            Some(quoted)
        },
        TokenKind::Boolean(b) => if *b {
            Some(String::from_str("true"))
        } else {
            Some(String::from_str("false"))
        },
        TokenKind::Null => Some(String::from_str("null")),
        TokenKind::Dot => Some(String::from_str(".")),
        TokenKind::Colon => Some(String::from_str(":")),
        TokenKind::Equals => Some(String::from_str("=")),
        TokenKind::Comma => Some(String::from_str(",")),
        TokenKind::LParen => Some(String::from_str("(")),
        TokenKind::RParen => Some(String::from_str(")")),
        TokenKind::Plus => Some(String::from_str("+")),
        _ => None,
    }
}

/// An element that is being read.
struct Draft {
    tag: String,
    classes: Vec<String>,
    attributes: Vec<Attribute>,
    children: Vec<Node>,
    seen_class: bool,
}

impl Draft {
    spec fn view(&self) -> Partial {
        Partial {
            element: ElementView {
                tag: self.tag@,
                classes: string_views(self.classes@),
                attributes: attribute_views(self.attributes@),
                children: node_views(self.children@),
            },
            seen_class: self.seen_class,
        }
    }

    fn start(tag: String) -> (draft: Self)
        ensures
            draft@ == Partial::start(tag@),
    {
        let draft = Draft {
            tag,
            classes: Vec::new(),
            attributes: Vec::new(),
            children: Vec::new(),
            seen_class: false,
        };
        assert(string_views(draft.classes@) =~= Seq::empty());
        assert(attribute_views(draft.attributes@) =~= Seq::empty());
        assert(node_views(draft.children@) =~= Seq::empty());
        draft
    }

    fn with_class(self, class: String, dotted: bool) -> (draft: Self)
        ensures
            draft@ == self@.with_class(class@, dotted),
    {
        let mut draft = self;
        push_name(&mut draft.classes, class);
        draft.seen_class = draft.seen_class || dotted;
        draft
    }

    fn with_attribute(self, attribute: Attribute) -> (draft: Self)
        ensures
            draft@ == self@.with_attribute(attribute@),
    {
        let mut draft = self;
        push_attribute(&mut draft.attributes, attribute);
        draft
    }

    fn with_child(self, child: Node) -> (draft: Self)
        ensures
            draft@ == self@.with_child(child@),
    {
        let mut draft = self;
        push_node(&mut draft.children, child);
        draft
    }
}

fn text_node(text: String) -> (node: Node)
    ensures
        node@ == NodeView::Text(text@),
{
    Node::Text(text)
}

fn comment_node(text: String) -> (node: Node)
    ensures
        node@ == NodeView::Comment(text@),
{
    Node::Comment(text)
}

fn element_node(
    tag: String,
    classes: Vec<String>,
    attributes: Vec<Attribute>,
    children: Vec<Node>,
) -> (node: Node)
    ensures
        node@ == NodeView::Element(
            ElementView {
                tag: tag@,
                classes: string_views(classes@),
                attributes: attribute_views(attributes@),
                children: node_views(children@),
            },
        ),
{
    Node::Element(Element { tag, classes, attributes, children })
}

/// The document parser.
pub struct Parser {
    tokens: Vec<Token>,
    pos: usize,
}

impl Parser {
    /// The tokens that are being read.
    pub closed spec fn stream(&self) -> Seq<TokenView> {
        token_views(self.tokens@)
    }

    /// The index of the next token to read.
    pub closed spec fn position(&self) -> int {
        self.pos as int
    }

    /// A parser at the start of `tokens`.
    pub fn new(tokens: Vec<Token>) -> (parser: Self)
        ensures
            parser.stream() == token_views(tokens@),
            parser.position() == 0,
    {
        Parser { tokens, pos: 0 }
    }

    /// Parses `source` into a document.
    pub fn parse(source: &str) -> (r: Result<Document, ParseError>)
        ensures
            document_view(r) == parse(source@),
    {
        let tokens = match Scanner::tokenize(source) {
            Ok(tokens) => tokens,
            Err(e) => {
                return Err(ParseError { message: e.message, line: e.line, column: e.column });
            },
        };
        let mut parser = Parser::new(tokens);
        parser.parse_document()
    }

    /// Parses the whole token stream.
    fn parse_document(&mut self) -> (r: Result<Document, ParseError>)
        requires
            old(self).pos == 0,
        ensures
            final(self).tokens == old(self).tokens,
            document_view(r) == parse_tokens(old(self).stream()),
    {
        let mut nodes: Vec<Node> = Vec::new();
        assert(node_views(nodes@) =~= Seq::empty());
        let mut pos: usize = 0;
        loop
            invariant
                self.tokens == old(self).tokens,
                pos <= self.tokens@.len(),
                nodes_from(self.stream(), pos as int, node_views(nodes@)) == nodes_from(
                    self.stream(),
                    0,
                    Seq::empty(),
                ),
            ensures
                is_end(self.stream(), pos as int),
            decreases self.tokens@.len() - pos,
        {
            proof {
                reveal(nodes_from);
            }
            if is_at_end(&self.tokens, pos) {
                break ;
            }
            let start = skip_newlines(&self.tokens, pos);
            if is_at_end(&self.tokens, start) {
                pos = start;
                break ;
            }
            match &self.tokens[start].kind {
                TokenKind::Comment(text) => {
                    push_node(&mut nodes, comment_node(text.clone()));
                    pos = start + 1;
                },
                TokenKind::State | TokenKind::Computed | TokenKind::Identifier(_)
                | TokenKind::Dot => {
                    let (node, behind) = match Parser::parse_top_level(&self.tokens, start) {
                        Ok(x) => x,
                        Err(e) => {
                            return Err(e);
                        },
                    };
                    push_node(&mut nodes, node);
                    pos = behind;
                },
                _ => {
                    pos = start + 1;
                },
            }
        }
        proof {
            reveal(nodes_from);
        }
        self.pos = pos;
        Ok(Document { nodes })
    }

    /// The block or element that starts at `pos`.
    fn parse_top_level(tokens: &Vec<Token>, pos: usize) -> (r: Result<(Node, usize), ParseError>)
        requires
            pos < tokens@.len(),
            kind_at(token_views(tokens@), pos as int) is State || kind_at(
                token_views(tokens@),
                pos as int,
            ) is Computed || kind_at(token_views(tokens@), pos as int) is Identifier || kind_at(
                token_views(tokens@),
                pos as int,
            ) is Dot,
        ensures
            node_view(r) == top_level(token_views(tokens@), pos as int),
            r matches Ok((_, next)) ==> pos < next <= tokens@.len(),
    {
        match &tokens[pos].kind {
            TokenKind::State => Parser::parse_state_block(tokens, pos),
            TokenKind::Computed => Parser::parse_computed_block(tokens, pos),
            _ => Parser::parse_element(tokens, pos),
        }
    }

    // -- state and computed blocks ------------------------------------------

    /// The state block whose keyword stands at `pos`.
    fn parse_state_block(tokens: &Vec<Token>, pos: usize) -> (r: Result<(Node, usize), ParseError>)
        requires
            pos < tokens@.len(),
        ensures
            node_view(r) == state_block(token_views(tokens@), pos as int),
            r matches Ok((_, next)) ==> pos < next <= tokens@.len(),
    {
        proof {
            lemma_length_fits(tokens);
        }
        let start = skip_newlines(tokens, pos + 1);
        let mut fields: Vec<StateField> = Vec::new();
        assert(state_field_views(fields@) =~= Seq::empty());
        if !at_indent(tokens, start) {
            return Ok((Node::StateBlock(StateBlock { fields }), start));
        }
        let mut p = start + 1;
        loop
            invariant
                pos < start < p <= tokens@.len(),
                start == after_newlines(token_views(tokens@), pos + 1),
                kind_at(token_views(tokens@), start as int) is Indent,
                state_fields(token_views(tokens@), p as int, state_field_views(fields@))
                    == state_fields(token_views(tokens@), start + 1, Seq::empty()),
            ensures
                ends_fields(token_views(tokens@), p as int),
            decreases tokens@.len() - p,
        {
            proof {
                reveal(state_fields);
            }
            if at_dedent(tokens, p) || is_at_end(tokens, p) {
                break ;
            }
            let at = skip_newlines(tokens, p);
            if at_dedent(tokens, at) {
                p = at;
                break ;
            }
            let (field, next) = match Parser::parse_state_field(tokens, at) {
                Ok(x) => x,
                Err(e) => {
                    return Err(e);
                },
            };
            push_state_field(&mut fields, field);
            p = skip_newlines(tokens, next);
        }
        proof {
            reveal(state_fields);
        }
        Ok((Node::StateBlock(StateBlock { fields }), skip_block_end(tokens, p)))
    }

    /// One `name: value` line of a state block.
    fn parse_state_field(tokens: &Vec<Token>, pos: usize) -> (r: Result<
        (StateField, usize),
        ParseError,
    >)
        requires
            pos <= tokens@.len(),
        ensures
            match state_field(token_views(tokens@), pos as int) {
                Ok((field, next)) => r matches Ok((f, n)) && f@ == field && n == next && pos < n
                    <= tokens@.len(),
                Err(e) => r matches Err(x) && x@ == e,
            },
    {
        let name = match expect_identifier(tokens, pos) {
            Ok(name) => name,
            Err(e) => {
                return Err(e);
            },
        };
        if !at_colon(tokens, pos + 1) {
            let mut message = String::from_str("Expected ':' after state field '");
            message.append(name.as_str());
            message.append("'");
            return Err(error(tokens, pos + 1, message));
        }
        let (value, next) = match Parser::parse_inline_value(tokens, pos + 2) {
            Ok(x) => x,
            Err(e) => {
                return Err(e);
            },
        };
        Ok((StateField { name, value }, next))
    }

    /// The computed block whose keyword stands at `pos`.
    fn parse_computed_block(tokens: &Vec<Token>, pos: usize) -> (r: Result<
        (Node, usize),
        ParseError,
    >)
        requires
            pos < tokens@.len(),
        ensures
            node_view(r) == computed_block(token_views(tokens@), pos as int),
            r matches Ok((_, next)) ==> pos < next <= tokens@.len(),
    {
        proof {
            lemma_length_fits(tokens);
        }
        let start = skip_newlines(tokens, pos + 1);
        let mut fields: Vec<ComputedField> = Vec::new();
        assert(computed_field_views(fields@) =~= Seq::empty());
        if !at_indent(tokens, start) {
            return Ok((Node::ComputedBlock(ComputedBlock { fields }), start));
        }
        let mut p = start + 1;
        loop
            invariant
                pos < start < p <= tokens@.len(),
                start == after_newlines(token_views(tokens@), pos + 1),
                kind_at(token_views(tokens@), start as int) is Indent,
                computed_fields(token_views(tokens@), p as int, computed_field_views(fields@))
                    == computed_fields(token_views(tokens@), start + 1, Seq::empty()),
            ensures
                ends_fields(token_views(tokens@), p as int),
            decreases tokens@.len() - p,
        {
            proof {
                reveal(computed_fields);
            }
            if at_dedent(tokens, p) || is_at_end(tokens, p) {
                break ;
            }
            let at = skip_newlines(tokens, p);
            if at_dedent(tokens, at) {
                p = at;
                break ;
            }
            let (field, next) = match Parser::parse_computed_field(tokens, at) {
                Ok(x) => x,
                Err(e) => {
                    return Err(e);
                },
            };
            push_computed_field(&mut fields, field);
            p = skip_newlines(tokens, next);
        }
        proof {
            reveal(computed_fields);
        }
        Ok((Node::ComputedBlock(ComputedBlock { fields }), skip_block_end(tokens, p)))
    }

    /// One `name: expression` line of a computed block.
    fn parse_computed_field(tokens: &Vec<Token>, pos: usize) -> (r: Result<
        (ComputedField, usize),
        ParseError,
    >)
        requires
            pos <= tokens@.len(),
        ensures
            match computed_field(token_views(tokens@), pos as int) {
                Ok((field, next)) => r matches Ok((f, n)) && f@ == field && n == next && pos < n
                    <= tokens@.len(),
                Err(e) => r matches Err(x) && x@ == e,
            },
    {
        let name = match expect_identifier(tokens, pos) {
            Ok(name) => name,
            Err(e) => {
                return Err(e);
            },
        };
        if !at_colon(tokens, pos + 1) {
            let mut message = String::from_str("Expected ':' after computed field '");
            message.append(name.as_str());
            message.append("'");
            return Err(error(tokens, pos + 1, message));
        }
        let (source, next) = Parser::collect_to_newline(tokens, pos + 2);
        let body = match ExprParser::parse(source.as_str()) {
            Ok(body) => body,
            Err(e) => {
                return Err(e);
            },
        };
        Ok((ComputedField { name, body }, next))
    }

    /// The source of the expression that runs from `pos` to the end of the
    /// line, and the position of that end.
    fn collect_to_newline(tokens: &Vec<Token>, pos: usize) -> (r: (String, usize))
        requires
            pos <= tokens@.len(),
        ensures
            r.0@ == line_source(token_views(tokens@), pos as int),
            r.1 == collected(token_views(tokens@), pos as int, Seq::empty()).1,
            pos <= r.1 <= tokens@.len(),
    {
        let mut parts: Vec<String> = Vec::new();
        assert(string_views(parts@) =~= Seq::empty());
        let mut p = pos;
        while !is_at_end(tokens, p) && !at_newline(tokens, p) && !at_dedent(tokens, p)
            invariant
                pos <= p <= tokens@.len(),
                collected(token_views(tokens@), p as int, string_views(parts@)) == collected(
                    token_views(tokens@),
                    pos as int,
                    Seq::empty(),
                ),
            decreases tokens@.len() - p,
        {
            proof {
                reveal(collected);
            }
            match part_text(&tokens[p].kind) {
                Some(text) => {
                    push_name(&mut parts, text);
                },
                None => {},
            }
            p += 1;
        }
        proof {
            reveal(collected);
        }
        (join_strings(&parts, " "), p)
    }

    // -- values -------------------------------------------------------------

    /// The value of a state field.
    fn parse_inline_value(tokens: &Vec<Token>, pos: usize) -> (r: Result<
        (Expression, usize),
        ParseError,
    >)
        ensures
            value_view(r) == inline_value(token_views(tokens@), pos as int),
            r matches Ok((_, next)) ==> pos < tokens@.len() && next == pos + 1,
    {
        if pos >= tokens.len() {
            return Err(unexpected(tokens, pos, "Expected value, got "));
        }
        let kind = match &tokens[pos].kind {
            TokenKind::Number(n) => ExprKind::Number(n.clone()),
            TokenKind::String(s) => ExprKind::String(s.clone()),
            TokenKind::Boolean(b) => ExprKind::Boolean(*b),
            TokenKind::Null => ExprKind::Null,
            TokenKind::Identifier(name) => ExprKind::Identifier(name.clone()),
            _ => {
                return Err(unexpected(tokens, pos, "Expected value, got "));
            },
        };
        Ok((bare_expression(kind), pos + 1))
    }

    /// The value of an attribute without a prefix.
    fn parse_plain_value(tokens: &Vec<Token>, pos: usize) -> (r: Result<
        (Expression, usize),
        ParseError,
    >)
        ensures
            value_view(r) == plain_value(token_views(tokens@), pos as int),
            r matches Ok((_, next)) ==> pos < tokens@.len() && next == pos + 1,
    {
        if pos >= tokens.len() {
            return Err(unexpected(tokens, pos, "Expected attribute value, got "));
        }
        let kind = match &tokens[pos].kind {
            TokenKind::String(s) => ExprKind::String(s.clone()),
            TokenKind::Number(n) => ExprKind::Number(n.clone()),
            TokenKind::Boolean(b) => ExprKind::Boolean(*b),
            TokenKind::Identifier(name) => ExprKind::Identifier(name.clone()),
            _ => {
                return Err(unexpected(tokens, pos, "Expected attribute value, got "));
            },
        };
        Ok((bare_expression(kind), pos + 1))
    }

    /// The value of an attribute with a prefix.
    fn parse_expression_value(tokens: &Vec<Token>, pos: usize) -> (r: Result<
        (Expression, usize),
        ParseError,
    >)
        ensures
            value_view(r) == expression_value(token_views(tokens@), pos as int),
            r matches Ok((_, next)) ==> pos < tokens@.len() && next == pos + 1,
    {
        if pos >= tokens.len() {
            return Err(unexpected(tokens, pos, "Expected attribute value, got "));
        }
        let kind = match &tokens[pos].kind {
            TokenKind::String(s) => {
                return match ExprParser::parse(s.as_str()) {
                    Ok(e) => Ok((e, pos + 1)),
                    Err(e) => Err(e),
                };
            },
            TokenKind::Identifier(name) => ExprKind::Identifier(name.clone()),
            TokenKind::Number(n) => ExprKind::Number(n.clone()),
            TokenKind::Boolean(b) => ExprKind::Boolean(*b),
            _ => {
                return Err(unexpected(tokens, pos, "Expected attribute value, got "));
            },
        };
        Ok((bare_expression(kind), pos + 1))
    }

    /// The value behind an `=` at `pos`, if there is one.
    fn parse_optional_value(tokens: &Vec<Token>, pos: usize) -> (r: Result<
        (Option<Expression>, usize),
        ParseError,
    >)
        requires
            pos <= tokens@.len(),
        ensures
            match optional_value(token_views(tokens@), pos as int) {
                Ok((value, next)) => r matches Ok((v, n)) && option_view(v) == value && n == next
                    && pos <= n <= tokens@.len(),
                Err(e) => r matches Err(x) && x@ == e,
            },
    {
        if at_equals(tokens, pos) {
            match Parser::parse_expression_value(tokens, pos + 1) {
                Ok((e, next)) => Ok((Some(e), next)),
                Err(e) => Err(e),
            }
        } else {
            Ok((None, pos))
        }
    }

    // -- elements -----------------------------------------------------------

    /// The names of the modifiers of an event from `pos` on.
    fn parse_event_modifiers(tokens: &Vec<Token>, pos: usize) -> (r: Result<
        (Vec<String>, usize),
        ParseError,
    >)
        requires
            pos <= tokens@.len(),
        ensures
            match event_modifiers(token_views(tokens@), pos as int, Seq::empty()) {
                Ok((names, next)) => r matches Ok((v, n)) && string_views(v@) == names && n
                    == next && pos <= n <= tokens@.len(),
                Err(e) => r matches Err(x) && x@ == e,
            },
    {
        let mut names: Vec<String> = Vec::new();
        assert(string_views(names@) =~= Seq::empty());
        let mut p = pos;
        while at_dot(tokens, p)
            invariant
                pos <= p <= tokens@.len(),
                event_modifiers(token_views(tokens@), p as int, string_views(names@))
                    == event_modifiers(token_views(tokens@), pos as int, Seq::empty()),
            decreases tokens@.len() - p,
        {
            proof {
                reveal(event_modifiers);
            }
            let name = match expect_identifier(tokens, p + 1) {
                Ok(name) => name,
                Err(e) => {
                    return Err(e);
                },
            };
            push_name(&mut names, name);
            p += 2;
        }
        proof {
            reveal(event_modifiers);
        }
        Ok((names, p))
    }

    /// The attribute that starts with the prefix symbol at `pos`.
    fn parse_prefixed_attribute(tokens: &Vec<Token>, pos: usize, prefix: AttributePrefix) -> (r:
        Result<(Attribute, usize), ParseError>)
        requires
            pos < tokens@.len(),
        ensures
            match prefixed_attribute(token_views(tokens@), pos as int, prefix) {
                Ok((attribute, next)) => r matches Ok((a, n)) && a@ == attribute && n == next
                    && pos < n <= tokens@.len(),
                Err(e) => r matches Err(x) && x@ == e,
            },
    {
        proof {
            lemma_length_fits(tokens);
        }
        let name = match expect_identifier(tokens, pos + 1) {
            Ok(name) => name,
            Err(e) => {
                return Err(e);
            },
        };
        let (modifiers, p) = if prefix == AttributePrefix::Event {
            match Parser::parse_event_modifiers(tokens, pos + 2) {
                Ok(x) => x,
                Err(e) => {
                    return Err(e);
                },
            }
        } else {
            let none: Vec<String> = Vec::new();
            assert(string_views(none@) =~= Seq::empty());
            (none, pos + 2)
        };
        let (value, next) = match Parser::parse_optional_value(tokens, p) {
            Ok(x) => x,
            Err(e) => {
                return Err(e);
            },
        };
        Ok((Attribute { name, value, prefix: Some(prefix), modifiers }, next))
    }

    /// One thing that is written behind an element's tag in its line. The
    /// position is `None` where the token at `pos` starts none.
    fn parse_modifier(tokens: &Vec<Token>, pos: usize, draft: Draft) -> (r: Result<
        (Draft, Option<usize>),
        ParseError,
    >)
        requires
            pos <= tokens@.len(),
        ensures
            match modifier(token_views(tokens@), pos as int, draft@) {
                Ok(Some((partial, next))) => r matches Ok((d, Some(n))) && d@ == partial && n
                    == next && pos < n <= tokens@.len(),
                Ok(None) => r matches Ok((d, None)) && d@ == draft@,
                Err(e) => r matches Err(x) && x@ == e,
            },
    {
        if pos >= tokens.len() {
            return Ok((draft, None));
        }
        match &tokens[pos].kind {
            TokenKind::Dot => {
                let class = match expect_identifier(tokens, pos + 1) {
                    Ok(name) => name,
                    Err(e) => {
                        return Err(e);
                    },
                };
                Ok((draft.with_class(class, true), Some(pos + 2)))
            },
            TokenKind::Identifier(name) => {
                if at_equals(tokens, pos + 1) {
                    let (value, next) = match Parser::parse_plain_value(tokens, pos + 2) {
                        Ok(x) => x,
                        Err(e) => {
                            return Err(e);
                        },
                    };
                    let none: Vec<String> = Vec::new();
                    assert(string_views(none@) =~= Seq::empty());
                    let attribute = Attribute {
                        name: name.clone(),
                        value: Some(value),
                        prefix: None,
                        modifiers: none,
                    };
                    Ok((draft.with_attribute(attribute), Some(next)))
                } else if draft.seen_class {
                    Ok((draft.with_class(name.clone(), false), Some(pos + 1)))
                } else {
                    Ok((draft, None))
                }
            },
            TokenKind::Colon => match Parser::parse_prefixed_attribute(
                tokens,
                pos,
                AttributePrefix::State,
            ) {
                Ok((attribute, next)) => Ok((draft.with_attribute(attribute), Some(next))),
                Err(e) => Err(e),
            },
            TokenKind::At => match Parser::parse_prefixed_attribute(
                tokens,
                pos,
                AttributePrefix::Event,
            ) {
                Ok((attribute, next)) => Ok((draft.with_attribute(attribute), Some(next))),
                Err(e) => Err(e),
            },
            TokenKind::Dollar => match Parser::parse_prefixed_attribute(
                tokens,
                pos,
                AttributePrefix::Server,
            ) {
                Ok((attribute, next)) => Ok((draft.with_attribute(attribute), Some(next))),
                Err(e) => Err(e),
            },
            TokenKind::String(text) => Ok(
                (draft.with_child(text_node(text.clone())), Some(pos + 1)),
            ),
            _ => Ok((draft, None)),
        }
    }

    /// Everything that is written behind an element's tag in its line.
    fn parse_modifiers(tokens: &Vec<Token>, pos: usize, draft: Draft) -> (r: Result<
        (Draft, usize),
        ParseError,
    >)
        requires
            pos <= tokens@.len(),
        ensures
            match modifiers(token_views(tokens@), pos as int, draft@) {
                Ok((partial, next)) => r matches Ok((d, n)) && d@ == partial && n == next && pos
                    <= n <= tokens@.len() && (kind_at(token_views(tokens@), pos as int) is Dot
                    ==> pos < n),
                Err(e) => r matches Err(x) && x@ == e,
            },
    {
        let mut current = draft;
        let mut p = pos;
        loop
            invariant
                pos <= p <= tokens@.len(),
                modifiers(token_views(tokens@), p as int, current@) == modifiers(
                    token_views(tokens@),
                    pos as int,
                    draft@,
                ),
                p == pos ==> current@ == draft@,
            ensures
                modifier(token_views(tokens@), p as int, current@) == Ok::<
                    Option<(Partial, int)>,
                    ParseErrorView,
                >(None),
            decreases tokens@.len() - p,
        {
            proof {
                reveal(modifiers);
            }
            let (next_draft, next) = match Parser::parse_modifier(tokens, p, current) {
                Ok(x) => x,
                Err(e) => {
                    return Err(e);
                },
            };
            current = next_draft;
            match next {
                Some(n) => {
                    p = n;
                },
                None => {
                    break ;
                },
            }
        }
        proof {
            reveal(modifiers);
        }
        Ok((current, p))
    }

    /// The element that starts at `pos`.
    fn parse_element(tokens: &Vec<Token>, pos: usize) -> (r: Result<(Node, usize), ParseError>)
        requires
            pos < tokens@.len(),
            kind_at(token_views(tokens@), pos as int) is Identifier || kind_at(
                token_views(tokens@),
                pos as int,
            ) is Dot,
        ensures
            node_view(r) == element(token_views(tokens@), pos as int),
            r matches Ok((_, next)) ==> pos < next <= tokens@.len(),
        decreases tokens@.len() - pos, 0int,
    {
        proof {
            reveal(element);
            reveal(children);
            reveal(modifiers);
        }
        proof {
            lemma_length_fits(tokens);
        }
        let (tag, behind_tag) = match &tokens[pos].kind {
            TokenKind::Identifier(name) => (name.clone(), pos + 1),
            _ => (String::from_str("div"), pos),
        };
        let (draft, behind_line) = match Parser::parse_modifiers(
            tokens,
            behind_tag,
            Draft::start(tag),
        ) {
            Ok(x) => x,
            Err(e) => {
                return Err(e);
            },
        };
        let start = skip_newlines(tokens, behind_line);
        if !at_indent(tokens, start) {
            return Ok(
                (element_node(draft.tag, draft.classes, draft.attributes, draft.children), start),
            );
        }
        let (nodes, end) = match Parser::parse_children(tokens, start + 1, draft.children) {
            Ok(x) => x,
            Err(e) => {
                return Err(e);
            },
        };
        Ok(
            (
                element_node(draft.tag, draft.classes, draft.attributes, nodes),
                skip_block_end(tokens, end),
            ),
        )
    }

    /// The children of an element's block from `pos` on, behind `nodes`.
    fn parse_children(tokens: &Vec<Token>, pos: usize, nodes: Vec<Node>) -> (r: Result<
        (Vec<Node>, usize),
        ParseError,
    >)
        requires
            pos <= tokens@.len(),
        ensures
            match children(token_views(tokens@), pos as int, node_views(nodes@)) {
                Ok((all, next)) => r matches Ok((v, n)) && node_views(v@) == all && n == next
                    && pos <= n <= tokens@.len(),
                Err(e) => r matches Err(x) && x@ == e,
            },
        decreases tokens@.len() - pos, 1int,
    {
        proof {
            reveal(children);
            reveal(element);
        }
        let mut all = nodes;
        let mut p = pos;
        loop
            invariant
                pos <= p <= tokens@.len(),
                children(token_views(tokens@), p as int, node_views(all@)) == children(
                    token_views(tokens@),
                    pos as int,
                    node_views(nodes@),
                ),
            ensures
                ends_fields(token_views(tokens@), p as int),
            decreases tokens@.len() - p,
        {
            proof {
                reveal(children);
                reveal(element);
            }
            if at_dedent(tokens, p) || is_at_end(tokens, p) {
                break ;
            }
            let at = skip_newlines(tokens, p);
            if at_dedent(tokens, at) {
                p = at;
                break ;
            }
            if at >= tokens.len() {
                p = at;
                break ;
            }
            match &tokens[at].kind {
                TokenKind::Comment(text) => {
                    push_node(&mut all, comment_node(text.clone()));
                    p = at + 1;
                },
                TokenKind::Identifier(_) | TokenKind::Dot => {
                    let (node, behind) = match Parser::parse_element(tokens, at) {
                        Ok(x) => x,
                        Err(e) => {
                            return Err(e);
                        },
                    };
                    push_node(&mut all, node);
                    p = behind;
                },
                TokenKind::String(text) => {
                    push_node(&mut all, text_node(text.clone()));
                    p = at + 1;
                },
                _ => {
                    p = at + 1;
                },
            }
        }
        proof {
            reveal(children);
        }
        Ok((all, p))
    }
}

} // verus!
