//! The grammar of documents: what the document parser computes, as functions
//! from the scanner's tokens and a position to a part of the document tree
//! and the position behind it.
//!
//! A definition that repeats itself does so from a position further on, and
//! says so where it does: this is what makes the definitions well-founded.

use vstd::prelude::*;
use crate::lexer::token::{Span, TokenKindView, TokenView};
use crate::parser::ast::{
    AttributePrefix, AttributeView, ComputedBlockView, ComputedFieldView, DocumentView,
    ElementView, ExprKindView, ExprSpan, ExprView, NodeView, StateBlockView, StateFieldView,
};
use crate::parser::ParseErrorView;
use crate::text::{join, replaced};

verus! {

/// The token that is read past the end of the stream.
pub open spec fn end_token() -> TokenView {
    TokenView { kind: TokenKindView::Eof, span: Span { start: 0, end: 0, line: 0, column: 0 } }
}

/// The token at `pos`; past the end of the stream, the end-of-input token.
pub open spec fn token_at(ts: Seq<TokenView>, pos: int) -> TokenView {
    if 0 <= pos < ts.len() {
        ts[pos]
    } else {
        end_token()
    }
}

/// The kind of the token at `pos`.
pub open spec fn kind_at(ts: Seq<TokenView>, pos: int) -> TokenKindView {
    token_at(ts, pos).kind
}

/// Whether nothing but the end of input is left at `pos`.
pub open spec fn is_end(ts: Seq<TokenView>, pos: int) -> bool {
    pos >= ts.len() || kind_at(ts, pos) is Eof
}

/// The error `message`, placed at the token at `pos`.
pub open spec fn error_at(ts: Seq<TokenView>, pos: int, message: Seq<char>) -> ParseErrorView {
    ParseErrorView {
        message,
        line: token_at(ts, pos).span.line,
        column: token_at(ts, pos).span.column,
    }
}

/// The name that the token at `pos` is, if it is one.
pub open spec fn name_at(ts: Seq<TokenView>, pos: int) -> Option<Seq<char>> {
    match kind_at(ts, pos) {
        TokenKindView::Identifier(name) => Some(name),
        _ => None,
    }
}

/// The error of a token that should have been a name.
pub open spec fn expected_identifier(ts: Seq<TokenView>, pos: int) -> ParseErrorView {
    error_at(ts, pos, "Expected identifier, got "@ + kind_at(ts, pos).debug_text())
}

/// The first position at or behind `pos` that holds no line break.
#[verifier::opaque]
pub open spec fn after_newlines(ts: Seq<TokenView>, pos: int) -> int
    decreases ts.len() - pos,
{
    if 0 <= pos < ts.len() && kind_at(ts, pos) is Newline {
        after_newlines(ts, pos + 1)
    } else {
        pos
    }
}

/// The position behind a block end at `pos`, if there is one.
pub open spec fn block_end(ts: Seq<TokenView>, pos: int) -> int {
    if kind_at(ts, pos) is Dedent {
        pos + 1
    } else {
        pos
    }
}

/// An expression that was read from a single token: it has no span.
pub open spec fn bare(kind: ExprKindView) -> ExprView {
    ExprView { kind, span: ExprSpan { start: 0, end: 0 } }
}

/// An expression, and the position of the first token behind it.
pub type ParsedValue = Result<(ExprView, int), ParseErrorView>;

/// A node, and the position of the first token behind it.
pub type ParsedNode = Result<(NodeView, int), ParseErrorView>;

/// The value of a state field: a number, a string, a boolean, `null` or a
/// name.
pub open spec fn inline_value(ts: Seq<TokenView>, pos: int) -> ParsedValue {
    match kind_at(ts, pos) {
        TokenKindView::Number(n) => Ok((bare(ExprKindView::Number(n)), pos + 1)),
        TokenKindView::String(s) => Ok((bare(ExprKindView::String(s)), pos + 1)),
        TokenKindView::Boolean(b) => Ok((bare(ExprKindView::Boolean(b)), pos + 1)),
        TokenKindView::Null => Ok((bare(ExprKindView::Null), pos + 1)),
        TokenKindView::Identifier(name) => Ok((bare(ExprKindView::Identifier(name)), pos + 1)),
        kind => Err(error_at(ts, pos, "Expected value, got "@ + kind.debug_text())),
    }
}

/// The value of an attribute without a prefix: a literal, which is kept as it
/// is written. A string is not read as an expression.
pub open spec fn plain_value(ts: Seq<TokenView>, pos: int) -> ParsedValue {
    match kind_at(ts, pos) {
        TokenKindView::String(s) => Ok((bare(ExprKindView::String(s)), pos + 1)),
        TokenKindView::Number(n) => Ok((bare(ExprKindView::Number(n)), pos + 1)),
        TokenKindView::Boolean(b) => Ok((bare(ExprKindView::Boolean(b)), pos + 1)),
        TokenKindView::Identifier(name) => Ok((bare(ExprKindView::Identifier(name)), pos + 1)),
        kind => Err(error_at(ts, pos, "Expected attribute value, got "@ + kind.debug_text())),
    }
}

/// The value of an attribute with a prefix: a string is the source of an
/// expression and is parsed as one.
pub open spec fn expression_value(ts: Seq<TokenView>, pos: int) -> ParsedValue {
    match kind_at(ts, pos) {
        TokenKindView::String(s) => match crate::parser::expr_grammar::parse(s) {
            Ok(e) => Ok((e, pos + 1)),
            Err(e) => Err(e),
        },
        TokenKindView::Identifier(name) => Ok((bare(ExprKindView::Identifier(name)), pos + 1)),
        TokenKindView::Number(n) => Ok((bare(ExprKindView::Number(n)), pos + 1)),
        TokenKindView::Boolean(b) => Ok((bare(ExprKindView::Boolean(b)), pos + 1)),
        kind => Err(error_at(ts, pos, "Expected attribute value, got "@ + kind.debug_text())),
    }
}

/// The value behind an `=` at `pos`, if there is one.
pub open spec fn optional_value(ts: Seq<TokenView>, pos: int) -> Result<
    (Option<ExprView>, int),
    ParseErrorView,
> {
    if kind_at(ts, pos) is Equals {
        match expression_value(ts, pos + 1) {
            Ok((e, next)) => Ok((Some(e), next)),
            Err(e) => Err(e),
        }
    } else {
        Ok((None, pos))
    }
}

// -- computed fields ---------------------------------------------------------
/// A string as it is written in the source of an expression: in double
/// quotes, with backslashes and double quotes escaped, so that the
/// expression tokenizer reads the same string back.
pub open spec fn requoted(s: Seq<char>) -> Seq<char> {
    "\""@ + replaced(replaced(s, '\\', "\\\\"@), '"', "\\\""@) + "\""@
}

/// The text that a token contributes to the source of a computed field, if
/// it contributes any: names, literals in their spelling, and the marks
/// `.` `:` `=` `,` `(` `)` `+`.
pub open spec fn source_part(kind: TokenKindView) -> Option<Seq<char>> {
    match kind {
        TokenKindView::Identifier(s) => Some(s),
        TokenKindView::Number(n) => Some(n.rendered()),
        TokenKindView::String(s) => Some(requoted(s)),
        TokenKindView::Boolean(b) => Some(
            if b {
                "true"@
            } else {
                "false"@
            },
        ),
        TokenKindView::Null => Some("null"@),
        TokenKindView::Dot => Some("."@),
        TokenKindView::Colon => Some(":"@),
        TokenKindView::Equals => Some("="@),
        TokenKindView::Comma => Some(","@),
        TokenKindView::LParen => Some("("@),
        TokenKindView::RParen => Some(")"@),
        TokenKindView::Plus => Some("+"@),
        _ => None,
    }
}

/// Whether the token at `pos` ends the line of a computed field.
pub open spec fn ends_line(ts: Seq<TokenView>, pos: int) -> bool {
    is_end(ts, pos) || kind_at(ts, pos) is Newline || kind_at(ts, pos) is Dedent
}

/// The texts of the tokens from `pos` to the end of the line, behind those
/// of `parts`, and the position of that end.
#[verifier::opaque]
pub open spec fn collected(ts: Seq<TokenView>, pos: int, parts: Seq<Seq<char>>) -> (
    Seq<Seq<char>>,
    int,
)
    decreases ts.len() - pos,
{
    if ends_line(ts, pos) || pos < 0 {
        (parts, pos)
    } else {
        collected(
            ts,
            pos + 1,
            match source_part(kind_at(ts, pos)) {
                Some(text) => parts.push(text),
                None => parts,
            },
        )
    }
}

/// The source of the expression that runs from `pos` to the end of the line:
/// the texts of its tokens with single spaces between them.
pub open spec fn line_source(ts: Seq<TokenView>, pos: int) -> Seq<char> {
    join(collected(ts, pos, Seq::empty()).0, " "@)
}

// -- state and computed blocks -----------------------------------------------
/// Whether the fields of a block end at `pos`.
pub open spec fn ends_fields(ts: Seq<TokenView>, pos: int) -> bool {
    kind_at(ts, pos) is Dedent || is_end(ts, pos)
}

/// One `name: value` line of a state block, from its name at `pos`.
pub open spec fn state_field(ts: Seq<TokenView>, pos: int) -> Result<
    (StateFieldView, int),
    ParseErrorView,
> {
    match name_at(ts, pos) {
        None => Err(expected_identifier(ts, pos)),
        Some(name) => if !(kind_at(ts, pos + 1) is Colon) {
            Err(error_at(ts, pos + 1, "Expected ':' after state field '"@ + name + "'"@))
        } else {
            match inline_value(ts, pos + 2) {
                Err(e) => Err(e),
                Ok((value, next)) => Ok((StateFieldView { name, value }, next)),
            }
        },
    }
}

/// The fields of a state block from `pos` on, behind those of `fields`.
#[verifier::opaque]
pub open spec fn state_fields(ts: Seq<TokenView>, pos: int, fields: Seq<StateFieldView>) -> Result<
    (Seq<StateFieldView>, int),
    ParseErrorView,
>
    decreases ts.len() - pos,
{
    if ends_fields(ts, pos) {
        Ok((fields, pos))
    } else {
        let start = after_newlines(ts, pos);
        if kind_at(ts, start) is Dedent {
            Ok((fields, start))
        } else {
            match state_field(ts, start) {
                Err(e) => Err(e),
                Ok((field, next)) => {
                    let behind = after_newlines(ts, next);
                    if pos < behind <= ts.len() {
                        state_fields(ts, behind, fields.push(field))
                    } else {
                        Ok((fields.push(field), behind))
                    }
                },
            }
        }
    }
}

/// The state block whose keyword stands at `pos`.
pub open spec fn state_block(ts: Seq<TokenView>, pos: int) -> ParsedNode {
    let start = after_newlines(ts, pos + 1);
    if kind_at(ts, start) is Indent {
        match state_fields(ts, start + 1, Seq::empty()) {
            Err(e) => Err(e),
            Ok((fields, end)) => Ok(
                (NodeView::StateBlock(StateBlockView { fields }), block_end(ts, end)),
            ),
        }
    } else {
        Ok((NodeView::StateBlock(StateBlockView { fields: Seq::empty() }), start))
    }
}

/// One `name: expression` line of a computed block, from its name at `pos`.
/// The expression is parsed from the source of the rest of the line.
pub open spec fn computed_field(ts: Seq<TokenView>, pos: int) -> Result<
    (ComputedFieldView, int),
    ParseErrorView,
> {
    match name_at(ts, pos) {
        None => Err(expected_identifier(ts, pos)),
        Some(name) => if !(kind_at(ts, pos + 1) is Colon) {
            Err(error_at(ts, pos + 1, "Expected ':' after computed field '"@ + name + "'"@))
        } else {
            match crate::parser::expr_grammar::parse(line_source(ts, pos + 2)) {
                Err(e) => Err(e),
                Ok(body) => Ok(
                    (
                        ComputedFieldView { name, body },
                        collected(ts, pos + 2, Seq::empty()).1,
                    ),
                ),
            }
        },
    }
}

/// The fields of a computed block from `pos` on, behind those of `fields`.
#[verifier::opaque]
pub open spec fn computed_fields(
    ts: Seq<TokenView>,
    pos: int,
    fields: Seq<ComputedFieldView>,
) -> Result<(Seq<ComputedFieldView>, int), ParseErrorView>
    decreases ts.len() - pos,
{
    if ends_fields(ts, pos) {
        Ok((fields, pos))
    } else {
        let start = after_newlines(ts, pos);
        if kind_at(ts, start) is Dedent {
            Ok((fields, start))
        } else {
            match computed_field(ts, start) {
                Err(e) => Err(e),
                Ok((field, next)) => {
                    let behind = after_newlines(ts, next);
                    if pos < behind <= ts.len() {
                        computed_fields(ts, behind, fields.push(field))
                    } else {
                        Ok((fields.push(field), behind))
                    }
                },
            }
        }
    }
}

/// The computed block whose keyword stands at `pos`.
pub open spec fn computed_block(ts: Seq<TokenView>, pos: int) -> ParsedNode {
    let start = after_newlines(ts, pos + 1);
    if kind_at(ts, start) is Indent {
        match computed_fields(ts, start + 1, Seq::empty()) {
            Err(e) => Err(e),
            Ok((fields, end)) => Ok(
                (NodeView::ComputedBlock(ComputedBlockView { fields }), block_end(ts, end)),
            ),
        }
    } else {
        Ok((NodeView::ComputedBlock(ComputedBlockView { fields: Seq::empty() }), start))
    }
}

// -- elements ----------------------------------------------------------------
/// An element that is being read: what it holds so far, and whether a class
/// was written with a dot, after which bare names are classes too.
pub ghost struct Partial {
    pub element: ElementView,
    pub seen_class: bool,
}

impl Partial {
    /// The element of tag `tag`, with nothing read yet.
    pub open spec fn start(tag: Seq<char>) -> Partial {
        Partial {
            element: ElementView {
                tag,
                classes: Seq::empty(),
                attributes: Seq::empty(),
                children: Seq::empty(),
            },
            seen_class: false,
        }
    }

    pub open spec fn with_class(self, class: Seq<char>, dotted: bool) -> Partial {
        Partial {
            element: ElementView { classes: self.element.classes.push(class), ..self.element },
            seen_class: self.seen_class || dotted,
        }
    }

    pub open spec fn with_attribute(self, attribute: AttributeView) -> Partial {
        Partial {
            element: ElementView {
                attributes: self.element.attributes.push(attribute),
                ..self.element
            },
            ..self
        }
    }

    pub open spec fn with_child(self, child: NodeView) -> Partial {
        Partial {
            element: ElementView { children: self.element.children.push(child), ..self.element },
            ..self
        }
    }
}

/// The tag of the element at `pos` and the position behind it: an element
/// that starts with a class has the tag `div`.
pub open spec fn tag_of(ts: Seq<TokenView>, pos: int) -> (Seq<char>, int) {
    match kind_at(ts, pos) {
        TokenKindView::Identifier(name) => (name, pos + 1),
        _ => ("div"@, pos),
    }
}

/// The names of the modifiers of an event from `pos` on, each behind a dot.
#[verifier::opaque]
pub open spec fn event_modifiers(ts: Seq<TokenView>, pos: int, names: Seq<Seq<char>>) -> Result<
    (Seq<Seq<char>>, int),
    ParseErrorView,
>
    decreases ts.len() - pos,
{
    if kind_at(ts, pos) is Dot && 0 <= pos < ts.len() {
        match name_at(ts, pos + 1) {
            Some(name) => event_modifiers(ts, pos + 2, names.push(name)),
            None => Err(expected_identifier(ts, pos + 1)),
        }
    } else {
        Ok((names, pos))
    }
}

/// The attribute that starts with the prefix symbol at `pos`: its name, for
/// an event its modifiers, and its value if one is given.
pub open spec fn prefixed_attribute(ts: Seq<TokenView>, pos: int, prefix: AttributePrefix)
    -> Result<(AttributeView, int), ParseErrorView> {
    match name_at(ts, pos + 1) {
        None => Err(expected_identifier(ts, pos + 1)),
        Some(name) => match if prefix == AttributePrefix::Event {
            event_modifiers(ts, pos + 2, Seq::empty())
        } else {
            Ok((Seq::empty(), pos + 2))
        } {
            Err(e) => Err(e),
            Ok((modifiers, p)) => match optional_value(ts, p) {
                Err(e) => Err(e),
                Ok((value, next)) => Ok(
                    (AttributeView { name, value, prefix: Some(prefix), modifiers }, next),
                ),
            },
        },
    }
}

/// The prefix that a symbol writes.
pub open spec fn prefix_of(kind: TokenKindView) -> Option<AttributePrefix> {
    match kind {
        TokenKindView::Colon => Some(AttributePrefix::State),
        TokenKindView::At => Some(AttributePrefix::Event),
        TokenKindView::Dollar => Some(AttributePrefix::Server),
        _ => None,
    }
}

/// One thing that is written behind an element's tag in its line: a class, an
/// attribute or a text. `None` where the token at `pos` starts none of them.
pub open spec fn modifier(ts: Seq<TokenView>, pos: int, partial: Partial) -> Result<
    Option<(Partial, int)>,
    ParseErrorView,
> {
    match kind_at(ts, pos) {
        TokenKindView::Dot => match name_at(ts, pos + 1) {
            Some(class) => Ok(Some((partial.with_class(class, true), pos + 2))),
            None => Err(expected_identifier(ts, pos + 1)),
        },
        TokenKindView::Identifier(name) => if kind_at(ts, pos + 1) is Equals {
            match plain_value(ts, pos + 2) {
                Err(e) => Err(e),
                Ok((value, next)) => Ok(
                    Some(
                        (
                            partial.with_attribute(
                                AttributeView {
                                    name,
                                    value: Some(value),
                                    prefix: None,
                                    modifiers: Seq::empty(),
                                },
                            ),
                            next,
                        ),
                    ),
                ),
            }
        } else if partial.seen_class {
            Ok(Some((partial.with_class(name, false), pos + 1)))
        } else {
            Ok(None)
        },
        TokenKindView::Colon | TokenKindView::At | TokenKindView::Dollar => match prefixed_attribute(
            ts,
            pos,
            prefix_of(kind_at(ts, pos))->Some_0,
        ) {
            Err(e) => Err(e),
            Ok((attribute, next)) => Ok(Some((partial.with_attribute(attribute), next))),
        },
        TokenKindView::String(text) => Ok(
            Some((partial.with_child(NodeView::Text(text)), pos + 1)),
        ),
        _ => Ok(None),
    }
}

/// Everything that is written behind an element's tag in its line.
#[verifier::opaque]
pub open spec fn modifiers(ts: Seq<TokenView>, pos: int, partial: Partial) -> Result<
    (Partial, int),
    ParseErrorView,
>
    decreases ts.len() - pos,
{
    match modifier(ts, pos, partial) {
        Err(e) => Err(e),
        Ok(None) => Ok((partial, pos)),
        Ok(Some((next, behind))) => if pos < behind <= ts.len() {
            modifiers(ts, behind, next)
        } else {
            Ok((next, behind))
        },
    }
}

/// The element that starts at `pos`: its tag, what is written behind it in
/// its line, and the children of its indented block.
#[verifier::opaque]
pub open spec fn element(ts: Seq<TokenView>, pos: int) -> ParsedNode
    decreases ts.len() - pos, 0int,
{
    let (tag, behind_tag) = tag_of(ts, pos);
    match modifiers(ts, behind_tag, Partial::start(tag)) {
        Err(e) => Err(e),
        Ok((partial, behind_line)) => {
            let start = after_newlines(ts, behind_line);
            if kind_at(ts, start) is Indent && pos <= start < ts.len() {
                match children(ts, start + 1, partial.element.children) {
                    Err(e) => Err(e),
                    Ok((nodes, end)) => Ok(
                        (
                            NodeView::Element(ElementView { children: nodes, ..partial.element }),
                            block_end(ts, end),
                        ),
                    ),
                }
            } else {
                Ok((NodeView::Element(partial.element), start))
            }
        },
    }
}

/// The children of an element's block from `pos` on, behind those of
/// `nodes`: elements, texts and comments. Other tokens are passed over.
#[verifier::opaque]
pub open spec fn children(ts: Seq<TokenView>, pos: int, nodes: Seq<NodeView>) -> Result<
    (Seq<NodeView>, int),
    ParseErrorView,
>
    decreases ts.len() - pos, 1int,
{
    if ends_fields(ts, pos) || pos < 0 {
        Ok((nodes, pos))
    } else {
        let start = after_newlines(ts, pos);
        if kind_at(ts, start) is Dedent || !(pos <= start) {
            Ok((nodes, start))
        } else {
            match kind_at(ts, start) {
                TokenKindView::Comment(text) => children(
                    ts,
                    start + 1,
                    nodes.push(NodeView::Comment(text)),
                ),
                TokenKindView::Identifier(_) | TokenKindView::Dot => match element(ts, start) {
                    Err(e) => Err(e),
                    Ok((node, behind)) => if start < behind <= ts.len() {
                        children(ts, behind, nodes.push(node))
                    } else {
                        Ok((nodes.push(node), behind))
                    },
                },
                TokenKindView::String(text) => children(
                    ts,
                    start + 1,
                    nodes.push(NodeView::Text(text)),
                ),
                _ => if start < ts.len() {
                    children(ts, start + 1, nodes)
                } else {
                    Ok((nodes, start))
                },
            }
        }
    }
}

// -- documents ---------------------------------------------------------------
/// The top-level nodes from `pos` on, behind those of `nodes`: state blocks,
/// computed blocks, comments and elements. Other tokens are passed over.
#[verifier::opaque]
pub open spec fn nodes_from(ts: Seq<TokenView>, pos: int, nodes: Seq<NodeView>) -> Result<
    Seq<NodeView>,
    ParseErrorView,
>
    decreases ts.len() - pos,
{
    if is_end(ts, pos) || pos < 0 {
        Ok(nodes)
    } else {
        let start = after_newlines(ts, pos);
        if is_end(ts, start) || !(pos <= start) {
            Ok(nodes)
        } else {
            match kind_at(ts, start) {
                TokenKindView::Comment(text) => nodes_from(
                    ts,
                    start + 1,
                    nodes.push(NodeView::Comment(text)),
                ),
                TokenKindView::State | TokenKindView::Computed | TokenKindView::Identifier(_)
                | TokenKindView::Dot => match top_level(ts, start) {
                    Err(e) => Err(e),
                    Ok((node, behind)) => if start < behind <= ts.len() {
                        nodes_from(ts, behind, nodes.push(node))
                    } else {
                        Ok(nodes.push(node))
                    },
                },
                _ => nodes_from(ts, start + 1, nodes),
            }
        }
    }
}

/// The block or element that starts at `pos`.
pub open spec fn top_level(ts: Seq<TokenView>, pos: int) -> ParsedNode {
    match kind_at(ts, pos) {
        TokenKindView::State => state_block(ts, pos),
        TokenKindView::Computed => computed_block(ts, pos),
        _ => element(ts, pos),
    }
}

/// The document that a token stream stands for.
pub open spec fn parse_tokens(ts: Seq<TokenView>) -> Result<DocumentView, ParseErrorView> {
    match nodes_from(ts, 0, Seq::empty()) {
        Ok(nodes) => Ok(DocumentView { nodes }),
        Err(e) => Err(e),
    }
}

/// The document that a source text stands for. An error of the scanner is
/// passed on with its position.
pub open spec fn parse(chars: Seq<char>) -> Result<DocumentView, ParseErrorView> {
    match crate::lexer::rules::tokenize(chars) {
        Err(e) => Err(ParseErrorView { message: e.message, line: e.line, column: e.column }),
        Ok(ts) => parse_tokens(ts),
    }
}

} // verus!
