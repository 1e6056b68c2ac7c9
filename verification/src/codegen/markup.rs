//! What the HTML pass computes: the markup of a document, the ids of its
//! reactive elements and the bindings collected from them.

use vstd::prelude::*;
use crate::codegen::rendering::{boolean_js, expr_js, literal_js};
use crate::codegen::{BindingView, CodegenErrorView, ContextView, element_id};
use crate::lexer::token::is_void_tag;
use crate::parser::ast::{
    AttributePrefix, AttributeView, ElementView, ExprKindView, ExprView, NodeView,
};
use crate::text::{bump, is_word_char, join, repeated};

verus! {

// -- interpolation -----------------------------------------------------------
/// The position of the brace that closes an interpolation segment, read from
/// `pos` with `depth` braces open, or the end of the text if none does.
#[verifier::opaque]
pub open spec fn segment_end(chars: Seq<char>, pos: int, depth: int) -> int
    decreases chars.len() - pos,
{
    if !(0 <= pos < chars.len()) {
        pos
    } else if chars[pos] == '{' {
        segment_end(chars, pos + 1, depth + 1)
    } else if chars[pos] == '}' {
        if depth <= 1 {
            pos
        } else {
            segment_end(chars, pos + 1, depth - 1)
        }
    } else {
        segment_end(chars, pos + 1, depth)
    }
}

/// The end of the run of name characters that starts at `pos`.
#[verifier::opaque]
pub open spec fn word_end(chars: Seq<char>, pos: int) -> int
    decreases chars.len() - pos,
{
    if 0 <= pos < chars.len() && is_word_char(chars[pos]) {
        word_end(chars, pos + 1)
    } else {
        pos
    }
}

/// The name that `expr` starts with; empty if it starts with none.
pub open spec fn leading_word(expr: Seq<char>) -> Seq<char> {
    expr.subrange(0, word_end(expr, 0))
}

/// The substitution for the interpolation segment `expr`: its text, behind
/// the state object where it starts with the name of a state field.
pub open spec fn segment_js(expr: Seq<char>, names: Seq<Seq<char>>) -> Seq<char> {
    if names.contains(leading_word(expr)) {
        "${_s."@ + expr + "}"@
    } else {
        "${"@ + expr + "}"@
    }
}

/// The template of the text from `pos` on, behind `out`.
#[verifier::opaque]
pub open spec fn interpolated_from(
    chars: Seq<char>,
    pos: int,
    names: Seq<Seq<char>>,
    out: Seq<char>,
) -> Seq<char>
    decreases chars.len() - pos,
{
    if !(0 <= pos < chars.len()) {
        out
    } else if chars[pos] == '{' {
        let end = segment_end(chars, pos + 1, 1);
        if pos < end <= chars.len() {
            interpolated_from(
                chars,
                if end < chars.len() {
                    end + 1
                } else {
                    end
                },
                names,
                out + segment_js(chars.subrange(pos + 1, end), names),
            )
        } else {
            out
        }
    } else {
        interpolated_from(chars, pos + 1, names, out.push(chars[pos]))
    }
}

/// The body of the template literal for a text: every `{expr}` in it becomes
/// a substitution, and the rest stays as it is.
pub open spec fn interpolated(text: Seq<char>, names: Seq<Seq<char>>) -> Seq<char> {
    interpolated_from(text, 0, names, Seq::empty())
}

// -- which elements are reactive ---------------------------------------------
/// The state directives that make an element reactive.
pub open spec fn is_reactive_directive(name: Seq<char>) -> bool {
    name == "show"@ || name == "if"@ || name == "model"@ || name == "class"@ || name == "text"@
}

/// An attribute that makes its element reactive: an event, or one of the
/// reactive state directives.
pub open spec fn attribute_needs_id(a: AttributeView) -> bool {
    a.prefix == Some(AttributePrefix::Event) || (a.prefix == Some(AttributePrefix::State)
        && is_reactive_directive(a.name))
}

/// A text with an interpolation in it.
pub open spec fn is_interpolated_text(n: NodeView) -> bool {
    n matches NodeView::Text(t) && t.contains('{')
}

/// Whether one of the nodes is a text with an interpolation.
pub open spec fn has_interpolation(children: Seq<NodeView>) -> bool {
    exists|i: int| 0 <= i < children.len() && is_interpolated_text(#[trigger] children[i])
}

/// Whether one of the nodes is an element.
pub open spec fn has_element(children: Seq<NodeView>) -> bool {
    exists|i: int| 0 <= i < children.len() && (#[trigger] children[i]) is Element
}

/// Whether the element is reactive and gets an id.
pub open spec fn needs_id(el: ElementView) -> bool {
    (exists|i: int| 0 <= i < el.attributes.len() && attribute_needs_id(#[trigger] el.attributes[i]))
        || has_interpolation(el.children)
}

// -- bindings ----------------------------------------------------------------
/// The JavaScript text of an attribute's value; empty if it has none.
pub open spec fn value_js(value: Option<ExprView>, names: Seq<Seq<char>>) -> Seq<char> {
    match value {
        Some(e) => expr_js(e, names),
        None => Seq::empty(),
    }
}

/// The state field that a `model` directive names.
pub open spec fn model_field(value: Option<ExprView>) -> Seq<char> {
    match value {
        Some(e) => match e.kind {
            ExprKindView::Identifier(name) => name,
            _ => expr_js(e, Seq::empty()),
        },
        None => Seq::empty(),
    }
}

/// The binding that an attribute gives to the element with the id `id`, if
/// it gives one.
pub open spec fn attribute_binding(a: AttributeView, id: Seq<char>, names: Seq<Seq<char>>)
    -> Option<BindingView> {
    if a.prefix == Some(AttributePrefix::Event) {
        Some(
            BindingView::Event {
                id,
                event: a.name,
                handler: value_js(a.value, names),
                modifiers: a.modifiers,
            },
        )
    } else if a.prefix == Some(AttributePrefix::State) {
        if a.name == "show"@ || a.name == "if"@ {
            Some(BindingView::Show { id, expr: value_js(a.value, names) })
        } else if a.name == "model"@ {
            Some(BindingView::Model { id, field: model_field(a.value) })
        } else {
            None
        }
    } else {
        None
    }
}

/// The bindings of the attributes, in their order.
#[verifier::opaque]
pub open spec fn attribute_bindings(
    attributes: Seq<AttributeView>,
    id: Seq<char>,
    names: Seq<Seq<char>>,
) -> Seq<BindingView>
    decreases attributes.len(),
{
    if attributes.len() == 0 {
        Seq::empty()
    } else {
        let before = attribute_bindings(attributes.drop_last(), id, names);
        match attribute_binding(attributes.last(), id, names) {
            Some(b) => before.push(b),
            None => before,
        }
    }
}

/// The texts among the nodes, one after the other.
#[verifier::opaque]
pub open spec fn joined_text(children: Seq<NodeView>) -> Seq<char>
    decreases children.len(),
{
    if children.len() == 0 {
        Seq::empty()
    } else {
        match children.last() {
            NodeView::Text(t) => joined_text(children.drop_last()) + t,
            _ => joined_text(children.drop_last()),
        }
    }
}

/// The bindings of a reactive element: those of its attributes, and one text
/// binding for all its texts together if one of them has an interpolation.
pub open spec fn element_bindings(el: ElementView, id: Seq<char>, names: Seq<Seq<char>>) -> Seq<
    BindingView,
> {
    attribute_bindings(el.attributes, id, names) + if has_interpolation(el.children) {
        seq![
            BindingView::Text { id, template: interpolated(joined_text(el.children), names) },
        ]
    } else {
        Seq::empty()
    }
}

// -- markup ------------------------------------------------------------------
/// The value of a plain attribute as HTML text: strings and names as they
/// are, numbers and booleans as they are written.
pub open spec fn html_attr(e: ExprView) -> Seq<char> {
    match e.kind {
        ExprKindView::String(s) => s,
        ExprKindView::Number(n) => n.rendered(),
        ExprKindView::Boolean(b) => boolean_js(b),
        ExprKindView::Identifier(s) => s,
        _ => literal_js(e),
    }
}

/// The markup of one attribute: only attributes without a prefix are
/// written.
pub open spec fn plain_attribute(a: AttributeView) -> Seq<char> {
    if a.prefix is None {
        " "@ + a.name + match a.value {
            Some(v) => "=\""@ + html_attr(v) + "\""@,
            None => Seq::empty(),
        }
    } else {
        Seq::empty()
    }
}

/// The markup of the attributes, in their order.
#[verifier::opaque]
pub open spec fn plain_attributes(attributes: Seq<AttributeView>) -> Seq<char>
    decreases attributes.len(),
{
    if attributes.len() == 0 {
        Seq::empty()
    } else {
        plain_attributes(attributes.drop_last()) + plain_attribute(attributes.last())
    }
}

/// The opening tag of an element: its tag, its id if it has one, its classes
/// and its plain attributes.
pub open spec fn open_tag(el: ElementView, id: Option<Seq<char>>) -> Seq<char> {
    "<"@ + el.tag + match id {
        Some(id) => " id=\""@ + id + "\""@,
        None => Seq::empty(),
    } + if el.classes.len() > 0 {
        " class=\""@ + join(el.classes, " "@) + "\""@
    } else {
        Seq::empty()
    } + plain_attributes(el.attributes) + ">"@
}

/// The closing tag of an element, with the line break behind it.
pub open spec fn close_tag(tag: Seq<char>) -> Seq<char> {
    "</"@ + tag + ">"@ + "\n"@
}

/// What a step of the HTML pass gives: the context after it and the markup
/// it wrote.
pub ghost struct Emitted {
    pub ctx: ContextView,
    pub html: Seq<char>,
}

/// The outcome of a step of the HTML pass.
pub type Generated = Result<Emitted, CodegenErrorView>;

/// The error of a document with more reactive elements than can be counted.
pub open spec fn too_many_ids() -> CodegenErrorView {
    CodegenErrorView { message: "Too many reactive elements"@ }
}

/// The id of the element, if it is reactive, and the context after the id
/// is given out and the bindings of the element are collected.
pub open spec fn prepared(el: ElementView, ctx: ContextView) -> Result<
    (Option<Seq<char>>, ContextView),
    CodegenErrorView,
> {
    if !needs_id(el) {
        Ok((None, ctx))
    } else if ctx.next_id >= usize::MAX {
        Err(too_many_ids())
    } else {
        let id = element_id(ctx.next_id);
        Ok(
            (
                Some(id),
                ContextView {
                    next_id: ctx.next_id + 1,
                    bindings: ctx.bindings + element_bindings(el, id, ctx.state_names()),
                    ..ctx
                },
            ),
        )
    }
}

/// The markup of an element at nesting depth `depth`. A reactive element
/// gets the next id, and its bindings are collected before its children are
/// visited. A void element has no content and no closing tag. An element
/// with an element among its children has every child one level deeper on
/// a line of its own; one with static text alone holds the text; one with
/// interpolated text is left empty.
#[verifier::opaque]
pub open spec fn element_html(el: ElementView, ctx: ContextView, depth: usize) -> Generated
    decreases el,
{
    match prepared(el, ctx) {
        Err(e) => Err(e),
        Ok((id, ready)) => {
            let indent = repeated("  "@, depth as nat);
            let head = indent + open_tag(el, id);
            if is_void_tag(el.tag) {
                Ok(Emitted { ctx: ready, html: head + "\n"@ })
            } else if has_element(el.children) {
                match nodes_html(el.children, ready, bump(depth), true) {
                    Err(e) => Err(e),
                    Ok(inner) => Ok(
                        Emitted {
                            ctx: inner.ctx,
                            html: head + "\n"@ + inner.html + indent + close_tag(el.tag),
                        },
                    ),
                }
            } else if !has_interpolation(el.children) {
                Ok(Emitted { ctx: ready, html: head + joined_text(el.children) + close_tag(el.tag) })
            } else {
                Ok(Emitted { ctx: ready, html: head + close_tag(el.tag) })
            }
        },
    }
}

/// The markup of a text node: among the children of an element it stands
/// on a line of its own, indented as deep as its siblings; at the top of a
/// document it stands as it is.
pub open spec fn text_html(text: Seq<char>, depth: usize, nested: bool) -> Seq<char> {
    if nested {
        repeated("  "@, depth as nat) + text + "\n"@
    } else {
        text
    }
}

/// The markup of a node: that of an element, that of a text, and nothing
/// for any other node. `nested` says whether the node is a child of an
/// element.
#[verifier::opaque]
pub open spec fn node_html(node: NodeView, ctx: ContextView, depth: usize, nested: bool)
    -> Generated
    decreases node,
{
    match node {
        NodeView::Element(el) => element_html(el, ctx, depth),
        NodeView::Text(t) => Ok(Emitted { ctx, html: text_html(t, depth, nested) }),
        _ => Ok(Emitted { ctx, html: Seq::empty() }),
    }
}

/// The markup of the nodes, in their order, each with the context that the
/// nodes before it left.
#[verifier::opaque]
pub open spec fn nodes_html(nodes: Seq<NodeView>, ctx: ContextView, depth: usize, nested: bool)
    -> Generated
    decreases nodes,
{
    if nodes.len() == 0 {
        Ok(Emitted { ctx, html: Seq::empty() })
    } else {
        match nodes_html(nodes.drop_last(), ctx, depth, nested) {
            Err(e) => Err(e),
            Ok(before) => match node_html(nodes.last(), before.ctx, depth, nested) {
                Err(e) => Err(e),
                Ok(last) => Ok(Emitted { ctx: last.ctx, html: before.html + last.html }),
            },
        }
    }
}

} // verus!
