//! The HTML pass: walks the document, writes its markup, gives each reactive
//! element an id and collects its bindings.

use vstd::prelude::*;
use vstd::string::*;
use crate::codegen::expressions::{
    boolean_to_js, concat3, contains_name, expr_to_js, expr_to_js_literal, format_number,
};
use crate::codegen::laws::{
    collected_in_order, lemma_few_ids_suffice, lemma_nodes_ids_in_order,
    lemma_nodes_markup_in_order, nodes_markup, reactive_elements,
};
use crate::codegen::markup::{text_html, too_many_ids, 
    attribute_binding, attribute_bindings, attribute_needs_id, close_tag, element_bindings,
    element_html, Emitted, Generated, has_element, has_interpolation, html_attr, interpolated,
    interpolated_from, is_interpolated_text, joined_text, leading_word, model_field, needs_id,
    node_html, nodes_html, open_tag, plain_attribute, plain_attributes, prepared, segment_end,
    segment_js, value_js, word_end,
};
use crate::codegen::{
    Binding, binding_views, BindingView, CodegenError, CodegenErrorView, CompilationContext,
    ContextView,
};
use crate::lexer::token::is_void_tag;
use crate::parser::ast::{
    Attribute, attribute_views, AttributePrefix, clone_names, Document, Element, Expression,
    ExprKind, Node, node_views, NodeView, option_view,
};
use crate::text::{lemma_length_fits, 
    has_char, increment, is_name_char, is_text, join_strings, push_repeated, string_of_range,
    string_views, to_chars,
};

verus! {

/// The view of a step's result, given the context that it left.
pub open spec fn generated(r: Result<String, CodegenError>, ctx: ContextView) -> Generated {
    match r {
        Ok(html) => Ok(Emitted { ctx, html: html@ }),
        Err(e) => Err(e@),
    }
}

/// Writes the markup of `doc` and collects the bindings of its reactive
/// elements into `ctx`. Ids are given out in the order in which the elements
/// stand in the document: the reactive element with the number `k` carries
/// the id with the number of the counter plus `k`, in its opening tag and in
/// its bindings, and no other element carries one. The pass fails only
/// where the ids run out.
pub fn generate(doc: &Document, ctx: &mut CompilationContext) -> (r: Result<String, CodegenError>)
    ensures
        generated(r, final(ctx)@) == nodes_html(doc@.nodes, old(ctx)@, 0, false),
        old(ctx)@.next_id + reactive_elements(doc@.nodes).len() <= usize::MAX ==> r is Ok,
        r is Ok ==> collected_in_order(old(ctx)@, final(ctx)@, reactive_elements(doc@.nodes)),
        r matches Ok(html) ==> html@ == nodes_markup(doc@.nodes, old(ctx)@.next_id, 0, false),
        r matches Err(e) ==> e@ == too_many_ids(),
{
    proof {
        lemma_nodes_ids_in_order(doc@.nodes, ctx@, 0, false);
        lemma_nodes_markup_in_order(doc@.nodes, ctx@, 0, false);
        if ctx@.next_id + reactive_elements(doc@.nodes).len() <= usize::MAX {
            lemma_few_ids_suffice(doc@.nodes, ctx@, 0, false);
        }
    }
    generate_nodes(&doc.nodes, ctx, 0, false)
}

/// An error among the first nodes is the error of all of them.
proof fn lemma_error_stays(
    nodes: Seq<NodeView>,
    k: int,
    ctx: ContextView,
    depth: usize,
    nested: bool,
)
    requires
        0 <= k <= nodes.len(),
        nodes_html(nodes.take(k), ctx, depth, nested) is Err,
    ensures
        nodes_html(nodes, ctx, depth, nested) == nodes_html(nodes.take(k), ctx, depth, nested),
    decreases nodes.len() - k,
{
    reveal(nodes_html);
    if k == nodes.len() {
        assert(nodes.take(k) =~= nodes);
    } else {
        assert(nodes.take(k + 1).drop_last() =~= nodes.take(k));
        lemma_error_stays(nodes, k + 1, ctx, depth, nested);
    }
}

fn generate_nodes(
    nodes: &Vec<Node>,
    ctx: &mut CompilationContext,
    depth: usize,
    nested: bool,
) -> (r: Result<String, CodegenError>)
    ensures
        generated(r, final(ctx)@) == nodes_html(node_views(nodes@), old(ctx)@, depth, nested),
    decreases nodes,
{
    let mut html = String::new();
    let mut i: usize = 0;
    proof {
        reveal(nodes_html);
        reveal(node_html);
        assert(node_views(nodes@).take(0) =~= Seq::empty());
    }
    while i < nodes.len()
        invariant
            i <= nodes@.len(),
            nodes_html(node_views(nodes@).take(i as int), old(ctx)@, depth, nested) == Ok::<
                Emitted,
                CodegenErrorView,
            >(Emitted { ctx: ctx@, html: html@ }),
        decreases nodes@.len() - i,
    {
        let ghost all = node_views(nodes@);
        proof {
            reveal(nodes_html);
            reveal(node_html);
            assert(all.take(i + 1).drop_last() =~= all.take(i as int));
            assert(all.take(i + 1).last() == nodes@[i as int]@);
        }
        match generate_node(&nodes[i], ctx, depth, nested) {
            Ok(text) => {
                html.append(text.as_str());
            },
            Err(e) => {
                proof {
                    lemma_error_stays(all, i + 1, old(ctx)@, depth, nested);
                }
                return Err(e);
            },
        }
        i += 1;
    }
    assert(node_views(nodes@).take(i as int) =~= node_views(nodes@));
    Ok(html)
}

fn generate_node(node: &Node, ctx: &mut CompilationContext, depth: usize, nested: bool) -> (r:
    Result<String, CodegenError>)
    ensures
        generated(r, final(ctx)@) == node_html(node@, old(ctx)@, depth, nested),
    decreases node,
{
    proof {
        reveal(node_html);
        reveal(element_html);
    }
    match node {
        Node::Element(el) => generate_element(el, ctx, depth),
        Node::Text(text) => {
            if nested {
                let mut line = String::new();
                push_repeated(&mut line, "  ", depth);
                line.append(text.as_str());
                line.append("\n");
                assert(line@ =~= text_html(text@, depth, nested));
                Ok(line)
            } else {
                Ok(text.clone())
            }
        },
        _ => Ok(String::new()),
    }
}

fn generate_element(el: &Element, ctx: &mut CompilationContext, depth: usize) -> (r: Result<
    String,
    CodegenError,
>)
    ensures
        generated(r, final(ctx)@) == element_html(el@, old(ctx)@, depth),
    decreases el,
{
    proof {
        reveal(element_html);
        reveal(nodes_html);
    }
    let id = match prepare(el, ctx) {
        Ok(id) => id,
        Err(e) => {
            return Err(e);
        },
    };
    let mut html = String::new();
    push_repeated(&mut html, "  ", depth);
    let tag = opening_tag(el, &id);
    html.append(tag.as_str());
    if is_void_element(el.tag.as_str()) {
        html.append("\n");
        return Ok(html);
    }
    if has_element_children(&el.children) {
        html.append("\n");
        let inner = match generate_nodes(&el.children, ctx, increment(depth), true) {
            Ok(inner) => inner,
            Err(e) => {
                return Err(e);
            },
        };
        html.append(inner.as_str());
        push_repeated(&mut html, "  ", depth);
    } else if !has_interpolated_text(&el.children) {
        html.append(join_texts(&el.children).as_str());
    }
    html.append(closing_tag(&el.tag).as_str());
    Ok(html)
}

/// Gives a reactive element its id and collects its bindings.
fn prepare(el: &Element, ctx: &mut CompilationContext) -> (r: Result<Option<String>, CodegenError>)
    ensures
        match prepared(el@, old(ctx)@) {
            Ok((id, ready)) => r matches Ok(x) && final(ctx)@ == ready && match id {
                Some(text) => x matches Some(s) && s@ == text,
                None => x is None,
            },
            Err(e) => r matches Err(x) && x@ == e,
        },
{
    if !element_needs_id(el) {
        return Ok(None);
    }
    if ctx.next_id == usize::MAX {
        return Err(CodegenError { message: String::from_str("Too many reactive elements") });
    }
    let id = ctx.assign_id();
    collect_bindings(el, &id, ctx);
    Ok(Some(id))
}

fn is_void_element(tag: &str) -> (b: bool)
    ensures
        b == is_void_tag(tag@),
{
    crate::lexer::token::is_void_element(tag)
}

fn attribute_is_reactive(attr: &Attribute) -> (b: bool)
    ensures
        b == attribute_needs_id(attr@),
{
    match attr.prefix {
        Some(AttributePrefix::Event) => true,
        Some(AttributePrefix::State) => is_text(&attr.name, "show") || is_text(&attr.name, "if")
            || is_text(&attr.name, "model") || is_text(&attr.name, "class") || is_text(
            &attr.name,
            "text",
        ),
        _ => false,
    }
}

fn node_is_interpolated(node: &Node) -> (b: bool)
    ensures
        b == is_interpolated_text(node@),
{
    match node {
        Node::Text(t) => has_char(t.as_str(), '{'),
        _ => false,
    }
}

fn has_interpolated_text(children: &Vec<Node>) -> (b: bool)
    ensures
        b == has_interpolation(node_views(children@)),
{
    let mut i: usize = 0;
    while i < children.len()
        invariant
            i <= children@.len(),
            forall|j: int| 0 <= j < i ==> !is_interpolated_text(#[trigger] node_views(children@)[j]),
        decreases children@.len() - i,
    {
        if node_is_interpolated(&children[i]) {
            assert(is_interpolated_text(node_views(children@)[i as int]));
            return true;
        }
        i += 1;
    }
    false
}

fn has_element_children(children: &Vec<Node>) -> (b: bool)
    ensures
        b == has_element(node_views(children@)),
{
    let mut i: usize = 0;
    while i < children.len()
        invariant
            i <= children@.len(),
            forall|j: int| 0 <= j < i ==> !((#[trigger] node_views(children@)[j]) is Element),
        decreases children@.len() - i,
    {
        let found = match &children[i] {
            Node::Element(_) => true,
            _ => false,
        };
        if found {
            assert(node_views(children@)[i as int] is Element);
            return true;
        }
        i += 1;
    }
    false
}

/// Whether the element is reactive and gets an id.
fn element_needs_id(el: &Element) -> (b: bool)
    ensures
        b == needs_id(el@),
{
    let mut i: usize = 0;
    while i < el.attributes.len()
        invariant
            i <= el.attributes@.len(),
            forall|j: int| 0 <= j < i ==> !attribute_needs_id(#[trigger] el@.attributes[j]),
        decreases el.attributes@.len() - i,
    {
        if attribute_is_reactive(&el.attributes[i]) {
            assert(attribute_needs_id(el@.attributes[i as int]));
            return true;
        }
        i += 1;
    }
    has_interpolated_text(&el.children)
}

fn push_binding(ctx: &mut CompilationContext, binding: Binding)
    ensures
        final(ctx)@ == (ContextView { bindings: old(ctx)@.bindings.push(binding@), ..old(ctx)@ }),
{
    let ghost before = binding_views(ctx.bindings@);
    ctx.bindings.push(binding);
    assert(binding_views(ctx.bindings@) =~= before.push(binding@));
}

fn value_to_js(value: &Option<Expression>, names: &[String]) -> (r: String)
    ensures
        r@ == value_js(option_view(*value), string_views(names@)),
{
    match value {
        Some(e) => expr_to_js(e, names),
        None => String::new(),
    }
}

fn model_field_of(value: &Option<Expression>) -> (r: String)
    ensures
        r@ == model_field(option_view(*value)),
{
    match value {
        Some(e) => match &e.kind {
            ExprKind::Identifier(name) => name.clone(),
            _ => {
                let none: Vec<String> = Vec::new();
                assert(string_views(none@) =~= Seq::empty());
                expr_to_js(e, none.as_slice())
            },
        },
        None => String::new(),
    }
}

/// The binding that `attr` gives to the element with the id `id`.
fn binding_of(attr: &Attribute, id: &String, names: &[String]) -> (r: Option<Binding>)
    ensures
        match attribute_binding(attr@, id@, string_views(names@)) {
            Some(b) => r matches Some(x) && x@ == b,
            None => r is None,
        },
{
    match attr.prefix {
        Some(AttributePrefix::Event) => Some(
            Binding::Event {
                id: id.clone(),
                event: attr.name.clone(),
                handler: value_to_js(&attr.value, names),
                modifiers: clone_names(&attr.modifiers),
            },
        ),
        Some(AttributePrefix::State) => {
            if is_text(&attr.name, "show") || is_text(&attr.name, "if") {
                Some(Binding::Show { id: id.clone(), expr: value_to_js(&attr.value, names) })
            } else if is_text(&attr.name, "model") {
                Some(Binding::Model { id: id.clone(), field: model_field_of(&attr.value) })
            } else {
                None
            }
        },
        _ => None,
    }
}

/// The texts among `children`, one after the other.
fn join_texts(children: &Vec<Node>) -> (r: String)
    ensures
        r@ == joined_text(node_views(children@)),
{
    let mut r = String::new();
    let mut i: usize = 0;
    proof {
        reveal(joined_text);
        assert(node_views(children@).take(0) =~= Seq::empty());
    }
    while i < children.len()
        invariant
            i <= children@.len(),
            r@ == joined_text(node_views(children@).take(i as int)),
        decreases children@.len() - i,
    {
        let ghost all = node_views(children@);
        proof {
            reveal(joined_text);
            assert(all.take(i + 1).drop_last() =~= all.take(i as int));
            assert(all.take(i + 1).last() == children@[i as int]@);
        }
        match &children[i] {
            Node::Text(t) => {
                r.append(t.as_str());
            },
            _ => {},
        }
        i += 1;
    }
    assert(node_views(children@).take(i as int) =~= node_views(children@));
    r
}

/// Collects the bindings of the reactive element `el`, which has the id
/// `id`, behind those that `ctx` holds.
fn collect_bindings(el: &Element, id: &String, ctx: &mut CompilationContext)
    ensures
        final(ctx)@ == (ContextView {
            bindings: old(ctx)@.bindings + element_bindings(el@, id@, old(ctx)@.state_names()),
            ..old(ctx)@
        }),
{
    let state_names = ctx.state_names();
    let ghost names = string_views(state_names@);
    let ghost attrs = attribute_views(el.attributes@);
    let mut i: usize = 0;
    proof {
        reveal(attribute_bindings);
        assert(attrs.take(0) =~= Seq::empty());
        assert(old(ctx)@.bindings + Seq::<BindingView>::empty() =~= old(ctx)@.bindings);
    }
    while i < el.attributes.len()
        invariant
            i <= el.attributes@.len(),
            attrs == attribute_views(el.attributes@),
            names == string_views(state_names@),
            names == old(ctx)@.state_names(),
            ctx@ == (ContextView {
                bindings: old(ctx)@.bindings + attribute_bindings(attrs.take(i as int), id@, names),
                ..old(ctx)@
            }),
        decreases el.attributes@.len() - i,
    {
        proof {
            reveal(attribute_bindings);
            assert(attrs.take(i + 1).drop_last() =~= attrs.take(i as int));
            assert(attrs.take(i + 1).last() == el.attributes@[i as int]@);
        }
        let ghost before = attribute_bindings(attrs.take(i as int), id@, names);
        match binding_of(&el.attributes[i], id, state_names.as_slice()) {
            Some(binding) => {
                push_binding(ctx, binding);
                assert((old(ctx)@.bindings + before).push(binding@) =~= old(ctx)@.bindings
                    + before.push(binding@));
            },
            None => {},
        }
        i += 1;
    }
    assert(attrs.take(i as int) =~= attrs);
    let ghost collected = attribute_bindings(attrs, id@, names);
    if has_interpolated_text(&el.children) {
        let text = join_texts(&el.children);
        let template = interpolate_text(text.as_str(), state_names.as_slice());
        let binding = Binding::Text { id: id.clone(), template };
        push_binding(ctx, binding);
        assert((old(ctx)@.bindings + collected).push(binding@) =~= old(ctx)@.bindings + (collected
            + seq![binding@]));
    } else {
        assert(old(ctx)@.bindings + collected =~= old(ctx)@.bindings + (collected
            + Seq::<BindingView>::empty()));
    }
}

/// The value of a plain attribute as HTML text.
pub(crate) fn expr_to_html_attr(expr: &Expression) -> (r: String)
    ensures
        r@ == html_attr(expr@),
{
    match &expr.kind {
        ExprKind::String(s) => s.clone(),
        ExprKind::Number(n) => format_number(n),
        ExprKind::Boolean(b) => boolean_to_js(*b),
        ExprKind::Identifier(s) => s.clone(),
        _ => expr_to_js_literal(expr),
    }
}

fn attribute_markup(attr: &Attribute) -> (r: String)
    ensures
        r@ == plain_attribute(attr@),
{
    match attr.prefix {
        None => {
            let mut r = String::from_str(" ");
            r.append(attr.name.as_str());
            match &attr.value {
                Some(value) => {
                    let text = expr_to_html_attr(value);
                    r.append(concat3("=\"", text.as_str(), "\"").as_str());
                },
                None => {},
            }
            assert(r@ =~= plain_attribute(attr@));
            r
        },
        _ => String::new(),
    }
}

fn attributes_markup(attributes: &Vec<Attribute>) -> (r: String)
    ensures
        r@ == plain_attributes(attribute_views(attributes@)),
{
    let mut r = String::new();
    let mut i: usize = 0;
    let ghost attrs = attribute_views(attributes@);
    proof {
        reveal(plain_attributes);
        assert(attrs.take(0) =~= Seq::empty());
    }
    while i < attributes.len()
        invariant
            i <= attributes@.len(),
            attrs == attribute_views(attributes@),
            r@ == plain_attributes(attrs.take(i as int)),
        decreases attributes@.len() - i,
    {
        proof {
            reveal(plain_attributes);
            assert(attrs.take(i + 1).drop_last() =~= attrs.take(i as int));
            assert(attrs.take(i + 1).last() == attributes@[i as int]@);
        }
        r.append(attribute_markup(&attributes[i]).as_str());
        i += 1;
    }
    assert(attrs.take(i as int) =~= attrs);
    r
}

/// The opening tag of `el`, with the id `id` if it has one.
fn opening_tag(el: &Element, id: &Option<String>) -> (r: String)
    ensures
        r@ == open_tag(
            el@,
            match *id {
                Some(s) => Some(s@),
                None => None,
            },
        ),
{
    let mut r = String::from_str("<");
    r.append(el.tag.as_str());
    match id {
        Some(id) => {
            r.append(concat3(" id=\"", id.as_str(), "\"").as_str());
        },
        None => {},
    }
    if el.classes.len() > 0 {
        r.append(concat3(" class=\"", join_strings(&el.classes, " ").as_str(), "\"").as_str());
    }
    r.append(attributes_markup(&el.attributes).as_str());
    r.append(">");
    assert(r@ =~= open_tag(
        el@,
        match *id {
            Some(s) => Some(s@),
            None => None,
        },
    ));
    r
}

fn closing_tag(tag: &String) -> (r: String)
    ensures
        r@ == close_tag(tag@),
{
    let mut r = concat3("</", tag.as_str(), ">");
    r.append("\n");
    r
}

/// The position of the brace that closes the interpolation segment that
/// starts at `from`, or the end of the text.
fn find_segment_end(chars: &Vec<char>, from: usize) -> (end: usize)
    requires
        1 <= from <= chars@.len(),
    ensures
        end == segment_end(chars@, from as int, 1),
        from <= end <= chars@.len(),
{
    proof {
        lemma_length_fits(chars);
    }
    let mut pos = from;
    let mut depth: usize = 1;
    while pos < chars.len()
        invariant
            chars@.len() <= usize::MAX,
            1 <= from <= pos <= chars@.len(),
            1 <= depth <= pos - from + 1,
            segment_end(chars@, pos as int, depth as int) == segment_end(chars@, from as int, 1),
        decreases chars@.len() - pos,
    {
        proof {
            reveal(segment_end);
        }
        if chars[pos] == '{' {
            depth += 1;
        } else if chars[pos] == '}' {
            if depth == 1 {
                return pos;
            }
            depth -= 1;
        }
        pos += 1;
    }
    proof {
        reveal(segment_end);
    }
    pos
}

/// The name that `expr` starts with.
fn leading_word_of(expr: &String) -> (r: String)
    ensures
        r@ == leading_word(expr@),
{
    let chars = to_chars(expr.as_str());
    let mut end: usize = 0;
    while end < chars.len() && is_name_char(chars[end])
        invariant
            end <= chars@.len(),
            word_end(chars@, end as int) == word_end(chars@, 0),
        decreases chars@.len() - end,
    {
        proof {
            reveal(word_end);
        }
        end += 1;
    }
    proof {
        reveal(word_end);
    }
    string_of_range(&chars, 0, end)
}

/// The substitution for the interpolation segment `expr`.
fn segment_to_js(expr: &String, state_names: &[String]) -> (r: String)
    ensures
        r@ == segment_js(expr@, string_views(state_names@)),
{
    let word = leading_word_of(expr);
    if contains_name(state_names, &word) {
        concat3("${_s.", expr.as_str(), "}")
    } else {
        concat3("${", expr.as_str(), "}")
    }
}

/// The body of the template literal for `text`: `Count: {count}` becomes
/// `Count: ${_s.count}` where `count` is a state field.
pub fn interpolate_text(text: &str, state_names: &[String]) -> (r: String)
    ensures
        r@ == interpolated(text@, string_views(state_names@)),
{
    let chars = to_chars(text);
    let mut result = String::new();
    let mut pos: usize = 0;
    while pos < chars.len()
        invariant
            pos <= chars@.len(),
            chars@ == text@,
            interpolated_from(chars@, pos as int, string_views(state_names@), result@)
                == interpolated(text@, string_views(state_names@)),
        decreases chars@.len() - pos,
    {
        proof {
            reveal(interpolated_from);
        }
        if chars[pos] == '{' {
            let end = find_segment_end(&chars, pos + 1);
            let expr = string_of_range(&chars, pos + 1, end);
            result.append(segment_to_js(&expr, state_names).as_str());
            pos = if end < chars.len() {
                end + 1
            } else {
                end
            };
        } else {
            result.push(chars[pos]);
            pos += 1;
        }
    }
    proof {
        reveal(interpolated_from);
    }
    result
}

} // verus!
