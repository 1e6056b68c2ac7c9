//! What holds of every compilation: the order in which ids are given out
//! and where they stand in the markup, that static documents need no
//! program, and that the state names used for a document are the ones it
//! declares.

use vstd::prelude::*;
use crate::codegen::markup::{
    close_tag, element_bindings, element_html, has_element, has_interpolation, joined_text,
    needs_id, node_html, nodes_html, open_tag, prepared, text_html, too_many_ids,
};
use crate::codegen::{BindingView, compiled, ContextView, declarations, element_id, state_values};
use crate::lexer::token::is_void_tag;
use crate::parser::ast::{DocumentView, ElementView, NodeView, StateFieldView};
use crate::text::{bump, repeated};

verus! {

/// Whether the children of the element are visited: a void element has no
/// content, and only an element with element children has markup below it.
pub open spec fn visits_children(el: ElementView) -> bool {
    !is_void_tag(el.tag) && has_element(el.children)
}

/// The reactive elements among the nodes and below them, in the order of the
/// document: each element before the elements inside it, and siblings in
/// their order.
pub open spec fn reactive_elements(nodes: Seq<NodeView>) -> Seq<ElementView>
    decreases nodes,
{
    if nodes.len() == 0 {
        Seq::empty()
    } else {
        reactive_elements(nodes.drop_last()) + reactive_in(nodes.last())
    }
}

/// The reactive elements of one node: the node itself if it is one, and
/// those below it.
pub open spec fn reactive_in(node: NodeView) -> Seq<ElementView>
    decreases node,
{
    match node {
        NodeView::Element(el) => (if needs_id(el) {
            seq![el]
        } else {
            Seq::empty()
        }) + (if visits_children(el) {
            reactive_elements(el.children)
        } else {
            Seq::empty()
        }),
        _ => Seq::empty(),
    }
}

/// The bindings of the elements, where the first of them has the id with the
/// number `first` and each next one the next number.
pub open spec fn bindings_in_order(elements: Seq<ElementView>, first: nat, names: Seq<Seq<char>>)
    -> Seq<BindingView>
    decreases elements.len(),
{
    if elements.len() == 0 {
        Seq::empty()
    } else {
        bindings_in_order(elements.drop_last(), first, names) + element_bindings(
            elements.last(),
            element_id((first + elements.len() - 1) as nat),
            names,
        )
    }
}

/// What the HTML pass leaves behind for `elements` reactive elements: the
/// counter moved by their number, their bindings behind those of `before`
/// with the ids in order, and the fields untouched.
pub open spec fn collected_in_order(
    before: ContextView,
    after: ContextView,
    elements: Seq<ElementView>,
) -> bool {
    &&& after.next_id == before.next_id + elements.len()
    &&& after.bindings == before.bindings + bindings_in_order(
        elements,
        before.next_id,
        before.state_names(),
    )
    &&& after.state_fields == before.state_fields
    &&& after.computed_fields == before.computed_fields
}

proof fn lemma_bindings_concat(
    a: Seq<ElementView>,
    b: Seq<ElementView>,
    first: nat,
    names: Seq<Seq<char>>,
)
    ensures
        bindings_in_order(a + b, first, names) == bindings_in_order(a, first, names)
            + bindings_in_order(b, first + a.len(), names),
    decreases b.len(),
{
    if b.len() == 0 {
        assert(a + b =~= a);
        assert(bindings_in_order(a, first, names) + Seq::<BindingView>::empty()
            =~= bindings_in_order(a, first, names));
    } else {
        assert((a + b).drop_last() =~= a + b.drop_last());
        assert((a + b).last() == b.last());
        lemma_bindings_concat(a, b.drop_last(), first, names);
        assert(bindings_in_order(a + b, first, names) =~= bindings_in_order(a, first, names)
            + bindings_in_order(b, first + a.len(), names));
    }
}

proof fn lemma_one_element(el: ElementView, first: nat, names: Seq<Seq<char>>)
    ensures
        bindings_in_order(seq![el], first, names) == element_bindings(
            el,
            element_id(first),
            names,
        ),
{
    reveal_with_fuel(bindings_in_order, 2);
    assert(seq![el].drop_last() =~= Seq::<ElementView>::empty());
    assert(bindings_in_order(seq![el], first, names) =~= element_bindings(
        el,
        element_id(first),
        names,
    ));
}

/// Ids are given out in document order. The HTML pass of a node gives the
/// reactive elements in and below it the ids `hrml-n`, `hrml-(n+1)`, ... in
/// the order of the document, where `n` is the counter before the node; the
/// bindings are collected in the same order; and the pass fails only where
/// the ids run out.
pub proof fn lemma_node_ids_in_order(node: NodeView, ctx: ContextView, depth: usize, nested: bool)
    ensures
        match node_html(node, ctx, depth, nested) {
            Ok(emitted) => collected_in_order(ctx, emitted.ctx, reactive_in(node)),
            Err(e) => e == too_many_ids(),
        },
    decreases node,
{
    reveal(node_html);
    reveal(element_html);
    reveal(nodes_html);
    let names = ctx.state_names();
    match node {
        NodeView::Element(el) => {
            let own = if needs_id(el) {
                seq![el]
            } else {
                Seq::<ElementView>::empty()
            };
            match prepared(el, ctx) {
                Err(e) => {},
                Ok((id, ready)) => {
                    assert(ready.state_names() =~= names);
                    assert(collected_in_order(ctx, ready, own)) by {
                        if needs_id(el) {
                            lemma_one_element(el, ctx.next_id, names);
                        } else {
                            assert(ctx.bindings + Seq::<BindingView>::empty() =~= ctx.bindings);
                        }
                    }
                    if visits_children(el) {
                        lemma_nodes_ids_in_order(el.children, ready, bump(depth), true);
                        match nodes_html(el.children, ready, bump(depth), true) {
                            Ok(inner) => {
                                let below = reactive_elements(el.children);
                                lemma_bindings_concat(own, below, ctx.next_id, names);
                                assert(inner.ctx.bindings =~= ctx.bindings + bindings_in_order(
                                    own + below,
                                    ctx.next_id,
                                    names,
                                ));
                            },
                            Err(e) => {},
                        }
                    } else {
                        assert(own + Seq::<ElementView>::empty() =~= own);
                    }
                },
            }
        },
        _ => {
            assert(ctx.bindings + Seq::<BindingView>::empty() =~= ctx.bindings);
        },
    }
}

/// Ids are given out in document order, for a sequence of nodes: see
/// [`lemma_node_ids_in_order`].
pub proof fn lemma_nodes_ids_in_order(
    nodes: Seq<NodeView>,
    ctx: ContextView,
    depth: usize,
    nested: bool,
)
    ensures
        match nodes_html(nodes, ctx, depth, nested) {
            Ok(emitted) => collected_in_order(ctx, emitted.ctx, reactive_elements(nodes)),
            Err(e) => e == too_many_ids(),
        },
    decreases nodes,
{
    reveal(nodes_html);
    reveal(node_html);
    let names = ctx.state_names();
    if nodes.len() == 0 {
        assert(ctx.bindings + Seq::<BindingView>::empty() =~= ctx.bindings);
    } else {
        lemma_nodes_ids_in_order(nodes.drop_last(), ctx, depth, nested);
        match nodes_html(nodes.drop_last(), ctx, depth, nested) {
            Err(e) => {},
            Ok(before) => {
                lemma_node_ids_in_order(nodes.last(), before.ctx, depth, nested);
                match node_html(nodes.last(), before.ctx, depth, nested) {
                    Err(e) => {},
                    Ok(last) => {
                        let first = reactive_elements(nodes.drop_last());
                        let second = reactive_in(nodes.last());
                        assert(before.ctx.state_names() =~= names);
                        lemma_bindings_concat(first, second, ctx.next_id, names);
                        assert(last.ctx.bindings =~= ctx.bindings + bindings_in_order(
                            first + second,
                            ctx.next_id,
                            names,
                        ));
                    },
                }
            },
        }
    }
}

/// The id that an element carries where `n` ids were given out before it:
/// the next one if the element is reactive, and none if it is not.
pub open spec fn id_for(el: ElementView, n: nat) -> Option<Seq<char>> {
    if needs_id(el) {
        Some(element_id(n))
    } else {
        None
    }
}

/// The markup of an element before which `n` ids were given out. Its opening
/// tag carries its id, if it has one, right behind its tag name; the
/// elements below it go on counting behind it.
pub open spec fn element_markup(el: ElementView, n: nat, depth: usize) -> Seq<char>
    decreases el,
{
    let indent = repeated("  "@, depth as nat);
    let head = indent + open_tag(el, id_for(el, n));
    if is_void_tag(el.tag) {
        head + "\n"@
    } else if has_element(el.children) {
        head + "\n"@ + nodes_markup(
            el.children,
            if needs_id(el) {
                n + 1
            } else {
                n
            },
            bump(depth),
            true,
        ) + indent + close_tag(el.tag)
    } else if !has_interpolation(el.children) {
        head + joined_text(el.children) + close_tag(el.tag)
    } else {
        head + close_tag(el.tag)
    }
}

/// The markup of a node before which `n` ids were given out.
pub open spec fn node_markup(node: NodeView, n: nat, depth: usize, nested: bool) -> Seq<char>
    decreases node,
{
    match node {
        NodeView::Element(el) => element_markup(el, n, depth),
        NodeView::Text(t) => text_html(t, depth, nested),
        _ => Seq::empty(),
    }
}

/// The markup of the nodes, where `first` ids were given out before them:
/// each node is written with the count of the reactive elements that stand
/// before it in the document, so that the reactive element with the number
/// `k` carries the id with the number `first + k`, and no other element
/// carries one.
pub open spec fn nodes_markup(nodes: Seq<NodeView>, first: nat, depth: usize, nested: bool)
    -> Seq<char>
    decreases nodes,
{
    if nodes.len() == 0 {
        Seq::empty()
    } else {
        nodes_markup(nodes.drop_last(), first, depth, nested) + node_markup(
            nodes.last(),
            first + reactive_elements(nodes.drop_last()).len(),
            depth,
            nested,
        )
    }
}

/// Ids stand in the markup in document order: the markup that the HTML pass
/// writes for a node is the markup in which every reactive element carries
/// the id of its number in the document, counted on from the counter before
/// the node.
pub proof fn lemma_node_markup_in_order(node: NodeView, ctx: ContextView, depth: usize, nested: bool)
    ensures
        node_html(node, ctx, depth, nested) matches Ok(emitted) ==> emitted.html == node_markup(
            node,
            ctx.next_id,
            depth,
            nested,
        ),
    decreases node,
{
    reveal(node_html);
    reveal(element_html);
    reveal(nodes_html);
    match node {
        NodeView::Element(el) => {
            match prepared(el, ctx) {
                Err(e) => {},
                Ok((id, ready)) => {
                    assert(id == id_for(el, ctx.next_id));
                    if visits_children(el) {
                        lemma_nodes_markup_in_order(el.children, ready, bump(depth), true);
                    }
                },
            }
        },
        _ => {},
    }
}

/// Ids stand in the markup in document order, for a sequence of nodes: see
/// [`lemma_node_markup_in_order`].
pub proof fn lemma_nodes_markup_in_order(
    nodes: Seq<NodeView>,
    ctx: ContextView,
    depth: usize,
    nested: bool,
)
    ensures
        nodes_html(nodes, ctx, depth, nested) matches Ok(emitted) ==> emitted.html
            == nodes_markup(nodes, ctx.next_id, depth, nested),
    decreases nodes,
{
    reveal(nodes_html);
    reveal(node_html);
    if nodes.len() > 0 {
        lemma_nodes_markup_in_order(nodes.drop_last(), ctx, depth, nested);
        lemma_nodes_ids_in_order(nodes.drop_last(), ctx, depth, nested);
        match nodes_html(nodes.drop_last(), ctx, depth, nested) {
            Err(e) => {},
            Ok(before) => {
                lemma_node_markup_in_order(nodes.last(), before.ctx, depth, nested);
            },
        }
    }
}

/// A document without state fields and without reactive elements compiles
/// to no program: its JavaScript is the empty text.
pub proof fn lemma_static_document_has_no_script(doc: DocumentView)
    requires
        declarations(doc.nodes, ContextView::empty()).state_fields.len() == 0,
        reactive_elements(doc.nodes).len() == 0,
    ensures
        compiled(doc) matches Ok(out) && out.js == Seq::<char>::empty(),
{
    let ctx = declarations(doc.nodes, ContextView::empty());
    lemma_declarations_keep_bindings(doc.nodes, ContextView::empty());
    lemma_nodes_ids_in_order(doc.nodes, ctx, 0, false);
    match crate::codegen::markup::nodes_html(doc.nodes, ctx, 0, false) {
        Ok(emitted) => {
            assert(emitted.ctx.bindings =~= Seq::<BindingView>::empty());
        },
        Err(e) => {
            lemma_few_ids_suffice(doc.nodes, ctx, 0, false);
        },
    }
}

/// The declarations of a document collect fields only: the counter and the
/// bindings stay as they are.
pub proof fn lemma_declarations_keep_bindings(nodes: Seq<NodeView>, ctx: ContextView)
    ensures
        declarations(nodes, ctx).next_id == ctx.next_id,
        declarations(nodes, ctx).bindings == ctx.bindings,
    decreases nodes.len(),
{
    reveal(declarations);
    if nodes.len() > 0 {
        lemma_declarations_keep_bindings(nodes.drop_last(), ctx);
    }
}

/// The HTML pass succeeds wherever the ids suffice for the reactive
/// elements.
pub proof fn lemma_few_ids_suffice(
    nodes: Seq<NodeView>,
    ctx: ContextView,
    depth: usize,
    nested: bool,
)
    requires
        ctx.next_id + reactive_elements(nodes).len() <= usize::MAX,
    ensures
        nodes_html(nodes, ctx, depth, nested) is Ok,
    decreases nodes,
{
    reveal(nodes_html);
    reveal(node_html);
    if nodes.len() > 0 {
        lemma_few_ids_suffice(nodes.drop_last(), ctx, depth, nested);
        lemma_nodes_ids_in_order(nodes.drop_last(), ctx, depth, nested);
        let before = nodes_html(nodes.drop_last(), ctx, depth, nested)->Ok_0;
        lemma_node_suffices(nodes.last(), before.ctx, depth, nested);
    }
}

proof fn lemma_node_suffices(node: NodeView, ctx: ContextView, depth: usize, nested: bool)
    requires
        ctx.next_id + reactive_in(node).len() <= usize::MAX,
    ensures
        node_html(node, ctx, depth, nested) is Ok,
    decreases node,
{
    reveal(node_html);
    reveal(element_html);
    reveal(nodes_html);
    match node {
        NodeView::Element(el) => {
            if visits_children(el) {
                let ready = prepared(el, ctx)->Ok_0.1;
                lemma_few_ids_suffice(el.children, ready, bump(depth), true);
            }
        },
        _ => {},
    }
}

/// The name of the field with the number `j` that the node declares, if
/// the node is a state block with so many fields.
pub open spec fn declared_name(node: NodeView, j: int) -> Option<Seq<char>> {
    match node {
        NodeView::StateBlock(block) => if 0 <= j < block.fields.len() {
            Some(block.fields[j].name)
        } else {
            None
        },
        _ => None,
    }
}

/// Whether one of the top-level state blocks of the nodes declares a field
/// of the name `name`.
pub open spec fn declares(nodes: Seq<NodeView>, name: Seq<char>) -> bool {
    exists|i: int, j: int|
        0 <= i < nodes.len() && #[trigger] declared_name(nodes[i], j) == Some(name)
}

proof fn lemma_state_values_names(fields: Seq<StateFieldView>, k: int)
    requires
        0 <= k < state_values(fields).len(),
    ensures
        state_values(fields).len() == fields.len(),
        state_values(fields)[k].0 == fields[k].name,
    decreases fields.len(),
{
    reveal(state_values);
    lemma_state_values_len(fields);
    if k < fields.len() - 1 {
        lemma_state_values_len(fields.drop_last());
        lemma_state_values_names(fields.drop_last(), k);
    }
}

proof fn lemma_state_values_len(fields: Seq<StateFieldView>)
    ensures
        state_values(fields).len() == fields.len(),
    decreases fields.len(),
{
    reveal(state_values);
    if fields.len() > 0 {
        lemma_state_values_len(fields.drop_last());
    }
}

/// Nothing is carried over from one document to the next: the state names
/// that are qualified in the code of a document are names of state fields
/// that this document declares.
pub proof fn lemma_state_names_are_declared(nodes: Seq<NodeView>, k: int)
    requires
        0 <= k < declarations(nodes, ContextView::empty()).state_names().len(),
    ensures
        declares(nodes, declarations(nodes, ContextView::empty()).state_names()[k]),
    decreases nodes.len(),
{
    reveal(declarations);
    if nodes.len() > 0 {
        let before = declarations(nodes.drop_last(), ContextView::empty());
        let all = declarations(nodes, ContextView::empty());
        let name = all.state_names()[k];
        if k < before.state_fields.len() {
            lemma_state_names_are_declared(nodes.drop_last(), k);
            let (i, j) = choose|i: int, j: int|
                0 <= i < nodes.drop_last().len() && #[trigger] declared_name(
                    nodes.drop_last()[i],
                    j,
                ) == Some(before.state_names()[k]);
            assert(nodes[i] == nodes.drop_last()[i]);
            assert(declared_name(nodes[i], j) == Some(name));
        } else {
            match nodes.last() {
                NodeView::StateBlock(block) => {
                    let j = k - before.state_fields.len();
                    lemma_state_values_names(block.fields, j);
                    assert(declared_name(nodes[nodes.len() - 1], j) == Some(name));
                },
                _ => {},
            }
        }
    }
}

} // verus!
