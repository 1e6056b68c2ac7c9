//! The code generator: a document tree to HTML, CSS and JavaScript.
//!
//! The HTML pass gives every reactive element an id and collects its
//! bindings; the JavaScript pass writes the runtime and one statement for
//! each binding.

use vstd::prelude::*;
use vstd::string::*;

pub mod css;
pub mod expressions;
pub mod html;
pub mod js;
pub mod laws;
pub mod markup;
pub mod rendering;

pub use expressions::{expr_to_js, expr_to_js_literal, format_number};

verus! {

/// What compiling a document gives.
#[derive(Debug, Clone, PartialEq)]
pub struct CompilerOutput {
    pub html: String,
    pub css: String,
    pub js: String,
}

/// What a [`CompilerOutput`] holds.
pub ghost struct CompilerOutputView {
    pub html: Seq<char>,
    pub css: Seq<char>,
    pub js: Seq<char>,
}

impl View for CompilerOutput {
    type V = CompilerOutputView;

    open spec fn view(&self) -> CompilerOutputView {
        CompilerOutputView { html: self.html@, css: self.css@, js: self.js@ }
    }
}

/// A failure of code generation.
#[derive(Debug, Clone, PartialEq)]
pub struct CodegenError {
    pub message: String,
}

/// What a [`CodegenError`] holds.
pub ghost struct CodegenErrorView {
    pub message: Seq<char>,
}

impl View for CodegenError {
    type V = CodegenErrorView;

    open spec fn view(&self) -> CodegenErrorView {
        CodegenErrorView { message: self.message@ }
    }
}

impl CodegenError {
    /// The error as one line of text.
    pub fn to_string(&self) -> (r: String)
        ensures
            r@ == "Codegen error: "@ + self.message@,
    {
        let mut r = String::from_str("Codegen error: ");
        r.append(self.message.as_str());
        r
    }
}

/// A wiring instruction for the runtime, collected from a reactive element.
#[derive(Debug, Clone, PartialEq)]
pub enum Binding {
    /// `hrml.text(id, () => template)`
    Text { id: String, template: String },
    /// `hrml.on(id, event, handler)`
    Event { id: String, event: String, handler: String, modifiers: Vec<String> },
    /// `hrml.show(id, () => expr)`
    Show { id: String, expr: String },
    /// `hrml.model(id, _s, 'field')`
    Model { id: String, field: String },
}

/// What a [`Binding`] holds.
pub ghost enum BindingView {
    Text { id: Seq<char>, template: Seq<char> },
    Event { id: Seq<char>, event: Seq<char>, handler: Seq<char>, modifiers: Seq<Seq<char>> },
    Show { id: Seq<char>, expr: Seq<char> },
    Model { id: Seq<char>, field: Seq<char> },
}

impl View for Binding {
    type V = BindingView;

    open spec fn view(&self) -> BindingView {
        match self {
            Binding::Text { id, template } => BindingView::Text { id: id@, template: template@ },
            Binding::Event { id, event, handler, modifiers } => BindingView::Event {
                id: id@,
                event: event@,
                handler: handler@,
                modifiers: crate::text::string_views(modifiers@),
            },
            Binding::Show { id, expr } => BindingView::Show { id: id@, expr: expr@ },
            Binding::Model { id, field } => BindingView::Model { id: id@, field: field@ },
        }
    }
}

/// The views of a sequence of bindings.
pub open spec fn binding_views(s: Seq<Binding>) -> Seq<BindingView> {
    Seq::new(s.len(), |i: int| s[i]@)
}

/// The views of a sequence of named values.
pub open spec fn field_views(s: Seq<(String, String)>) -> Seq<(Seq<char>, Seq<char>)> {
    Seq::new(s.len(), |i: int| (s[i].0@, s[i].1@))
}

/// The state that the passes of code generation share: the next id to give
/// out, the bindings collected so far, and the state fields and computed
/// fields with their rendered values, each in document order.
pub struct CompilationContext {
    pub next_id: usize,
    pub bindings: Vec<Binding>,
    pub state_fields: Vec<(String, String)>,
    pub computed_fields: Vec<(String, String)>,
}

/// What a [`CompilationContext`] holds.
pub ghost struct ContextView {
    pub next_id: nat,
    pub bindings: Seq<BindingView>,
    pub state_fields: Seq<(Seq<char>, Seq<char>)>,
    pub computed_fields: Seq<(Seq<char>, Seq<char>)>,
}

impl ContextView {
    /// The context before anything is collected.
    pub open spec fn empty() -> ContextView {
        ContextView {
            next_id: 0,
            bindings: Seq::empty(),
            state_fields: Seq::empty(),
            computed_fields: Seq::empty(),
        }
    }

    /// The names of the state fields, in the order of their declaration.
    pub open spec fn state_names(self) -> Seq<Seq<char>> {
        Seq::new(self.state_fields.len(), |i: int| self.state_fields[i].0)
    }
}

/// The id of the reactive element with the number `n`.
pub open spec fn element_id(n: nat) -> Seq<char> {
    "hrml-"@ + crate::text::decimal(n)
}

impl View for CompilationContext {
    type V = ContextView;

    open spec fn view(&self) -> ContextView {
        ContextView {
            next_id: self.next_id as nat,
            bindings: binding_views(self.bindings@),
            state_fields: field_views(self.state_fields@),
            computed_fields: field_views(self.computed_fields@),
        }
    }
}

impl CompilationContext {
    /// An empty context.
    pub fn new() -> (ctx: Self)
        ensures
            ctx@ == ContextView::empty(),
    {
        let ctx = CompilationContext {
            next_id: 0,
            bindings: Vec::new(),
            state_fields: Vec::new(),
            computed_fields: Vec::new(),
        };
        assert(binding_views(ctx.bindings@) =~= Seq::empty());
        assert(field_views(ctx.state_fields@) =~= Seq::empty());
        assert(field_views(ctx.computed_fields@) =~= Seq::empty());
        ctx
    }

    /// Gives out the next id: ids are numbered from 0 in the order in which
    /// they are asked for.
    pub fn assign_id(&mut self) -> (id: String)
        requires
            old(self).next_id < usize::MAX,
        ensures
            id@ == element_id(old(self)@.next_id),
            final(self)@ == (ContextView { next_id: old(self)@.next_id + 1, ..old(self)@ }),
    {
        let mut id = String::from_str("hrml-");
        crate::text::push_decimal(&mut id, self.next_id);
        self.next_id += 1;
        id
    }

    /// The names of the state fields, in the order of their declaration.
    pub fn state_names(&self) -> (names: Vec<String>)
        ensures
            crate::text::string_views(names@) == self@.state_names(),
    {
        let mut names: Vec<String> = Vec::new();
        let mut i: usize = 0;
        while i < self.state_fields.len()
            invariant
                i <= self.state_fields@.len(),
                crate::text::string_views(names@) == self@.state_names().take(i as int),
            decreases self.state_fields@.len() - i,
        {
            let ghost before = crate::text::string_views(names@);
            let name = self.state_fields[i].0.clone();
            names.push(name);
            i += 1;
            proof {
                let all = self@.state_names();
                assert(all[i - 1] == name@);
                assert(crate::text::string_views(names@) =~= before.push(name@));
                assert(all.take(i as int) =~= all.take(i - 1).push(all[i - 1]));
            }
        }
        assert(self@.state_names().take(i as int) =~= self@.state_names());
        names
    }
}

/// The state fields of a block with their rendered initial values.
#[verifier::opaque]
pub open spec fn state_values(fields: Seq<crate::parser::ast::StateFieldView>) -> Seq<
    (Seq<char>, Seq<char>),
>
    decreases fields.len(),
{
    if fields.len() == 0 {
        Seq::empty()
    } else {
        state_values(fields.drop_last()).push(
            (fields.last().name, rendering::literal_js(fields.last().value)),
        )
    }
}

/// The computed fields of a block with their rendered expressions, in which
/// the names of `names` are qualified with the state object.
#[verifier::opaque]
pub open spec fn computed_values(
    fields: Seq<crate::parser::ast::ComputedFieldView>,
    names: Seq<Seq<char>>,
) -> Seq<(Seq<char>, Seq<char>)>
    decreases fields.len(),
{
    if fields.len() == 0 {
        Seq::empty()
    } else {
        computed_values(fields.drop_last(), names).push(
            (fields.last().name, rendering::expr_js(fields.last().body, names)),
        )
    }
}

/// The context with the fields that a top-level node declares.
pub open spec fn declared(node: crate::parser::ast::NodeView, ctx: ContextView) -> ContextView {
    match node {
        crate::parser::ast::NodeView::StateBlock(block) => ContextView {
            state_fields: ctx.state_fields + state_values(block.fields),
            ..ctx
        },
        crate::parser::ast::NodeView::ComputedBlock(block) => ContextView {
            computed_fields: ctx.computed_fields + computed_values(
                block.fields,
                ctx.state_names(),
            ),
            ..ctx
        },
        _ => ctx,
    }
}

/// The context with the fields that the top-level nodes declare, in document
/// order.
#[verifier::opaque]
pub open spec fn declarations(nodes: Seq<crate::parser::ast::NodeView>, ctx: ContextView)
    -> ContextView
    decreases nodes.len(),
{
    if nodes.len() == 0 {
        ctx
    } else {
        declared(nodes.last(), declarations(nodes.drop_last(), ctx))
    }
}

/// What a document compiles to: the markup of its nodes, no CSS, and the
/// program for the context that the two passes leave.
pub open spec fn compiled(doc: crate::parser::ast::DocumentView) -> Result<
    CompilerOutputView,
    CodegenErrorView,
> {
    match markup::nodes_html(doc.nodes, declarations(doc.nodes, ContextView::empty()), 0, false) {
        Err(e) => Err(e),
        Ok(emitted) => Ok(
            CompilerOutputView {
                html: emitted.html,
                css: Seq::empty(),
                js: js::script(emitted.ctx),
            },
        ),
    }
}

/// The view of the compiler's result.
pub open spec fn output_view(r: Result<CompilerOutput, CodegenError>) -> Result<
    CompilerOutputView,
    CodegenErrorView,
> {
    match r {
        Ok(out) => Ok(out@),
        Err(e) => Err(e@),
    }
}

fn push_field(fields: &mut Vec<(String, String)>, name: String, value: String)
    ensures
        field_views(final(fields)@) == field_views(old(fields)@).push((name@, value@)),
{
    let ghost before = field_views(fields@);
    fields.push((name, value));
    assert(field_views(fields@) =~= before.push((name@, value@)));
}

/// Collects the fields that `node` declares into `ctx`.
fn declare(node: &crate::parser::ast::Node, ctx: &mut CompilationContext)
    ensures
        final(ctx)@ == declared(node@, old(ctx)@),
{
    match node {
        crate::parser::ast::Node::StateBlock(block) => {
            let ghost fields = crate::parser::ast::state_field_views(block.fields@);
            let mut i: usize = 0;
            proof {
                reveal(state_values);
                assert(fields.take(0) =~= Seq::empty());
                assert(old(ctx)@.state_fields + Seq::<(Seq<char>, Seq<char>)>::empty() =~= old(
                    ctx,
                )@.state_fields);
            }
            while i < block.fields.len()
                invariant
                    i <= block.fields@.len(),
                    fields == crate::parser::ast::state_field_views(block.fields@),
                    ctx@ == (ContextView {
                        state_fields: old(ctx)@.state_fields + state_values(fields.take(i as int)),
                        ..old(ctx)@
                    }),
                decreases block.fields@.len() - i,
            {
                let ghost before = state_values(fields.take(i as int));
                let field = &block.fields[i];
                let value = expr_to_js_literal(&field.value);
                let name = field.name.clone();
                push_field(&mut ctx.state_fields, name, value);
                i += 1;
                proof {
                    reveal(state_values);
                    assert(fields.take(i as int).drop_last() =~= fields.take(i - 1));
                    assert(fields.take(i as int).last() == field@);
                    assert((old(ctx)@.state_fields + before).push((name@, value@)) =~= old(
                        ctx,
                    )@.state_fields + before.push((name@, value@)));
                }
            }
            assert(fields.take(i as int) =~= fields);
        },
        crate::parser::ast::Node::ComputedBlock(block) => {
            let ghost fields = crate::parser::ast::computed_field_views(block.fields@);
            let state_names = ctx.state_names();
            let ghost names = crate::text::string_views(state_names@);
            let mut i: usize = 0;
            proof {
                reveal(computed_values);
                assert(fields.take(0) =~= Seq::empty());
                assert(old(ctx)@.computed_fields + Seq::<(Seq<char>, Seq<char>)>::empty() =~= old(
                    ctx,
                )@.computed_fields);
            }
            while i < block.fields.len()
                invariant
                    i <= block.fields@.len(),
                    fields == crate::parser::ast::computed_field_views(block.fields@),
                    names == crate::text::string_views(state_names@),
                    names == old(ctx)@.state_names(),
                    ctx@ == (ContextView {
                        computed_fields: old(ctx)@.computed_fields + computed_values(
                            fields.take(i as int),
                            names,
                        ),
                        ..old(ctx)@
                    }),
                decreases block.fields@.len() - i,
            {
                let ghost before = computed_values(fields.take(i as int), names);
                let field = &block.fields[i];
                let value = expr_to_js(&field.body, state_names.as_slice());
                let name = field.name.clone();
                push_field(&mut ctx.computed_fields, name, value);
                i += 1;
                proof {
                    reveal(computed_values);
                    assert(fields.take(i as int).drop_last() =~= fields.take(i - 1));
                    assert(fields.take(i as int).last() == field@);
                    assert((old(ctx)@.computed_fields + before).push((name@, value@)) =~= old(
                        ctx,
                    )@.computed_fields + before.push((name@, value@)));
                }
            }
            assert(fields.take(i as int) =~= fields);
        },
        _ => {},
    }
}

/// Compiles a document into its markup, its (empty) CSS and its program. In
/// the markup the reactive elements carry the ids `hrml-0`, `hrml-1`, ... in
/// the order of the document. Compiling fails only for a document with more
/// reactive elements than a `usize` can count.
pub fn compile(doc: &crate::parser::ast::Document) -> (r: Result<CompilerOutput, CodegenError>)
    ensures
        output_view(r) == compiled(doc@),
        laws::reactive_elements(doc@.nodes).len() <= usize::MAX ==> r is Ok,
        r matches Ok(out) ==> out.html@ == laws::nodes_markup(doc@.nodes, 0, 0, false),
        r matches Err(e) ==> e@ == markup::too_many_ids(),
{
    proof {
        laws::lemma_declarations_keep_bindings(doc@.nodes, ContextView::empty());
        laws::lemma_nodes_markup_in_order(
            doc@.nodes,
            declarations(doc@.nodes, ContextView::empty()),
            0,
            false,
        );
    }
    let mut ctx = CompilationContext::new();
    let ghost nodes = crate::parser::ast::node_views(doc.nodes@);
    let mut i: usize = 0;
    proof {
        reveal(declarations);
        assert(nodes.take(0) =~= Seq::empty());
    }
    while i < doc.nodes.len()
        invariant
            i <= doc.nodes@.len(),
            nodes == crate::parser::ast::node_views(doc.nodes@),
            ctx@ == declarations(nodes.take(i as int), ContextView::empty()),
        decreases doc.nodes@.len() - i,
    {
        proof {
            reveal(declarations);
            assert(nodes.take(i + 1).drop_last() =~= nodes.take(i as int));
            assert(nodes.take(i + 1).last() == doc.nodes@[i as int]@);
        }
        declare(&doc.nodes[i], &mut ctx);
        i += 1;
    }
    assert(nodes.take(i as int) =~= nodes);
    let html = match html::generate(doc, &mut ctx) {
        Ok(html) => html,
        Err(e) => {
            return Err(e);
        },
    };
    let css = match css::generate(doc) {
        Ok(css) => css,
        Err(e) => {
            return Err(e);
        },
    };
    let js = match js::generate(&ctx) {
        Ok(js) => js,
        Err(e) => {
            return Err(e);
        },
    };
    Ok(CompilerOutput { html, css, js })
}

impl Default for CompilationContext {
    fn default() -> (ctx: Self)
        ensures
            ctx@ == ContextView::empty(),
    {
        CompilationContext::new()
    }
}

} // verus!
