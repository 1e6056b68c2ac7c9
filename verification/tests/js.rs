#![allow(unused_imports, dead_code)]

use hrml::codegen::js::generate;
use hrml::codegen::{Binding, CompilationContext, compile};
use hrml::parser::ast::{
    AssignOp, Attribute, AttributePrefix, BinaryOp, ComputedBlock, ComputedField, Document,
    Element, Expression, ExprKind, ExprSpan, Node, ObjectProperty, PostfixOp, StateBlock,
    StateField, UnaryOp,
};
use hrml::parser::Parser;

// =========================================================================
// Empty context
// =========================================================================

#[test]
fn test_empty_context() {
    let ctx = CompilationContext::new();
    let js = generate(&ctx).unwrap();
    assert_eq!(js, "");
}

// =========================================================================
// State initialization
// =========================================================================

#[test]
fn test_state_single_field() {
    let mut ctx = CompilationContext::new();
    ctx.state_fields.push(("count".into(), "0".into()));
    let js = generate(&ctx).unwrap();
    assert!(js.contains("hrml.state({ count: 0 })"));
}

#[test]
fn test_state_multiple_fields() {
    let mut ctx = CompilationContext::new();
    ctx.state_fields.push(("count".into(), "0".into()));
    ctx.state_fields
        .push(("loading".into(), "false".into()));
    let js = generate(&ctx).unwrap();
    assert!(js.contains("hrml.state({ count: 0, loading: false })"));
}

#[test]
fn test_state_string_field() {
    let mut ctx = CompilationContext::new();
    ctx.state_fields.push(("name".into(), "''".into()));
    let js = generate(&ctx).unwrap();
    assert!(js.contains("name: ''"));
}

// =========================================================================
// Bindings
// =========================================================================

#[test]
fn test_text_binding() {
    let mut ctx = CompilationContext::new();
    ctx.state_fields.push(("count".into(), "0".into()));
    ctx.bindings.push(Binding::Text {
        id: "hrml-0".into(),
        template: "${_s.count}".into(),
    });
    let js = generate(&ctx).unwrap();
    assert!(js.contains("hrml.text('hrml-0', () => `${_s.count}`)"));
}

#[test]
fn test_event_binding() {
    let mut ctx = CompilationContext::new();
    ctx.state_fields.push(("count".into(), "0".into()));
    ctx.bindings.push(Binding::Event {
        id: "hrml-0".into(),
        event: "click".into(),
        handler: "_s.count++".into(),
        modifiers: Vec::new(),
    });
    let js = generate(&ctx).unwrap();
    assert!(js.contains("hrml.on('hrml-0', 'click', () => { _s.count++; })"));
}

#[test]
fn test_event_binding_with_prevent() {
    let mut ctx = CompilationContext::new();
    ctx.state_fields.push(("data".into(), "null".into()));
    ctx.bindings.push(Binding::Event {
        id: "hrml-0".into(),
        event: "submit".into(),
        handler: "save()".into(),
        modifiers: vec!["prevent".into()],
    });
    let js = generate(&ctx).unwrap();
    assert!(js.contains("e.preventDefault()"));
    assert!(js.contains("save()"));
}

#[test]
fn test_show_binding() {
    let mut ctx = CompilationContext::new();
    ctx.state_fields
        .push(("visible".into(), "true".into()));
    ctx.bindings.push(Binding::Show {
        id: "hrml-0".into(),
        expr: "_s.visible".into(),
    });
    let js = generate(&ctx).unwrap();
    assert!(js.contains("hrml.show('hrml-0', () => _s.visible)"));
}

#[test]
fn test_model_binding() {
    let mut ctx = CompilationContext::new();
    ctx.state_fields.push(("name".into(), "''".into()));
    ctx.bindings.push(Binding::Model {
        id: "hrml-0".into(),
        field: "name".into(),
    });
    let js = generate(&ctx).unwrap();
    assert!(js.contains("hrml.model('hrml-0', _s, 'name')"));
}

// =========================================================================
// Runtime
// =========================================================================

#[test]
fn test_runtime_included() {
    let mut ctx = CompilationContext::new();
    ctx.state_fields.push(("x".into(), "0".into()));
    let js = generate(&ctx).unwrap();
    assert!(js.contains("const hrml = (() => {"));
    assert!(js.contains("new Proxy("));
    assert!(js.contains("queueMicrotask"));
    assert!(js.contains("return { state, effect, text, show, model, on };"));
}

#[test]
fn test_iife_wrapper() {
    let mut ctx = CompilationContext::new();
    ctx.state_fields.push(("x".into(), "0".into()));
    let js = generate(&ctx).unwrap();
    assert!(js.contains("(function() {"));
    assert!(js.contains("})();"));
}

// =========================================================================
// Computed fields
// =========================================================================

#[test]
fn test_computed_field() {
    let mut ctx = CompilationContext::new();
    ctx.state_fields.push(("count".into(), "0".into()));
    ctx.computed_fields
        .push(("double".into(), "_s.count * 2".into()));
    let js = generate(&ctx).unwrap();
    assert!(js.contains("hrml.effect(() => { _s.double = _s.count * 2; })"));
}

// =========================================================================
// Full examples via compile()
// =========================================================================

fn parse(source: &str) -> Document {
    Parser::parse(source).unwrap()
}

#[test]
fn test_counter_js() {
    let doc = parse(
        "state\n  count: 0\n\ndiv .counter\n  button @click=\"count++\" \"-\"\n  span \"{count}\"\n  button @click=\"count--\" \"+\"",
    );
    let output = compile(&doc).unwrap();
    assert!(output.js.contains("hrml.state({ count: 0 })"));
    assert!(output.js.contains("_s.count++"));
    assert!(output.js.contains("_s.count--"));
    assert!(output.js.contains("${_s.count}"));
}

#[test]
fn test_toggle_js() {
    let doc = parse(
        "state\n  visible: true\n\nbutton @click=\"visible = !visible\" \"Toggle\"\ndiv :show=\"visible\" \"Content\"",
    );
    let output = compile(&doc).unwrap();
    assert!(output.js.contains("hrml.state({ visible: true })"));
    assert!(output.js.contains("_s.visible = !_s.visible"));
    assert!(output.js.contains("hrml.show("));
}

#[test]
fn test_input_binding_js() {
    let doc = parse(
        "state\n  name: \"\"\n\ninput :model=\"name\" placeholder=\"Type your name\"\nspan \"Hello {name}!\"",
    );
    let output = compile(&doc).unwrap();
    assert!(output.js.contains("hrml.state({ name: '' })"));
    assert!(output.js.contains("hrml.model("));
    assert!(output.js.contains("Hello ${_s.name}!"));
}
