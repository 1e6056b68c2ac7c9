#![allow(unused_imports, dead_code)]

use hrml::codegen::html::{generate, interpolate_text};
use hrml::codegen::{Binding, CompilationContext, expr_to_js_literal};
use hrml::parser::ast::{
    AssignOp, Attribute, AttributePrefix, BinaryOp, ComputedBlock, ComputedField, Document,
    Element, Expression, ExprKind, ExprSpan, Node, ObjectProperty, PostfixOp, StateBlock,
    StateField, UnaryOp,
};
use hrml::parser::Parser;

fn parse(source: &str) -> Document {
    Parser::parse(source).unwrap()
}

fn gen(source: &str) -> (String, CompilationContext) {
    let doc = parse(source);
    let mut ctx = CompilationContext::new();
    // Pre-collect state fields (same as compile())
    for node in &doc.nodes {
        if let Node::StateBlock(sb) = node {
            for field in &sb.fields {
                let value = expr_to_js_literal(&field.value);
                ctx.state_fields.push((field.name.clone(), value));
            }
        }
    }
    let html = generate(&doc, &mut ctx).unwrap();
    (html, ctx)
}

// =========================================================================
// Basic elements
// =========================================================================

#[test]
fn html_test_empty_document() {
    let (html, _) = gen("");
    assert_eq!(html, "");
}

#[test]
fn html_test_single_element() {
    let (html, _) = gen("div");
    assert_eq!(html, "<div></div>\n");
}

#[test]
fn test_element_with_classes() {
    let (html, _) = gen("div .flex items-center");
    assert_eq!(html, "<div class=\"flex items-center\"></div>\n");
}

#[test]
fn html_test_element_with_attribute() {
    let (html, _) = gen("a href=\"/about\"");
    assert_eq!(html, "<a href=\"/about\"></a>\n");
}

#[test]
fn test_element_multiple_attributes() {
    let (html, _) = gen("img src=\"logo.png\" alt=\"Logo\"");
    assert_eq!(html, "<img src=\"logo.png\" alt=\"Logo\">\n");
}

#[test]
fn test_element_with_static_text() {
    let (html, _) = gen("span \"Hello\"");
    assert_eq!(html, "<span>Hello</span>\n");
}

#[test]
fn test_void_element() {
    let (html, _) = gen("br");
    assert_eq!(html, "<br>\n");
}

#[test]
fn test_void_element_with_attributes() {
    let (html, _) = gen("input type=\"text\" name=\"email\"");
    assert_eq!(html, "<input type=\"text\" name=\"email\">\n");
}

#[test]
fn html_test_implicit_div() {
    let (html, _) = gen(".container");
    assert_eq!(html, "<div class=\"container\"></div>\n");
}

// =========================================================================
// Nesting
// =========================================================================

#[test]
fn html_test_nested_elements() {
    let (html, _) = gen("div\n  span \"Hello\"");
    assert_eq!(html, "<div>\n  <span>Hello</span>\n</div>\n");
}

#[test]
fn html_test_deep_nesting() {
    let (html, _) = gen("div\n  ul\n    li \"Item\"");
    assert_eq!(
        html,
        "<div>\n  <ul>\n    <li>Item</li>\n  </ul>\n</div>\n"
    );
}

#[test]
fn test_multiple_children() {
    let (html, _) = gen("div\n  span \"A\"\n  span \"B\"");
    assert_eq!(
        html,
        "<div>\n  <span>A</span>\n  <span>B</span>\n</div>\n"
    );
}

// =========================================================================
// Reactive elements (ID assignment)
// =========================================================================

#[test]
fn test_event_handler_gets_id() {
    let (html, ctx) = gen("state\n  count: 0\n\nbutton @click=\"count++\" \"Click\"");
    assert!(html.contains("<button id=\"hrml-0\">Click</button>"));
    assert_eq!(ctx.bindings.len(), 1);
}

#[test]
fn test_show_directive_gets_id() {
    let (html, ctx) = gen("state\n  visible: true\n\ndiv :show=\"visible\" \"Content\"");
    assert!(html.contains("<div id=\"hrml-0\">Content</div>"));
    assert_eq!(ctx.bindings.len(), 1);
}

#[test]
fn test_model_directive_gets_id() {
    let (html, ctx) = gen("state\n  name: \"\"\n\ninput :model=\"name\"");
    assert!(html.contains("<input id=\"hrml-0\">"));
    assert_eq!(ctx.bindings.len(), 1);
}

#[test]
fn test_interpolated_text_gets_id() {
    let (html, ctx) = gen("state\n  count: 0\n\nspan \"{count}\"");
    assert!(html.contains("<span id=\"hrml-0\"></span>"));
    assert_eq!(ctx.bindings.len(), 1);
}

#[test]
fn test_static_element_no_id() {
    let (html, _) = gen("div .container\n  span \"Hello\"");
    assert!(!html.contains("id="));
}

// =========================================================================
// Text interpolation
// =========================================================================

#[test]
fn test_interpolate_simple() {
    let result = interpolate_text("{count}", &["count".into()]);
    assert_eq!(result, "${_s.count}");
}

#[test]
fn test_interpolate_with_text() {
    let result = interpolate_text("Hello {name}!", &["name".into()]);
    assert_eq!(result, "Hello ${_s.name}!");
}

#[test]
fn test_interpolate_multiple() {
    let result =
        interpolate_text("{first} {last}", &["first".into(), "last".into()]);
    assert_eq!(result, "${_s.first} ${_s.last}");
}

#[test]
fn test_interpolate_non_state() {
    let result = interpolate_text("{foo}", &["count".into()]);
    assert_eq!(result, "${foo}");
}

// =========================================================================
// Full examples
// =========================================================================

#[test]
fn test_counter_html() {
    let (html, _) = gen(
        "state\n  count: 0\n\ndiv .counter\n  button @click=\"count++\" \"-\"\n  span \"{count}\"\n  button @click=\"count--\" \"+\"",
    );
    assert!(html.contains("<div class=\"counter\">"));
    assert!(html.contains("<button id=\"hrml-0\">-</button>"));
    assert!(html.contains("<span id=\"hrml-1\"></span>"));
    assert!(html.contains("<button id=\"hrml-2\">+</button>"));
    assert!(html.contains("</div>"));
}

#[test]
fn test_toggle_html() {
    let (html, _) = gen(
        "state\n  visible: true\n\nbutton @click=\"visible = !visible\" \"Toggle\"\ndiv :show=\"visible\" \"Content\"",
    );
    assert!(html.contains("<button id=\"hrml-0\">Toggle</button>"));
    assert!(html.contains("<div id=\"hrml-1\">Content</div>"));
}

#[test]
fn test_input_binding_html() {
    let (html, _) = gen(
        "state\n  name: \"\"\n\ninput :model=\"name\" placeholder=\"Type your name\"\nspan \"Hello {name}!\"",
    );
    assert!(html.contains("<input id=\"hrml-0\" placeholder=\"Type your name\">"));
    assert!(html.contains("<span id=\"hrml-1\"></span>"));
}
