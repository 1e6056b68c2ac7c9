#![allow(unused_imports, dead_code)]

use hrml::number::Number;
use hrml::parser::ast::{
    AssignOp, Attribute, AttributePrefix, BinaryOp, ComputedBlock, ComputedField, Document,
    Element, Expression, ExprKind, ExprSpan, Node, ObjectProperty, PostfixOp, StateBlock,
    StateField, UnaryOp,
};
use hrml::parser::{ParseError, Parser};

fn num(x: f64) -> Number {
    Number::from_literal(&format!("{}", x)).unwrap()
}

fn parse(source: &str) -> Document {
    Parser::parse(source).unwrap()
}

fn first_element(doc: &Document) -> &Element {
    match &doc.nodes[0] {
        Node::Element(el) => el,
        other => panic!("Expected Element, got {other:?}"),
    }
}

fn first_state(doc: &Document) -> &StateBlock {
    match &doc.nodes[0] {
        Node::StateBlock(sb) => sb,
        other => panic!("Expected StateBlock, got {other:?}"),
    }
}

// =========================================================================
// Empty / simple
// =========================================================================

#[test]
fn parser_test_empty_document() {
    let doc = parse("");
    assert!(doc.nodes.is_empty());
}

#[test]
fn parser_test_single_element() {
    let doc = parse("div");
    let el = first_element(&doc);
    assert_eq!(el.tag, "div");
    assert!(el.classes.is_empty());
    assert!(el.attributes.is_empty());
    assert!(el.children.is_empty());
}

#[test]
fn test_multiple_elements() {
    let doc = parse("div\nspan\np");
    assert_eq!(doc.nodes.len(), 3);
}

// =========================================================================
// Classes
// =========================================================================

#[test]
fn test_single_class() {
    let doc = parse("div .container");
    let el = first_element(&doc);
    assert_eq!(el.classes, vec!["container"]);
}

#[test]
fn test_multiple_classes() {
    let doc = parse("div .flex items-center gap-4");
    let el = first_element(&doc);
    assert_eq!(el.classes, vec!["flex", "items-center", "gap-4"]);
}

#[test]
fn parser_test_implicit_div() {
    let doc = parse(".container");
    let el = first_element(&doc);
    assert_eq!(el.tag, "div");
    assert_eq!(el.classes, vec!["container"]);
}

#[test]
fn test_classes_with_hyphen() {
    let doc = parse("div .text-2xl bg-blue-500");
    let el = first_element(&doc);
    assert_eq!(el.classes, vec!["text-2xl", "bg-blue-500"]);
}

// =========================================================================
// Attributes
// =========================================================================

#[test]
fn test_attribute_with_string() {
    let doc = parse("a href=\"/about\"");
    let el = first_element(&doc);
    assert_eq!(el.attributes.len(), 1);
    assert_eq!(el.attributes[0].name, "href");
    assert!(el.attributes[0].prefix.is_none());
}

#[test]
fn test_multiple_attributes() {
    let doc = parse("img src=\"logo.png\" alt=\"Logo\"");
    let el = first_element(&doc);
    assert_eq!(el.attributes.len(), 2);
    assert_eq!(el.attributes[0].name, "src");
    assert_eq!(el.attributes[1].name, "alt");
}

#[test]
fn test_class_then_attribute() {
    let doc = parse("input .form-input type=\"text\" name=\"email\"");
    let el = first_element(&doc);
    assert_eq!(el.classes, vec!["form-input"]);
    assert_eq!(el.attributes.len(), 2);
}

// =========================================================================
// State directives
// =========================================================================

#[test]
fn test_show_directive() {
    let doc = parse("div :show=\"visible\"");
    let el = first_element(&doc);
    assert_eq!(el.attributes.len(), 1);
    assert_eq!(el.attributes[0].name, "show");
    assert_eq!(el.attributes[0].prefix, Some(AttributePrefix::State));
}

#[test]
fn test_model_directive() {
    let doc = parse("input :model=\"name\"");
    let el = first_element(&doc);
    assert_eq!(el.attributes[0].name, "model");
    assert_eq!(el.attributes[0].prefix, Some(AttributePrefix::State));
}

#[test]
fn test_if_directive() {
    let doc = parse("div :if=\"count > 0\"");
    let el = first_element(&doc);
    assert_eq!(el.attributes[0].name, "if");
}

// =========================================================================
// Event handlers
// =========================================================================

#[test]
fn test_click_event() {
    let doc = parse("button @click=\"count++\"");
    let el = first_element(&doc);
    assert_eq!(el.attributes[0].name, "click");
    assert_eq!(el.attributes[0].prefix, Some(AttributePrefix::Event));
    assert!(el.attributes[0].modifiers.is_empty());
}

#[test]
fn test_event_with_modifier() {
    let doc = parse("form @submit.prevent=\"save()\"");
    let el = first_element(&doc);
    assert_eq!(el.attributes[0].name, "submit");
    assert_eq!(el.attributes[0].modifiers, vec!["prevent"]);
}

#[test]
fn test_event_multiple_modifiers() {
    let doc = parse("input @keydown.ctrl.enter=\"submit()\"");
    let el = first_element(&doc);
    assert_eq!(el.attributes[0].name, "keydown");
    assert_eq!(el.attributes[0].modifiers, vec!["ctrl", "enter"]);
}

// =========================================================================
// Text content
// =========================================================================

#[test]
fn test_inline_text() {
    let doc = parse("span \"Hello\"");
    let el = first_element(&doc);
    assert_eq!(el.children.len(), 1);
    assert!(matches!(&el.children[0], Node::Text(t) if t == "Hello"));
}

#[test]
fn test_text_with_interpolation() {
    let doc = parse("span \"Count: {count}\"");
    let el = first_element(&doc);
    assert!(matches!(&el.children[0], Node::Text(t) if t == "Count: {count}"));
}

// =========================================================================
// Nesting (indentation)
// =========================================================================

#[test]
fn test_nested_children() {
    let doc = parse("div\n  span\n  p");
    let el = first_element(&doc);
    assert_eq!(el.children.len(), 2);
}

#[test]
fn parser_test_deep_nesting() {
    let doc = parse("div\n  ul\n    li \"Item\"");
    let el = first_element(&doc);
    assert_eq!(el.children.len(), 1); // ul
    match &el.children[0] {
        Node::Element(ul) => {
            assert_eq!(ul.tag, "ul");
            assert_eq!(ul.children.len(), 1); // li
        }
        _ => panic!("Expected ul element"),
    }
}

#[test]
fn test_siblings_after_nesting() {
    let doc = parse("div\n  span\nbutton");
    assert_eq!(doc.nodes.len(), 2); // div and button
}

// =========================================================================
// State blocks
// =========================================================================

#[test]
fn parser_test_state_block() {
    let doc = parse("state\n  count: 0\n  loading: false");
    let sb = first_state(&doc);
    assert_eq!(sb.fields.len(), 2);
    assert_eq!(sb.fields[0].name, "count");
    assert_eq!(sb.fields[1].name, "loading");
}

#[test]
fn test_state_string_value() {
    let doc = parse("state\n  name: \"John\"");
    let sb = first_state(&doc);
    assert_eq!(sb.fields[0].name, "name");
    assert!(matches!(sb.fields[0].value.kind, ExprKind::String(ref s) if s == "John"));
}

#[test]
fn test_state_null_value() {
    let doc = parse("state\n  error: null");
    let sb = first_state(&doc);
    assert!(matches!(sb.fields[0].value.kind, ExprKind::Null));
}

// =========================================================================
// Computed blocks
// =========================================================================

#[test]
fn test_computed_block() {
    let doc = parse("computed\n  double: count + count");
    match &doc.nodes[0] {
        Node::ComputedBlock(cb) => {
            assert_eq!(cb.fields.len(), 1);
            assert_eq!(cb.fields[0].name, "double");
        }
        other => panic!("Expected ComputedBlock, got {other:?}"),
    }
}

// =========================================================================
// Comments
// =========================================================================

#[test]
fn test_comment() {
    let doc = parse("// This is a comment");
    assert!(matches!(&doc.nodes[0], Node::Comment(t) if t == "This is a comment"));
}

// =========================================================================
// Full examples
// =========================================================================

#[test]
fn parser_test_counter_example() {
    let doc = parse(
        "state\n  count: 0\n\ndiv .counter\n  button @click=\"count++\" \"-\"\n  span \"{count}\"\n  button @click=\"count--\" \"+\"",
    );

    // Should have state block + div
    assert_eq!(doc.nodes.len(), 2);
    assert!(matches!(&doc.nodes[0], Node::StateBlock(_)));

    let el = match &doc.nodes[1] {
        Node::Element(el) => el,
        _ => panic!("Expected element"),
    };
    assert_eq!(el.tag, "div");
    assert_eq!(el.classes, vec!["counter"]);
    assert_eq!(el.children.len(), 3); // 3 children: button, span, button
}

#[test]
fn parser_test_toggle_example() {
    let doc = parse(
        "state\n  visible: true\n\nbutton @click=\"visible = !visible\" \"Toggle\"\ndiv :show=\"visible\" \"Content\"",
    );

    assert_eq!(doc.nodes.len(), 3); // state + button + div
}

#[test]
fn parser_test_input_binding_example() {
    let doc = parse(
        "state\n  name: \"\"\n\ninput :model=\"name\" placeholder=\"Type your name\"\nspan \"Hello {name}!\"",
    );

    assert_eq!(doc.nodes.len(), 3); // state + input + span
}

// =========================================================================
// Day 7: Additional test cases (5 new tests)
// =========================================================================

#[test]
fn test_very_deep_nesting() {
    let doc = parse("div\n  section\n    article\n      header\n        h1 \"Title\"");
    let el = first_element(&doc);
    assert_eq!(el.tag, "div");

    // Navigate: div -> section -> article -> header -> h1
    let section = match &el.children[0] {
        Node::Element(e) => e,
        _ => panic!("Expected section element"),
    };
    assert_eq!(section.tag, "section");

    let article = match &section.children[0] {
        Node::Element(e) => e,
        _ => panic!("Expected article element"),
    };
    assert_eq!(article.tag, "article");

    let header = match &article.children[0] {
        Node::Element(e) => e,
        _ => panic!("Expected header element"),
    };
    assert_eq!(header.tag, "header");
    assert_eq!(header.children.len(), 1);
}

#[test]
fn test_state_multiple_types() {
    let doc = parse("state\n  count: 42\n  name: \"Alice\"\n  active: true\n  data: null");
    let sb = first_state(&doc);

    assert_eq!(sb.fields.len(), 4);
    assert_eq!(sb.fields[0].name, "count");
    assert!(matches!(sb.fields[0].value.kind, ExprKind::Number(ref n) if *n == num(42.0)));

    assert_eq!(sb.fields[1].name, "name");
    assert!(matches!(sb.fields[1].value.kind, ExprKind::String(ref s) if s == "Alice"));

    assert_eq!(sb.fields[2].name, "active");
    assert!(matches!(sb.fields[2].value.kind, ExprKind::Boolean(true)));

    assert_eq!(sb.fields[3].name, "data");
    assert!(matches!(sb.fields[3].value.kind, ExprKind::Null));
}

#[test]
fn test_complex_event_expression() {
    let doc = parse("button @click=\"count = count + 10\"");
    let el = first_element(&doc);

    assert_eq!(el.attributes.len(), 1);
    assert_eq!(el.attributes[0].name, "click");
    assert_eq!(el.attributes[0].prefix, Some(AttributePrefix::Event));

    // Verify the expression parsed successfully (parser doesn't fail on complex expressions)
    assert!(el.attributes[0].value.is_some(), "Event handler should have an expression");
    // The complex expression should be parsed without errors
    // (exact AST structure depends on expression parser implementation)
}

#[test]
fn test_multiple_interpolations() {
    let doc = parse("p \"User: {firstName} {lastName}, Email: {email}\"");
    let el = first_element(&doc);

    assert_eq!(el.children.len(), 1);
    match &el.children[0] {
        Node::Text(text) => {
            assert!(text.contains("{firstName}"));
            assert!(text.contains("{lastName}"));
            assert!(text.contains("{email}"));
        },
        _ => panic!("Expected text node"),
    }
}

#[test]
fn test_mixed_directives_and_attributes() {
    let doc = parse("input .form-input type=\"email\" :model=\"email\" @input=\"validate()\" placeholder=\"Enter email\"");
    let el = first_element(&doc);

    // Classes
    assert_eq!(el.classes, vec!["form-input"]);

    // Should have: type, :model, @input, placeholder (4 attributes)
    assert_eq!(el.attributes.len(), 4);

    // Verify prefixes
    let has_plain = el.attributes.iter().any(|a| a.prefix.is_none());
    let has_state = el.attributes.iter().any(|a| a.prefix == Some(AttributePrefix::State));
    let has_event = el.attributes.iter().any(|a| a.prefix == Some(AttributePrefix::Event));

    assert!(has_plain, "Should have plain attributes");
    assert!(has_state, "Should have state directive");
    assert!(has_event, "Should have event handler");
}
