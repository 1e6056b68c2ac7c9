#![allow(unused_imports, dead_code)]

use hrml::codegen::{
    Binding, CodegenError, CompilationContext, compile, CompilerOutput, expr_to_js,
    expr_to_js_literal, format_number,
};
use hrml::number::Number;
use hrml::parser::ast::{
    AssignOp, Attribute, AttributePrefix, BinaryOp, ComputedBlock, ComputedField, Document,
    Element, Expression, ExprKind, ExprSpan, Node, ObjectProperty, PostfixOp, StateBlock,
    StateField, UnaryOp,
};
use hrml::parser::Parser;

fn num(x: f64) -> Number {
    Number::from_literal(&format!("{}", x)).unwrap()
}

fn make_expr(kind: ExprKind) -> Expression {
    Expression {
        kind,
        span: ExprSpan::new(0, 0),
    }
}

// =========================================================================
// expr_to_js_literal
// =========================================================================

#[test]
fn test_literal_number_integer() {
    assert_eq!(expr_to_js_literal(&make_expr(ExprKind::Number(num(42.0)))), "42");
}

#[test]
fn test_literal_number_float() {
    assert_eq!(
        expr_to_js_literal(&make_expr(ExprKind::Number(num(3.14)))),
        "3.14"
    );
}

#[test]
fn test_literal_number_zero() {
    assert_eq!(expr_to_js_literal(&make_expr(ExprKind::Number(num(0.0)))), "0");
}

#[test]
fn test_literal_string() {
    assert_eq!(
        expr_to_js_literal(&make_expr(ExprKind::String("hello".into()))),
        "'hello'"
    );
}

#[test]
fn test_literal_empty_string() {
    assert_eq!(
        expr_to_js_literal(&make_expr(ExprKind::String(String::new()))),
        "''"
    );
}

#[test]
fn test_literal_boolean_true() {
    assert_eq!(
        expr_to_js_literal(&make_expr(ExprKind::Boolean(true))),
        "true"
    );
}

#[test]
fn test_literal_boolean_false() {
    assert_eq!(
        expr_to_js_literal(&make_expr(ExprKind::Boolean(false))),
        "false"
    );
}

#[test]
fn test_literal_null() {
    assert_eq!(expr_to_js_literal(&make_expr(ExprKind::Null)), "null");
}

// =========================================================================
// expr_to_js (with state prefixing)
// =========================================================================

#[test]
fn test_js_identifier_state() {
    let state = vec!["count".into()];
    assert_eq!(
        expr_to_js(&make_expr(ExprKind::Identifier("count".into())), &state),
        "_s.count"
    );
}

#[test]
fn test_js_identifier_non_state() {
    let state = vec!["count".into()];
    assert_eq!(
        expr_to_js(
            &make_expr(ExprKind::Identifier("console".into())),
            &state
        ),
        "console"
    );
}

#[test]
fn test_js_binary() {
    let state = vec!["count".into()];
    let expr = make_expr(ExprKind::Binary {
        left: Box::new(make_expr(ExprKind::Identifier("count".into()))),
        op: BinaryOp::Gt,
        right: Box::new(make_expr(ExprKind::Number(num(0.0)))),
    });
    assert_eq!(expr_to_js(&expr, &state), "_s.count > 0");
}

#[test]
fn test_js_unary_not() {
    let state = vec!["visible".into()];
    let expr = make_expr(ExprKind::Unary {
        op: UnaryOp::Not,
        operand: Box::new(make_expr(ExprKind::Identifier("visible".into()))),
    });
    assert_eq!(expr_to_js(&expr, &state), "!_s.visible");
}

#[test]
fn test_js_postfix_increment() {
    let state = vec!["count".into()];
    let expr = make_expr(ExprKind::Postfix {
        operand: Box::new(make_expr(ExprKind::Identifier("count".into()))),
        op: PostfixOp::Increment,
    });
    assert_eq!(expr_to_js(&expr, &state), "_s.count++");
}

#[test]
fn test_js_assignment() {
    let state = vec!["visible".into()];
    let expr = make_expr(ExprKind::Assignment {
        target: Box::new(make_expr(ExprKind::Identifier("visible".into()))),
        op: AssignOp::Assign,
        value: Box::new(make_expr(ExprKind::Unary {
            op: UnaryOp::Not,
            operand: Box::new(make_expr(ExprKind::Identifier("visible".into()))),
        })),
    });
    assert_eq!(expr_to_js(&expr, &state), "_s.visible = !_s.visible");
}

#[test]
fn test_js_member_access() {
    let state = vec!["items".into()];
    let expr = make_expr(ExprKind::Member {
        object: Box::new(make_expr(ExprKind::Identifier("items".into()))),
        property: Box::new(make_expr(ExprKind::Identifier("length".into()))),
        computed: false,
    });
    assert_eq!(expr_to_js(&expr, &state), "_s.items.length");
}

#[test]
fn test_js_call() {
    let state = vec!["count".into()];
    let expr = make_expr(ExprKind::Call {
        callee: Box::new(make_expr(ExprKind::Identifier("save".into()))),
        arguments: vec![make_expr(ExprKind::Identifier("count".into()))],
    });
    assert_eq!(expr_to_js(&expr, &state), "save(_s.count)");
}

#[test]
fn test_js_ternary() {
    let state = vec!["count".into()];
    let expr = make_expr(ExprKind::Ternary {
        condition: Box::new(make_expr(ExprKind::Binary {
            left: Box::new(make_expr(ExprKind::Identifier("count".into()))),
            op: BinaryOp::Gt,
            right: Box::new(make_expr(ExprKind::Number(num(0.0)))),
        })),
        consequent: Box::new(make_expr(ExprKind::String("yes".into()))),
        alternate: Box::new(make_expr(ExprKind::String("no".into()))),
    });
    assert_eq!(
        expr_to_js(&expr, &state),
        "_s.count > 0 ? 'yes' : 'no'"
    );
}

// =========================================================================
// Integration: compile()
// =========================================================================

fn parse(source: &str) -> Document {
    Parser::parse(source).unwrap()
}

#[test]
fn test_compile_empty() {
    let doc = parse("");
    let output = compile(&doc).unwrap();
    assert_eq!(output.html, "");
    assert_eq!(output.css, "");
    assert_eq!(output.js, "");
}

#[test]
fn test_compile_counter() {
    let doc = parse(
        "state\n  count: 0\n\ndiv .counter\n  button @click=\"count++\" \"-\"\n  span \"{count}\"\n  button @click=\"count--\" \"+\"",
    );
    let output = compile(&doc).unwrap();

    // HTML has structure
    assert!(output.html.contains("<div class=\"counter\">"));
    assert!(output.html.contains("<button id=\"hrml-0\">-</button>"));
    assert!(output.html.contains("<span id=\"hrml-1\"></span>"));
    assert!(output.html.contains("<button id=\"hrml-2\">+</button>"));

    // JS has state and bindings
    assert!(output.js.contains("hrml.state({ count: 0 })"));
    assert!(output.js.contains("_s.count++"));
    assert!(output.js.contains("_s.count--"));
    assert!(output.js.contains("${_s.count}"));
}

#[test]
fn test_compile_toggle() {
    let doc = parse(
        "state\n  visible: true\n\nbutton @click=\"visible = !visible\" \"Toggle\"\ndiv :show=\"visible\" \"Content\"",
    );
    let output = compile(&doc).unwrap();

    assert!(output.html.contains("<button id=\"hrml-0\">Toggle</button>"));
    assert!(output.html.contains("<div id=\"hrml-1\">Content</div>"));
    assert!(output.js.contains("hrml.state({ visible: true })"));
    assert!(output.js.contains("_s.visible = !_s.visible"));
    assert!(output.js.contains("hrml.show("));
}

#[test]
fn test_compile_input_binding() {
    let doc = parse(
        "state\n  name: \"\"\n\ninput :model=\"name\" placeholder=\"Type your name\"\nspan \"Hello {name}!\"",
    );
    let output = compile(&doc).unwrap();

    assert!(output.html.contains("<input id=\"hrml-0\""));
    assert!(output.html.contains("placeholder=\"Type your name\""));
    assert!(output.html.contains("<span id=\"hrml-1\"></span>"));
    assert!(output.js.contains("hrml.state({ name: '' })"));
    assert!(output.js.contains("hrml.model("));
    assert!(output.js.contains("Hello ${_s.name}!"));
}
