#![allow(unused_imports, dead_code)]

use hrml::codegen::css::generate;
use hrml::parser::ast::Document;

#[test]
fn css_test_empty_document() {
    let doc = Document { nodes: Vec::new() };
    let css = generate(&doc).unwrap();
    assert_eq!(css, "");
}
