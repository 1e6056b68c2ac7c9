//! Errors, edge cases and exact values of the scanner, the parsers and the
//! code generator.

use hrml::codegen::html::{generate as generate_html, interpolate_text};
use hrml::codegen::js::{generate as generate_js, RUNTIME};
use hrml::codegen::{
    Binding, CodegenError, CompilationContext, compile, expr_to_js, expr_to_js_literal,
};
use hrml::compiler::{compile_source, CompileError};
use hrml::lexer::token::is_void_element;
use hrml::lexer::{LexerError, Scanner, ScannerMode, Span, Token, TokenKind};
use hrml::number::Number;
use hrml::parser::ast::{
    Attribute, AttributePrefix, BinaryOp, Document, Element, Expression, ExprKind, ExprSpan, Node,
    ObjectProperty, UnaryOp,
};
use hrml::parser::expr_lexer::TokenKind as K;
use hrml::parser::expr_lexer::{self, ExprLexer, ExprLexerError, TokenValue};
use hrml::parser::expr_parser::ExprParser;
use hrml::parser::{ParseError, Parser};
use hrml::text;

fn kinds(source: &str) -> Vec<TokenKind> {
    Scanner::tokenize(source).unwrap().into_iter().map(|t| t.kind).collect()
}

fn lex_error(source: &str) -> LexerError {
    Scanner::tokenize(source).unwrap_err()
}

fn parse_error(source: &str) -> ParseError {
    ExprParser::parse(source).unwrap_err()
}

fn document_error(source: &str) -> ParseError {
    Parser::parse(source).unwrap_err()
}

fn expr(kind: ExprKind) -> Expression {
    Expression { kind, span: ExprSpan::new(0, 0) }
}

fn name(text: &str) -> Expression {
    expr(ExprKind::Identifier(text.to_string()))
}

fn number(literal: &str) -> Number {
    Number::from_literal(literal).unwrap()
}

// -- numbers ------------------------------------------------------------------

#[test]
fn number_literals_are_digits_with_one_point_at_most() {
    for bad in ["", ".", "1.2.3", "1..2", "a", "1a", "-1", "1e5", " 1", "1 "] {
        assert!(Number::from_literal(bad).is_none(), "literal {:?}", bad);
    }
    for good in ["0", "1", "1.", ".1", "1.5", "000", "123456789012345678901234567890"] {
        assert!(Number::from_literal(good).is_some(), "literal {:?}", good);
    }
}

#[test]
fn equal_values_are_equal_numbers() {
    assert_eq!(number("2.75"), number("2.750"));
    assert_eq!(number("7"), number("007.0"));
    assert_eq!(number("0"), number("0.0"));
    assert_eq!(number(".5"), number("0.50"));
    assert_ne!(number("1"), number("1.5"));
    assert_eq!(Number::zero(), number("0"));
}

#[test]
fn numbers_are_kept_exactly() {
    let big = number("123456789012345678901234567890");
    assert_eq!(big.to_text(), "123456789012345678901234567890");
    let fine = number("0.1234567890123456789");
    assert_eq!(fine.to_text(), "0.1234567890123456789");
    assert_eq!(number("5").to_debug_text(), "5.0");
    assert_eq!(number("5.25").to_debug_text(), "5.25");
    assert_eq!(number("5").clone(), number("5"));
}

// -- text helpers -------------------------------------------------------------

#[test]
fn decimal_notation() {
    for n in [0, 7, 10, 99, 100, 1234567890, usize::MAX] {
        let mut out = String::from("n=");
        text::push_decimal(&mut out, n);
        assert_eq!(out, format!("n={}", n));
    }
    let mut out = String::new();
    text::push_decimal(&mut out, 1005);
    assert_eq!(out, "1005");
}

#[test]
fn joining_and_repeating() {
    let none: Vec<String> = vec![];
    assert_eq!(text::join_strings(&none, ", "), "");
    assert_eq!(text::join_strings(&vec!["a".to_string()], ", "), "a");
    assert_eq!(text::join_strings(&vec!["a".to_string(), "b".to_string(), "".to_string()], "-"), "a-b-");
    let mut out = String::from("x");
    text::push_repeated(&mut out, "ab", 3);
    assert_eq!(out, "xababab");
    text::push_repeated(&mut out, "ab", 0);
    assert_eq!(out, "xababab");
}

#[test]
fn replacing_and_trimming() {
    let mut out = String::new();
    text::push_replaced(&mut out, "a'b''c", '\'', "\\'");
    assert_eq!(out, "a\\'b\\'\\'c");
    assert_eq!(text::trim_string(&"  \t a b \n ".to_string()), "a b");
    assert_eq!(text::trim_string(&"\u{a0}x\u{2003}".to_string()), "x");
    assert_eq!(text::trim_string(&"   ".to_string()), "");
    assert_eq!(text::trim_string(&"".to_string()), "");
    assert!(text::has_char("a{b", '{'));
    assert!(!text::has_char("ab", '{'));
    assert_eq!(text::to_chars("héllo"), vec!['h', 'é', 'l', 'l', 'o']);
    assert_eq!(text::string_of_range(&text::to_chars("héllo"), 1, 3), "él");
}

#[test]
fn character_classes() {
    assert!(text::is_ascii_digit('0') && text::is_ascii_digit('9'));
    assert!(!text::is_ascii_digit('a') && !text::is_ascii_digit('٣'));
    assert!(text::is_name_char('a') && text::is_name_char('_') && text::is_name_char('é'));
    assert!(text::is_name_char('7') && !text::is_name_char('-') && !text::is_name_char(' '));
}

#[test]
fn void_elements() {
    for tag in [
        "area", "base", "br", "col", "embed", "hr", "img", "input", "link", "meta", "param",
        "source", "track", "wbr",
    ] {
        assert!(is_void_element(tag), "tag {tag}");
    }
    for tag in ["div", "span", "", "INPUT", "inputs", "b"] {
        assert!(!is_void_element(tag), "tag {tag}");
    }
}

// -- scanner ------------------------------------------------------------------

#[test]
fn scanner_errors_carry_their_position() {
    let e = lex_error("a\n    b\n  c");
    assert_eq!(e.message, "Indentation does not match any outer level (got 2 spaces)");
    assert_eq!((e.line, e.column), (3, 3));

    let e = lex_error("div \"abc");
    assert_eq!(e.message, "Unterminated string");
    assert_eq!((e.line, e.column), (1, 5));

    let e = lex_error("div \"abc\\");
    assert_eq!(e.message, "Unterminated escape sequence");
    assert_eq!((e.line, e.column), (1, 10));

    let e = lex_error("div {a {b}");
    assert_eq!(e.message, "Unterminated interpolation");
    assert_eq!((e.line, e.column), (1, 5));

    let e = lex_error("x 1.2.3");
    assert_eq!(e.message, "Invalid number: '1.2.3'");
    assert_eq!((e.line, e.column), (1, 3));

    let e = lex_error("a\nb ~");
    assert_eq!(e.message, "Unexpected character: '~'");
    assert_eq!((e.line, e.column), (2, 3));

    let e = lex_error("a / b");
    assert_eq!(e.message, "Unexpected character: '/'");
    assert_eq!(e.to_string(), "Lexer error at line 1, column 3: Unexpected character: '/'");
}

#[test]
fn string_escapes() {
    assert_eq!(
        kinds(r#""a\n\t\r\\\{\}\"b""#),
        vec![TokenKind::String("a\n\t\r\\{}\"b".to_string()), TokenKind::Eof]
    );
    assert_eq!(
        kinds(r#"'it\'s \q "x"'"#),
        vec![TokenKind::String("it's \\q \"x\"".to_string()), TokenKind::Eof]
    );
    // braces stay in the string as they are
    assert_eq!(kinds("\"{a} {b}\""), vec![TokenKind::String("{a} {b}".to_string()), TokenKind::Eof]);
}

#[test]
fn interpolation_regions_keep_nested_braces() {
    assert_eq!(
        kinds("{ f({a: 1}) }"),
        vec![TokenKind::Interpolation("f({a: 1})".to_string()), TokenKind::Eof]
    );
    let tokens = Scanner::tokenize("{a\nb} x").unwrap();
    assert_eq!(tokens[0].kind, TokenKind::Interpolation("a\nb".to_string()));
    assert_eq!(tokens[0].span, Span::new(0, 5, 1, 1));
    assert_eq!(tokens[1].kind, TokenKind::Identifier("x".to_string()));
    assert_eq!((tokens[1].span.line, tokens[1].span.column), (2, 4));
}

#[test]
fn names_may_hold_hyphens_and_letters_of_any_script() {
    assert_eq!(
        kinds("text-2xl bg-blue-500"),
        vec![
            TokenKind::Identifier("text-2xl".to_string()),
            TokenKind::Identifier("bg-blue-500".to_string()),
            TokenKind::Eof
        ]
    );
    assert_eq!(
        kinds("été_1 _x"),
        vec![
            TokenKind::Identifier("été_1".to_string()),
            TokenKind::Identifier("_x".to_string()),
            TokenKind::Eof
        ]
    );
    assert_eq!(lex_error("a- b").message, "Unexpected character: '-'");
    assert_eq!(lex_error("1x %").message, "Unexpected character: '%'");
}

#[test]
fn keywords_are_names_behind_a_prefix() {
    assert_eq!(
        kinds("state .state :computed @fn $import #page true"),
        vec![
            TokenKind::State,
            TokenKind::Dot,
            TokenKind::Identifier("state".to_string()),
            TokenKind::Colon,
            TokenKind::Identifier("computed".to_string()),
            TokenKind::At,
            TokenKind::Identifier("fn".to_string()),
            TokenKind::Dollar,
            TokenKind::Identifier("import".to_string()),
            TokenKind::Hash,
            TokenKind::Identifier("page".to_string()),
            TokenKind::Boolean(true),
            TokenKind::Eof,
        ]
    );
    assert_eq!(
        kinds(".true :null + fn"),
        vec![
            TokenKind::Dot,
            TokenKind::Boolean(true),
            TokenKind::Colon,
            TokenKind::Null,
            TokenKind::Plus,
            TokenKind::Identifier("fn".to_string()),
            TokenKind::Eof,
        ]
    );
    assert_eq!(
        kinds("+state +false = state"),
        vec![
            TokenKind::Plus,
            TokenKind::Identifier("state".to_string()),
            TokenKind::Plus,
            TokenKind::Boolean(false),
            TokenKind::Equals,
            TokenKind::State,
            TokenKind::Eof,
        ]
    );
    assert_eq!(
        kinds("async watch props emit config computed import page"),
        vec![
            TokenKind::Async,
            TokenKind::Watch,
            TokenKind::Props,
            TokenKind::Emit,
            TokenKind::Config,
            TokenKind::Computed,
            TokenKind::Import,
            TokenKind::Page,
            TokenKind::Eof,
        ]
    );
}

#[test]
fn spans_count_characters() {
    let tokens = Scanner::tokenize("é \"ü\" 12.5 // c\nx").unwrap();
    assert_eq!(tokens[0], Token::new(TokenKind::Identifier("é".to_string()), Span::new(0, 1, 1, 1)));
    assert_eq!(tokens[1], Token::new(TokenKind::String("ü".to_string()), Span::new(2, 5, 1, 3)));
    assert_eq!(
        tokens[2],
        Token::new(TokenKind::Number(number("12.5")), Span::new(6, 10, 1, 7))
    );
    assert_eq!(tokens[3], Token::new(TokenKind::Comment("c".to_string()), Span::new(11, 15, 1, 12)));
    assert_eq!(tokens[4], Token::new(TokenKind::Newline, Span::new(15, 15, 1, 16)));
    assert_eq!(tokens[5], Token::new(TokenKind::Identifier("x".to_string()), Span::new(16, 17, 2, 1)));
    assert_eq!(tokens[6], Token::new(TokenKind::Eof, Span::new(17, 17, 2, 2)));
}

#[test]
fn blank_and_comment_lines_keep_the_levels() {
    assert_eq!(
        kinds("a\n  b\n\n      \n// c\n  d"),
        vec![
            TokenKind::Identifier("a".to_string()),
            TokenKind::Newline,
            TokenKind::Indent,
            TokenKind::Identifier("b".to_string()),
            TokenKind::Newline,
            TokenKind::Newline,
            TokenKind::Newline,
            TokenKind::Comment("c".to_string()),
            TokenKind::Newline,
            TokenKind::Identifier("d".to_string()),
            TokenKind::Dedent,
            TokenKind::Eof,
        ]
    );
}

#[test]
fn token_kinds_in_diagnostics() {
    assert_eq!(TokenKind::Indent.debug_text(), "Indent");
    assert_eq!(TokenKind::Identifier("a\"b".to_string()).debug_text(), "Identifier(\"a\\\"b\")");
    assert_eq!(TokenKind::String("x\ny".to_string()).debug_text(), "String(\"x\\ny\")");
    assert_eq!(TokenKind::Number(number("42")).debug_text(), "Number(42.0)");
    assert_eq!(TokenKind::Number(number("2.5")).debug_text(), "Number(2.5)");
    assert_eq!(TokenKind::Boolean(false).debug_text(), "Boolean(false)");
    assert_eq!(TokenKind::Comment("c".to_string()).debug_text(), "Comment(\"c\")");
    assert_eq!(TokenKind::Interpolation("i".to_string()).debug_text(), "Interpolation(\"i\")");
    assert_eq!(TokenKind::Eof.debug_text(), "Eof");
    let kind = TokenKind::String("s".to_string());
    assert_eq!(kind.clone(), kind);
}

#[test]
fn scanner_modes() {
    let scanner = Scanner::with_mode("a", ScannerMode::Expression);
    drop(scanner);
    let scanner = Scanner::new("a");
    drop(scanner);
    assert_ne!(ScannerMode::Html, ScannerMode::Expression);
}

// -- expression tokenizer -----------------------------------------------------

fn expr_kinds(source: &str) -> Vec<expr_lexer::TokenKind> {
    ExprLexer::tokenize(source).unwrap().into_iter().map(|t| t.kind).collect()
}

#[test]
fn the_longest_operator_wins() {
    assert_eq!(expr_kinds("===").as_slice(), [K::StrictEq, K::Eof]);
    assert_eq!(expr_kinds("== =").as_slice(), [K::EqEq, K::Eq, K::Eof]);
    assert_eq!(expr_kinds("!== != !").as_slice(), [K::StrictNotEq, K::NotEq, K::Not, K::Eof]);
    assert_eq!(expr_kinds("?? ?. ?").as_slice(), [K::QuestionQuestion, K::OptionalChain, K::Question, K::Eof]);
    assert_eq!(expr_kinds("=> =").as_slice(), [K::Arrow, K::Eq, K::Eof]);
    assert_eq!(expr_kinds("+++").as_slice(), [K::PlusPlus, K::Plus, K::Eof]);
    assert_eq!(expr_kinds("--- -=").as_slice(), [K::MinusMinus, K::Minus, K::MinusEq, K::Eof]);
    assert_eq!(expr_kinds("+= *= /= * / %").as_slice(), [K::PlusEq, K::StarEq, K::SlashEq, K::Star, K::Slash, K::Percent, K::Eof]);
    assert_eq!(expr_kinds("<= >= < >").as_slice(), [K::Lte, K::Gte, K::Lt, K::Gt, K::Eof]);
    assert_eq!(expr_kinds("{{ }} { }").as_slice(), [K::InterpolationStart, K::InterpolationEnd, K::LBrace, K::RBrace, K::Eof]);
    assert_eq!(expr_kinds("&& || ( ) [ ] . , : ;").as_slice(), [K::And, K::Or, K::LParen, K::RParen, K::LBracket, K::RBracket, K::Dot, K::Comma, K::Colon, K::Semicolon, K::Eof]);
    assert_eq!(expr_kinds("typeof undefined null $x _y").as_slice(), [K::Typeof, K::Undefined, K::Null, K::Identifier, K::Identifier, K::Eof]);
}

#[test]
fn expression_tokenizer_errors() {
    let e = ExprLexer::tokenize("a & b").unwrap_err();
    assert_eq!(e, ExprLexerError { message: "Unexpected character: '&'".to_string(), span: ExprSpan::new(2, 3) });
    assert_eq!(e.to_string(), "Expression lexer error at position 2: Unexpected character: '&'");
    let e = ExprLexer::tokenize("a | b").unwrap_err();
    assert_eq!(e.message, "Unexpected character: '|'");
    let e = ExprLexer::tokenize("x + 'abc").unwrap_err();
    assert_eq!(e, ExprLexerError { message: "Unterminated string".to_string(), span: ExprSpan::new(4, 8) });
    let e = ExprLexer::tokenize("'abc\\").unwrap_err();
    assert_eq!(e, ExprLexerError { message: "Unterminated escape sequence".to_string(), span: ExprSpan::new(0, 5) });
    let e = ExprLexer::tokenize("1.2.3 + 4").unwrap_err();
    assert_eq!(e, ExprLexerError { message: "Invalid number: '1.2.3'".to_string(), span: ExprSpan::new(0, 5) });
}

#[test]
fn expression_strings_and_white_space() {
    let tokens = ExprLexer::tokenize(" \t\n`a\\`b` \u{a0} 'c\\{d\\}\\x' ").unwrap();
    assert_eq!(tokens.len(), 3);
    assert_eq!(tokens[0].value, TokenValue::String("a`b".to_string()));
    assert_eq!(tokens[0].span, ExprSpan::new(3, 9));
    assert_eq!(tokens[1].value, TokenValue::String("c{d}\\x".to_string()));
    assert_eq!(tokens[2].kind, expr_lexer::TokenKind::Eof);
    assert_eq!(tokens[2].value, TokenValue::Nothing);
    let tokens = ExprLexer::tokenize("café0$ 12.50").unwrap();
    assert_eq!(tokens[0].value, TokenValue::Identifier("café0$".to_string()));
    assert_eq!(tokens[1].value, TokenValue::Number(number("12.5")));
    assert_eq!(tokens[1].clone(), tokens[1]);
    assert_eq!(expr_lexer::TokenKind::StrictNotEq.debug_text(), "StrictNotEq");
}

#[test]
fn the_tokenizer_reads_one_token_at_a_time() {
    let mut lexer = ExprLexer::new("a+1");
    assert_eq!(lexer.next_token().unwrap().kind, expr_lexer::TokenKind::Identifier);
    assert_eq!(lexer.next_token().unwrap().kind, expr_lexer::TokenKind::Plus);
    assert_eq!(lexer.next_token().unwrap().kind, expr_lexer::TokenKind::Number);
    assert_eq!(lexer.next_token().unwrap().kind, expr_lexer::TokenKind::Eof);
    assert_eq!(lexer.next_token().unwrap().kind, expr_lexer::TokenKind::Eof);
}

// -- expression parser --------------------------------------------------------

#[test]
fn expression_parser_errors() {
    let e = parse_error("a ? b");
    assert_eq!(e.message, "Expected ':' in ternary expression");
    assert_eq!((e.line, e.column), (1, 6));
    assert_eq!(parse_error("a[1").message, "Expected ']'");
    assert_eq!(parse_error("f(1").message, "Expected ')'");
    assert_eq!(parse_error("(a").message, "Expected ')'");
    assert_eq!(parse_error("[1, 2").message, "Expected ']'");
    assert_eq!(parse_error("{ a: 1").message, "Expected '}'");
    assert_eq!(parse_error("{ 1 }").message, "Expected identifier, got Number");
    assert_eq!(parse_error("a.").message, "Expected identifier, got Eof");
    assert_eq!(parse_error("a?.1").message, "Expected identifier, got Number");
    assert_eq!(parse_error("").message, "Unexpected token: Eof");
    assert_eq!(parse_error("a b").message, "Unexpected token: Identifier");
    assert_eq!(parse_error("a b"), ParseError { message: "Unexpected token: Identifier".to_string(), line: 1, column: 3 });
    assert_eq!(parse_error("+ +").message, "Unexpected token: Plus");
    assert_eq!(parse_error("(a, 1) => a").message, "Expected identifier, got Number");
    assert_eq!(parse_error("(1 + 2) => x").message, "Expected identifier, got Number");
    assert_eq!(parse_error("(a b => a").message, "Expected ')'");
    assert_eq!(parse_error("a #").message, "Unexpected character: '#'");
    assert_eq!(parse_error("a #").column, 3);
    assert_eq!(
        parse_error("'open").to_string(),
        "Parse error at line 1, column 1: Unterminated string"
    );
}

#[test]
fn operators_bind_by_precedence() {
    let none: [String; 0] = [];
    for (source, text) in [
        ("a = b = c", "a = b = c"),
        ("a ? b : c ? d : e", "a ? b : c ? d : e"),
        ("a ?? b || c && d == e < f + g * h", "a ?? b || c && d == e < f + g * h"),
        ("!!a", "!!a"),
        ("-a + typeof b", "-a + typeof b"),
        ("a++ + b--", "a++ + b--"),
        ("a.b?.c[d](e, f).g", "a.b.c[d](e, f).g"),
        ("[1, [2, 3], {a: 1, b}]", "[1, [2, 3], { a: 1, b: b }]"),
        ("x => x + 1", "x => x + 1"),
        ("(x) => x", "x => x"),
        ("(a, b) => a - b", "(a, b) => a - b"),
        ("() => 1", "() => 1"),
        ("a += 1", "a += 1"),
        ("a -= b *= c /= 2", "a -= b *= c /= 2"),
        ("a !== b != c === d", "a !== b != c === d"),
        ("a <= b >= c > d", "a <= b >= c > d"),
        ("a % b / c", "a % b / c"),
        ("'it\\'s'", "'it\\'s'"),
        ("\"a\\\\b\"", "'a\\\\b'"),
    ] {
        let parsed = ExprParser::parse(source).unwrap();
        assert_eq!(expr_to_js(&parsed, &none), text, "source {:?}", source);
    }
}

#[test]
fn binary_chains_group_to_the_left() {
    let parsed = ExprParser::parse("a - b - c").unwrap();
    match parsed.kind {
        ExprKind::Binary { left, op: BinaryOp::Sub, right } => {
            assert_eq!(right.kind, ExprKind::Identifier("c".to_string()));
            assert!(matches!(left.kind, ExprKind::Binary { op: BinaryOp::Sub, .. }));
            assert_eq!(left.span, ExprSpan::new(0, 5));
        }
        other => panic!("unexpected expression: {:?}", other),
    }
    assert_eq!(parsed.span, ExprSpan::new(0, 9));
    let parsed = ExprParser::parse("f(a)[0]++").unwrap();
    assert_eq!(parsed.span, ExprSpan::new(0, 9));
    let parsed = ExprParser::parse("  !x ").unwrap();
    assert_eq!(parsed.span, ExprSpan::new(2, 4));
    assert!(matches!(parsed.kind, ExprKind::Unary { op: UnaryOp::Not, .. }));
}

// -- document parser ----------------------------------------------------------

#[test]
fn document_parser_errors() {
    let e = document_error("state\n  count 0");
    assert_eq!(e.message, "Expected ':' after state field 'count'");
    assert_eq!((e.line, e.column), (2, 9));
    let e = document_error("computed\n  total = 1");
    assert_eq!(e.message, "Expected ':' after computed field 'total'");
    let e = document_error("state\n  \"x\": 1");
    assert_eq!(e.message, "Expected identifier, got String(\"x\")");
    assert_eq!((e.line, e.column), (2, 3));
    let e = document_error("state\n  x: (");
    assert_eq!(e.message, "Expected value, got LParen");
    let e = document_error("a href=(");
    assert_eq!(e.message, "Expected attribute value, got LParen");
    let e = document_error("a :show=null");
    assert_eq!(e.message, "Expected attribute value, got Null");
    let e = document_error("a .");
    assert_eq!(e.message, "Expected identifier, got Eof");
    assert_eq!((e.line, e.column), (1, 4));
    let e = document_error("a @click.=\"x\"");
    assert_eq!(e.message, "Expected identifier, got Equals");
    let e = document_error("a :7");
    assert_eq!(e.message, "Expected identifier, got Number(7.0)");
    let e = document_error("a @click=\"1 +\"");
    assert_eq!(e.message, "Unexpected token: Eof");
    assert_eq!((e.line, e.column), (1, 4));
    let e = document_error("computed\n  total: a +");
    assert_eq!(e.message, "Unexpected token: Eof");
    let e = document_error("div\n   a\n  b");
    assert_eq!(e.message, "Indentation does not match any outer level (got 2 spaces)");
    assert_eq!((e.line, e.column), (3, 3));
}

#[test]
fn stray_tokens_are_passed_over() {
    let doc = Parser::parse("= , ( )\ndiv\n  = 5 null\n  span").unwrap();
    assert_eq!(doc.nodes.len(), 1);
    match &doc.nodes[0] {
        Node::Element(el) => {
            assert_eq!(el.tag, "div");
            assert_eq!(el.children.len(), 1);
        }
        other => panic!("unexpected node: {:?}", other),
    }
}

#[test]
fn plain_values_are_kept_and_prefixed_values_are_parsed() {
    let doc = Parser::parse("input model=\"a + b\" :model=\"a + b\" max=10 ok=true as=name $get=\"load()\"").unwrap();
    let el = match &doc.nodes[0] {
        Node::Element(el) => el,
        other => panic!("unexpected node: {:?}", other),
    };
    assert_eq!(el.attributes.len(), 6);
    assert_eq!(el.attributes[0].name, "model");
    assert_eq!(el.attributes[0].prefix, None);
    assert_eq!(el.attributes[0].value.as_ref().unwrap().kind, ExprKind::String("a + b".to_string()));
    assert_eq!(el.attributes[1].name, "model");
    assert_eq!(el.attributes[1].prefix, Some(AttributePrefix::State));
    assert!(matches!(el.attributes[1].value.as_ref().unwrap().kind, ExprKind::Binary { op: BinaryOp::Add, .. }));
    assert_eq!(el.attributes[2].value.as_ref().unwrap().kind, ExprKind::Number(number("10")));
    assert_eq!(el.attributes[3].value.as_ref().unwrap().kind, ExprKind::Boolean(true));
    assert_eq!(el.attributes[4].value.as_ref().unwrap().kind, ExprKind::Identifier("name".to_string()));
    assert_eq!(el.attributes[5].prefix, Some(AttributePrefix::Server));
    assert!(matches!(el.attributes[5].value.as_ref().unwrap().kind, ExprKind::Call { .. }));
    let html = compile(&doc).unwrap().html;
    assert_eq!(html, "<input id=\"hrml-0\" model=\"a + b\" max=\"10\" ok=\"true\" as=\"name\">\n");
}

#[test]
fn computed_fields_are_parsed_from_the_rest_of_the_line() {
    let out = compile_source("state\n  first: \"a\"\n  n: 2.50\ncomputed\n  full: first + \" \" + f(n, 1.0, true, null).x\n  twice: n + n").unwrap();
    assert!(out.js.contains("hrml.state({ first: 'a', n: 2.5 })"));
    assert!(out.js.contains("  hrml.effect(() => { _s.full = _s.first + ' ' + f(_s.n, 1, true, null).x; });\n"));
    assert!(out.js.contains("  hrml.effect(() => { _s.twice = _s.n + _s.n; });\n"));
}

// -- code generator -----------------------------------------------------------

#[test]
fn interpolation_templates() {
    let names = ["count".to_string(), "user".to_string()];
    assert_eq!(interpolate_text("", &names), "");
    assert_eq!(interpolate_text("plain", &names), "plain");
    assert_eq!(interpolate_text("{count}", &names), "${_s.count}");
    assert_eq!(interpolate_text("{count + 1} of {total}", &names), "${_s.count + 1} of ${total}");
    assert_eq!(interpolate_text("{user.name}{counter}", &names), "${_s.user.name}${counter}");
    assert_eq!(interpolate_text("{ count }", &names), "${ count }");
    assert_eq!(interpolate_text("{f({a: count})}", &names), "${f({a: count})}");
    assert_eq!(interpolate_text("a } b", &names), "a } b");
    assert_eq!(interpolate_text("open {count", &names), "open ${_s.count}");
    assert_eq!(interpolate_text("{}", &names), "${}");
}

#[test]
fn literal_rendering_never_qualifies_names() {
    let names = ["a".to_string()];
    let array = expr(ExprKind::Array(vec![name("a"), expr(ExprKind::Number(number("1.0")))]));
    assert_eq!(expr_to_js_literal(&array), "[a, 1]");
    assert_eq!(expr_to_js(&array, &names), "[_s.a, 1]");
    let object = expr(ExprKind::Object(vec![
        ObjectProperty { key: "a".to_string(), value: name("a"), shorthand: true },
        ObjectProperty { key: "b".to_string(), value: name("a"), shorthand: false },
    ]));
    assert_eq!(expr_to_js_literal(&object), "{ a, b: a }");
    assert_eq!(expr_to_js(&object, &names), "{ a: _s.a, b: _s.a }");
    let sum = expr(ExprKind::Binary { left: Box::new(name("a")), op: BinaryOp::Add, right: Box::new(name("b")) });
    assert_eq!(expr_to_js_literal(&sum), "a + b");
    assert_eq!(expr_to_js(&sum, &names), "_s.a + b");
    assert_eq!(expr_to_js_literal(&expr(ExprKind::Undefined)), "undefined");
    assert_eq!(expr_to_js(&expr(ExprKind::Interpolation(Box::new(name("a")))), &names), "_s.a");
}

#[test]
fn markup_of_elements() {
    let out = compile_source("img src=\"a.png\"\n  span \"never\"\nbr\np \"a\" \"b\"\ndiv\n  \"text\"\n  // note\n  em \"x\"\nul .list\n  li\n    a href=\"#\" \"deep\"").unwrap();
    assert_eq!(
        out.html,
        "<img src=\"a.png\">\n<br>\n<p>ab</p>\n<div>\n  text\n  <em>x</em>\n</div>\n<ul class=\"list\">\n  <li>\n    <a href=\"#\">deep</a>\n  </li>\n</ul>\n"
    );
    assert_eq!(out.js, "");
}

#[test]
fn bindings_of_one_element_keep_their_order() {
    let doc = Parser::parse("form @submit.prevent.once=\"save()\" :show=\"open\" :if=\"ok\" :class=\"c\" :model=\"a.b\" @click \"{n} and \" \"{m}\"").unwrap();
    let mut ctx = CompilationContext::new();
    ctx.state_fields.push(("n".to_string(), "0".to_string()));
    ctx.state_fields.push(("open".to_string(), "true".to_string()));
    let html = generate_html(&doc, &mut ctx).unwrap();
    assert_eq!(html, "<form id=\"hrml-0\"></form>\n");
    assert_eq!(ctx.bindings.len(), 6);
    assert_eq!(
        ctx.bindings[0],
        Binding::Event {
            id: "hrml-0".to_string(),
            event: "submit".to_string(),
            handler: "save()".to_string(),
            modifiers: vec!["prevent".to_string(), "once".to_string()],
        }
    );
    assert_eq!(ctx.bindings[1], Binding::Show { id: "hrml-0".to_string(), expr: "_s.open".to_string() });
    assert_eq!(ctx.bindings[2], Binding::Show { id: "hrml-0".to_string(), expr: "ok".to_string() });
    assert_eq!(ctx.bindings[3], Binding::Model { id: "hrml-0".to_string(), field: "a.b".to_string() });
    assert_eq!(
        ctx.bindings[4],
        Binding::Event {
            id: "hrml-0".to_string(),
            event: "click".to_string(),
            handler: "".to_string(),
            modifiers: vec![],
        }
    );
    assert_eq!(
        ctx.bindings[5],
        Binding::Text { id: "hrml-0".to_string(), template: "${_s.n} and ${m}".to_string() }
    );
    let js = generate_js(&ctx).unwrap();
    assert!(js.starts_with(RUNTIME));
    assert!(js.ends_with(
        "\n\n(function() {\n  const _s = hrml.state({ n: 0, open: true });\n  hrml.on('hrml-0', 'submit', (e) => { e.preventDefault(); save(); });\n  hrml.show('hrml-0', () => _s.open);\n  hrml.show('hrml-0', () => ok);\n  hrml.model('hrml-0', _s, 'a.b');\n  hrml.on('hrml-0', 'click', () => { ; });\n  hrml.text('hrml-0', () => `${_s.n} and ${m}`);\n})();\n"
    ));
}

#[test]
fn the_ids_can_run_out() {
    let doc = Parser::parse("div\n  button @click=\"a()\"").unwrap();
    let mut ctx = CompilationContext::new();
    ctx.next_id = usize::MAX;
    assert_eq!(
        generate_html(&doc, &mut ctx),
        Err(CodegenError { message: "Too many reactive elements".to_string() })
    );
    let mut ctx = CompilationContext::new();
    ctx.next_id = usize::MAX - 1;
    assert!(generate_html(&doc, &mut ctx).is_ok());
    assert_eq!(ctx.next_id, usize::MAX);
    assert_eq!(
        CodegenError { message: "m".to_string() }.to_string(),
        "Codegen error: m"
    );
}

#[test]
fn nodes_without_markup() {
    let doc = Document {
        nodes: vec![
            Node::Comment("c".to_string()),
            Node::Text("t".to_string()),
            Node::Element(Element {
                tag: "b".to_string(),
                classes: vec![],
                attributes: vec![Attribute {
                    name: "hidden".to_string(),
                    value: None,
                    prefix: None,
                    modifiers: vec![],
                }],
                children: vec![Node::Comment("inside".to_string())],
            }),
        ],
    };
    let out = compile(&doc).unwrap();
    assert_eq!(out.html, "t<b hidden></b>\n");
    assert_eq!(out.js, "");
}

#[test]
fn errors_of_the_pipeline() {
    match compile_source("a :show=\"(\"") {
        Err(CompileError::Parse(e)) => {
            assert_eq!(e.message, "Unexpected token: Eof");
        }
        other => panic!("unexpected outcome: {:?}", other),
    }
    let e = compile_source("\"open").unwrap_err();
    assert_eq!(e.message(), "Unterminated string");
    assert_eq!(e.to_string(), "Parse error at line 1, column 1: Unterminated string");
    let e = CompileError::Codegen(CodegenError { message: "x".to_string() });
    assert_eq!(e.message(), "x");
    assert_eq!(e.to_string(), "Codegen error: x");
}

#[test]
fn trees_can_be_copied() {
    let source = "state\n  n: 1\ncomputed\n  m: f(n)[0] ? {a, b: [1, x => x]} : -n\n// c\ndiv .a :show=\"n\" @click.prevent=\"n++\" \"t\"\n  span \"{n}\"";
    let doc = Parser::parse(source).unwrap();
    let copy = doc.clone();
    assert_eq!(copy, doc);
    assert_eq!(compile(&copy).unwrap(), compile(&doc).unwrap());
    for node in &doc.nodes {
        assert_eq!(&node.clone(), node);
    }
    let e = ExprParser::parse("a.b(c, [d, {e: 1}], (f, g) => f ?? g)").unwrap();
    assert_eq!(e.clone(), e);
    assert_eq!(e.kind.clone(), e.kind);
}

#[test]
fn exactly_one_end_of_input() {
    for source in ["", "a", "a\n  b\n", "state\n  n: 1\n\n\n"] {
        let tokens = Scanner::tokenize(source).unwrap();
        assert_eq!(tokens.iter().filter(|t| t.kind == TokenKind::Eof).count(), 1);
        assert_eq!(tokens.last().unwrap().kind, TokenKind::Eof);
    }
    let tokens = ExprLexer::tokenize("a + b").unwrap();
    assert_eq!(tokens.iter().filter(|t| t.kind == K::Eof).count(), 1);
}

#[test]
fn property_names_are_never_qualified() {
    let names = ["count".to_string(), "user".to_string()];
    for (source, text) in [
        ("user.count", "_s.user.count"),
        ("other.count", "other.count"),
        ("other?.count", "other.count"),
        ("other[count]", "other[_s.count]"),
        ("a.count.user(count).count", "a.count.user(_s.count).count"),
        ("count.count", "_s.count.count"),
    ] {
        let parsed = ExprParser::parse(source).unwrap();
        assert_eq!(expr_to_js(&parsed, &names), text, "source {:?}", source);
    }
    let out = compile_source("state\n  count: 0\n\nbutton @click=\"item.count = count\"").unwrap();
    assert!(out.js.contains("() => { item.count = _s.count; }"));
}

#[test]
fn children_stand_on_lines_of_their_own() {
    let out = compile_source("div\n  \"one\"\n  p\n    \"two\"\n    b \"x\"\n  \"three\"").unwrap();
    assert_eq!(
        out.html,
        "<div>\n  one\n  <p>\n    two\n    <b>x</b>\n  </p>\n  three\n</div>\n"
    );
    // text alone stays inside the tags
    let out = compile_source("div\n  \"one\"\n  \"two\"").unwrap();
    assert_eq!(out.html, "<div>onetwo</div>\n");
}

#[test]
fn strings_of_computed_fields_are_read_back_as_they_are() {
    let source = "computed\n  a: \"say \\\"hi\\\"\" + 'it\\'s' + \"back\\\\slash \\\\n\"";
    let doc = Parser::parse(source).unwrap();
    let body = match &doc.nodes[0] {
        Node::ComputedBlock(block) => &block.fields[0].body,
        other => panic!("unexpected node: {:?}", other),
    };
    let mut strings = Vec::new();
    let mut rest = body;
    loop {
        match &rest.kind {
            ExprKind::Binary { left, op: BinaryOp::Add, right } => {
                match &right.kind {
                    ExprKind::String(s) => strings.push(s.clone()),
                    other => panic!("unexpected operand: {:?}", other),
                }
                rest = left;
            }
            ExprKind::String(s) => {
                strings.push(s.clone());
                break;
            }
            other => panic!("unexpected expression: {:?}", other),
        }
    }
    strings.reverse();
    assert_eq!(strings, vec!["say \"hi\"", "it's", "back\\slash \\n"]);
}
