//! Expressions to JavaScript text.

use vstd::prelude::*;
use vstd::string::*;
use crate::codegen::rendering::{
    assign_op_js, binary_op_js, boolean_js, expr_js, exprs_js, literal_js, literal_properties_js,
    literal_property_js, literals_js, name_js, params_js, postfix_op_js, properties_js,
    property_js, quoted, unary_op_js,
};
use crate::number::Number;
use crate::parser::ast::{
    AssignOp, BinaryOp, expr_views, Expression, ExprKind, ObjectProperty, PostfixOp,
    property_views, UnaryOp,
};
use crate::text::{join_strings, push_replaced, string_views};

verus! {

/// The number as it is written in generated code: an integral number
/// without a decimal point, any other with its fraction digits.
pub fn format_number(n: &Number) -> (r: String)
    ensures
        r@ == n@.rendered(),
        n@.canonical(),
        n@.is_integral() ==> !r@.contains('.'),
        !n@.is_integral() ==> r@ == n@.whole + seq!['.'] + n@.frac,
{
    n.to_text()
}

pub(crate) fn binary_op_to_js(op: BinaryOp) -> (r: &'static str)
    ensures
        r@ == binary_op_js(op),
{
    match op {
        BinaryOp::Add => "+",
        BinaryOp::Sub => "-",
        BinaryOp::Mul => "*",
        BinaryOp::Div => "/",
        BinaryOp::Mod => "%",
        BinaryOp::Eq => "==",
        BinaryOp::Neq => "!=",
        BinaryOp::StrictEq => "===",
        BinaryOp::StrictNeq => "!==",
        BinaryOp::Lt => "<",
        BinaryOp::Gt => ">",
        BinaryOp::Lte => "<=",
        BinaryOp::Gte => ">=",
        BinaryOp::And => "&&",
        BinaryOp::Or => "||",
        BinaryOp::NullishCoalescing => "??",
    }
}

pub(crate) fn unary_op_to_js(op: UnaryOp) -> (r: &'static str)
    ensures
        r@ == unary_op_js(op),
{
    match op {
        UnaryOp::Not => "!",
        UnaryOp::Neg => "-",
        UnaryOp::Typeof => "typeof",
    }
}

pub(crate) fn postfix_op_to_js(op: PostfixOp) -> (r: &'static str)
    ensures
        r@ == postfix_op_js(op),
{
    match op {
        PostfixOp::Increment => "++",
        PostfixOp::Decrement => "--",
    }
}

pub(crate) fn assign_op_to_js(op: AssignOp) -> (r: &'static str)
    ensures
        r@ == assign_op_js(op),
{
    match op {
        AssignOp::Assign => "=",
        AssignOp::AddAssign => "+=",
        AssignOp::SubAssign => "-=",
        AssignOp::MulAssign => "*=",
        AssignOp::DivAssign => "/=",
    }
}

/// `s` as a JavaScript literal in single quotes.
pub(crate) fn quote_string(s: &String) -> (r: String)
    ensures
        r@ == quoted(s@),
{
    let mut escaped = String::new();
    push_replaced(&mut escaped, s.as_str(), '\\', "\\\\");
    let mut r = String::from_str("'");
    push_replaced(&mut r, escaped.as_str(), '\'', "\\'");
    r.append("'");
    assert(escaped@ =~= crate::text::replaced(s@, '\\', "\\\\"@));
    r
}

pub(crate) fn boolean_to_js(b: bool) -> (r: String)
    ensures
        r@ == boolean_js(b),
{
    if b {
        String::from_str("true")
    } else {
        String::from_str("false")
    }
}

/// Whether `name` is among `names`.
pub(crate) fn contains_name(names: &[String], name: &String) -> (b: bool)
    ensures
        b == string_views(names@).contains(name@),
{
    let mut i: usize = 0;
    while i < names.len()
        invariant
            i <= names@.len(),
            forall|j: int| 0 <= j < i ==> string_views(names@)[j] != name@,
        decreases names@.len() - i,
    {
        if names[i] == *name {
            assert(string_views(names@)[i as int] == name@);
            return true;
        }
        i += 1;
    }
    false
}

pub(crate) fn name_to_js(name: &String, names: &[String]) -> (r: String)
    ensures
        r@ == name_js(name@, string_views(names@)),
{
    if contains_name(names, name) {
        let mut r = String::from_str("_s.");
        r.append(name.as_str());
        r
    } else {
        name.clone()
    }
}

/// `a`, `b` and `c`, one after the other.
pub(crate) fn concat3(a: &str, b: &str, c: &str) -> (r: String)
    ensures
        r@ == a@ + b@ + c@,
{
    let mut r = String::from_str(a);
    r.append(b);
    r.append(c);
    r
}

/// `a`, `b`, `c`, `d` and `e`, one after the other.
pub(crate) fn concat5(a: &str, b: &str, c: &str, d: &str, e: &str) -> (r: String)
    ensures
        r@ == a@ + b@ + c@ + d@ + e@,
{
    let mut r = String::from_str(a);
    r.append(b);
    r.append(c);
    r.append(d);
    r.append(e);
    r
}

fn params_to_js(params: &Vec<String>) -> (r: String)
    ensures
        r@ == params_js(string_views(params@)),
{
    if params.len() == 1 {
        params[0].clone()
    } else {
        concat3("(", join_strings(params, ", ").as_str(), ")")
    }
}

/// The JavaScript text of `expr`, with the names of `state_names` qualified
/// with the state object.
pub fn expr_to_js(expr: &Expression, state_names: &[String]) -> (r: String)
    ensures
        r@ == expr_js(expr@, string_views(state_names@)),
    decreases expr,
{
    proof {
        reveal(expr_js);
        reveal(exprs_js);
        reveal(properties_js);
    }
    match &expr.kind {
        ExprKind::Number(n) => format_number(n),
        ExprKind::String(s) => quote_string(s),
        ExprKind::Boolean(b) => boolean_to_js(*b),
        ExprKind::Null => String::from_str("null"),
        ExprKind::Undefined => String::from_str("undefined"),
        ExprKind::Identifier(name) => name_to_js(name, state_names),
        ExprKind::Binary { left, op, right } => {
            let l = expr_to_js(left, state_names);
            let r = expr_to_js(right, state_names);
            concat5(l.as_str(), " ", binary_op_to_js(*op), " ", r.as_str())
        },
        ExprKind::Unary { op, operand } => {
            let x = expr_to_js(operand, state_names);
            match op {
                UnaryOp::Typeof => concat3(unary_op_to_js(*op), " ", x.as_str()),
                _ => {
                    let mut r = String::from_str(unary_op_to_js(*op));
                    r.append(x.as_str());
                    r
                },
            }
        },
        ExprKind::Postfix { operand, op } => {
            let mut r = expr_to_js(operand, state_names);
            r.append(postfix_op_to_js(*op));
            r
        },
        ExprKind::Assignment { target, op, value } => {
            let t = expr_to_js(target, state_names);
            let v = expr_to_js(value, state_names);
            concat5(t.as_str(), " ", assign_op_to_js(*op), " ", v.as_str())
        },
        ExprKind::Member { object, property, computed } => {
            let o = expr_to_js(object, state_names);
            if *computed {
                let p = expr_to_js(property, state_names);
                let mut r = concat3(o.as_str(), "[", p.as_str());
                r.append("]");
                r
            } else {
                let none: Vec<String> = Vec::new();
                assert(string_views(none@) =~= Seq::empty());
                let p = expr_to_js(property, none.as_slice());
                concat3(o.as_str(), ".", p.as_str())
            }
        },
        ExprKind::Call { callee, arguments } => {
            let c = expr_to_js(callee, state_names);
            let args = exprs_to_js(arguments, state_names);
            let mut r = concat3(c.as_str(), "(", join_strings(&args, ", ").as_str());
            r.append(")");
            r
        },
        ExprKind::Ternary { condition, consequent, alternate } => {
            let c = expr_to_js(condition, state_names);
            let a = expr_to_js(consequent, state_names);
            let b = expr_to_js(alternate, state_names);
            concat5(c.as_str(), " ? ", a.as_str(), " : ", b.as_str())
        },
        ExprKind::Object(properties) => {
            let parts = properties_to_js(properties, state_names);
            concat3("{ ", join_strings(&parts, ", ").as_str(), " }")
        },
        ExprKind::Array(items) => {
            let parts = exprs_to_js(items, state_names);
            concat3("[", join_strings(&parts, ", ").as_str(), "]")
        },
        ExprKind::Arrow { params, body } => {
            let b = expr_to_js(body, state_names);
            concat3(params_to_js(params).as_str(), " => ", b.as_str())
        },
        ExprKind::Interpolation(inner) => expr_to_js(inner, state_names),
    }
}

/// The JavaScript texts of `items`.
fn exprs_to_js(items: &Vec<Expression>, state_names: &[String]) -> (r: Vec<String>)
    ensures
        string_views(r@) == exprs_js(expr_views(items@), string_views(state_names@)),
    decreases items,
{
    let mut parts: Vec<String> = Vec::new();
    let mut i: usize = 0;
    proof {
        reveal(exprs_js);
        assert(string_views(parts@) =~= Seq::empty());
        assert(expr_views(items@).take(0) =~= Seq::empty());
    }
    while i < items.len()
        invariant
            i <= items@.len(),
            string_views(parts@) == exprs_js(
                expr_views(items@).take(i as int),
                string_views(state_names@),
            ),
        decreases items@.len() - i,
    {
        let ghost before = string_views(parts@);
        let text = expr_to_js(&items[i], state_names);
        parts.push(text);
        i += 1;
        proof {
            reveal(exprs_js);
            reveal(expr_js);
            let done = expr_views(items@).take(i as int);
            assert(done.drop_last() =~= expr_views(items@).take(i - 1));
            assert(done.last() == items@[i - 1]@);
            assert(string_views(parts@) =~= before.push(text@));
        }
    }
    assert(expr_views(items@).take(i as int) =~= expr_views(items@));
    parts
}

/// The JavaScript texts of the properties of an object literal.
fn properties_to_js(properties: &Vec<ObjectProperty>, state_names: &[String]) -> (r: Vec<
    String,
>)
    ensures
        string_views(r@) == properties_js(property_views(properties@), string_views(state_names@)),
    decreases properties,
{
    let mut parts: Vec<String> = Vec::new();
    let mut i: usize = 0;
    proof {
        reveal(properties_js);
        assert(string_views(parts@) =~= Seq::empty());
        assert(property_views(properties@).take(0) =~= Seq::empty());
    }
    while i < properties.len()
        invariant
            i <= properties@.len(),
            string_views(parts@) == properties_js(
                property_views(properties@).take(i as int),
                string_views(state_names@),
            ),
        decreases properties@.len() - i,
    {
        let ghost before = string_views(parts@);
        let p = &properties[i];
        let value = if p.shorthand {
            name_to_js(&p.key, state_names)
        } else {
            expr_to_js(&p.value, state_names)
        };
        let text = concat3(p.key.as_str(), ": ", value.as_str());
        parts.push(text);
        i += 1;
        proof {
            reveal(properties_js);
            reveal(expr_js);
            let done = property_views(properties@).take(i as int);
            assert(done.drop_last() =~= property_views(properties@).take(i - 1));
            assert(done.last() == properties@[i - 1]@);
            assert(done.last().key == p.key@);
            assert(done.last().shorthand == p.shorthand);
            assert(done.last().value == p.value@);
            assert(string_views(parts@) =~= before.push(text@));
            assert(property_js(done.last(), string_views(state_names@)) == text@);
            assert(properties_js(done, string_views(state_names@)) == properties_js(
                done.drop_last(),
                string_views(state_names@),
            ).push(property_js(done.last(), string_views(state_names@))));
        }
    }
    assert(property_views(properties@).take(i as int) =~= property_views(properties@));
    parts
}

/// The JavaScript text of the initial value of a state field: a literal, in
/// which names are never qualified.
pub fn expr_to_js_literal(expr: &Expression) -> (r: String)
    ensures
        r@ == literal_js(expr@),
    decreases expr,
{
    proof {
        reveal(literal_js);
        reveal(literals_js);
        reveal(literal_properties_js);
        reveal(expr_js);
    }
    match &expr.kind {
        ExprKind::Number(n) => format_number(n),
        ExprKind::String(s) => quote_string(s),
        ExprKind::Boolean(b) => boolean_to_js(*b),
        ExprKind::Null => String::from_str("null"),
        ExprKind::Undefined => String::from_str("undefined"),
        ExprKind::Identifier(name) => name.clone(),
        ExprKind::Array(items) => {
            let parts = literals_to_js(items);
            concat3("[", join_strings(&parts, ", ").as_str(), "]")
        },
        ExprKind::Object(properties) => {
            let parts = literal_properties_to_js(properties);
            concat3("{ ", join_strings(&parts, ", ").as_str(), " }")
        },
        _ => {
            let none: Vec<String> = Vec::new();
            assert(string_views(none@) =~= Seq::empty());
            expr_to_js(expr, none.as_slice())
        },
    }
}

/// The literal texts of `items`.
fn literals_to_js(items: &Vec<Expression>) -> (r: Vec<String>)
    ensures
        string_views(r@) == literals_js(expr_views(items@)),
    decreases items,
{
    let mut parts: Vec<String> = Vec::new();
    let mut i: usize = 0;
    proof {
        reveal(literals_js);
        assert(string_views(parts@) =~= Seq::empty());
        assert(expr_views(items@).take(0) =~= Seq::empty());
    }
    while i < items.len()
        invariant
            i <= items@.len(),
            string_views(parts@) == literals_js(expr_views(items@).take(i as int)),
        decreases items@.len() - i,
    {
        let ghost before = string_views(parts@);
        let text = expr_to_js_literal(&items[i]);
        parts.push(text);
        i += 1;
        proof {
            reveal(literals_js);
            reveal(literal_js);
            let done = expr_views(items@).take(i as int);
            assert(done.drop_last() =~= expr_views(items@).take(i - 1));
            assert(done.last() == items@[i - 1]@);
            assert(string_views(parts@) =~= before.push(text@));
        }
    }
    assert(expr_views(items@).take(i as int) =~= expr_views(items@));
    parts
}

/// The literal texts of the properties of an object literal.
fn literal_properties_to_js(properties: &Vec<ObjectProperty>) -> (r: Vec<String>)
    ensures
        string_views(r@) == literal_properties_js(property_views(properties@)),
    decreases properties,
{
    let mut parts: Vec<String> = Vec::new();
    let mut i: usize = 0;
    proof {
        reveal(literal_properties_js);
        assert(string_views(parts@) =~= Seq::empty());
        assert(property_views(properties@).take(0) =~= Seq::empty());
    }
    while i < properties.len()
        invariant
            i <= properties@.len(),
            string_views(parts@) == literal_properties_js(
                property_views(properties@).take(i as int),
            ),
        decreases properties@.len() - i,
    {
        let ghost before = string_views(parts@);
        let p = &properties[i];
        let text = if p.shorthand {
            p.key.clone()
        } else {
            concat3(p.key.as_str(), ": ", expr_to_js_literal(&p.value).as_str())
        };
        parts.push(text);
        i += 1;
        proof {
            reveal(literal_properties_js);
            reveal(literal_js);
            let done = property_views(properties@).take(i as int);
            assert(done.drop_last() =~= property_views(properties@).take(i - 1));
            assert(done.last() == properties@[i - 1]@);
            assert(done.last().key == p.key@);
            assert(done.last().shorthand == p.shorthand);
            assert(done.last().value == p.value@);
            assert(string_views(parts@) =~= before.push(text@));
            assert(literal_property_js(done.last()) == text@);
            assert(literal_properties_js(done) == literal_properties_js(done.drop_last()).push(
                literal_property_js(done.last()),
            ));
        }
    }
    assert(property_views(properties@).take(i as int) =~= property_views(properties@));
    parts
}

} // verus!
