//! What the code generator writes for expressions: the JavaScript text of an
//! expression tree.

use vstd::prelude::*;
use crate::parser::ast::{
    AssignOp, BinaryOp, ExprKindView, ExprView, ObjectPropertyView, PostfixOp, UnaryOp,
};
use crate::text::{join, replaced};

verus! {

pub open spec fn binary_op_js(op: BinaryOp) -> Seq<char> {
    match op {
        BinaryOp::Add => "+"@,
        BinaryOp::Sub => "-"@,
        BinaryOp::Mul => "*"@,
        BinaryOp::Div => "/"@,
        BinaryOp::Mod => "%"@,
        BinaryOp::Eq => "=="@,
        BinaryOp::Neq => "!="@,
        BinaryOp::StrictEq => "==="@,
        BinaryOp::StrictNeq => "!=="@,
        BinaryOp::Lt => "<"@,
        BinaryOp::Gt => ">"@,
        BinaryOp::Lte => "<="@,
        BinaryOp::Gte => ">="@,
        BinaryOp::And => "&&"@,
        BinaryOp::Or => "||"@,
        BinaryOp::NullishCoalescing => "??"@,
    }
}

pub open spec fn unary_op_js(op: UnaryOp) -> Seq<char> {
    match op {
        UnaryOp::Not => "!"@,
        UnaryOp::Neg => "-"@,
        UnaryOp::Typeof => "typeof"@,
    }
}

pub open spec fn postfix_op_js(op: PostfixOp) -> Seq<char> {
    match op {
        PostfixOp::Increment => "++"@,
        PostfixOp::Decrement => "--"@,
    }
}

pub open spec fn assign_op_js(op: AssignOp) -> Seq<char> {
    match op {
        AssignOp::Assign => "="@,
        AssignOp::AddAssign => "+="@,
        AssignOp::SubAssign => "-="@,
        AssignOp::MulAssign => "*="@,
        AssignOp::DivAssign => "/="@,
    }
}

/// A string as a JavaScript literal in single quotes, with backslashes and
/// single quotes escaped.
pub open spec fn quoted(s: Seq<char>) -> Seq<char> {
    "'"@ + replaced(replaced(s, '\\', "\\\\"@), '\'', "\\'"@) + "'"@
}

pub open spec fn boolean_js(b: bool) -> Seq<char> {
    if b {
        "true"@
    } else {
        "false"@
    }
}

/// A name as it is written in generated code: qualified with the state
/// object if it names a state field.
pub open spec fn name_js(name: Seq<char>, names: Seq<Seq<char>>) -> Seq<char> {
    if names.contains(name) {
        "_s."@ + name
    } else {
        name
    }
}

/// The parameters of an arrow function: one name alone, else the names in
/// parentheses.
pub open spec fn params_js(params: Seq<Seq<char>>) -> Seq<char> {
    if params.len() == 1 {
        params[0]
    } else {
        "("@ + join(params, ", "@) + ")"@
    }
}

/// The JavaScript text of an expression. `names` are the names of the state
/// fields: a bare name among them is qualified with the state object. The
/// name behind the `.` of a member access is a property name and is never
/// qualified; the index of a computed access is an expression like any
/// other.
#[verifier::opaque]
pub open spec fn expr_js(e: ExprView, names: Seq<Seq<char>>) -> Seq<char>
    decreases e,
{
    match e.kind {
        ExprKindView::Number(n) => n.rendered(),
        ExprKindView::String(s) => quoted(s),
        ExprKindView::Boolean(b) => boolean_js(b),
        ExprKindView::Null => "null"@,
        ExprKindView::Undefined => "undefined"@,
        ExprKindView::Identifier(name) => name_js(name, names),
        ExprKindView::Binary { left, op, right } => expr_js(*left, names) + " "@ + binary_op_js(op)
            + " "@ + expr_js(*right, names),
        ExprKindView::Unary { op, operand } => if op == UnaryOp::Typeof {
            unary_op_js(op) + " "@ + expr_js(*operand, names)
        } else {
            unary_op_js(op) + expr_js(*operand, names)
        },
        ExprKindView::Postfix { operand, op } => expr_js(*operand, names) + postfix_op_js(op),
        ExprKindView::Assignment { target, op, value } => expr_js(*target, names) + " "@
            + assign_op_js(op) + " "@ + expr_js(*value, names),
        ExprKindView::Member { object, property, computed } => if computed {
            expr_js(*object, names) + "["@ + expr_js(*property, names) + "]"@
        } else {
            expr_js(*object, names) + "."@ + expr_js(*property, Seq::empty())
        },
        ExprKindView::Call { callee, arguments } => expr_js(*callee, names) + "("@ + join(
            exprs_js(arguments, names),
            ", "@,
        ) + ")"@,
        ExprKindView::Ternary { condition, consequent, alternate } => expr_js(*condition, names)
            + " ? "@ + expr_js(*consequent, names) + " : "@ + expr_js(*alternate, names),
        ExprKindView::Object(properties) => "{ "@ + join(properties_js(properties, names), ", "@)
            + " }"@,
        ExprKindView::Array(items) => "["@ + join(exprs_js(items, names), ", "@) + "]"@,
        ExprKindView::Arrow { params, body } => params_js(params) + " => "@ + expr_js(
            *body,
            names,
        ),
        ExprKindView::Interpolation(inner) => expr_js(*inner, names),
    }
}

/// The JavaScript texts of a sequence of expressions.
#[verifier::opaque]
pub open spec fn exprs_js(es: Seq<ExprView>, names: Seq<Seq<char>>) -> Seq<Seq<char>>
    decreases es,
{
    if es.len() == 0 {
        Seq::empty()
    } else {
        exprs_js(es.drop_last(), names).push(expr_js(es.last(), names))
    }
}

/// The JavaScript text of one property of an object literal: a key that was
/// written alone stands for the name of the same spelling.
pub open spec fn property_js(p: ObjectPropertyView, names: Seq<Seq<char>>) -> Seq<char>
    decreases p,
{
    if p.shorthand {
        p.key + ": "@ + name_js(p.key, names)
    } else {
        p.key + ": "@ + expr_js(p.value, names)
    }
}

/// The JavaScript texts of the properties of an object literal.
#[verifier::opaque]
pub open spec fn properties_js(ps: Seq<ObjectPropertyView>, names: Seq<Seq<char>>) -> Seq<
    Seq<char>,
>
    decreases ps,
{
    if ps.len() == 0 {
        Seq::empty()
    } else {
        properties_js(ps.drop_last(), names).push(property_js(ps.last(), names))
    }
}

/// The JavaScript text of the initial value of a state field: names in it
/// are never qualified.
#[verifier::opaque]
pub open spec fn literal_js(e: ExprView) -> Seq<char>
    decreases e,
{
    match e.kind {
        ExprKindView::Number(n) => n.rendered(),
        ExprKindView::String(s) => quoted(s),
        ExprKindView::Boolean(b) => boolean_js(b),
        ExprKindView::Null => "null"@,
        ExprKindView::Undefined => "undefined"@,
        ExprKindView::Identifier(name) => name,
        ExprKindView::Array(items) => "["@ + join(literals_js(items), ", "@) + "]"@,
        ExprKindView::Object(properties) => "{ "@ + join(literal_properties_js(properties), ", "@)
            + " }"@,
        _ => expr_js(e, Seq::empty()),
    }
}

/// The literal texts of a sequence of expressions.
#[verifier::opaque]
pub open spec fn literals_js(es: Seq<ExprView>) -> Seq<Seq<char>>
    decreases es,
{
    if es.len() == 0 {
        Seq::empty()
    } else {
        literals_js(es.drop_last()).push(literal_js(es.last()))
    }
}

/// The literal text of one property: a key that was written alone is
/// written alone.
pub open spec fn literal_property_js(p: ObjectPropertyView) -> Seq<char>
    decreases p,
{
    if p.shorthand {
        p.key
    } else {
        p.key + ": "@ + literal_js(p.value)
    }
}

/// The literal texts of the properties of an object literal.
#[verifier::opaque]
pub open spec fn literal_properties_js(ps: Seq<ObjectPropertyView>) -> Seq<Seq<char>>
    decreases ps,
{
    if ps.len() == 0 {
        Seq::empty()
    } else {
        literal_properties_js(ps.drop_last()).push(literal_property_js(ps.last()))
    }
}

} // verus!
