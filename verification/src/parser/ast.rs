//! The document tree and the expression tree, each with the mathematical
//! value it stands for.

use vstd::prelude::*;
use crate::number::{Number, NumberView};

verus! {

// ---------------------------------------------------------------------------
// Expressions
// ---------------------------------------------------------------------------
/// A position in expression text, in characters from the start of the
/// expression.
#[derive(Debug, Clone, Copy, PartialEq, Eq)]
pub struct ExprSpan {
    pub start: usize,
    pub end: usize,
}

impl ExprSpan {
    pub fn new(start: usize, end: usize) -> (span: Self)
        ensures
            span == (ExprSpan { start, end }),
    {
        ExprSpan { start, end }
    }
}

#[derive(Debug, Clone, Copy, PartialEq, Eq, Structural)]
pub enum BinaryOp {
    Add,
    Sub,
    Mul,
    Div,
    Mod,
    Eq,
    Neq,
    StrictEq,
    StrictNeq,
    Lt,
    Gt,
    Lte,
    Gte,
    And,
    Or,
    NullishCoalescing,
}

#[derive(Debug, Clone, Copy, PartialEq, Eq, Structural)]
pub enum UnaryOp {
    Not,
    Neg,
    Typeof,
}

#[derive(Debug, Clone, Copy, PartialEq, Eq, Structural)]
pub enum PostfixOp {
    Increment,
    Decrement,
}

#[derive(Debug, Clone, Copy, PartialEq, Eq, Structural)]
pub enum AssignOp {
    Assign,
    AddAssign,
    SubAssign,
    MulAssign,
    DivAssign,
}

/// An expression: what it is, and where it stands in the expression text.
#[derive(Debug, PartialEq)]
pub struct Expression {
    pub kind: ExprKind,
    pub span: ExprSpan,
}

/// The forms of expression.
#[derive(Debug, PartialEq)]
#[allow(inconsistent_fields)]
pub enum ExprKind {
    /// `42`, `3.14`
    Number(Number),
    /// `"hello"`, `'world'`
    String(String),
    /// `true`, `false`
    Boolean(bool),
    Null,
    Undefined,
    /// `count`
    Identifier(String),
    /// `a + b`
    Binary { left: Box<Expression>, op: BinaryOp, right: Box<Expression> },
    /// `!active`, `-count`
    Unary { op: UnaryOp, operand: Box<Expression> },
    /// `count++`
    Postfix { operand: Box<Expression>, op: PostfixOp },
    /// `user.name`, `items[0]`
    Member { object: Box<Expression>, property: Box<Expression>, computed: bool },
    /// `save()`, `items.push(item)`
    Call { callee: Box<Expression>, arguments: Vec<Expression> },
    /// `count > 0 ? 'yes' : 'no'`
    Ternary {
        condition: Box<Expression>,
        consequent: Box<Expression>,
        alternate: Box<Expression>,
    },
    /// `{ count: 0, name }`
    Object(Vec<ObjectProperty>),
    /// `[1, 2, 3]`
    Array(Vec<Expression>),
    /// `(x) => x + 1`
    Arrow { params: Vec<String>, body: Box<Expression> },
    /// `count = 5`, `count += 1`
    Assignment { target: Box<Expression>, op: AssignOp, value: Box<Expression> },
    /// The expression of an interpolation region.
    Interpolation(Box<Expression>),
}

/// One `key: value` of an object literal; `shorthand` where only the key was
/// written.
#[derive(Debug, PartialEq)]
pub struct ObjectProperty {
    pub key: String,
    pub value: Expression,
    pub shorthand: bool,
}

/// What an [`Expression`] holds.
pub ghost struct ExprView {
    pub kind: ExprKindView,
    pub span: ExprSpan,
}

/// What an [`ExprKind`] holds.
#[allow(inconsistent_fields)]
pub ghost enum ExprKindView {
    Number(NumberView),
    String(Seq<char>),
    Boolean(bool),
    Null,
    Undefined,
    Identifier(Seq<char>),
    Binary { left: Box<ExprView>, op: BinaryOp, right: Box<ExprView> },
    Unary { op: UnaryOp, operand: Box<ExprView> },
    Postfix { operand: Box<ExprView>, op: PostfixOp },
    Member { object: Box<ExprView>, property: Box<ExprView>, computed: bool },
    Call { callee: Box<ExprView>, arguments: Seq<ExprView> },
    Ternary { condition: Box<ExprView>, consequent: Box<ExprView>, alternate: Box<ExprView> },
    Object(Seq<ObjectPropertyView>),
    Array(Seq<ExprView>),
    Arrow { params: Seq<Seq<char>>, body: Box<ExprView> },
    Assignment { target: Box<ExprView>, op: AssignOp, value: Box<ExprView> },
    Interpolation(Box<ExprView>),
}

/// What an [`ObjectProperty`] holds.
pub ghost struct ObjectPropertyView {
    pub key: Seq<char>,
    pub value: ExprView,
    pub shorthand: bool,
}

impl Expression {
    pub open spec fn view(&self) -> ExprView
        decreases self,
    {
        ExprView { kind: self.kind.view(), span: self.span }
    }
}

impl ExprKind {
    pub open spec fn view(&self) -> ExprKindView
        decreases self,
    {
        match self {
            ExprKind::Number(n) => ExprKindView::Number(n@),
            ExprKind::String(s) => ExprKindView::String(s@),
            ExprKind::Boolean(b) => ExprKindView::Boolean(*b),
            ExprKind::Null => ExprKindView::Null,
            ExprKind::Undefined => ExprKindView::Undefined,
            ExprKind::Identifier(s) => ExprKindView::Identifier(s@),
            ExprKind::Binary { left, op, right } => ExprKindView::Binary {
                left: Box::new(left.view()),
                op: *op,
                right: Box::new(right.view()),
            },
            ExprKind::Unary { op, operand } => ExprKindView::Unary {
                op: *op,
                operand: Box::new(operand.view()),
            },
            ExprKind::Postfix { operand, op } => ExprKindView::Postfix {
                operand: Box::new(operand.view()),
                op: *op,
            },
            ExprKind::Member { object, property, computed } => ExprKindView::Member {
                object: Box::new(object.view()),
                property: Box::new(property.view()),
                computed: *computed,
            },
            ExprKind::Call { callee, arguments } => ExprKindView::Call {
                callee: Box::new(callee.view()),
                arguments: expr_views(arguments@),
            },
            ExprKind::Ternary { condition, consequent, alternate } => ExprKindView::Ternary {
                condition: Box::new(condition.view()),
                consequent: Box::new(consequent.view()),
                alternate: Box::new(alternate.view()),
            },
            ExprKind::Object(props) => ExprKindView::Object(property_views(props@)),
            ExprKind::Array(items) => ExprKindView::Array(expr_views(items@)),
            ExprKind::Arrow { params, body } => ExprKindView::Arrow {
                params: crate::text::string_views(params@),
                body: Box::new(body.view()),
            },
            ExprKind::Assignment { target, op, value } => ExprKindView::Assignment {
                target: Box::new(target.view()),
                op: *op,
                value: Box::new(value.view()),
            },
            ExprKind::Interpolation(inner) => ExprKindView::Interpolation(
                Box::new(inner.view()),
            ),
        }
    }
}

impl ObjectProperty {
    pub open spec fn view(&self) -> ObjectPropertyView
        decreases self,
    {
        ObjectPropertyView { key: self.key@, value: self.value.view(), shorthand: self.shorthand }
    }
}

/// The views of a sequence of expressions.
pub open spec fn expr_views(s: Seq<Expression>) -> Seq<ExprView>
    decreases s,
{
    Seq::new(
        s.len(),
        |i: int|
            if 0 <= i < s.len() {
                s[i].view()
            } else {
                arbitrary()
            },
    )
}

/// The views of a sequence of object properties.
pub open spec fn property_views(s: Seq<ObjectProperty>) -> Seq<ObjectPropertyView>
    decreases s,
{
    Seq::new(
        s.len(),
        |i: int|
            if 0 <= i < s.len() {
                s[i].view()
            } else {
                arbitrary()
            },
    )
}

/// A copy of the names.
pub(crate) fn clone_names(names: &Vec<String>) -> (r: Vec<String>)
    ensures
        crate::text::string_views(r@) == crate::text::string_views(names@),
{
    let mut r: Vec<String> = Vec::new();
    let mut i: usize = 0;
    while i < names.len()
        invariant
            i <= names@.len(),
            crate::text::string_views(r@) == crate::text::string_views(names@).take(i as int),
        decreases names@.len() - i,
    {
        let ghost before = crate::text::string_views(r@);
        let name = names[i].clone();
        r.push(name);
        i += 1;
        proof {
            let all = crate::text::string_views(names@);
            assert(all[i - 1] == name@);
            assert(crate::text::string_views(r@) =~= before.push(name@));
            assert(all.take(i as int) =~= all.take(i - 1).push(all[i - 1]));
        }
    }
    assert(crate::text::string_views(names@).take(i as int) =~= crate::text::string_views(names@));
    r
}

fn clone_expressions(items: &Vec<Expression>) -> (r: Vec<Expression>)
    ensures
        expr_views(r@) == expr_views(items@),
    decreases items,
{
    let mut r: Vec<Expression> = Vec::new();
    let mut i: usize = 0;
    assert(expr_views(r@) =~= expr_views(items@).take(0));
    while i < items.len()
        invariant
            i <= items@.len(),
            expr_views(r@) == expr_views(items@).take(i as int),
        decreases items@.len() - i,
    {
        let item = clone_expression(&items[i]);
        proof {
            lemma_expr_views_push(r@, item);
            assert(expr_views(items@).take(i + 1) =~= expr_views(items@).take(i as int).push(
                items@[i as int]@,
            ));
        }
        r.push(item);
        i += 1;
    }
    assert(expr_views(items@).take(i as int) =~= expr_views(items@));
    r
}

fn clone_properties(items: &Vec<ObjectProperty>) -> (r: Vec<ObjectProperty>)
    ensures
        property_views(r@) == property_views(items@),
    decreases items,
{
    let mut r: Vec<ObjectProperty> = Vec::new();
    let mut i: usize = 0;
    assert(property_views(r@) =~= property_views(items@).take(0));
    while i < items.len()
        invariant
            i <= items@.len(),
            property_views(r@) == property_views(items@).take(i as int),
        decreases items@.len() - i,
    {
        let p = &items[i];
        let item = ObjectProperty {
            key: p.key.clone(),
            value: clone_expression(&p.value),
            shorthand: p.shorthand,
        };
        proof {
            assert(item@ == items@[i as int]@);
            lemma_property_views_push(r@, item);
            assert(property_views(items@).take(i + 1) =~= property_views(items@).take(
                i as int,
            ).push(items@[i as int]@));
        }
        r.push(item);
        i += 1;
    }
    assert(property_views(items@).take(i as int) =~= property_views(items@));
    r
}

fn clone_kind(kind: &ExprKind) -> (r: ExprKind)
    ensures
        r@ == kind@,
    decreases kind,
{
    match kind {
        ExprKind::Number(n) => ExprKind::Number(n.clone()),
        ExprKind::String(s) => ExprKind::String(s.clone()),
        ExprKind::Boolean(b) => ExprKind::Boolean(*b),
        ExprKind::Null => ExprKind::Null,
        ExprKind::Undefined => ExprKind::Undefined,
        ExprKind::Identifier(s) => ExprKind::Identifier(s.clone()),
        ExprKind::Binary { left, op, right } => ExprKind::Binary {
            left: Box::new(clone_expression(left)),
            op: *op,
            right: Box::new(clone_expression(right)),
        },
        ExprKind::Unary { op, operand } => ExprKind::Unary {
            op: *op,
            operand: Box::new(clone_expression(operand)),
        },
        ExprKind::Postfix { operand, op } => ExprKind::Postfix {
            operand: Box::new(clone_expression(operand)),
            op: *op,
        },
        ExprKind::Member { object, property, computed } => ExprKind::Member {
            object: Box::new(clone_expression(object)),
            property: Box::new(clone_expression(property)),
            computed: *computed,
        },
        ExprKind::Call { callee, arguments } => ExprKind::Call {
            callee: Box::new(clone_expression(callee)),
            arguments: clone_expressions(arguments),
        },
        ExprKind::Ternary { condition, consequent, alternate } => ExprKind::Ternary {
            condition: Box::new(clone_expression(condition)),
            consequent: Box::new(clone_expression(consequent)),
            alternate: Box::new(clone_expression(alternate)),
        },
        ExprKind::Object(properties) => ExprKind::Object(clone_properties(properties)),
        ExprKind::Array(items) => ExprKind::Array(clone_expressions(items)),
        ExprKind::Arrow { params, body } => ExprKind::Arrow {
            params: clone_names(params),
            body: Box::new(clone_expression(body)),
        },
        ExprKind::Assignment { target, op, value } => ExprKind::Assignment {
            target: Box::new(clone_expression(target)),
            op: *op,
            value: Box::new(clone_expression(value)),
        },
        ExprKind::Interpolation(inner) => ExprKind::Interpolation(
            Box::new(clone_expression(inner)),
        ),
    }
}

fn clone_expression(e: &Expression) -> (r: Expression)
    ensures
        r@ == e@,
    decreases e,
{
    Expression { kind: clone_kind(&e.kind), span: e.span }
}

impl Clone for Expression {
    fn clone(&self) -> (r: Self)
        ensures
            r@ == self@,
    {
        clone_expression(self)
    }
}

impl Clone for ExprKind {
    fn clone(&self) -> (r: Self)
        ensures
            r@ == self@,
    {
        clone_kind(self)
    }
}

impl Clone for ObjectProperty {
    fn clone(&self) -> (r: Self)
        ensures
            r@ == self@,
    {
        ObjectProperty {
            key: self.key.clone(),
            value: clone_expression(&self.value),
            shorthand: self.shorthand,
        }
    }
}

/// Appending an expression appends its view.
pub proof fn lemma_expr_views_push(s: Seq<Expression>, e: Expression)
    ensures
        expr_views(s.push(e)) == expr_views(s).push(e@),
{
    assert(expr_views(s.push(e)) =~= expr_views(s).push(e@));
}

/// Nothing has no views.
pub proof fn lemma_expr_views_empty()
    ensures
        expr_views(Seq::empty()) == Seq::<ExprView>::empty(),
{
    assert(expr_views(Seq::empty()) =~= Seq::<ExprView>::empty());
}

/// Appending a property appends its view.
pub proof fn lemma_property_views_push(s: Seq<ObjectProperty>, p: ObjectProperty)
    ensures
        property_views(s.push(p)) == property_views(s).push(p@),
{
    assert(property_views(s.push(p)) =~= property_views(s).push(p@));
}

/// Nothing has no views.
pub proof fn lemma_property_views_empty()
    ensures
        property_views(Seq::empty()) == Seq::<ObjectPropertyView>::empty(),
{
    assert(property_views(Seq::empty()) =~= Seq::<ObjectPropertyView>::empty());
}

// ---------------------------------------------------------------------------
// Documents
// ---------------------------------------------------------------------------
/// The three prefixes of an attribute.
#[derive(Debug, Clone, Copy, PartialEq, Eq, Structural)]
pub enum AttributePrefix {
    /// `:` state and reactivity
    State,
    /// `@` events
    Event,
    /// `$` server communication
    Server,
}

/// A whole document: its top-level nodes, in order.
#[derive(Debug, PartialEq)]
pub struct Document {
    pub nodes: Vec<Node>,
}

/// A node of the document.
#[derive(Debug, PartialEq)]
pub enum Node {
    Element(Element),
    StateBlock(StateBlock),
    ComputedBlock(ComputedBlock),
    FnDecl(FnDecl),
    Component(Component),
    /// Text, which may hold `{expr}` interpolation markers.
    Text(String),
    Comment(String),
}

/// An element: tag, classes, attributes and children, each in source order.
#[derive(Debug, PartialEq)]
pub struct Element {
    pub tag: String,
    pub classes: Vec<String>,
    pub attributes: Vec<Attribute>,
    pub children: Vec<Node>,
}

/// An attribute of an element. `modifiers` holds the dot-chained names after
/// an event's name.
#[derive(Debug, PartialEq)]
pub struct Attribute {
    pub name: String,
    pub value: Option<Expression>,
    pub prefix: Option<AttributePrefix>,
    pub modifiers: Vec<String>,
}

#[derive(Debug, PartialEq)]
pub struct StateBlock {
    pub fields: Vec<StateField>,
}

#[derive(Debug, PartialEq)]
pub struct StateField {
    pub name: String,
    pub value: Expression,
}

#[derive(Debug, PartialEq)]
pub struct ComputedBlock {
    pub fields: Vec<ComputedField>,
}

#[derive(Debug, PartialEq)]
pub struct ComputedField {
    pub name: String,
    pub body: Expression,
}

#[derive(Debug, PartialEq)]
pub struct FnDecl {
    pub name: String,
    pub params: Vec<String>,
    pub body: Vec<Expression>,
    pub is_async: bool,
}

#[derive(Debug, PartialEq)]
pub struct Component {
    pub name: String,
    pub props: Vec<PropDef>,
    pub children: Vec<Node>,
}

#[derive(Debug, PartialEq)]
pub struct PropDef {
    pub name: String,
    pub default: Option<Expression>,
}

pub ghost struct DocumentView {
    pub nodes: Seq<NodeView>,
}

pub ghost enum NodeView {
    Element(ElementView),
    StateBlock(StateBlockView),
    ComputedBlock(ComputedBlockView),
    FnDecl(FnDeclView),
    Component(ComponentView),
    Text(Seq<char>),
    Comment(Seq<char>),
}

pub ghost struct ElementView {
    pub tag: Seq<char>,
    pub classes: Seq<Seq<char>>,
    pub attributes: Seq<AttributeView>,
    pub children: Seq<NodeView>,
}

pub ghost struct AttributeView {
    pub name: Seq<char>,
    pub value: Option<ExprView>,
    pub prefix: Option<AttributePrefix>,
    pub modifiers: Seq<Seq<char>>,
}

pub ghost struct StateBlockView {
    pub fields: Seq<StateFieldView>,
}

pub ghost struct StateFieldView {
    pub name: Seq<char>,
    pub value: ExprView,
}

pub ghost struct ComputedBlockView {
    pub fields: Seq<ComputedFieldView>,
}

pub ghost struct ComputedFieldView {
    pub name: Seq<char>,
    pub body: ExprView,
}

pub ghost struct FnDeclView {
    pub name: Seq<char>,
    pub params: Seq<Seq<char>>,
    pub body: Seq<ExprView>,
    pub is_async: bool,
}

pub ghost struct ComponentView {
    pub name: Seq<char>,
    pub props: Seq<PropDefView>,
    pub children: Seq<NodeView>,
}

pub ghost struct PropDefView {
    pub name: Seq<char>,
    pub default: Option<ExprView>,
}

/// The view of an optional expression.
pub open spec fn option_view(e: Option<Expression>) -> Option<ExprView> {
    match e {
        Some(x) => Some(x@),
        None => None,
    }
}

impl View for Attribute {
    type V = AttributeView;

    open spec fn view(&self) -> AttributeView {
        AttributeView {
            name: self.name@,
            value: option_view(self.value),
            prefix: self.prefix,
            modifiers: crate::text::string_views(self.modifiers@),
        }
    }
}

impl View for StateField {
    type V = StateFieldView;

    open spec fn view(&self) -> StateFieldView {
        StateFieldView { name: self.name@, value: self.value@ }
    }
}

impl View for ComputedField {
    type V = ComputedFieldView;

    open spec fn view(&self) -> ComputedFieldView {
        ComputedFieldView { name: self.name@, body: self.body@ }
    }
}

impl View for PropDef {
    type V = PropDefView;

    open spec fn view(&self) -> PropDefView {
        PropDefView { name: self.name@, default: option_view(self.default) }
    }
}

impl View for StateBlock {
    type V = StateBlockView;

    open spec fn view(&self) -> StateBlockView {
        StateBlockView { fields: state_field_views(self.fields@) }
    }
}

impl View for ComputedBlock {
    type V = ComputedBlockView;

    open spec fn view(&self) -> ComputedBlockView {
        ComputedBlockView { fields: computed_field_views(self.fields@) }
    }
}

impl View for FnDecl {
    type V = FnDeclView;

    open spec fn view(&self) -> FnDeclView {
        FnDeclView {
            name: self.name@,
            params: crate::text::string_views(self.params@),
            body: expr_views(self.body@),
            is_async: self.is_async,
        }
    }
}

/// The views of a sequence of attributes.
pub open spec fn attribute_views(s: Seq<Attribute>) -> Seq<AttributeView> {
    Seq::new(s.len(), |i: int| s[i]@)
}

impl Node {
    pub open spec fn view(&self) -> NodeView
        decreases self,
    {
        match self {
            Node::Element(el) => NodeView::Element(el.view()),
            Node::StateBlock(sb) => NodeView::StateBlock(sb@),
            Node::ComputedBlock(cb) => NodeView::ComputedBlock(cb@),
            Node::FnDecl(f) => NodeView::FnDecl(f@),
            Node::Component(c) => NodeView::Component(c.view()),
            Node::Text(t) => NodeView::Text(t@),
            Node::Comment(t) => NodeView::Comment(t@),
        }
    }
}

impl Element {
    pub open spec fn view(&self) -> ElementView
        decreases self,
    {
        ElementView {
            tag: self.tag@,
            classes: crate::text::string_views(self.classes@),
            attributes: attribute_views(self.attributes@),
            children: node_views(self.children@),
        }
    }
}

impl Component {
    pub open spec fn view(&self) -> ComponentView
        decreases self,
    {
        ComponentView {
            name: self.name@,
            props: prop_views(self.props@),
            children: node_views(self.children@),
        }
    }
}

/// The views of a sequence of nodes.
pub open spec fn node_views(s: Seq<Node>) -> Seq<NodeView>
    decreases s,
{
    Seq::new(
        s.len(),
        |i: int|
            if 0 <= i < s.len() {
                s[i].view()
            } else {
                arbitrary()
            },
    )
}

impl Document {
    pub open spec fn view(&self) -> DocumentView {
        DocumentView { nodes: node_views(self.nodes@) }
    }
}

/// Appends `name` to `names`.
pub(crate) fn push_name(names: &mut Vec<String>, name: String)
    ensures
        crate::text::string_views(final(names)@) == crate::text::string_views(old(names)@).push(
            name@,
        ),
{
    let ghost before = crate::text::string_views(names@);
    names.push(name);
    assert(crate::text::string_views(names@) =~= before.push(name@));
}

/// Appends `attribute` to `attributes`.
pub(crate) fn push_attribute(attributes: &mut Vec<Attribute>, attribute: Attribute)
    ensures
        attribute_views(final(attributes)@) == attribute_views(old(attributes)@).push(attribute@),
{
    let ghost before = attribute_views(attributes@);
    attributes.push(attribute);
    assert(attribute_views(attributes@) =~= before.push(attribute@));
}

/// Appends `node` to `nodes`.
pub(crate) fn push_node(nodes: &mut Vec<Node>, node: Node)
    ensures
        node_views(final(nodes)@) == node_views(old(nodes)@).push(node@),
{
    proof {
        lemma_node_views_push(nodes@, node);
    }
    nodes.push(node);
}

/// The views of the fields of a state block.
pub open spec fn state_field_views(s: Seq<StateField>) -> Seq<StateFieldView> {
    Seq::new(s.len(), |i: int| s[i]@)
}

/// The views of the fields of a computed block.
pub open spec fn computed_field_views(s: Seq<ComputedField>) -> Seq<ComputedFieldView> {
    Seq::new(s.len(), |i: int| s[i]@)
}

/// Appends `field` to `fields`.
pub(crate) fn push_state_field(fields: &mut Vec<StateField>, field: StateField)
    ensures
        state_field_views(final(fields)@) == state_field_views(old(fields)@).push(field@),
{
    let ghost before = state_field_views(fields@);
    fields.push(field);
    assert(state_field_views(fields@) =~= before.push(field@));
}

/// Appends `field` to `fields`.
pub(crate) fn push_computed_field(fields: &mut Vec<ComputedField>, field: ComputedField)
    ensures
        computed_field_views(final(fields)@) == computed_field_views(old(fields)@).push(field@),
{
    let ghost before = computed_field_views(fields@);
    fields.push(field);
    assert(computed_field_views(fields@) =~= before.push(field@));
}

fn clone_value(value: &Option<Expression>) -> (r: Option<Expression>)
    ensures
        option_view(r) == option_view(*value),
{
    match value {
        Some(e) => Some(clone_expression(e)),
        None => None,
    }
}

impl Clone for Attribute {
    fn clone(&self) -> (r: Self)
        ensures
            r@ == self@,
    {
        Attribute {
            name: self.name.clone(),
            value: clone_value(&self.value),
            prefix: self.prefix,
            modifiers: clone_names(&self.modifiers),
        }
    }
}

impl Clone for StateField {
    fn clone(&self) -> (r: Self)
        ensures
            r@ == self@,
    {
        StateField { name: self.name.clone(), value: clone_expression(&self.value) }
    }
}

impl Clone for ComputedField {
    fn clone(&self) -> (r: Self)
        ensures
            r@ == self@,
    {
        ComputedField { name: self.name.clone(), body: clone_expression(&self.body) }
    }
}

impl Clone for PropDef {
    fn clone(&self) -> (r: Self)
        ensures
            r@ == self@,
    {
        PropDef { name: self.name.clone(), default: clone_value(&self.default) }
    }
}

impl Clone for StateBlock {
    fn clone(&self) -> (r: Self)
        ensures
            r@ == self@,
    {
        let mut fields: Vec<StateField> = Vec::new();
        let mut i: usize = 0;
        assert(state_field_views(fields@) =~= state_field_views(self.fields@).take(0));
        while i < self.fields.len()
            invariant
                i <= self.fields@.len(),
                state_field_views(fields@) == state_field_views(self.fields@).take(i as int),
            decreases self.fields@.len() - i,
        {
            push_state_field(&mut fields, self.fields[i].clone());
            i += 1;
            assert(state_field_views(self.fields@).take(i as int) =~= state_field_views(
                self.fields@,
            ).take(i - 1).push(self.fields@[i - 1]@));
        }
        assert(state_field_views(self.fields@).take(i as int) =~= state_field_views(self.fields@));
        StateBlock { fields }
    }
}

impl Clone for ComputedBlock {
    fn clone(&self) -> (r: Self)
        ensures
            r@ == self@,
    {
        let mut fields: Vec<ComputedField> = Vec::new();
        let mut i: usize = 0;
        assert(computed_field_views(fields@) =~= computed_field_views(self.fields@).take(0));
        while i < self.fields.len()
            invariant
                i <= self.fields@.len(),
                computed_field_views(fields@) == computed_field_views(self.fields@).take(i as int),
            decreases self.fields@.len() - i,
        {
            push_computed_field(&mut fields, self.fields[i].clone());
            i += 1;
            assert(computed_field_views(self.fields@).take(i as int) =~= computed_field_views(
                self.fields@,
            ).take(i - 1).push(self.fields@[i - 1]@));
        }
        assert(computed_field_views(self.fields@).take(i as int) =~= computed_field_views(
            self.fields@,
        ));
        ComputedBlock { fields }
    }
}

impl Clone for FnDecl {
    fn clone(&self) -> (r: Self)
        ensures
            r@ == self@,
    {
        FnDecl {
            name: self.name.clone(),
            params: clone_names(&self.params),
            body: clone_expressions(&self.body),
            is_async: self.is_async,
        }
    }
}

/// The views of the properties of a component.
pub open spec fn prop_views(s: Seq<PropDef>) -> Seq<PropDefView> {
    Seq::new(s.len(), |i: int| s[i]@)
}

fn clone_props(items: &Vec<PropDef>) -> (r: Vec<PropDef>)
    ensures
        prop_views(r@) == prop_views(items@),
{
    let mut r: Vec<PropDef> = Vec::new();
    let mut i: usize = 0;
    assert(prop_views(r@) =~= prop_views(items@).take(0));
    while i < items.len()
        invariant
            i <= items@.len(),
            prop_views(r@) == prop_views(items@).take(i as int),
        decreases items@.len() - i,
    {
        let ghost before = prop_views(r@);
        let item = items[i].clone();
        r.push(item);
        i += 1;
        assert(prop_views(r@) =~= before.push(item@));
        assert(prop_views(items@).take(i as int) =~= prop_views(items@).take(i - 1).push(
            items@[i - 1]@,
        ));
    }
    assert(prop_views(items@).take(i as int) =~= prop_views(items@));
    r
}

fn clone_attributes(items: &Vec<Attribute>) -> (r: Vec<Attribute>)
    ensures
        attribute_views(r@) == attribute_views(items@),
{
    let mut r: Vec<Attribute> = Vec::new();
    let mut i: usize = 0;
    assert(attribute_views(r@) =~= attribute_views(items@).take(0));
    while i < items.len()
        invariant
            i <= items@.len(),
            attribute_views(r@) == attribute_views(items@).take(i as int),
        decreases items@.len() - i,
    {
        push_attribute(&mut r, items[i].clone());
        i += 1;
        assert(attribute_views(items@).take(i as int) =~= attribute_views(items@).take(i - 1).push(
            items@[i - 1]@,
        ));
    }
    assert(attribute_views(items@).take(i as int) =~= attribute_views(items@));
    r
}

fn clone_nodes(items: &Vec<Node>) -> (r: Vec<Node>)
    ensures
        node_views(r@) == node_views(items@),
    decreases items,
{
    let mut r: Vec<Node> = Vec::new();
    let mut i: usize = 0;
    assert(node_views(r@) =~= node_views(items@).take(0));
    while i < items.len()
        invariant
            i <= items@.len(),
            node_views(r@) == node_views(items@).take(i as int),
        decreases items@.len() - i,
    {
        let item = clone_node(&items[i]);
        push_node(&mut r, item);
        i += 1;
        assert(node_views(items@).take(i as int) =~= node_views(items@).take(i - 1).push(
            items@[i - 1]@,
        ));
    }
    assert(node_views(items@).take(i as int) =~= node_views(items@));
    r
}

fn clone_element(el: &Element) -> (r: Element)
    ensures
        r@ == el@,
    decreases el,
{
    Element {
        tag: el.tag.clone(),
        classes: clone_names(&el.classes),
        attributes: clone_attributes(&el.attributes),
        children: clone_nodes(&el.children),
    }
}

fn clone_node(node: &Node) -> (r: Node)
    ensures
        r@ == node@,
    decreases node,
{
    match node {
        Node::Element(el) => Node::Element(clone_element(el)),
        Node::StateBlock(block) => Node::StateBlock(block.clone()),
        Node::ComputedBlock(block) => Node::ComputedBlock(block.clone()),
        Node::FnDecl(f) => Node::FnDecl(f.clone()),
        Node::Component(c) => Node::Component(
            Component {
                name: c.name.clone(),
                props: clone_props(&c.props),
                children: clone_nodes(&c.children),
            },
        ),
        Node::Text(t) => Node::Text(t.clone()),
        Node::Comment(t) => Node::Comment(t.clone()),
    }
}

impl Clone for Node {
    fn clone(&self) -> (r: Self)
        ensures
            r@ == self@,
    {
        clone_node(self)
    }
}

impl Clone for Component {
    fn clone(&self) -> (r: Self)
        ensures
            r@ == self@,
    {
        Component {
            name: self.name.clone(),
            props: clone_props(&self.props),
            children: clone_nodes(&self.children),
        }
    }
}

impl Clone for Document {
    fn clone(&self) -> (r: Self)
        ensures
            r@ == self@,
    {
        Document { nodes: clone_nodes(&self.nodes) }
    }
}

impl Clone for Element {
    fn clone(&self) -> (r: Self)
        ensures
            r@ == self@,
    {
        clone_element(self)
    }
}

/// Appending a node appends its view.
pub proof fn lemma_node_views_push(s: Seq<Node>, n: Node)
    ensures
        node_views(s.push(n)) == node_views(s).push(n@),
{
    assert(node_views(s.push(n)) =~= node_views(s).push(n@));
}

} // verus!
