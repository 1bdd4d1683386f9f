//! Expression trees and their evaluation.
//!
//! Arithmetic on numbers is done by an arithmetic unit that the caller hands
//! in: a function from an operator and two bit patterns to the pattern of
//! the result. Everything else is decided here.
pub mod binary;
pub mod literal;
pub mod unary;

use crate::expression::binary::{
    ArithmeticOperator, BinaryExpression, BinaryOperation, BinaryOperator,
};
use crate::expression::literal::{computes, unit_ready, viewed, Arithmetic, Value, ValueView};
use crate::expression::unary::{UnaryExpression, UnaryNodeOperator, UnaryOperator};
use crate::number::{show_ready, shows, NumberText};
use crate::token::StringValue;
use core::ops::ControlFlow;
use vstd::prelude::*;
use vstd::string::*;

verus! {

/// An operator and the symbol that it shows as.
pub trait OperatorNode {
    spec fn symbol(&self) -> Seq<char>;

    fn to_string(&self) -> (r: String)
        ensures
            r@ == self.symbol(),
    ;
}

/// An expression: a value, an operator on one or two expressions, or an
/// expression in parentheses.
#[derive(Debug)]
#[allow(inconsistent_fields)]
pub enum Node {
    Literal(Value),
    Unary { operand: Box<Node>, operator: UnaryOperator },
    Binary { operand_a: Box<Node>, operand_b: Box<Node>, operator: BinaryOperation },
    Grouping(Box<Node>),
}

impl Node {
    /// The value of the expression, with `unit` for the arithmetic; `None`
    /// where the evaluation fails.
    ///
    /// A literal has its own value and a grouping that of what is inside it.
    /// An operator node takes the values of its operands from left to right,
    /// fails where one of them fails, and else has what its operator yields
    /// on them.
    pub open spec fn value(&self, unit: Arithmetic) -> Option<ValueView>
        decreases self,
    {
        match self {
            Node::Literal(value) => Some(value@),
            Node::Grouping(inner) => inner.value(unit),
            Node::Unary { operand, operator } => match operand.value(unit) {
                Some(a) => operator.applied(a),
                None => None,
            },
            Node::Binary { operand_a, operand_b, operator } => match operand_a.value(unit) {
                Some(a) => match operand_b.value(unit) {
                    Some(b) => operator.applied(a, b, unit),
                    None => None,
                },
                None => None,
            },
        }
    }
}

/// Something that evaluates to a result, or fails.
pub trait Expression {
    type Output;

    /// Whether `out` is a result of the evaluation; `None` stands for an
    /// evaluation that fails.
    spec fn evaluation(&self, unit: Arithmetic, out: Option<Self::Output>) -> bool;

    fn eval<F: Fn(ArithmeticOperator, u32, u32) -> u32>(&self, unit: &F) -> (r: Option<
        Self::Output,
    >)
        requires
            unit_ready(unit),
        ensures
            self.evaluation(computes(unit), r),
    ;
}

/// Evaluation in steps: a step either ends with the result or names what is
/// to be reduced next, and `evaluate` takes steps until one ends.
pub trait ExpressionStep {
    type Output;

    type Next;

    /// Whether `out` is a result of the evaluation; `None` stands for an
    /// evaluation that fails.
    spec fn outcome(&self, unit: Arithmetic, out: Option<Self::Output>) -> bool;

    /// One step. It always ends the evaluation: nothing as yet asks for a
    /// further expression to be reduced.
    fn step<F: Fn(ArithmeticOperator, u32, u32) -> u32>(&self, unit: &F) -> (r: Option<
        ControlFlow<Self::Output, Self::Next>,
    >)
        requires
            unit_ready(unit),
        ensures
            match r {
                Some(ControlFlow::Break(value)) => self.outcome(computes(unit), Some(value)),
                Some(ControlFlow::Continue(_)) => false,
                None => self.outcome(computes(unit), None),
            },
    ;

    fn evaluate<F: Fn(ArithmeticOperator, u32, u32) -> u32>(&self, unit: &F) -> (r: Option<
        Self::Output,
    >)
        requires
            unit_ready(unit),
        ensures
            self.outcome(computes(unit), r),
    ;
}

/// Evaluation in steps, under its other name.
pub trait Evaluate {
    type Output;

    type Next;

    /// Whether `out` is a result of the evaluation; `None` stands for an
    /// evaluation that fails.
    spec fn settled(&self, unit: Arithmetic, out: Option<Self::Output>) -> bool;

    /// One step. It always ends the evaluation.
    fn next<F: Fn(ArithmeticOperator, u32, u32) -> u32>(&self, unit: &F) -> (r: Option<
        ControlFlow<Self::Output, Self::Next>,
    >)
        requires
            unit_ready(unit),
        ensures
            match r {
                Some(ControlFlow::Break(value)) => self.settled(computes(unit), Some(value)),
                Some(ControlFlow::Continue(_)) => false,
                None => self.settled(computes(unit), None),
            },
    ;

    fn finish<F: Fn(ArithmeticOperator, u32, u32) -> u32>(&self, unit: &F) -> (r: Option<
        Self::Output,
    >)
        requires
            unit_ready(unit),
        ensures
            self.settled(computes(unit), r),
    ;
}

impl ExpressionStep for Value {
    type Output = Value;

    type Next = Node;

    /// A value evaluates to itself.
    open spec fn outcome(&self, unit: Arithmetic, out: Option<Value>) -> bool {
        out == Some(*self)
    }

    fn step<F: Fn(ArithmeticOperator, u32, u32) -> u32>(&self, unit: &F) -> (r: Option<
        ControlFlow<Value, Node>,
    >) {
        Some(ControlFlow::Break(self.duplicate()))
    }

    fn evaluate<F: Fn(ArithmeticOperator, u32, u32) -> u32>(&self, unit: &F) -> (r: Option<
        Value,
    >) {
        match self.step(unit) {
            Some(ControlFlow::Break(value)) => Some(value),
            _ => None,
        }
    }
}

impl ExpressionStep for Node {
    type Output = Value;

    type Next = Node;

    open spec fn outcome(&self, unit: Arithmetic, out: Option<Value>) -> bool {
        viewed(out) == self.value(unit)
    }

    fn step<F: Fn(ArithmeticOperator, u32, u32) -> u32>(&self, unit: &F) -> (r: Option<
        ControlFlow<Value, Node>,
    >)
        decreases self, 0nat,
    {
        match self {
            Node::Grouping(inner) => inner.step(unit),
            Node::Unary { operand, operator } => {
                let value = match operand.evaluate(unit) {
                    Some(value) => value,
                    None => {
                        return None;
                    },
                };
                operator.identity(value)
            },
            Node::Binary { operand_a, operand_b, operator } => {
                let a = match operand_a.evaluate(unit) {
                    Some(a) => a,
                    None => {
                        return None;
                    },
                };
                let b = match operand_b.evaluate(unit) {
                    Some(b) => b,
                    None => {
                        return None;
                    },
                };
                operator.identity(a, b, unit)
            },
            Node::Literal(value) => match value.evaluate(unit) {
                Some(value) => Some(ControlFlow::Break(value)),
                None => None,
            },
        }
    }

    fn evaluate<F: Fn(ArithmeticOperator, u32, u32) -> u32>(&self, unit: &F) -> (r: Option<
        Value,
    >)
        decreases self, 1nat,
    {
        match self.step(unit) {
            Some(ControlFlow::Continue(next)) => next.evaluate(unit),
            Some(ControlFlow::Break(value)) => Some(value),
            None => None,
        }
    }
}

impl Expression for Node {
    type Output = Value;

    open spec fn evaluation(&self, unit: Arithmetic, out: Option<Value>) -> bool {
        viewed(out) == self.value(unit)
    }

    fn eval<F: Fn(ArithmeticOperator, u32, u32) -> u32>(&self, unit: &F) -> (r: Option<Value>) {
        match self.step(unit) {
            Some(ControlFlow::Continue(next)) => next.evaluate(unit),
            Some(ControlFlow::Break(value)) => Some(value),
            None => None,
        }
    }
}

impl Evaluate for Node {
    type Output = Value;

    type Next = Node;

    open spec fn settled(&self, unit: Arithmetic, out: Option<Value>) -> bool {
        viewed(out) == self.value(unit)
    }

    fn next<F: Fn(ArithmeticOperator, u32, u32) -> u32>(&self, unit: &F) -> (r: Option<
        ControlFlow<Value, Node>,
    >)
        decreases self,
    {
        match self {
            Node::Grouping(inner) => inner.next(unit),
            Node::Literal(value) => Some(ControlFlow::Break(value.duplicate())),
            Node::Unary { operand, operator } => {
                let value = match &**operand {
                    Node::Literal(value) => Some(value.duplicate()),
                    other => other.evaluate(unit),
                };
                assert(viewed(value) == operand.value(computes(unit)));
                match value {
                    Some(value) => operator.identity(value),
                    None => None,
                }
            },
            Node::Binary { operand_a, operand_b, operator } => {
                let a = match &**operand_a {
                    Node::Literal(a) => Some(a.duplicate()),
                    other => other.evaluate(unit),
                };
                assert(viewed(a) == operand_a.value(computes(unit)));
                match a {
                    Some(a) => {
                        let b = operand_b.evaluate(unit);
                        match b {
                            Some(b) => operator.identity(a, b, unit),
                            None => None,
                        }
                    },
                    None => None,
                }
            },
        }
    }

    fn finish<F: Fn(ArithmeticOperator, u32, u32) -> u32>(&self, unit: &F) -> (r: Option<
        Value,
    >) {
        match self.next(unit) {
            Some(ControlFlow::Continue(next)) => next.evaluate(unit),
            Some(ControlFlow::Break(value)) => Some(value),
            None => None,
        }
    }
}

impl Node {
    pub fn binary(b: BinaryExpression) -> (r: Node)
        ensures
            r == (Node::Binary {
                operand_a: Box::new(b.operand_a),
                operand_b: Box::new(b.operand_b),
                operator: b.operator,
            }),
    {
        b.into_node()
    }

    pub fn plus(a: Node, b: Node) -> (r: Node)
        ensures
            r == (Node::Binary {
                operand_a: Box::new(a),
                operand_b: Box::new(b),
                operator: BinaryOperation::Arithmetic(ArithmeticOperator::Plus),
            }),
    {
        ArithmeticOperator::Plus.express(a, b).into_node()
    }

    pub fn minus(a: Node, b: Node) -> (r: Node)
        ensures
            r == (Node::Binary {
                operand_a: Box::new(a),
                operand_b: Box::new(b),
                operator: BinaryOperation::Arithmetic(ArithmeticOperator::Minus),
            }),
    {
        ArithmeticOperator::Minus.express(a, b).into_node()
    }

    pub fn divides(a: Node, b: Node) -> (r: Node)
        ensures
            r == (Node::Binary {
                operand_a: Box::new(a),
                operand_b: Box::new(b),
                operator: BinaryOperation::Arithmetic(ArithmeticOperator::Divides),
            }),
    {
        ArithmeticOperator::Divides.express(a, b).into_node()
    }

    pub fn times(a: Node, b: Node) -> (r: Node)
        ensures
            r == (Node::Binary {
                operand_a: Box::new(a),
                operand_b: Box::new(b),
                operator: BinaryOperation::Arithmetic(ArithmeticOperator::Times),
            }),
    {
        ArithmeticOperator::Times.express(a, b).into_node()
    }

    pub fn literal_value(value: Value) -> (r: Node)
        ensures
            r == Node::Literal(value),
    {
        Node::Literal(value)
    }

    /// The literal of the number with the bit pattern `value`.
    pub fn number(value: u32) -> (r: Node)
        ensures
            r == Node::Literal(Value::Number(value)),
    {
        Node::literal_value(Value::Number(value))
    }

    pub fn negation(a: Node) -> (r: Node)
        ensures
            r == (Node::Unary { operand: Box::new(a), operator: UnaryOperator::Neg }),
    {
        UnaryOperator::Neg.express(a).into_node()
    }

    pub fn inversion(a: Node) -> (r: Node)
        ensures
            r == (Node::Unary { operand: Box::new(a), operator: UnaryOperator::Not }),
    {
        UnaryOperator::Not.express(a).into_node()
    }

    pub fn as_literal(&self) -> (r: Option<&Value>)
        ensures
            r == match self {
                Node::Literal(value) => Some(value),
                _ => None,
            },
    {
        match self {
            Node::Literal(value) => Some(value),
            _ => None,
        }
    }

    pub fn as_bool(&self) -> (r: Option<bool>)
        ensures
            r == match self {
                Node::Literal(Value::Boolean(truth)) => Some(*truth),
                _ => None,
            },
    {
        match self.as_literal() {
            Some(value) => value.as_bool(),
            None => None,
        }
    }

    /// The sum of two expressions, as an expression.
    pub fn add(self, rhs: Node) -> (r: Node)
        ensures
            r == (Node::Binary {
                operand_a: Box::new(self),
                operand_b: Box::new(rhs),
                operator: BinaryOperation::Arithmetic(ArithmeticOperator::Plus),
            }),
    {
        ArithmeticOperator::Plus.express(self, rhs).into_node()
    }

    pub fn added_to_expression(self, rhs_expr: Node) -> (r: Node)
        ensures
            r == (Node::Binary {
                operand_a: Box::new(self),
                operand_b: Box::new(rhs_expr),
                operator: BinaryOperation::Arithmetic(ArithmeticOperator::Plus),
            }),
    {
        ArithmeticOperator::Plus.express(self, rhs_expr).into_node()
    }
}

impl From<Value> for Node {
    fn from(value: Value) -> (r: Node) {
        Node::Literal(value)
    }
}

impl vstd::std_specs::convert::FromSpecImpl<Value> for Node {
    open spec fn obeys_from_spec() -> bool {
        true
    }

    open spec fn from_spec(value: Value) -> Node {
        Node::Literal(value)
    }
}

impl From<StringValue> for Node {
    fn from(value: StringValue) -> (r: Node) {
        Node::Literal(Value::String(value))
    }
}

impl vstd::std_specs::convert::FromSpecImpl<StringValue> for Node {
    open spec fn obeys_from_spec() -> bool {
        true
    }

    open spec fn from_spec(value: StringValue) -> Node {
        Node::Literal(Value::String(value))
    }
}

impl From<bool> for Node {
    fn from(value: bool) -> (r: Node) {
        Node::Literal(Value::Boolean(value))
    }
}

impl vstd::std_specs::convert::FromSpecImpl<bool> for Node {
    open spec fn obeys_from_spec() -> bool {
        true
    }

    open spec fn from_spec(value: bool) -> Node {
        Node::Literal(Value::Boolean(value))
    }
}

impl From<BinaryExpression> for Node {
    fn from(value: BinaryExpression) -> (r: Node) {
        Node::Binary {
            operand_a: Box::new(value.operand_a),
            operand_b: Box::new(value.operand_b),
            operator: value.operator,
        }
    }
}

impl vstd::std_specs::convert::FromSpecImpl<BinaryExpression> for Node {
    open spec fn obeys_from_spec() -> bool {
        true
    }

    open spec fn from_spec(value: BinaryExpression) -> Node {
        Node::Binary {
            operand_a: Box::new(value.operand_a),
            operand_b: Box::new(value.operand_b),
            operator: value.operator,
        }
    }
}

impl From<UnaryExpression> for Node {
    fn from(value: UnaryExpression) -> (r: Node) {
        Node::Unary { operand: Box::new(value.operand), operator: value.operator }
    }
}

impl vstd::std_specs::convert::FromSpecImpl<UnaryExpression> for Node {
    open spec fn obeys_from_spec() -> bool {
        true
    }

    open spec fn from_spec(value: UnaryExpression) -> Node {
        Node::Unary { operand: Box::new(value.operand), operator: value.operator }
    }
}

impl<'a> From<&'a str> for Node {
    fn from(value: &'a str) -> (r: Node)
        ensures
            r is Literal,
            r->Literal_0@ == ValueView::String(value@),
    {
        Node::Literal(Value::String(StringValue::from(value)))
    }
}

/// The conversion allocates, so its result is stated by its view.
impl<'a> vstd::std_specs::convert::FromSpecImpl<&'a str> for Node {
    open spec fn obeys_from_spec() -> bool {
        false
    }

    open spec fn from_spec(value: &'a str) -> Node {
        arbitrary()
    }
}

/// The value that a literal node holds; nothing for a missing node or for
/// one that is no literal.
pub open spec fn literal_of(node: Option<Node>) -> Option<ValueView> {
    match node {
        Some(Node::Literal(value)) => Some(value@),
        _ => None,
    }
}

impl Node {
    /// The tree on one line: a literal as its value shows, a grouping in
    /// parentheses behind its name, a unary operator behind its operand, a
    /// binary operator between its operands.
    pub open spec fn shown(&self, show: NumberText) -> Seq<char>
        decreases self,
    {
        match self {
            Node::Literal(value) => value@.shown(show),
            Node::Grouping(inner) => "GroupingExpression("@ + inner.shown(show) + ")"@,
            Node::Unary { operand, operator } => operand.shown(show) + operator.symbol(),
            Node::Binary { operand_a, operand_b, operator } => operand_a.shown(show) + " "@
                + operator.symbol() + " "@ + operand_b.shown(show),
        }
    }

    /// The tree as text; `show` prints a number.
    pub fn to_string<S: Fn(u32) -> String>(&self, show: &S) -> (r: String)
        requires
            show_ready(show),
        ensures
            r@ == self.shown(shows(show)),
        decreases self,
    {
        match self {
            Node::Literal(value) => value.to_string(show),
            Node::Grouping(inner) => {
                let mut out = "GroupingExpression(".to_owned();
                let inside = inner.to_string(show);
                out.append(inside.as_str());
                out.append(")");
                out
            },
            Node::Unary { operand, operator } => {
                let mut out = operand.to_string(show);
                let symbol = operator.to_string();
                out.append(symbol.as_str());
                out
            },
            Node::Binary { operand_a, operand_b, operator } => {
                let mut out = operand_a.to_string(show);
                let symbol = operator.to_string();
                let right = operand_b.to_string(show);
                out.append(" ");
                out.append(symbol.as_str());
                out.append(" ");
                out.append(right.as_str());
                out
            },
        }
    }

    /// The value of `self`, then of `rhs`, and the arithmetic operator
    /// `kind` on them.
    pub open spec fn combined(
        self,
        rhs: Node,
        kind: ArithmeticOperator,
        unit: Arithmetic,
    ) -> Option<ValueView> {
        match self.value(unit) {
            Some(a) => match rhs.value(unit) {
                Some(b) => a.arithmetic(b, kind, unit),
                None => None,
            },
            None => None,
        }
    }

    /// Evaluates both expressions and applies the arithmetic operator.
    fn combine<F: Fn(ArithmeticOperator, u32, u32) -> u32>(
        self,
        rhs: Node,
        kind: ArithmeticOperator,
        unit: &F,
    ) -> (r: Option<Value>)
        requires
            unit_ready(unit),
        ensures
            viewed(r) == self.combined(rhs, kind, computes(unit)),
    {
        match self.evaluate(unit) {
            Some(a) => match rhs.evaluate(unit) {
                Some(b) => a.arithmetic(b, kind, unit),
                None => None,
            },
            None => None,
        }
    }

    /// The difference of the two values, as a literal.
    pub fn sub<F: Fn(ArithmeticOperator, u32, u32) -> u32>(self, rhs: Node, unit: &F) -> (r:
        Option<Node>)
        requires
            unit_ready(unit),
        ensures
            r is Some ==> r->Some_0 is Literal,
            literal_of(r) == self.combined(rhs, ArithmeticOperator::Minus, computes(unit)),
    {
        match self.combine(rhs, ArithmeticOperator::Minus, unit) {
            Some(value) => Some(Node::Literal(value)),
            None => None,
        }
    }

    /// The quotient of the two values, as a literal.
    pub fn div<F: Fn(ArithmeticOperator, u32, u32) -> u32>(self, rhs: Node, unit: &F) -> (r:
        Option<Node>)
        requires
            unit_ready(unit),
        ensures
            r is Some ==> r->Some_0 is Literal,
            literal_of(r) == self.combined(rhs, ArithmeticOperator::Divides, computes(unit)),
    {
        match self.combine(rhs, ArithmeticOperator::Divides, unit) {
            Some(value) => Some(Node::Literal(value)),
            None => None,
        }
    }

    /// The product of the two values, as a literal.
    pub fn mul<F: Fn(ArithmeticOperator, u32, u32) -> u32>(self, rhs: Node, unit: &F) -> (r:
        Option<Node>)
        requires
            unit_ready(unit),
        ensures
            r is Some ==> r->Some_0 is Literal,
            literal_of(r) == self.combined(rhs, ArithmeticOperator::Times, computes(unit)),
    {
        match self.combine(rhs, ArithmeticOperator::Times, unit) {
            Some(value) => Some(Node::Literal(value)),
            None => None,
        }
    }

    /// The value of the expression plus `rhs`.
    pub fn add_value<F: Fn(ArithmeticOperator, u32, u32) -> u32>(self, rhs: Value, unit: &F) -> (r:
        Option<Value>)
        requires
            unit_ready(unit),
        ensures
            viewed(r) == match self.value(computes(unit)) {
                Some(a) => a.arithmetic(rhs@, ArithmeticOperator::Plus, computes(unit)),
                None => None,
            },
    {
        match self.evaluate(unit) {
            Some(a) => a.add(rhs, unit),
            None => None,
        }
    }

    /// The negated value of the expression, where that is a number.
    pub fn neg<F: Fn(ArithmeticOperator, u32, u32) -> u32>(self, unit: &F) -> (r: Option<u32>)
        requires
            unit_ready(unit),
        ensures
            r == match self.value(computes(unit)) {
                Some(a) => a.negation(),
                None => None,
            },
    {
        match self.evaluate(unit) {
            Some(a) => a.neg(),
            None => None,
        }
    }

    /// Whether the value of the expression counts as false.
    pub fn not<F: Fn(ArithmeticOperator, u32, u32) -> u32>(self, unit: &F) -> (r: Option<bool>)
        requires
            unit_ready(unit),
        ensures
            r == match self.value(computes(unit)) {
                Some(a) => Some(a.falsy()),
                None => None,
            },
    {
        match self.evaluate(unit) {
            Some(a) => Some(a.not()),
            None => None,
        }
    }

    /// Whether both expressions have a value and the two values are equal.
    pub fn eq<F: Fn(ArithmeticOperator, u32, u32) -> u32>(&self, other: &Node, unit: &F) -> (r:
        bool)
        requires
            unit_ready(unit),
        ensures
            r == match (self.value(computes(unit)), other.value(computes(unit))) {
                (Some(a), Some(b)) => a.equals(b),
                _ => false,
            },
    {
        match self.evaluate(unit) {
            Some(a) => a.equals_node(other, unit),
            None => false,
        }
    }
}

impl Value {
    /// Whether `other` has a value and it equals `self`.
    pub fn equals_node<F: Fn(ArithmeticOperator, u32, u32) -> u32>(
        &self,
        other: &Node,
        unit: &F,
    ) -> (r: bool)
        requires
            unit_ready(unit),
        ensures
            r == match other.value(computes(unit)) {
                Some(b) => self@.equals(b),
                None => false,
            },
    {
        match other.evaluate(unit) {
            Some(b) => self.equals(&b),
            None => false,
        }
    }

    /// The arithmetic operator `kind` on `self` and the value of `rhs`, as a
    /// literal.
    pub fn arithmetic_node<F: Fn(ArithmeticOperator, u32, u32) -> u32>(
        self,
        rhs: Node,
        kind: ArithmeticOperator,
        unit: &F,
    ) -> (r: Option<Node>)
        requires
            unit_ready(unit),
        ensures
            r is Some ==> r->Some_0 is Literal,
            literal_of(r) == match rhs.value(computes(unit)) {
                Some(b) => self@.arithmetic(b, kind, computes(unit)),
                None => None,
            },
    {
        match rhs.evaluate(unit) {
            Some(b) => match self.arithmetic(b, kind, unit) {
                Some(value) => Some(Node::Literal(value)),
                None => None,
            },
            None => None,
        }
    }
}

impl ExpressionStep for ControlFlow<Value, Node> {
    type Output = Value;

    type Next = Node;

    /// A final value is the result; an expression that is still to be
    /// reduced has its value as the result.
    open spec fn outcome(&self, unit: Arithmetic, out: Option<Value>) -> bool {
        match self {
            ControlFlow::Break(value) => out == Some(*value),
            ControlFlow::Continue(next) => viewed(out) == next.value(unit),
        }
    }

    fn step<F: Fn(ArithmeticOperator, u32, u32) -> u32>(&self, unit: &F) -> (r: Option<
        ControlFlow<Value, Node>,
    >) {
        match self {
            ControlFlow::Break(value) => Some(ControlFlow::Break(value.duplicate())),
            ControlFlow::Continue(next) => match next.eval(unit) {
                Some(value) => value.step(unit),
                None => None,
            },
        }
    }

    fn evaluate<F: Fn(ArithmeticOperator, u32, u32) -> u32>(&self, unit: &F) -> (r: Option<
        Value,
    >) {
        match self.step(unit) {
            Some(ControlFlow::Break(value)) => Some(value),
            _ => None,
        }
    }
}

impl<T: Expression + Copy> Expression for Option<T> {
    type Output = T;

    /// An expression that may be missing evaluates to itself, and fails
    /// where it is missing.
    open spec fn evaluation(&self, unit: Arithmetic, out: Option<T>) -> bool {
        out == *self
    }

    fn eval<F: Fn(ArithmeticOperator, u32, u32) -> u32>(&self, unit: &F) -> (r: Option<T>) {
        match self {
            Some(value) => Some(*value),
            None => None,
        }
    }
}

/// The variant of a value.
pub enum ValueType {
    Number,
    Text,
    Boolean,
}

impl ValueView {
    pub open spec fn value_type(self) -> ValueType {
        match self {
            ValueView::Number(_) => ValueType::Number,
            ValueView::String(_) => ValueType::Text,
            ValueView::Boolean(_) => ValueType::Boolean,
        }
    }
}

impl Node {
    /// The type of the expression, or `None` where it is ill-typed: an
    /// arithmetic operator wants two numbers, negation wants a number, an
    /// order operator wants two values of one type, and the others take
    /// anything.
    pub open spec fn value_type(&self) -> Option<ValueType>
        decreases self,
    {
        match self {
            Node::Literal(value) => Some(value@.value_type()),
            Node::Grouping(inner) => inner.value_type(),
            Node::Unary { operand, operator } => match (operand.value_type(), operator) {
                (Some(_), UnaryOperator::Not) => Some(ValueType::Boolean),
                (Some(ValueType::Number), UnaryOperator::Neg) => Some(ValueType::Number),
                _ => None,
            },
            Node::Binary { operand_a, operand_b, operator } => match (
                operand_a.value_type(),
                operand_b.value_type(),
            ) {
                (Some(a), Some(b)) => match operator {
                    BinaryOperation::Arithmetic(_) => if a == ValueType::Number && b
                        == ValueType::Number {
                        Some(ValueType::Number)
                    } else {
                        None
                    },
                    BinaryOperation::Equality(_) => Some(ValueType::Boolean),
                    BinaryOperation::Relation(_) => if a == b {
                        Some(ValueType::Boolean)
                    } else {
                        None
                    },
                },
                _ => None,
            },
        }
    }
}

/// Evaluation is total on well-typed expressions and fails on ill-typed
/// ones, whatever the arithmetic unit computes; where it succeeds the value
/// has the type of the expression.
pub proof fn lemma_evaluation_follows_types(node: Node, unit: Arithmetic)
    ensures
        node.value(unit) is Some <==> node.value_type() is Some,
        node.value(unit) matches Some(value) ==> node.value_type() == Some(value.value_type()),
    decreases node,
{
    match node {
        Node::Literal(_) => {},
        Node::Grouping(inner) => {
            lemma_evaluation_follows_types(*inner, unit);
        },
        Node::Unary { operand, operator } => {
            lemma_evaluation_follows_types(*operand, unit);
        },
        Node::Binary { operand_a, operand_b, operator } => {
            lemma_evaluation_follows_types(*operand_a, unit);
            lemma_evaluation_follows_types(*operand_b, unit);
        },
    }
}

/// An arithmetic operator on two number literals never fails: it yields the
/// number that the arithmetic unit computes for them, whatever that is (a
/// division by zero included).
pub proof fn lemma_arithmetic_on_numbers(kind: ArithmeticOperator, a: u32, b: u32, unit: Arithmetic)
    ensures
        (Node::Binary {
            operand_a: Box::new(Node::Literal(Value::Number(a))),
            operand_b: Box::new(Node::Literal(Value::Number(b))),
            operator: BinaryOperation::Arithmetic(kind),
        }).value(unit) == Some(ValueView::Number(unit(kind, a, b))),
{
    reveal_with_fuel(Node::value, 2);
}

/// An arithmetic operator fails as soon as one of its operands is a literal
/// that is no number: nothing is coerced.
pub proof fn lemma_arithmetic_needs_numbers(
    kind: ArithmeticOperator,
    a: Value,
    b: Value,
    unit: Arithmetic,
)
    requires
        !(a is Number) || !(b is Number),
    ensures
        (Node::Binary {
            operand_a: Box::new(Node::Literal(a)),
            operand_b: Box::new(Node::Literal(b)),
            operator: BinaryOperation::Arithmetic(kind),
        }).value(unit) is None,
{
    reveal_with_fuel(Node::value, 2);
}

/// Negation of a number literal yields the number with its sign flipped;
/// negation of a text or of a truth value fails.
pub proof fn lemma_negation_of_literal(value: Value, unit: Arithmetic)
    ensures
        (Node::Unary {
            operand: Box::new(Node::Literal(value)),
            operator: UnaryOperator::Neg,
        }).value(unit) == match value {
            Value::Number(bits) => Some(ValueView::Number(crate::number::negated(bits))),
            _ => None,
        },
{
    reveal_with_fuel(Node::value, 2);
}

/// Logical not of a literal never fails and yields whether the value counts
/// as false: a text when it is empty, a number when it is zero, a truth
/// value when it is `false`.
pub proof fn lemma_inversion_of_literal(value: Value, unit: Arithmetic)
    ensures
        (Node::Unary {
            operand: Box::new(Node::Literal(value)),
            operator: UnaryOperator::Not,
        }).value(unit) == Some(
            ValueView::Boolean(
                match value {
                    Value::String(text) => text@.len() == 0,
                    Value::Number(bits) => bits == 0 || bits == crate::number::SIGN_BIT,
                    Value::Boolean(truth) => !truth,
                },
            ),
        ),
{
    reveal_with_fuel(Node::value, 2);
}

/// Equality of values is symmetric, holds of a value and itself unless the
/// value is a NaN, and never holds between values of two variants.
pub proof fn lemma_equality(a: ValueView, b: ValueView)
    ensures
        a.equals(b) == b.equals(a),
        !(a matches ValueView::Number(bits) && crate::number::is_nan(bits)) ==> a.equals(a),
        a.value_type() != b.value_type() ==> !a.equals(b),
{
}

/// The equality operators on two literals never fail; `==` yields whether
/// the values are equal and `!=` the opposite.
pub proof fn lemma_equality_of_literals(a: Value, b: Value, unit: Arithmetic)
    ensures
        (Node::Binary {
            operand_a: Box::new(Node::Literal(a)),
            operand_b: Box::new(Node::Literal(b)),
            operator: BinaryOperation::Equality(crate::expression::binary::EqualityOperator::Eq),
        }).value(unit) == Some(ValueView::Boolean(a@.equals(b@))),
        (Node::Binary {
            operand_a: Box::new(Node::Literal(a)),
            operand_b: Box::new(Node::Literal(b)),
            operator: BinaryOperation::Equality(crate::expression::binary::EqualityOperator::Ne),
        }).value(unit) == Some(ValueView::Boolean(!a@.equals(b@))),
{
    reveal_with_fuel(Node::value, 2);
}

/// An expression in parentheses has the value of what is inside.
pub proof fn lemma_grouping(inner: Node, unit: Arithmetic)
    ensures
        Node::Grouping(Box::new(inner)).value(unit) == inner.value(unit),
{
}

} // verus!
