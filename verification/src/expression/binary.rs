//! Operators on two operands.
use crate::expression::literal::{computes, unit_ready, Arithmetic, Value, ValueView};
use crate::expression::{Expression, Node, OperatorNode};
use crate::number::{show_ready, shows, NumberText};
use core::ops::ControlFlow;
use vstd::prelude::*;
use vstd::string::*;

verus! {

/// An operator on two operands: what it yields on two values, and how it
/// forms an expression.
pub trait BinaryOperator: OperatorNode + Sized {
    /// What the operator yields on `a` and `b`; `None` where it is not
    /// defined there.
    spec fn applied(&self, a: ValueView, b: ValueView, unit: Arithmetic) -> Option<ValueView>;

    /// The operator as the expression tree stores it.
    spec fn operation(&self) -> BinaryOperation;

    /// Applies the operator to two values. The result is final: no
    /// operator asks for a further expression to be reduced.
    fn identity<F: Fn(ArithmeticOperator, u32, u32) -> u32>(
        &self,
        a: Value,
        b: Value,
        unit: &F,
    ) -> (r: Option<ControlFlow<Value, Node>>)
        requires
            unit_ready(unit),
        ensures
            match r {
                Some(ControlFlow::Break(value)) => self.applied(a@, b@, computes(unit)) == Some(
                    value@,
                ),
                Some(ControlFlow::Continue(_)) => false,
                None => self.applied(a@, b@, computes(unit)) is None,
            },
    ;

    /// The expression that applies the operator to `a` and `b`.
    fn express(self, a: Node, b: Node) -> (r: BinaryExpression)
        ensures
            r.operand_a == a,
            r.operand_b == b,
            r.operator == self.operation(),
    ;
}

/// What `operator` yields on the values of `a` and `b`; `None` where one of
/// them fails or the operator is not defined on their values.
pub open spec fn called<O: BinaryOperator>(
    operator: &O,
    a: Node,
    b: Node,
    unit: Arithmetic,
) -> Option<ValueView> {
    match a.value(unit) {
        Some(a) => match b.value(unit) {
            Some(b) => operator.applied(a, b, unit),
            None => None,
        },
        None => None,
    }
}

/// Evaluates `a`, then `b`, and applies `operator` to their values.
pub fn try_call<O: BinaryOperator, F: Fn(ArithmeticOperator, u32, u32) -> u32>(
    operator: &O,
    a: Node,
    b: Node,
    unit: &F,
) -> (r: Option<ControlFlow<Value, Node>>)
    requires
        unit_ready(unit),
    ensures
        match r {
            Some(ControlFlow::Break(value)) => called(operator, a, b, computes(unit)) == Some(
                value@,
            ),
            Some(ControlFlow::Continue(_)) => false,
            None => called(operator, a, b, computes(unit)) is None,
        },
{
    match a.eval(unit) {
        Some(a) => match b.eval(unit) {
            Some(b) => operator.identity(a, b, unit),
            None => None,
        },
        None => None,
    }
}

/// A binary operator with its operands.
#[derive(Debug)]
pub struct BinaryExpression {
    pub operand_a: Node,
    pub operand_b: Node,
    pub operator: BinaryOperation,
}

impl BinaryExpression {
    /// The value of the expression: what the operator yields on the values
    /// of the operands, taken from left to right; `None` where an operand
    /// fails or the operator is not defined on them.
    pub open spec fn value(&self, unit: Arithmetic) -> Option<ValueView> {
        match self.operand_a.value(unit) {
            Some(a) => match self.operand_b.value(unit) {
                Some(b) => self.operator.applied(a, b, unit),
                None => None,
            },
            None => None,
        }
    }

    /// The expression on one line: the operator between its operands.
    pub open spec fn shown(&self, show: NumberText) -> Seq<char> {
        self.operand_a.shown(show) + " "@ + self.operator.symbol() + " "@ + self.operand_b.shown(
            show,
        )
    }

    /// The expression as text; `show` prints a number.
    pub fn to_string<S: Fn(u32) -> String>(&self, show: &S) -> (r: String)
        requires
            show_ready(show),
        ensures
            r@ == self.shown(shows(show)),
    {
        let mut out = self.operand_a.to_string(show);
        let symbol = self.operator.to_string();
        let right = self.operand_b.to_string(show);
        out.append(" ");
        out.append(symbol.as_str());
        out.append(" ");
        out.append(right.as_str());
        out
    }

    /// The expression as a node of a tree.
    pub fn into_node(self) -> (r: Node)
        ensures
            r == (Node::Binary {
                operand_a: Box::new(self.operand_a),
                operand_b: Box::new(self.operand_b),
                operator: self.operator,
            }),
            forall|unit: Arithmetic| #[trigger] r.value(unit) == self.value(unit),
    {
        Node::Binary {
            operand_a: Box::new(self.operand_a),
            operand_b: Box::new(self.operand_b),
            operator: self.operator,
        }
    }
}

impl Expression for BinaryExpression {
    type Output = ControlFlow<Value, Node>;

    open spec fn evaluation(
        &self,
        unit: Arithmetic,
        out: Option<ControlFlow<Value, Node>>,
    ) -> bool {
        match out {
            Some(ControlFlow::Break(value)) => self.value(unit) == Some(value@),
            Some(ControlFlow::Continue(_)) => false,
            None => self.value(unit) is None,
        }
    }

    fn eval<F: Fn(ArithmeticOperator, u32, u32) -> u32>(&self, unit: &F) -> (r: Option<
        ControlFlow<Value, Node>,
    >) {
        match self.operand_a.eval(unit) {
            Some(a) => match self.operand_b.eval(unit) {
                Some(b) => self.operator.identity(a, b, unit),
                None => None,
            },
            None => None,
        }
    }
}

/// The four arithmetic operators.
#[derive(Clone, Copy, Debug, PartialEq, Eq, Structural)]
pub enum ArithmeticOperator {
    Plus,
    Minus,
    Divides,
    Times,
}

impl OperatorNode for ArithmeticOperator {
    open spec fn symbol(&self) -> Seq<char> {
        match self {
            ArithmeticOperator::Plus => "+"@,
            ArithmeticOperator::Minus => "-"@,
            ArithmeticOperator::Divides => "/"@,
            ArithmeticOperator::Times => "x"@,
        }
    }

    fn to_string(&self) -> (r: String) {
        match self {
            ArithmeticOperator::Plus => "+".to_owned(),
            ArithmeticOperator::Minus => "-".to_owned(),
            ArithmeticOperator::Divides => "/".to_owned(),
            ArithmeticOperator::Times => "x".to_owned(),
        }
    }
}

impl BinaryOperator for ArithmeticOperator {
    /// Defined on two numbers, where it yields what the arithmetic unit
    /// computes.
    open spec fn applied(&self, a: ValueView, b: ValueView, unit: Arithmetic) -> Option<
        ValueView,
    > {
        a.arithmetic(b, *self, unit)
    }

    open spec fn operation(&self) -> BinaryOperation {
        BinaryOperation::Arithmetic(*self)
    }

    fn identity<F: Fn(ArithmeticOperator, u32, u32) -> u32>(
        &self,
        a: Value,
        b: Value,
        unit: &F,
    ) -> (r: Option<ControlFlow<Value, Node>>) {
        let result = match self {
            ArithmeticOperator::Plus => a.add(b, unit),
            ArithmeticOperator::Minus => a.sub(b, unit),
            ArithmeticOperator::Divides => a.div(b, unit),
            ArithmeticOperator::Times => a.mul(b, unit),
        };
        match result {
            Some(value) => Some(ControlFlow::Break(value)),
            None => None,
        }
    }

    fn express(self, a: Node, b: Node) -> (r: BinaryExpression) {
        BinaryExpression { operand_a: a, operand_b: b, operator: BinaryOperation::Arithmetic(self) }
    }
}

/// Equality and its negation.
#[derive(Clone, Copy, Debug, PartialEq, Eq, Structural)]
pub enum EqualityOperator {
    Eq,
    Ne,
}

impl OperatorNode for EqualityOperator {
    open spec fn symbol(&self) -> Seq<char> {
        match self {
            EqualityOperator::Eq => "=="@,
            EqualityOperator::Ne => "!="@,
        }
    }

    fn to_string(&self) -> (r: String) {
        match self {
            EqualityOperator::Eq => "==".to_owned(),
            EqualityOperator::Ne => "!=".to_owned(),
        }
    }
}

impl BinaryOperator for EqualityOperator {
    /// Defined on every two values.
    open spec fn applied(&self, a: ValueView, b: ValueView, unit: Arithmetic) -> Option<
        ValueView,
    > {
        Some(
            ValueView::Boolean(
                match self {
                    EqualityOperator::Eq => a.equals(b),
                    EqualityOperator::Ne => !a.equals(b),
                },
            ),
        )
    }

    open spec fn operation(&self) -> BinaryOperation {
        BinaryOperation::Equality(*self)
    }

    fn identity<F: Fn(ArithmeticOperator, u32, u32) -> u32>(
        &self,
        a: Value,
        b: Value,
        unit: &F,
    ) -> (r: Option<ControlFlow<Value, Node>>) {
        let same = a.equals(&b);
        match self {
            EqualityOperator::Eq => Some(ControlFlow::Break(Value::Boolean(same))),
            EqualityOperator::Ne => Some(ControlFlow::Break(Value::Boolean(!same))),
        }
    }

    fn express(self, a: Node, b: Node) -> (r: BinaryExpression) {
        BinaryExpression { operand_a: a, operand_b: b, operator: BinaryOperation::Equality(self) }
    }
}

/// `<` and `>`, each with or without equality.
#[derive(Clone, Copy, Debug, PartialEq, Eq, Structural)]
pub enum OrderingOperatorNode {
    Lt { equal: bool },
    Gt { equal: bool },
}

impl OperatorNode for OrderingOperatorNode {
    open spec fn symbol(&self) -> Seq<char> {
        match self {
            OrderingOperatorNode::Lt { equal } => if *equal {
                "<="@
            } else {
                "<"@
            },
            OrderingOperatorNode::Gt { equal } => if *equal {
                ">="@
            } else {
                ">"@
            },
        }
    }

    fn to_string(&self) -> (r: String) {
        match self {
            OrderingOperatorNode::Lt { equal } => if *equal {
                "<=".to_owned()
            } else {
                "<".to_owned()
            },
            OrderingOperatorNode::Gt { equal } => if *equal {
                ">=".to_owned()
            } else {
                ">".to_owned()
            },
        }
    }
}

impl BinaryOperator for OrderingOperatorNode {
    /// Defined on two values of one variant; `a > b` is `b < a`.
    open spec fn applied(&self, a: ValueView, b: ValueView, unit: Arithmetic) -> Option<
        ValueView,
    > {
        let verdict = match self {
            OrderingOperatorNode::Lt { equal } => a.before(b, *equal),
            OrderingOperatorNode::Gt { equal } => b.before(a, *equal),
        };
        match verdict {
            Some(truth) => Some(ValueView::Boolean(truth)),
            None => None,
        }
    }

    open spec fn operation(&self) -> BinaryOperation {
        BinaryOperation::Relation(*self)
    }

    fn identity<F: Fn(ArithmeticOperator, u32, u32) -> u32>(
        &self,
        a: Value,
        b: Value,
        unit: &F,
    ) -> (r: Option<ControlFlow<Value, Node>>) {
        let verdict = match self {
            OrderingOperatorNode::Lt { equal } => a.before(&b, *equal),
            OrderingOperatorNode::Gt { equal } => b.before(&a, *equal),
        };
        match verdict {
            Some(truth) => Some(ControlFlow::Break(Value::Boolean(truth))),
            None => None,
        }
    }

    fn express(self, a: Node, b: Node) -> (r: BinaryExpression) {
        BinaryExpression { operand_a: a, operand_b: b, operator: BinaryOperation::Relation(self) }
    }
}

/// Any binary operator: one of the three families.
#[derive(Clone, Copy, Debug, PartialEq, Eq, Structural)]
pub enum BinaryOperation {
    Arithmetic(ArithmeticOperator),
    Equality(EqualityOperator),
    Relation(OrderingOperatorNode),
}

impl OperatorNode for BinaryOperation {
    open spec fn symbol(&self) -> Seq<char> {
        match self {
            BinaryOperation::Arithmetic(operator) => operator.symbol(),
            BinaryOperation::Equality(operator) => operator.symbol(),
            BinaryOperation::Relation(operator) => operator.symbol(),
        }
    }

    fn to_string(&self) -> (r: String) {
        match self {
            BinaryOperation::Arithmetic(operator) => operator.to_string(),
            BinaryOperation::Equality(operator) => operator.to_string(),
            BinaryOperation::Relation(operator) => operator.to_string(),
        }
    }
}

impl BinaryOperator for BinaryOperation {
    open spec fn applied(&self, a: ValueView, b: ValueView, unit: Arithmetic) -> Option<
        ValueView,
    > {
        match self {
            BinaryOperation::Arithmetic(operator) => operator.applied(a, b, unit),
            BinaryOperation::Equality(operator) => operator.applied(a, b, unit),
            BinaryOperation::Relation(operator) => operator.applied(a, b, unit),
        }
    }

    open spec fn operation(&self) -> BinaryOperation {
        *self
    }

    fn identity<F: Fn(ArithmeticOperator, u32, u32) -> u32>(
        &self,
        a: Value,
        b: Value,
        unit: &F,
    ) -> (r: Option<ControlFlow<Value, Node>>) {
        match self {
            BinaryOperation::Arithmetic(operator) => operator.identity(a, b, unit),
            BinaryOperation::Equality(operator) => operator.identity(a, b, unit),
            BinaryOperation::Relation(operator) => operator.identity(a, b, unit),
        }
    }

    fn express(self, a: Node, b: Node) -> (r: BinaryExpression) {
        BinaryExpression { operand_a: a, operand_b: b, operator: self }
    }
}

} // verus!
