//! Operators on one operand.
use crate::expression::binary::ArithmeticOperator;
use crate::expression::literal::{Arithmetic, Value, ValueView};
use crate::expression::{Expression, Node, OperatorNode};
use core::ops::ControlFlow;
use vstd::prelude::*;

verus! {

/// An operator on one operand: what it yields on a value, and how it forms
/// an expression.
pub trait UnaryNodeOperator: OperatorNode + Sized {
    /// What the operator yields on `a`; `None` where it is not defined there.
    spec fn applied(&self, a: ValueView) -> Option<ValueView>;

    /// The operator as the expression tree stores it.
    spec fn operator(&self) -> UnaryOperator;

    /// Applies the operator to a value. The result is final: no
    /// operator asks for a further expression to be reduced.
    fn identity(&self, a: Value) -> (r: Option<ControlFlow<Value, Node>>)
        ensures
            match r {
                Some(ControlFlow::Break(value)) => self.applied(a@) == Some(value@),
                Some(ControlFlow::Continue(_)) => false,
                None => self.applied(a@) is None,
            },
    ;

    /// The expression that applies the operator to `a`.
    fn express(self, a: Node) -> (r: UnaryExpression)
        ensures
            r.operand == a,
            r.operator == self.operator(),
    ;
}

#[derive(Clone, Copy, Debug, PartialEq, Eq, Structural)]
pub enum UnaryOperator {
    Not,
    Neg,
}

impl OperatorNode for UnaryOperator {
    open spec fn symbol(&self) -> Seq<char> {
        match self {
            UnaryOperator::Not => "!"@,
            UnaryOperator::Neg => "-"@,
        }
    }

    fn to_string(&self) -> (r: String) {
        match self {
            UnaryOperator::Not => "!".to_owned(),
            UnaryOperator::Neg => "-".to_owned(),
        }
    }
}

impl UnaryNodeOperator for UnaryOperator {
    /// `Not` is defined on every value and yields whether it counts as
    /// false; `Neg` is defined on numbers only.
    open spec fn applied(&self, a: ValueView) -> Option<ValueView> {
        match self {
            UnaryOperator::Not => Some(ValueView::Boolean(a.falsy())),
            UnaryOperator::Neg => match a.negation() {
                Some(bits) => Some(ValueView::Number(bits)),
                None => None,
            },
        }
    }

    open spec fn operator(&self) -> UnaryOperator {
        *self
    }

    fn identity(&self, a: Value) -> (r: Option<ControlFlow<Value, Node>>) {
        match self {
            UnaryOperator::Not => Some(ControlFlow::Break(Value::Boolean(a.not()))),
            UnaryOperator::Neg => match a.neg() {
                Some(bits) => Some(ControlFlow::Break(Value::Number(bits))),
                None => None,
            },
        }
    }

    fn express(self, a: Node) -> (r: UnaryExpression) {
        UnaryExpression { operand: a, operator: self }
    }
}

/// A unary operator with its operand.
#[derive(Debug)]
pub struct UnaryExpression {
    pub operand: Node,
    pub operator: UnaryOperator,
}

impl UnaryExpression {
    /// The value of the expression: what the operator yields on the value of
    /// the operand; `None` where the operand fails or the operator is not
    /// defined on it.
    pub open spec fn value(&self, unit: Arithmetic) -> Option<ValueView> {
        match self.operand.value(unit) {
            Some(a) => self.operator.applied(a),
            None => None,
        }
    }

    /// The expression as a node of a tree.
    pub fn into_node(self) -> (r: Node)
        ensures
            r == (Node::Unary { operand: Box::new(self.operand), operator: self.operator }),
            forall|unit: Arithmetic| #[trigger] r.value(unit) == self.value(unit),
    {
        Node::Unary { operand: Box::new(self.operand), operator: self.operator }
    }
}

impl Expression for UnaryExpression {
    type Output = ControlFlow<Value, Node>;

    open spec fn evaluation(
        &self,
        unit: Arithmetic,
        out: Option<ControlFlow<Value, Node>>,
    ) -> bool {
        match out {
            Some(ControlFlow::Break(value)) => self.value(unit) == Some(value@),
            Some(ControlFlow::Continue(_)) => false,
            None => self.value(unit) is None,
        }
    }

    fn eval<F: Fn(ArithmeticOperator, u32, u32) -> u32>(&self, unit: &F) -> (r: Option<
        ControlFlow<Value, Node>,
    >) {
        match self.operand.eval(unit) {
            Some(a) => self.operator.identity(a),
            None => None,
        }
    }
}

} // verus!
