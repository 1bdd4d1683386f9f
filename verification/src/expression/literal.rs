//! The values of the language and what can be done with them.
use crate::expression::binary::ArithmeticOperator;
use crate::number::{
    at_most, is_zero, less_than, negated, number_at_most, number_equal, number_is_zero,
    number_less, number_negate, number_text, same_number, show_ready, shows, NumberText,
};
use crate::token::{text_before, StringValue};
use core::cmp::Ordering;
use vstd::prelude::*;
use vstd::string::*;

verus! {

/// A value: a number (the bit pattern of a single-precision value), a text
/// or a truth value.
#[derive(Clone, Debug)]
pub enum Value {
    Number(u32),
    String(StringValue),
    Boolean(bool),
}

/// A value as contracts see it.
pub enum ValueView {
    Number(u32),
    String(Seq<char>),
    Boolean(bool),
}

impl View for Value {
    type V = ValueView;

    open spec fn view(&self) -> ValueView {
        match self {
            Value::Number(bits) => ValueView::Number(*bits),
            Value::String(text) => ValueView::String(text@),
            Value::Boolean(truth) => ValueView::Boolean(*truth),
        }
    }
}

impl PartialEq for Value {
    fn eq(&self, other: &Value) -> (r: bool) {
        self.equals(other)
    }
}

impl vstd::std_specs::cmp::PartialEqSpecImpl for Value {
    open spec fn obeys_eq_spec() -> bool {
        true
    }

    open spec fn eq_spec(&self, other: &Value) -> bool {
        self@.equals(other@)
    }
}

impl PartialOrd for Value {
    fn partial_cmp(&self, other: &Value) -> (r: Option<Ordering>) {
        match self.before(other, false) {
            Some(true) => Some(Ordering::Less),
            Some(false) => match other.before(self, false) {
                Some(true) => Some(Ordering::Greater),
                _ => if self.equals(other) {
                    Some(Ordering::Equal)
                } else {
                    None
                },
            },
            None => None,
        }
    }
}

impl vstd::std_specs::cmp::PartialOrdSpecImpl for Value {
    open spec fn obeys_partial_cmp_spec() -> bool {
        true
    }

    /// Two values of one variant are ordered the way `before` orders them;
    /// a NaN stands in no order to anything, nor do values of two variants.
    open spec fn partial_cmp_spec(&self, other: &Value) -> Option<Ordering> {
        if self@.before(other@, false) == Some(true) {
            Some(Ordering::Less)
        } else if other@.before(self@, false) == Some(true) {
            Some(Ordering::Greater)
        } else if self@.equals(other@) {
            Some(Ordering::Equal)
        } else {
            None
        }
    }
}

impl From<StringValue> for Value {
    fn from(value: StringValue) -> (r: Value) {
        Value::String(value)
    }
}

impl vstd::std_specs::convert::FromSpecImpl<StringValue> for Value {
    open spec fn obeys_from_spec() -> bool {
        true
    }

    open spec fn from_spec(value: StringValue) -> Value {
        Value::String(value)
    }
}

impl From<String> for Value {
    fn from(value: String) -> (r: Value) {
        Value::String(StringValue(value))
    }
}

impl vstd::std_specs::convert::FromSpecImpl<String> for Value {
    open spec fn obeys_from_spec() -> bool {
        true
    }

    open spec fn from_spec(value: String) -> Value {
        Value::String(StringValue(value))
    }
}

impl From<bool> for Value {
    fn from(value: bool) -> (r: Value) {
        Value::Boolean(value)
    }
}

impl vstd::std_specs::convert::FromSpecImpl<bool> for Value {
    open spec fn obeys_from_spec() -> bool {
        true
    }

    open spec fn from_spec(value: bool) -> Value {
        Value::Boolean(value)
    }
}

impl<'a> From<&'a str> for Value {
    fn from(value: &'a str) -> (r: Value)
        ensures
            r@ == ValueView::String(value@),
    {
        Value::String(StringValue::from(value))
    }
}

/// The conversion allocates, so its result is stated by its view.
impl<'a> vstd::std_specs::convert::FromSpecImpl<&'a str> for Value {
    open spec fn obeys_from_spec() -> bool {
        false
    }

    open spec fn from_spec(value: &'a str) -> Value {
        arbitrary()
    }
}

/// The view of a value that may be missing.
pub open spec fn viewed(value: Option<Value>) -> Option<ValueView> {
    match value {
        Some(value) => Some(value@),
        None => None,
    }
}

/// What an arithmetic unit computes: the pattern of the result, for an
/// operator and the patterns of two numbers.
pub type Arithmetic = spec_fn(ArithmeticOperator, u32, u32) -> u32;

/// What the arithmetic unit `unit` computes, read off its own contract.
pub open spec fn computes<F: Fn(ArithmeticOperator, u32, u32) -> u32>(unit: &F) -> Arithmetic {
    |kind: ArithmeticOperator, a: u32, b: u32| choose|c: u32| unit.ensures((kind, a, b), c)
}

/// Whether the arithmetic unit accepts every operator on every two numbers
/// and its contract leaves it one result for each.
pub open spec fn unit_ready<F: Fn(ArithmeticOperator, u32, u32) -> u32>(unit: &F) -> bool {
    forall|kind: ArithmeticOperator, a: u32, b: u32|
        {
            &&& #[trigger] unit.requires((kind, a, b))
            &&& forall|c: u32, d: u32|
                unit.ensures((kind, a, b), c) && unit.ensures((kind, a, b), d) ==> c == d
        }
}

/// What a ready unit has once returned for an operator and two numbers is
/// what it computes for them.
pub proof fn lemma_computes<F: Fn(ArithmeticOperator, u32, u32) -> u32>(
    unit: &F,
    kind: ArithmeticOperator,
    a: u32,
    b: u32,
    c: u32,
)
    requires
        unit_ready(unit),
        unit.ensures((kind, a, b), c),
    ensures
        computes(unit)(kind, a, b) == c,
{
    assert(unit.requires((kind, a, b)));
}

impl ValueView {
    /// Structural equality: the same variant with equal contents, numbers
    /// being equal as numbers are. Values of two variants are never equal.
    pub open spec fn equals(self, other: ValueView) -> bool {
        match (self, other) {
            (ValueView::Number(a), ValueView::Number(b)) => same_number(a, b),
            (ValueView::String(a), ValueView::String(b)) => a == b,
            (ValueView::Boolean(a), ValueView::Boolean(b)) => a == b,
            _ => false,
        }
    }

    /// Whether the value counts as false: the empty text, a zero, `false`.
    pub open spec fn falsy(self) -> bool {
        match self {
            ValueView::String(text) => text.len() == 0,
            ValueView::Number(bits) => is_zero(bits),
            ValueView::Boolean(truth) => !truth,
        }
    }

    /// The value as the tree printer shows it: the variant, and in
    /// parentheses the number as `show` prints it, the text in quotes, or
    /// the truth value.
    pub open spec fn shown(self, show: NumberText) -> Seq<char> {
        match self {
            ValueView::Number(bits) => "Number("@ + show(bits) + ")"@,
            ValueView::String(text) => "String(\""@ + text + "\")"@,
            ValueView::Boolean(truth) => if truth {
                "Boolean(true)"@
            } else {
                "Boolean(false)"@
            },
        }
    }

    /// The negated number; nothing for a text or a truth value.
    pub open spec fn negation(self) -> Option<u32> {
        match self {
            ValueView::Number(bits) => Some(negated(bits)),
            _ => None,
        }
    }

    /// Whether `self` stands before `other`, or level with it where `equal`
    /// is set. Two values of one variant are ordered: numbers as numbers
    /// are, texts as in a dictionary, `false` before `true`. Values of two
    /// variants are not.
    pub open spec fn before(self, other: ValueView, equal: bool) -> Option<bool> {
        match (self, other) {
            (ValueView::Number(a), ValueView::Number(b)) => Some(
                if equal {
                    at_most(a, b)
                } else {
                    less_than(a, b)
                },
            ),
            (ValueView::String(a), ValueView::String(b)) => Some(
                if equal {
                    !text_before(b, a)
                } else {
                    text_before(a, b)
                },
            ),
            (ValueView::Boolean(a), ValueView::Boolean(b)) => Some(
                if equal {
                    !a || b
                } else {
                    !a && b
                },
            ),
            _ => None,
        }
    }

    /// The result of the arithmetic operator `kind` on `self` and `other`:
    /// on two numbers the number that `unit` computes, on anything else
    /// nothing.
    pub open spec fn arithmetic(
        self,
        other: ValueView,
        kind: ArithmeticOperator,
        unit: Arithmetic,
    ) -> Option<ValueView> {
        match (self, other) {
            (ValueView::Number(a), ValueView::Number(b)) => Some(
                ValueView::Number(unit(kind, a, b)),
            ),
            _ => None,
        }
    }
}

impl Value {
    pub fn as_bool(&self) -> (r: Option<bool>)
        ensures
            r == match self@ {
                ValueView::Boolean(truth) => Some(truth),
                _ => None,
            },
    {
        match self {
            Value::Boolean(truth) => Some(*truth),
            _ => None,
        }
    }

    pub fn number_expression(value: u32) -> (r: Value)
        ensures
            r == Value::Number(value),
    {
        Value::Number(value)
    }

    /// A copy of the value.
    pub fn duplicate(&self) -> (r: Value)
        ensures
            r == *self,
    {
        match self {
            Value::Number(bits) => Value::Number(*bits),
            Value::String(text) => Value::String(text.duplicate()),
            Value::Boolean(truth) => Value::Boolean(*truth),
        }
    }

    pub fn equals(&self, other: &Value) -> (r: bool)
        ensures
            r == self@.equals(other@),
    {
        match (self, other) {
            (Value::Number(a), Value::Number(b)) => number_equal(*a, *b),
            (Value::String(a), Value::String(b)) => a.0 == b.0,
            (Value::Boolean(a), Value::Boolean(b)) => *a == *b,
            _ => false,
        }
    }

    /// `self < other`, or `self <= other` where `equal` is set; nothing
    /// unless both are of one variant.
    pub fn before(&self, other: &Value, equal: bool) -> (r: Option<bool>)
        ensures
            r == self@.before(other@, equal),
    {
        match (self, other) {
            (Value::Number(a), Value::Number(b)) => Some(
                if equal {
                    number_at_most(*a, *b)
                } else {
                    number_less(*a, *b)
                },
            ),
            (Value::String(a), Value::String(b)) => Some(
                if equal {
                    !b.before(a)
                } else {
                    a.before(b)
                },
            ),
            (Value::Boolean(a), Value::Boolean(b)) => Some(
                if equal {
                    !*a || *b
                } else {
                    !*a && *b
                },
            ),
            _ => None,
        }
    }

    /// Applies an arithmetic operator: `unit` computes on two numbers, and
    /// nothing is defined on anything else.
    pub fn arithmetic<F: Fn(ArithmeticOperator, u32, u32) -> u32>(
        self,
        rhs: Value,
        kind: ArithmeticOperator,
        unit: &F,
    ) -> (r: Option<Value>)
        requires
            unit_ready(unit),
        ensures
            viewed(r) == self@.arithmetic(rhs@, kind, computes(unit)),
    {
        match (self, rhs) {
            (Value::Number(a), Value::Number(b)) => {
                assert(unit.requires((kind, a, b)));
                let c = unit(kind, a, b);
                assert(unit.ensures((kind, a, b), computes(unit)(kind, a, b)));
                Some(Value::Number(c))
            },
            _ => None,
        }
    }

    pub fn add<F: Fn(ArithmeticOperator, u32, u32) -> u32>(self, rhs: Value, unit: &F) -> (r:
        Option<Value>)
        requires
            unit_ready(unit),
        ensures
            viewed(r) == self@.arithmetic(rhs@, ArithmeticOperator::Plus, computes(unit)),
    {
        self.arithmetic(rhs, ArithmeticOperator::Plus, unit)
    }

    pub fn sub<F: Fn(ArithmeticOperator, u32, u32) -> u32>(self, rhs: Value, unit: &F) -> (r:
        Option<Value>)
        requires
            unit_ready(unit),
        ensures
            viewed(r) == self@.arithmetic(rhs@, ArithmeticOperator::Minus, computes(unit)),
    {
        self.arithmetic(rhs, ArithmeticOperator::Minus, unit)
    }

    pub fn div<F: Fn(ArithmeticOperator, u32, u32) -> u32>(self, rhs: Value, unit: &F) -> (r:
        Option<Value>)
        requires
            unit_ready(unit),
        ensures
            viewed(r) == self@.arithmetic(rhs@, ArithmeticOperator::Divides, computes(unit)),
    {
        self.arithmetic(rhs, ArithmeticOperator::Divides, unit)
    }

    pub fn mul<F: Fn(ArithmeticOperator, u32, u32) -> u32>(self, rhs: Value, unit: &F) -> (r:
        Option<Value>)
        requires
            unit_ready(unit),
        ensures
            viewed(r) == self@.arithmetic(rhs@, ArithmeticOperator::Times, computes(unit)),
    {
        self.arithmetic(rhs, ArithmeticOperator::Times, unit)
    }

    /// The value as text; `show` prints a number.
    pub fn to_string<S: Fn(u32) -> String>(&self, show: &S) -> (r: String)
        requires
            show_ready(show),
        ensures
            r@ == self@.shown(shows(show)),
    {
        match self {
            Value::Number(bits) => {
                let mut out = "Number(".to_owned();
                let number = number_text(*bits, show);
                out.append(number.as_str());
                out.append(")");
                out
            },
            Value::String(text) => {
                let mut out = "String(\"".to_owned();
                out.append(text.as_str());
                out.append("\")");
                out
            },
            Value::Boolean(truth) => if *truth {
                "Boolean(true)".to_owned()
            } else {
                "Boolean(false)".to_owned()
            },
        }
    }

    pub fn neg(self) -> (r: Option<u32>)
        ensures
            r == self@.negation(),
    {
        match self {
            Value::Number(bits) => Some(number_negate(bits)),
            _ => None,
        }
    }

    pub fn not(self) -> (r: bool)
        ensures
            r == self@.falsy(),
    {
        match self {
            Value::String(text) => text.as_str().is_empty(),
            Value::Number(bits) => number_is_zero(bits),
            Value::Boolean(truth) => !truth,
        }
    }
}

} // verus!
