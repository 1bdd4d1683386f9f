use core::ops::ControlFlow;
use lox_front::expression::binary::{
    try_call, ArithmeticOperator, BinaryExpression, BinaryOperation, BinaryOperator,
    EqualityOperator, OrderingOperatorNode,
};
use lox_front::expression::literal::Value;
use lox_front::expression::unary::{UnaryNodeOperator, UnaryOperator};
use lox_front::expression::{Evaluate, Expression, ExpressionStep, Node, OperatorNode};
use lox_front::token::StringValue;

/// Single-precision arithmetic on bit patterns.
fn unit(kind: ArithmeticOperator, a: u32, b: u32) -> u32 {
    let (x, y) = (f32::from_bits(a), f32::from_bits(b));
    let z = match kind {
        ArithmeticOperator::Plus => x + y,
        ArithmeticOperator::Minus => x - y,
        ArithmeticOperator::Divides => x / y,
        ArithmeticOperator::Times => x * y,
    };
    z.to_bits()
}

fn num(x: f32) -> Node {
    Node::number(x.to_bits())
}

fn number(x: f32) -> Value {
    Value::Number(x.to_bits())
}

fn text(s: &str) -> Node {
    Node::literal_value(Value::String(StringValue::from(s)))
}

fn truth(b: bool) -> Node {
    Node::literal_value(Value::Boolean(b))
}

fn broke(flow: Option<ControlFlow<Value, Node>>) -> Option<Value> {
    match flow {
        Some(ControlFlow::Break(value)) => Some(value),
        _ => None,
    }
}

fn as_bool(flow: Option<ControlFlow<Value, Node>>) -> Option<bool> {
    broke(flow).and_then(|value| value.as_bool())
}

#[test]
fn add() {
    assert_eq!(
        broke(ArithmeticOperator::Plus.express(num(15.0), num(5.0)).eval(&unit)),
        Some(number(20.0))
    )
}

#[test]
fn div() {
    assert_eq!(
        broke(ArithmeticOperator::Divides.express(num(15.0), num(5.0)).eval(&unit)),
        Some(number(3.0))
    )
}

#[test]
fn add_then_div() {
    assert!(broke(
        ArithmeticOperator::Divides
            .express(
                ArithmeticOperator::Plus.express(num(15.0), num(5.0)).into_node(),
                num(4.0),
            )
            .eval(&unit)
    )
    .is_some_and(|l| l.eq(&number(5.0))));
}

#[test]
fn string_to_string_equality() {
    assert!(
        as_bool(EqualityOperator::Eq.express(text("Test"), text("Test")).eval(&unit))
            .is_some_and(std::convert::identity)
    );
    assert!(
        as_bool(EqualityOperator::Eq.express(text("Test"), text("Testing")).eval(&unit))
            .map(std::ops::Not::not)
            .is_some_and(std::convert::identity)
    )
}

#[test]
fn number_to_number_equality() {
    assert!(
        as_bool(EqualityOperator::Eq.express(num(10.0), num(10.0)).eval(&unit))
            .is_some_and(std::convert::identity)
    );
    assert!(
        as_bool(EqualityOperator::Eq.express(num(10.0), num(0.0)).eval(&unit))
            .map(std::ops::Not::not)
            .is_some_and(std::convert::identity)
    )
}

#[test]
fn bool_to_bool_equality() {
    assert!(
        as_bool(EqualityOperator::Eq.express(truth(false), truth(false)).eval(&unit))
            .is_some_and(std::convert::identity)
    );
    assert!(
        as_bool(EqualityOperator::Eq.express(truth(true), truth(false)).eval(&unit))
            .map(std::ops::Not::not)
            .is_some_and(std::convert::identity)
    )
}

#[test]
fn numbers_lt() {
    let res = OrderingOperatorNode::Lt { equal: false }
        .express(num(1.0), num(2.0))
        .eval(&unit);
    assert_eq!(broke(res), Some(Value::Boolean(true)));
    let res = OrderingOperatorNode::Lt { equal: false }
        .express(num(1.0), num(1.0))
        .eval(&unit);
    assert_eq!(broke(res), Some(Value::Boolean(false)));
    let res = OrderingOperatorNode::Lt { equal: true }
        .express(num(1.0), num(1.0))
        .eval(&unit);
    assert_eq!(broke(res), Some(Value::Boolean(true)));
}

#[test]
fn numbers() {
    let e = Node::plus(Node::literal_value(number(1.0)), Node::number(2.0f32.to_bits()))
        .evaluate(&unit);
    assert_eq!(e, Some(number(3.0)));
}

#[test]
fn exprs() {
    let e = Node::plus(
        Node::negation(Node::plus(num(2.0), num(3.0))),
        Node::plus(num(2.0), num(3.0)),
    )
    .evaluate(&unit);
    assert_eq!(e, Some(number(0.0)))
}

#[test]
fn adding_nodes() {
    let a: Node = num(1.0);
    let b: Node = num(2.0);
    let c = a.add(b);
    println!("Node C: {c:?}");
    assert_eq!(c.evaluate(&unit), Some(number(3.0)))
}

#[test]
fn arithmetic_gives_what_the_unit_computes() {
    for (a, b) in [(1.5f32, 2.25f32), (-7.0, 0.5), (1.0e30, 1.0e30), (0.1, 0.2)] {
        assert_eq!(Node::plus(num(a), num(b)).evaluate(&unit), Some(number(a + b)));
        assert_eq!(Node::minus(num(a), num(b)).evaluate(&unit), Some(number(a - b)));
        assert_eq!(Node::times(num(a), num(b)).evaluate(&unit), Some(number(a * b)));
        assert_eq!(Node::divides(num(a), num(b)).evaluate(&unit), Some(number(a / b)));
    }
}

#[test]
fn exact_arithmetic_values() {
    assert_eq!(Node::minus(num(7.0), num(9.5)).evaluate(&unit), Some(number(-2.5)));
    assert_eq!(Node::times(num(6.0), num(7.0)).evaluate(&unit), Some(number(42.0)));
    assert_eq!(
        Node::plus(num(1.0), num(2.0)).evaluate(&unit).map(|v| match v {
            Value::Number(bits) => bits,
            _ => 0,
        }),
        Some(0x4040_0000)
    );
}

#[test]
fn division_by_zero_is_a_value() {
    let inf = Node::divides(num(1.0), num(0.0)).evaluate(&unit);
    assert_eq!(inf, Some(number(f32::INFINITY)));
    let nan = Node::divides(num(0.0), num(0.0)).evaluate(&unit);
    match nan {
        Some(Value::Number(bits)) => assert!(f32::from_bits(bits).is_nan()),
        other => panic!("expected a number, got {other:?}"),
    }
    let on = Node::plus(Node::divides(num(1.0), num(0.0)), num(1.0)).evaluate(&unit);
    assert_eq!(on, Some(number(f32::INFINITY)));
}

#[test]
fn arithmetic_on_other_values_fails() {
    assert_eq!(Node::plus(text("a"), num(1.0)).evaluate(&unit), None);
    assert_eq!(Node::plus(num(1.0), truth(true)).evaluate(&unit), None);
    assert_eq!(Node::times(text("a"), text("b")).evaluate(&unit), None);
    assert_eq!(Node::minus(truth(true), truth(false)).evaluate(&unit), None);
    assert_eq!(Node::plus(Node::plus(text("a"), num(1.0)), num(1.0)).evaluate(&unit), None);
    assert_eq!(Node::plus(num(1.0), Node::negation(text("a"))).evaluate(&unit), None);
}

#[test]
fn negate_of_text_and_boolean_is_undefined() {
    assert_eq!(Node::negation(text("abc")).evaluate(&unit), None);
    assert_eq!(Node::negation(truth(true)).evaluate(&unit), None);
    assert_eq!(Node::negation(num(2.5)).evaluate(&unit), Some(number(-2.5)));
    assert_eq!(Node::negation(num(-0.0)).evaluate(&unit), Some(Value::Number(0)));
    assert_eq!(
        Node::negation(num(0.0)).evaluate(&unit).map(|v| match v {
            Value::Number(bits) => bits,
            _ => 1,
        }),
        Some(0x8000_0000)
    );
}

#[test]
fn logical_not_truth_table() {
    assert_eq!(Node::inversion(truth(true)).evaluate(&unit), Some(Value::Boolean(false)));
    assert_eq!(Node::inversion(truth(false)).evaluate(&unit), Some(Value::Boolean(true)));
    assert_eq!(Node::inversion(num(0.0)).evaluate(&unit), Some(Value::Boolean(true)));
    assert_eq!(Node::inversion(num(-0.0)).evaluate(&unit), Some(Value::Boolean(true)));
    assert_eq!(Node::inversion(num(3.0)).evaluate(&unit), Some(Value::Boolean(false)));
    assert_eq!(Node::inversion(num(f32::NAN)).evaluate(&unit), Some(Value::Boolean(false)));
    assert_eq!(Node::inversion(text("")).evaluate(&unit), Some(Value::Boolean(true)));
    assert_eq!(Node::inversion(text("x")).evaluate(&unit), Some(Value::Boolean(false)));
}

#[test]
fn equality_is_reflexive_and_symmetric_within_a_variant() {
    let values = [
        number(1.0),
        number(-3.5),
        number(0.0),
        Value::String(StringValue::from("")),
        Value::String(StringValue::from("lox")),
        Value::Boolean(true),
        Value::Boolean(false),
    ];
    for a in values.iter() {
        assert!(a.equals(a));
        for b in values.iter() {
            assert_eq!(a.equals(b), b.equals(a));
        }
    }
    assert!(number(0.0).equals(&number(-0.0)));
    assert!(!number(f32::NAN).equals(&number(f32::NAN)));
}

#[test]
fn values_of_two_variants_are_unequal() {
    assert!(!number(1.0).equals(&Value::Boolean(true)));
    assert!(!number(0.0).equals(&Value::String(StringValue::from(""))));
    assert!(!Value::Boolean(false).equals(&Value::String(StringValue::from("false"))));
    let ne = EqualityOperator::Ne.express(num(1.0), text("1")).eval(&unit);
    assert_eq!(as_bool(ne), Some(true));
    let eq = EqualityOperator::Eq.express(num(1.0), text("1")).eval(&unit);
    assert_eq!(as_bool(eq), Some(false));
}

#[test]
fn ordering_of_numbers() {
    let cases = [(1.0f32, 2.0f32), (2.0, 1.0), (1.0, 1.0), (-1.0, 1.0), (-2.0, -1.0), (0.0, -0.0)];
    for (a, b) in cases {
        let lt = OrderingOperatorNode::Lt { equal: false }.express(num(a), num(b)).eval(&unit);
        assert_eq!(as_bool(lt), Some(a < b));
        let le = OrderingOperatorNode::Lt { equal: true }.express(num(a), num(b)).eval(&unit);
        assert_eq!(as_bool(le), Some(a <= b));
        let gt = OrderingOperatorNode::Gt { equal: false }.express(num(a), num(b)).eval(&unit);
        assert_eq!(as_bool(gt), Some(a > b));
        let ge = OrderingOperatorNode::Gt { equal: true }.express(num(a), num(b)).eval(&unit);
        assert_eq!(as_bool(ge), Some(a >= b));
    }
    let nan = OrderingOperatorNode::Lt { equal: true }
        .express(num(f32::NAN), num(f32::NAN))
        .eval(&unit);
    assert_eq!(as_bool(nan), Some(false));
}

#[test]
fn ordering_across_variants_is_undefined() {
    let res = OrderingOperatorNode::Lt { equal: false }.express(text("a"), num(1.0)).eval(&unit);
    assert!(res.is_none());
    let res = OrderingOperatorNode::Gt { equal: true }.express(truth(true), num(1.0)).eval(&unit);
    assert!(res.is_none());
    let res = OrderingOperatorNode::Lt { equal: true }.express(text("true"), truth(true)).eval(&unit);
    assert!(res.is_none());
}

#[test]
fn ordering_of_texts_and_truth_values() {
    let words = ["", "a", "ab", "abc", "b", "B", "é", "zebra"];
    for a in words {
        for b in words {
            let lt = OrderingOperatorNode::Lt { equal: false }.express(text(a), text(b)).eval(&unit);
            assert_eq!(as_bool(lt), Some(a < b), "{a} < {b}");
            let le = OrderingOperatorNode::Lt { equal: true }.express(text(a), text(b)).eval(&unit);
            assert_eq!(as_bool(le), Some(a <= b), "{a} <= {b}");
            let gt = OrderingOperatorNode::Gt { equal: false }.express(text(a), text(b)).eval(&unit);
            assert_eq!(as_bool(gt), Some(a > b), "{a} > {b}");
            let ge = OrderingOperatorNode::Gt { equal: true }.express(text(a), text(b)).eval(&unit);
            assert_eq!(as_bool(ge), Some(a >= b), "{a} >= {b}");
            assert_eq!(StringValue::from(a).before(&StringValue::from(b)), a < b);
        }
    }
    for a in [false, true] {
        for b in [false, true] {
            let lt = OrderingOperatorNode::Lt { equal: false }.express(truth(a), truth(b)).eval(&unit);
            assert_eq!(as_bool(lt), Some(a < b));
            let ge = OrderingOperatorNode::Gt { equal: true }.express(truth(a), truth(b)).eval(&unit);
            assert_eq!(as_bool(ge), Some(a >= b));
        }
    }
}

#[test]
fn literal_and_grouping_evaluate_to_the_value() {
    assert_eq!(num(4.0).evaluate(&unit), Some(number(4.0)));
    assert_eq!(text("lox").evaluate(&unit), Some(Value::String(StringValue::from("lox"))));
    let grouped = Node::Grouping(Box::new(Node::plus(num(1.0), num(2.0))));
    assert_eq!(grouped.evaluate(&unit), Some(number(3.0)));
    assert!(matches!(num(4.0).step(&unit), Some(ControlFlow::Break(Value::Number(_)))));
    assert!(matches!(number(4.0).step(&unit), Some(ControlFlow::Break(Value::Number(_)))));
}

#[test]
fn the_three_protocols_agree() {
    let tree = || {
        Node::times(
            Node::Grouping(Box::new(Node::minus(num(10.0), num(4.0)))),
            Node::negation(num(0.5)),
        )
    };
    assert_eq!(tree().evaluate(&unit), Some(number(-3.0)));
    assert_eq!(tree().eval(&unit), Some(number(-3.0)));
    assert_eq!(tree().finish(&unit), Some(number(-3.0)));
    assert_eq!(broke(tree().next(&unit)), Some(number(-3.0)));
    assert_eq!(broke(tree().step(&unit)), Some(number(-3.0)));
    let bad = Node::times(num(1.0), Node::inversion(num(1.0)));
    assert_eq!(bad.finish(&unit), None);
    assert!(bad.next(&unit).is_none());
}

#[test]
fn operands_are_taken_left_to_right() {
    assert_eq!(Node::minus(num(5.0), num(3.0)).finish(&unit), Some(number(2.0)));
    assert_eq!(Node::minus(num(5.0), num(3.0)).evaluate(&unit), Some(number(2.0)));
    assert_eq!(Node::divides(num(8.0), Node::plus(num(1.0), num(1.0))).finish(&unit), Some(number(4.0)));
}

#[test]
fn operator_symbols() {
    assert_eq!(ArithmeticOperator::Plus.to_string(), "+");
    assert_eq!(ArithmeticOperator::Minus.to_string(), "-");
    assert_eq!(ArithmeticOperator::Divides.to_string(), "/");
    assert_eq!(ArithmeticOperator::Times.to_string(), "x");
    assert_eq!(EqualityOperator::Eq.to_string(), "==");
    assert_eq!(EqualityOperator::Ne.to_string(), "!=");
    assert_eq!(OrderingOperatorNode::Lt { equal: false }.to_string(), "<");
    assert_eq!(OrderingOperatorNode::Lt { equal: true }.to_string(), "<=");
    assert_eq!(OrderingOperatorNode::Gt { equal: false }.to_string(), ">");
    assert_eq!(OrderingOperatorNode::Gt { equal: true }.to_string(), ">=");
    assert_eq!(UnaryOperator::Not.to_string(), "!");
    assert_eq!(UnaryOperator::Neg.to_string(), "-");
    assert_eq!(BinaryOperation::Equality(EqualityOperator::Ne).to_string(), "!=");
}

#[test]
fn node_accessors() {
    assert_eq!(truth(true).as_bool(), Some(true));
    assert_eq!(num(1.0).as_bool(), None);
    assert_eq!(Node::inversion(truth(true)).as_bool(), None);
    assert!(num(1.0).as_literal().is_some());
    assert!(Node::plus(num(1.0), num(2.0)).as_literal().is_none());
    assert_eq!(number(1.0).as_bool(), None);
    assert_eq!(Value::number_expression(7), Value::Number(7));
    let sum = num(1.0).added_to_expression(num(2.0));
    assert_eq!(sum.evaluate(&unit), Some(number(3.0)));
    let built = Node::binary(ArithmeticOperator::Times.express(num(3.0), num(4.0)));
    assert_eq!(built.evaluate(&unit), Some(number(12.0)));
    let unary = UnaryOperator::Neg.express(num(3.0));
    assert_eq!(broke(unary.eval(&unit)), Some(number(-3.0)));
}

#[test]
fn eager_operations_on_nodes() {
    let literal = |node: Option<Node>| node.and_then(|node| node.as_literal().map(Value::duplicate));
    assert_eq!(literal(num(5.0).sub(num(3.0), &unit)), Some(number(2.0)));
    assert_eq!(literal(num(5.0).div(num(2.0), &unit)), Some(number(2.5)));
    assert_eq!(literal(num(5.0).mul(Node::plus(num(1.0), num(1.0)), &unit)), Some(number(10.0)));
    assert_eq!(literal(Node::plus(num(1.0), num(2.0)).sub(num(3.0), &unit)), Some(number(0.0)));
    assert!(num(5.0).sub(text("a"), &unit).is_none());
    assert!(truth(true).mul(num(1.0), &unit).is_none());
    assert_eq!(Node::plus(num(1.0), num(2.0)).add_value(number(4.0), &unit), Some(number(7.0)));
    assert_eq!(text("a").add_value(number(4.0), &unit), None);
    assert_eq!(Node::plus(num(1.0), num(2.0)).neg(&unit), Some((-3.0f32).to_bits()));
    assert_eq!(text("a").neg(&unit), None);
    assert_eq!(Node::plus(num(1.0), num(-1.0)).not(&unit), Some(true));
    assert_eq!(text("a").not(&unit), Some(false));
    assert_eq!(Node::negation(text("a")).not(&unit), None);
    assert!(Node::plus(num(1.0), num(2.0)).eq(&num(3.0), &unit));
    assert!(!Node::plus(num(1.0), num(2.0)).eq(&num(4.0), &unit));
    assert!(!Node::negation(text("a")).eq(&Node::negation(text("a")), &unit));
    assert!(number(3.0).equals_node(&Node::plus(num(1.0), num(2.0)), &unit));
    assert!(!number(3.0).equals_node(&text("3"), &unit));
    let product = number(3.0).arithmetic_node(Node::plus(num(1.0), num(1.0)), ArithmeticOperator::Times, &unit);
    assert_eq!(literal(product), Some(number(6.0)));
    assert!(number(3.0).arithmetic_node(text("a"), ArithmeticOperator::Plus, &unit).is_none());
}

#[test]
fn try_call_evaluates_then_applies() {
    let sum = try_call(&ArithmeticOperator::Plus, Node::plus(num(1.0), num(2.0)), num(4.0), &unit);
    assert_eq!(broke(sum), Some(number(7.0)));
    let same = try_call(&EqualityOperator::Eq, text("a"), text("a"), &unit);
    assert_eq!(as_bool(same), Some(true));
    let less = try_call(&OrderingOperatorNode::Gt { equal: false }, num(2.0), num(1.0), &unit);
    assert_eq!(as_bool(less), Some(true));
    assert!(try_call(&ArithmeticOperator::Minus, text("a"), num(4.0), &unit).is_none());
    let any = BinaryOperation::Arithmetic(ArithmeticOperator::Divides);
    assert_eq!(broke(try_call(&any, num(9.0), num(3.0), &unit)), Some(number(3.0)));
}

#[test]
fn operator_identities() {
    let sum = ArithmeticOperator::Times.identity(number(3.0), number(4.0), &unit);
    assert_eq!(broke(sum), Some(number(12.0)));
    assert!(ArithmeticOperator::Times.identity(number(3.0), Value::Boolean(true), &unit).is_none());
    let differ = EqualityOperator::Ne.identity(number(3.0), Value::Boolean(true), &unit);
    assert_eq!(as_bool(differ), Some(true));
    let not = UnaryOperator::Not.identity(Value::String(StringValue::from("")));
    assert_eq!(as_bool(not), Some(true));
    assert!(UnaryOperator::Neg.identity(Value::Boolean(true)).is_none());
    assert_eq!(broke(UnaryOperator::Neg.identity(number(1.0))), Some(number(-1.0)));
}

#[test]
fn conversions_into_values_and_nodes() {
    assert_eq!(Value::from(true), Value::Boolean(true));
    assert_eq!(Value::from("lox"), Value::String(StringValue::from("lox")));
    assert_eq!(Value::from("lox".to_string()), Value::String(StringValue::from("lox")));
    assert_eq!(Value::from(StringValue::from("lox")), Value::String(StringValue::from("lox")));
    let node: Node = "lox".into();
    assert_eq!(node.evaluate(&unit), Some(Value::from("lox")));
    let node: Node = false.into();
    assert_eq!(node.as_bool(), Some(false));
    let node: Node = number(2.0).into();
    assert_eq!(node.evaluate(&unit), Some(number(2.0)));
    let node: Node = StringValue::from("x").into();
    assert_eq!(node.evaluate(&unit), Some(Value::from("x")));
    let node: Node = ArithmeticOperator::Minus.express(num(3.0), num(1.0)).into();
    assert_eq!(node.evaluate(&unit), Some(number(2.0)));
    let node: Node = UnaryOperator::Not.express(truth(false)).into();
    assert_eq!(node.evaluate(&unit), Some(Value::Boolean(true)));
    let built = BinaryExpression {
        operand_a: num(1.0),
        operand_b: num(2.0),
        operator: BinaryOperation::Relation(OrderingOperatorNode::Lt { equal: false }),
    };
    assert_eq!(as_bool(built.eval(&unit)), Some(true));
}

#[test]
fn control_flow_steps() {
    let done: ControlFlow<Value, Node> = ControlFlow::Break(number(1.0));
    assert_eq!(done.evaluate(&unit), Some(number(1.0)));
    let pending: ControlFlow<Value, Node> = ControlFlow::Continue(Node::plus(num(1.0), num(1.0)));
    assert_eq!(pending.evaluate(&unit), Some(number(2.0)));
    assert_eq!(broke(pending.step(&unit)), Some(number(2.0)));
    let failing: ControlFlow<Value, Node> = ControlFlow::Continue(Node::negation(text("a")));
    assert_eq!(failing.evaluate(&unit), None);
}

#[test]
fn trees_on_one_line() {
    let show = |bits: u32| format!("{:?}", f32::from_bits(bits));
    assert_eq!(num(1.0).to_string(&show), "Number(1.0)");
    assert_eq!(text("lox").to_string(&show), "String(\"lox\")");
    assert_eq!(truth(true).to_string(&show), "Boolean(true)");
    assert_eq!(truth(false).to_string(&show), "Boolean(false)");
    assert_eq!(Node::plus(num(1.0), num(2.5)).to_string(&show), "Number(1.0) + Number(2.5)");
    assert_eq!(Node::negation(num(1.0)).to_string(&show), "Number(1.0)-");
    assert_eq!(Node::inversion(truth(true)).to_string(&show), "Boolean(true)!");
    let grouped = Node::Grouping(Box::new(Node::times(num(2.0), num(3.0))));
    assert_eq!(grouped.to_string(&show), "GroupingExpression(Number(2.0) x Number(3.0))");
    let compared = EqualityOperator::Ne.express(grouped, text(""));
    assert_eq!(
        compared.to_string(&show),
        "GroupingExpression(Number(2.0) x Number(3.0)) != String(\"\")"
    );
    assert_eq!(number(0.5).to_string(&show), "Number(0.5)");
}

#[test]
fn values_compare_as_numbers_do() {
    assert!(number(1.0) < number(2.0));
    assert!(number(2.0) >= number(2.0));
    assert!(number(-0.0) <= number(0.0));
    assert!(!(number(f32::NAN) <= number(f32::NAN)));
    assert_eq!(number(3.0).partial_cmp(&number(1.0)), Some(std::cmp::Ordering::Greater));
    assert_eq!(number(3.0).partial_cmp(&Value::Boolean(true)), None);
    assert_eq!(Value::from("a").partial_cmp(&Value::from("b")), Some(std::cmp::Ordering::Less));
    assert_eq!(Value::from("a").partial_cmp(&Value::from("a")), Some(std::cmp::Ordering::Equal));
    assert_eq!(Value::from(true).partial_cmp(&Value::from(false)), Some(std::cmp::Ordering::Greater));
    assert_eq!(Value::from("a").partial_cmp(&Value::from(false)), None);
    assert_eq!(number(3.0).before(&number(4.0), false), Some(true));
    assert_eq!(number(4.0).before(&number(4.0), true), Some(true));
    assert_eq!(number(4.0).before(&Value::from("4"), true), None);
    assert_eq!(number(4.0).clone(), number(4.0));
}

#[test]
fn evaluation_follows_types() {
    let well_typed = [
        Node::plus(num(1.0), Node::negation(num(2.0))),
        EqualityOperator::Eq.express(text("a"), num(1.0)).into_node(),
        Node::inversion(Node::plus(num(1.0), num(2.0))),
        OrderingOperatorNode::Lt { equal: true }.express(text("a"), text("b")).into_node(),
        Node::Grouping(Box::new(truth(true))),
    ];
    for node in well_typed.iter() {
        assert!(node.evaluate(&unit).is_some());
        assert!(node.finish(&unit).is_some());
    }
    let ill_typed = [
        Node::plus(num(1.0), Node::inversion(num(2.0))),
        Node::negation(EqualityOperator::Eq.express(num(1.0), num(1.0)).into_node()),
        OrderingOperatorNode::Gt { equal: false }.express(num(1.0), text("b")).into_node(),
        Node::Grouping(Box::new(Node::times(truth(true), num(1.0)))),
        Node::inversion(Node::negation(text("a"))),
    ];
    for node in ill_typed.iter() {
        assert!(node.evaluate(&unit).is_none());
        assert!(node.finish(&unit).is_none());
        assert!(node.eval(&unit).is_none());
    }
    let swapped = |_kind: ArithmeticOperator, _a: u32, _b: u32| 0x7fc0_0000u32;
    for node in well_typed.iter() {
        assert!(node.evaluate(&swapped).is_some());
    }
    for node in ill_typed.iter() {
        assert!(node.evaluate(&swapped).is_none());
    }
}
