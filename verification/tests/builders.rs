use expr_ast::ast::Array;
use expr_ast::ast::Char;
use expr_ast::ast::Expr;
use expr_ast::ast::ExprInner;
use expr_ast::ast::Float;
use expr_ast::ast::Integer;
use expr_ast::ast::IntegerDec;
use expr_ast::ast::IntegerHex;
use expr_ast::ast::MainProgram;
use expr_ast::ast::Operator;
use expr_ast::ast::Params;
use expr_ast::ast::PrimitiveValue;
use expr_ast::ast::Stmt;
use expr_ast::ast::StringLiteral;
use expr_ast::ast::Term;
use expr_ast::ast::Tuple;
use expr_ast::ast::Value;
use expr_ast::errors::ConversionError;
use expr_ast::errors::DecodeError;
use expr_ast::errors::FaultKind;
use expr_ast::node::Node;
use expr_ast::node::Rule;

fn leaf(rule: Rule, text: &str) -> Node {
    Node { rule, text: text.to_string(), children: vec![] }
}

fn inner(rule: Rule, children: Vec<Node>) -> Node {
    Node { rule, text: String::new(), children }
}

fn dec_value_term(text: &str) -> Node {
    inner(
        Rule::Term,
        vec![inner(
            Rule::Value,
            vec![inner(
                Rule::PrimitiveValue,
                vec![inner(Rule::Integer, vec![leaf(Rule::IntegerDec, text)])],
            )],
        )],
    )
}

fn op_node(op: Rule) -> Node {
    inner(Rule::Operator, vec![leaf(op, "")])
}

fn dec_expr(text: &str) -> Node {
    inner(Rule::Expr, vec![dec_value_term(text)])
}

fn term_value_i64(term: &Term) -> i64 {
    match term {
        Term::Value(Value::Primitive(PrimitiveValue::Integer(i))) => i.as_i64(),
        _ => panic!("term does not hold an integer value"),
    }
}

#[test]
fn expression_with_operator() {
    let nodes = vec![inner(
        Rule::Expr,
        vec![dec_value_term("2"), op_node(Rule::OpAdd), dec_value_term("3")],
    )];
    let mut pos = 0;
    let e = Expr::from_nodes(&nodes, &mut pos).unwrap();
    assert_eq!(pos, 1);
    assert_eq!(term_value_i64(&e.lhs), 2);
    let (op, rhs) = e.rhs.expect("operator and right term must both be present");
    assert!(matches!(op, Operator::Add(_)));
    assert_eq!(term_value_i64(&rhs), 3);
}

#[test]
fn expression_with_single_term() {
    let nodes = vec![dec_expr("7")];
    let mut pos = 0;
    let e = Expr::from_nodes(&nodes, &mut pos).unwrap();
    assert_eq!(pos, 1);
    assert_eq!(term_value_i64(&e.lhs), 7);
    assert!(e.rhs.is_none());
}

#[test]
fn expression_missing_right_term_is_fatal() {
    let nodes = vec![inner(Rule::Expr, vec![dec_value_term("2"), op_node(Rule::OpMul)])];
    let mut pos = 0;
    match Expr::from_nodes(&nodes, &mut pos) {
        Err(ConversionError::Fatal(f)) => assert_eq!(f.kind, FaultKind::MissingChild),
        _ => panic!("a matched operator without a right term must fail fatally"),
    }
    assert_eq!(pos, 0);
}

#[test]
fn nested_expression_in_term() {
    let nodes = vec![inner(
        Rule::Expr,
        vec![inner(Rule::Term, vec![inner(
            Rule::Expr,
            vec![dec_value_term("1"), op_node(Rule::OpSub), dec_value_term("2")],
        )])],
    )];
    let mut pos = 0;
    let e = Expr::from_nodes(&nodes, &mut pos).unwrap();
    match e.lhs {
        Term::Expr(sub) => {
            assert_eq!(term_value_i64(&sub.lhs), 1);
            let (op, rhs) = sub.rhs.expect("nested operator expected");
            assert!(matches!(op, Operator::Sub(_)));
            assert_eq!(term_value_i64(&rhs), 2);
        },
        Term::Value(_) => panic!("expected a nested expression"),
    }
    assert!(e.rhs.is_none());
}

#[test]
fn params_of_zero_expressions_matches_empty() {
    let nodes: Vec<Node> = vec![];
    let mut pos = 0;
    let p = Params::from_nodes(&nodes, &mut pos).unwrap();
    assert!(p.params.is_empty());
    assert_eq!(pos, 0);

    let nodes = vec![leaf(Rule::Stmt, "")];
    let mut pos = 0;
    let p = Params::from_nodes(&nodes, &mut pos).unwrap();
    assert!(p.params.is_empty());
    assert_eq!(pos, 0);
}

#[test]
fn hex_tagged_node_never_matches_dec_builder() {
    let nodes = vec![leaf(Rule::IntegerHex, "0x10")];
    let mut pos = 0;
    let r = IntegerDec::from_nodes(&nodes, &mut pos);
    assert!(matches!(r, Err(ConversionError::NoMatch)));
    assert_eq!(pos, 0);
    let v = IntegerHex::from_nodes(&nodes, &mut pos).unwrap();
    assert_eq!(v.val, 16);
    assert_eq!(pos, 1);
}

#[test]
fn integer_choice_goes_by_radix_tag() {
    let nodes = vec![inner(Rule::Integer, vec![leaf(Rule::IntegerHex, "0x101")])];
    let mut pos = 0;
    let v = Integer::from_nodes(&nodes, &mut pos).unwrap();
    assert!(matches!(v, Integer::Hex(_)));
    assert_eq!(v.as_i64(), 257);
}

#[test]
fn mismatched_tag_leaves_cursor_unchanged() {
    let nodes = vec![leaf(Rule::Stmt, ""), dec_expr("5")];
    let mut pos = 0;
    let r = Expr::from_nodes(&nodes, &mut pos);
    assert!(matches!(r, Err(ConversionError::NoMatch)));
    assert_eq!(pos, 0);
    // The builder for the true tag still succeeds from the same spot.
    let s = Stmt::from_nodes(&nodes, &mut pos);
    assert!(s.is_ok());
    assert_eq!(pos, 1);
    let e = Expr::from_nodes(&nodes, &mut pos).unwrap();
    assert_eq!(term_value_i64(&e.lhs), 5);
    assert_eq!(pos, 2);
}

#[test]
fn main_program_gathers_statements() {
    let nodes = vec![inner(
        Rule::Main,
        vec![leaf(Rule::Stmt, ""), leaf(Rule::Stmt, ""), leaf(Rule::EndOfInput, "")],
    )];
    let mut pos = 0;
    let p = MainProgram::from_nodes(&nodes, &mut pos).unwrap();
    assert_eq!(p.stmts.len(), 2);
    assert_eq!(pos, 1);
}

#[test]
fn array_gathers_expressions() {
    let nodes = vec![inner(Rule::Array, vec![dec_expr("1"), dec_expr("2")])];
    let mut pos = 0;
    let a = Array::from_nodes(&nodes, &mut pos).unwrap();
    assert_eq!(a.params.params.len(), 2);
    assert_eq!(term_value_i64(&a.params.params[0].lhs), 1);
    assert_eq!(term_value_i64(&a.params.params[1].lhs), 2);
    assert_eq!(pos, 1);
}

#[test]
fn empty_tuple_matches() {
    let nodes = vec![inner(Rule::Tuple, vec![])];
    let mut pos = 0;
    let t = Tuple::from_nodes(&nodes, &mut pos).unwrap();
    assert!(t.params.params.is_empty());
    assert_eq!(pos, 1);
}

#[test]
fn fatal_expression_inside_array_propagates() {
    let bad = inner(
        Rule::Expr,
        vec![inner(
            Rule::Term,
            vec![inner(
                Rule::Value,
                vec![inner(
                    Rule::PrimitiveValue,
                    vec![inner(Rule::Integer, vec![leaf(Rule::IntegerDec, "12z")])],
                )],
            )],
        )],
    );
    let nodes = vec![inner(Rule::Array, vec![dec_expr("1"), bad])];
    let mut pos = 0;
    let r = Array::from_nodes(&nodes, &mut pos);
    assert!(matches!(r, Err(ConversionError::Fatal(_))));
    assert_eq!(pos, 0);
}

#[test]
fn string_literal_builder_trims() {
    let nodes = vec![leaf(Rule::StringLit, "\"abc\"")];
    let mut pos = 0;
    let s = StringLiteral::from_nodes(&nodes, &mut pos).unwrap();
    assert_eq!(s.val, "abc");
    assert_eq!(pos, 1);
}

#[test]
fn char_literal_builder() {
    let nodes = vec![leaf(Rule::CharLit, "'x'")];
    let mut pos = 0;
    let c = Char::from_nodes(&nodes, &mut pos).unwrap();
    assert_eq!(c.val, 'x');

    let nodes = vec![leaf(Rule::CharLit, "''")];
    let mut pos = 0;
    match Char::from_nodes(&nodes, &mut pos) {
        Err(ConversionError::Fatal(f)) => {
            assert_eq!(f.kind, FaultKind::Literal(DecodeError::EmptyChar));
            assert_eq!(f.span, "''");
        },
        _ => panic!("an empty char literal must fail fatally"),
    }
    assert_eq!(pos, 0);
}

#[test]
fn float_literal_keeps_decimal_text() {
    let nodes = vec![leaf(Rule::Float, "3.14")];
    let mut pos = 0;
    let f = Float::from_nodes(&nodes, &mut pos).unwrap();
    assert_eq!(f.text, "3.14");
    let realized: f64 = f.text.parse().unwrap();
    assert_eq!(realized, 3.14);

    let nodes = vec![leaf(Rule::Float, "wave")];
    let mut pos = 0;
    match Float::from_nodes(&nodes, &mut pos) {
        Err(ConversionError::Fatal(f)) => {
            assert_eq!(f.kind, FaultKind::Literal(DecodeError::BadFloat));
        },
        _ => panic!("a malformed float literal must fail fatally"),
    }
}

#[test]
fn overflowing_integer_literal_is_fatal() {
    let nodes = vec![inner(Rule::Integer, vec![leaf(Rule::IntegerDec, "99999999999999999999")])];
    let mut pos = 0;
    match Integer::from_nodes(&nodes, &mut pos) {
        Err(ConversionError::Fatal(f)) => {
            assert_eq!(f.kind, FaultKind::Literal(DecodeError::PosOverflow));
            assert_eq!(f.span, "99999999999999999999");
        },
        _ => panic!("an overflowing literal must fail fatally"),
    }
    assert_eq!(pos, 0);
}

#[test]
fn operator_markers_build_in_declared_order() {
    for (rule, want) in [
        (Rule::OpAdd, Operator::Add(expr_ast::ast::Add)),
        (Rule::OpSub, Operator::Sub(expr_ast::ast::Sub)),
        (Rule::OpMul, Operator::Mul(expr_ast::ast::Mul)),
        (Rule::OpDiv, Operator::Div(expr_ast::ast::Div)),
        (Rule::OpPow, Operator::Pow(expr_ast::ast::Pow)),
    ] {
        let nodes = vec![op_node(rule)];
        let mut pos = 0;
        let op = Operator::from_nodes(&nodes, &mut pos).unwrap();
        assert_eq!(op, want);
        assert_eq!(pos, 1);
    }
}

#[test]
fn expr_inner_wraps_one_value() {
    let nodes = vec![inner(
        Rule::ExprInner,
        vec![inner(Rule::Value, vec![leaf(Rule::StringLit, "\"v\"")])],
    )];
    let mut pos = 0;
    let ei = ExprInner::from_nodes(&nodes, &mut pos).unwrap();
    assert!(matches!(ei.val, Value::String(_)));
    assert_eq!(pos, 1);

    let nodes = vec![inner(Rule::ExprInner, vec![])];
    let mut pos = 0;
    match ExprInner::from_nodes(&nodes, &mut pos) {
        Err(ConversionError::Fatal(f)) => assert_eq!(f.kind, FaultKind::MissingChild),
        _ => panic!("a wrapper without its value child must fail fatally"),
    }
}

#[test]
fn integer_accessor_is_radix_blind() {
    assert_eq!(Integer::Dec(IntegerDec { val: 26 }).as_i64(), 26);
    assert_eq!(Integer::Hex(IntegerHex { val: 26 }).as_i64(), 26);
}
