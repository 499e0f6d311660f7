use eval::builtin::{compare, is_empty, len_of, BuiltIn, Compare};
use eval::error::Error;
use eval::eval::{exec_node, find, is_range, parse_number, parse_range, Context};
use eval::host::{Binary, Function, NoHost};
use eval::lexer::{scan_operators, scan_positions};
use eval::math::{binary, int_to_text, less_text, same};
use eval::node::Node;
use eval::number::is_float_text;
use eval::operator::Operator;
use eval::tree::Tree;
use eval::value::Value;

fn run(expr: &str) -> Result<Value, Error> {
    Tree::new(expr).compile()?.exec(&Vec::new(), &NoHost)
}

fn ident(name: &str) -> Node {
    let mut node = Node::new(Operator::Identifier(name.to_string()));
    node.closed = true;
    node
}

#[test]
fn operators_carry_their_priorities() {
    assert_eq!(Operator::from_str("||").get_priority(), 1);
    assert_eq!(Operator::from_str("&&").get_priority(), 2);
    for symbol in ["==", "!=", ">", "<", ">=", "<="] {
        assert_eq!(Operator::from_str(symbol).get_priority(), 3);
    }
    assert_eq!(Operator::from_str("+").get_priority(), 4);
    assert_eq!(Operator::from_str("-").get_priority(), 4);
    assert_eq!(Operator::from_str("*").get_priority(), 5);
    assert_eq!(Operator::from_str("/").get_priority(), 5);
    assert_eq!(Operator::from_str("%").get_priority(), 5);
    assert_eq!(Operator::from_str("!").get_priority(), 6);
    assert_eq!(Operator::from_str(".").get_priority(), 7);
    assert_eq!(Operator::from_str("[").get_priority(), 7);
    assert_eq!(Operator::from_str("(").get_priority(), 0);
    assert_eq!(Operator::from_str("name").get_priority(), 255);
}

#[test]
fn operators_have_their_arities() {
    assert_eq!(Operator::from_str("+").get_max_args(), Some(2));
    assert_eq!(Operator::from_str("||").get_max_args(), Some(2));
    assert_eq!(Operator::from_str("!").get_max_args(), Some(1));
    assert_eq!(Operator::from_str(".").get_max_args(), None);
    assert_eq!(Operator::from_str("[").get_max_args(), None);
    assert_eq!(Operator::Function("f".to_string()).get_max_args(), None);
    assert_eq!(Operator::from_str("(").get_max_args(), Some(0));
    assert_eq!(Operator::from_str("x").get_max_args(), Some(0));
}

#[test]
fn operator_classes() {
    for symbol in ["-", "!", "(", "+"] {
        assert!(Operator::from_str(symbol).can_at_beginning());
    }
    assert!(!Operator::from_str("*").can_at_beginning());
    assert!(!Operator::from_str("x").can_at_beginning());
    assert!(Operator::from_str(".").can_have_child());
    assert!(Operator::from_str("[").can_have_child());
    assert!(Operator::Function("f".to_string()).can_have_child());
    assert!(!Operator::from_str("(").can_have_child());
    assert!(Operator::from_str("x").is_value_or_ident());
    assert!(Operator::from_str("true").is_value_or_ident());
    assert!(!Operator::from_str("true").is_identifier());
    assert!(Operator::from_str("12").is_identifier());
    assert!(Operator::from_str("(").is_left());
    assert!(Operator::from_str("[").is_left());
    assert!(Operator::Function("f".to_string()).is_left());
    assert!(!Operator::from_str(")").is_left());
    assert!(Operator::from_str(")").get_left().is_left_parenthesis());
    assert!(Operator::from_str("]").get_left().is_left_square_bracket());
    assert!(Operator::from_str("!").is_not());
    assert!(Operator::from_str(".").is_dot());
}

#[test]
fn a_fresh_node_is_open_and_empty() {
    let node = Node::new(Operator::from_str("+"));
    assert!(!node.closed);
    assert!(node.children.is_empty());
    assert!(!node.is_enough());
    assert!(!node.is_value_or_full_children());
    assert!(node.is_unclosed_arithmetic());
    assert!(!node.is_unclosed_function());
}

#[test]
fn a_node_fills_up() {
    let mut node = Node::new(Operator::from_str("*"));
    node.add_child(ident("a"));
    assert!(!node.is_enough());
    node.add_child(ident("b"));
    assert!(node.is_enough());
    assert!(node.is_value_or_full_children());
    assert_eq!(node.get_first_child().operator.get_identifier(), "a");
    assert_eq!(node.get_last_child().operator.get_identifier(), "b");
    let last = node.move_out_last_node();
    assert_eq!(last.operator.get_identifier(), "b");
    assert_eq!(node.children.len(), 1);
    assert!(!node.is_enough());
}

#[test]
fn node_kinds() {
    let mut bracket = Node::new(Operator::from_str("["));
    assert!(bracket.is_left_square_bracket());
    assert!(bracket.is_unclosed_square_bracket());
    bracket.set_closed(true);
    assert!(!bracket.is_unclosed_square_bracket());
    assert!(bracket.is_value_or_full_children());
    assert!(Node::new(Operator::from_str(".")).is_dot());
    let mut call = Node::new(Operator::Function("f".to_string()));
    assert!(call.is_unclosed_function());
    call.closed = true;
    assert!(!call.is_unclosed_function());
    assert!(ident("x").is_value_or_full_children());
}

#[test]
fn arity_is_checked_from_above_first() {
    let mut call = Node::new(Operator::Function("f".to_string()));
    call.add_child(ident("a"));
    call.add_child(ident("b"));
    let exactly_one = Function { max_args: Some(1), min_args: Some(1) };
    assert!(matches!(call.check_function_args(&exactly_one), Err(Error::ArgumentsGreater(1))));
    let three_or_more = Function { max_args: None, min_args: Some(3) };
    assert!(matches!(call.check_function_args(&three_or_more), Err(Error::ArgumentsLess(3))));
    let impossible = Function { max_args: Some(1), min_args: Some(3) };
    assert!(matches!(call.check_function_args(&impossible), Err(Error::ArgumentsGreater(1))));
    let any = Function { max_args: None, min_args: None };
    assert!(call.check_function_args(&any).is_ok());
    let two = Function { max_args: Some(2), min_args: Some(2) };
    assert!(call.check_function_args(&two).is_ok());
}

#[test]
fn builtins_by_name() {
    let all = BuiltIn::create_builtins();
    let names: Vec<&str> = all.iter().map(|(name, _)| name.as_str()).collect();
    assert_eq!(names, vec!["min", "max", "len", "is_empty", "array"]);
    assert_eq!(BuiltIn::get("min"), Some(Function { max_args: None, min_args: Some(1) }));
    assert_eq!(BuiltIn::get("len"), Some(Function { max_args: Some(1), min_args: Some(1) }));
    assert_eq!(BuiltIn::get("array"), Some(Function { max_args: None, min_args: None }));
    assert_eq!(BuiltIn::get("sum"), None);
    for (name, arity) in all {
        assert_eq!(BuiltIn::get(&name), Some(arity));
    }
}

#[test]
fn extremes_keep_the_first_of_equals() {
    let values = vec![
        Value::UInt(2),
        Value::Array(vec![Value::Int(-1), Value::UInt(7)]),
        Value::UInt(7),
    ];
    assert!(matches!(compare(&NoHost, Compare::Min, &values), Ok(Value::Int(-1))));
    assert!(matches!(compare(&NoHost, Compare::Max, &values), Ok(Value::UInt(7))));
    let nested = vec![Value::Array(vec![Value::Array(vec![Value::UInt(1)])])];
    assert!(matches!(compare(&NoHost, Compare::Min, &nested), Ok(Value::Array(_))));
    assert!(matches!(compare(&NoHost, Compare::Min, &Vec::new()), Err(Error::Custom(_))));
    let texts = vec![Value::String("pear".to_string()), Value::String("apple".to_string())];
    match compare(&NoHost, Compare::Min, &texts) {
        Ok(Value::String(s)) => assert_eq!(s, "apple"),
        other => panic!("unexpected {:?}", other),
    }
}

#[test]
fn lengths_and_emptiness() {
    assert!(matches!(len_of(&Value::String("abc".to_string())), Ok(Value::UInt(3))));
    assert!(matches!(len_of(&Value::Array(vec![Value::Null])), Ok(Value::UInt(1))));
    assert!(matches!(len_of(&Value::Object(Vec::new())), Ok(Value::UInt(0))));
    assert!(matches!(len_of(&Value::Null), Ok(Value::UInt(0))));
    assert!(matches!(len_of(&Value::Bool(true)), Err(Error::Custom(_))));
    assert!(is_empty(&Value::Object(Vec::new())));
    assert!(!is_empty(&Value::String(" ".to_string())));
    assert!(!is_empty(&Value::Bool(false)));
}

#[test]
fn float_syntax_is_recognised() {
    for text in ["0", "12", "+12", "-12", "1.5", "1.", ".5", "1e5", "1E-5", "1.5e+3", "inf", "-Infinity", "NaN"] {
        assert!(is_float_text(text), "{}", text);
        assert!(text.parse::<f64>().is_ok(), "{}", text);
    }
    for text in ["", ".", "+", "e5", "1e", "1e+", "1..5", "1.5.2", "abc", "infinit", "0x10", "1 "] {
        assert!(!is_float_text(text), "{}", text);
        assert!(text.parse::<f64>().is_err(), "{}", text);
    }
}

#[test]
fn numbers_are_read_unsigned_first() {
    assert!(matches!(parse_number(&NoHost, "12"), Some(Value::UInt(12))));
    assert!(matches!(parse_number(&NoHost, "+12"), Some(Value::UInt(12))));
    assert!(matches!(parse_number(&NoHost, "-12"), Some(Value::Int(-12))));
    assert!(matches!(parse_number(&NoHost, "18446744073709551615"), Some(Value::UInt(u64::MAX))));
    assert!(matches!(parse_number(&NoHost, "-9223372036854775808"), Some(Value::Int(i64::MIN))));
    assert!(matches!(parse_number(&NoHost, "18446744073709551616"), Some(Value::Null)));
    assert!(matches!(parse_number(&NoHost, "1.5"), Some(Value::Null)));
    assert!(parse_number(&NoHost, "abc").is_none());
    assert!(parse_number(&NoHost, "").is_none());
    assert!(parse_number(&NoHost, "-").is_none());
}

#[test]
fn a_signed_identifier_is_a_number() {
    let node = ident("-5");
    assert!(matches!(exec_node(&NoHost, &Vec::new(), &node), Ok(Value::Int(-5))));
}

#[test]
fn ranges() {
    assert!(is_range("1..5"));
    assert!(is_range(".."));
    assert!(!is_range("1.5"));
    assert!(!is_range(""));
    match parse_range("-2..1") {
        Ok(v) => assert!(same(&v, &Value::Array(vec![Value::Int(-2), Value::Int(-1), Value::Int(0)]))),
        Err(e) => panic!("failed with {:?}", e),
    }
    match parse_range("3..3") {
        Ok(v) => assert!(same(&v, &Value::Array(Vec::new()))),
        Err(e) => panic!("failed with {:?}", e),
    }
    match parse_range("1..x") {
        Err(Error::InvalidRange(text)) => assert_eq!(text, "1..x"),
        other => panic!("unexpected {:?}", other),
    }
    assert!(matches!(parse_range(".."), Err(Error::InvalidRange(_))));
    assert!(matches!(parse_range("1....2"), Err(Error::InvalidRange(_))));
}

#[test]
fn lookup_goes_from_the_innermost_outward() {
    let contexts: Vec<Context> = vec![
        vec![("a".to_string(), Value::UInt(1)), ("b".to_string(), Value::UInt(2))],
        vec![("a".to_string(), Value::UInt(10)), ("a".to_string(), Value::UInt(11))],
        vec![("c".to_string(), Value::Null)],
    ];
    assert!(matches!(find(&contexts, "a"), Some(Value::UInt(10))));
    assert!(matches!(find(&contexts, "b"), Some(Value::UInt(2))));
    assert!(matches!(find(&contexts, "c"), Some(Value::Null)));
    assert!(find(&contexts, "d").is_none());
    assert!(find(&Vec::new(), "a").is_none());
}

#[test]
fn integers_are_written_in_decimal() {
    assert_eq!(int_to_text(0), "0");
    assert_eq!(int_to_text(7), "7");
    assert_eq!(int_to_text(1203), "1203");
    assert_eq!(int_to_text(-45), "-45");
    assert_eq!(int_to_text(18446744073709551615), "18446744073709551615");
}

#[test]
fn texts_are_ordered_by_character() {
    assert!(less_text("", "a"));
    assert!(!less_text("a", ""));
    assert!(!less_text("a", "a"));
    assert!(less_text("a", "ab"));
    assert!(less_text("Z", "a"));
    assert!(less_text("ab", "b"));
    assert!(less_text("z", "é"));
}

#[test]
fn equality_is_deep_and_by_number() {
    assert!(same(&Value::Int(3), &Value::UInt(3)));
    assert!(!same(&Value::Int(-3), &Value::UInt(3)));
    assert!(!same(&Value::UInt(1), &Value::Bool(true)));
    assert!(!same(&Value::Null, &Value::Bool(false)));
    let a = Value::Array(vec![Value::Object(vec![("k".to_string(), Value::UInt(1))])]);
    let b = Value::Array(vec![Value::Object(vec![("k".to_string(), Value::Int(1))])]);
    let c = Value::Array(vec![Value::Object(vec![("k".to_string(), Value::Int(2))])]);
    assert!(same(&a, &b));
    assert!(!same(&a, &c));
    assert!(!same(&a, &Value::Array(Vec::new())));
    assert!(matches!(binary(&NoHost, Binary::Eq, &a, &b), Ok(Value::Bool(true))));
    assert!(matches!(binary(&NoHost, Binary::Ne, &a, &b), Ok(Value::Bool(false))));
    assert!(same(&a.duplicate(), &a));
}

#[test]
fn member_lookup_takes_the_first_binding() {
    let object = Value::Object(vec![
        ("k".to_string(), Value::UInt(1)),
        ("k".to_string(), Value::UInt(2)),
    ]);
    assert!(matches!(object.get("k"), Some(Value::UInt(1))));
    assert!(object.get("j").is_none());
    assert!(Value::Array(Vec::new()).get("k").is_none());
}

#[test]
fn unary_signs() {
    assert!(matches!(run("-3"), Ok(Value::Int(-3))));
    assert!(matches!(run("+3"), Ok(Value::UInt(3))));
    assert!(matches!(run("(-3) * 2"), Ok(Value::Int(-6))));
    assert!(matches!(run("-'a'"), Err(Error::ExpectedNumber)));
}

#[test]
fn an_operator_without_operands_cannot_run() {
    assert!(matches!(run("+"), Err(Error::CanNotExec(Operator::Add(4)))));
    assert!(matches!(run("!"), Err(Error::NoFinalNode)));
    let comma = Node::new(Operator::Comma);
    assert!(matches!(exec_node(&NoHost, &Vec::new(), &comma), Err(Error::CanNotExec(Operator::Comma))));
}

#[test]
fn a_value_takes_no_child() {
    assert!(matches!(Tree::new("'a' (2)").compile(), Err(Error::CanNotAddChild)));
}

#[test]
fn indexing_errors() {
    let contexts: Vec<Context> = vec![vec![
        ("user".to_string(), Value::Object(vec![("name".to_string(), Value::Null)])),
        ("list".to_string(), Value::Array(vec![Value::UInt(8)])),
        ("flag".to_string(), Value::Bool(true)),
    ]];
    let run_in = |expr: &str| Tree::new(expr).compile().unwrap().exec(&contexts, &NoHost);
    assert!(matches!(run_in("1[0]"), Err(Error::ExpectedArray)));
    assert!(matches!(run_in("flag[0]"), Err(Error::ExpectedArray)));
    assert!(matches!(run_in("user[0]"), Err(Error::ExpectedIdentifier)));
    assert!(matches!(run_in("list['a']"), Err(Error::ExpectedNumber)));
    assert!(matches!(run_in("list[true]"), Err(Error::ExpectedNumber)));
    assert!(matches!(run_in("list[0]"), Ok(Value::UInt(8))));
    assert!(matches!(run_in("list[1]"), Ok(Value::Null)));
    assert!(matches!(run_in("user['name']"), Ok(Value::Null)));
    assert!(matches!(run_in("user['age']"), Ok(Value::Null)));
    assert!(matches!(run_in("flag.x"), Err(Error::ExpectedObject)));
    assert!(matches!(run_in("list.x"), Err(Error::ExpectedObject)));
}

#[test]
fn cut_points_skip_double_quoted_text() {
    assert_eq!(scan_positions(""), vec![0]);
    assert_eq!(scan_positions("ab"), vec![2]);
    assert_eq!(scan_positions("a b"), vec![1, 2, 3]);
    assert_eq!(scan_positions("\"a+b\"+'c d'"), vec![0, 1, 4, 5, 5, 6, 6, 7, 8, 9, 10, 11, 11]);
}

#[test]
fn tokens_become_operators() {
    let text = "a>=1.5&&!(b)";
    let operators = scan_operators(text, &scan_positions(text)).unwrap();
    let shown: Vec<String> = operators.iter().map(|op| format!("{:?}", op)).collect();
    assert_eq!(
        shown,
        vec![
            "Identifier(\"a\")",
            "Ge(3)",
            "Identifier(\"1.5\")",
            "And(2)",
            "Not(6)",
            "LeftParenthesis",
            "Identifier(\"b\")",
            "RightParenthesis",
        ]
    );
}

#[test]
fn quoted_text_is_one_value() {
    let text = "'a + b' \"c'd\"";
    let operators = scan_operators(text, &scan_positions(text)).unwrap();
    assert_eq!(operators.len(), 2);
    match (&operators[0], &operators[1]) {
        (Operator::Value(Value::String(a)), Operator::Value(Value::String(b))) => {
            assert_eq!(a, "a + b");
            assert_eq!(b, "c'd");
        }
        other => panic!("unexpected {:?}", other),
    }
}

#[test]
fn positions_out_of_order_give_no_token() {
    let operators = scan_operators("abc", &vec![2, 1, 9, 3]).unwrap();
    assert_eq!(operators.len(), 1);
    assert_eq!(operators[0].get_identifier(), "ab");
}

#[test]
fn closing_parenthesis_first_is_paired_by_count_only() {
    assert!(matches!(Tree::new(")(").compile(), Err(Error::BracketNotWithFunction)));
    assert!(matches!(Tree::new("((1)").compile(), Err(Error::UnpairedBrackets)));
    assert!(matches!(Tree::new("(1))").compile(), Err(Error::UnpairedBrackets)));
}
