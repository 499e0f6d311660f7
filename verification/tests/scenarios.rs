use eval::error::Error;
use eval::eval::Context;
use eval::host::{Binary, Function, Host, NoHost, Registry};
use eval::math::same;
use eval::tree::Tree;
use eval::error::ErrorModel;
use eval::value::{Models, Text, Value, ValueModel};

/// A host with real doubles and two functions of its own.
struct Floats;

fn as_double(v: &Value) -> Option<f64> {
    match v {
        Value::Float(bits) => Some(f64::from_bits(*bits)),
        Value::Int(i) => Some(*i as f64),
        Value::UInt(u) => Some(*u as f64),
        _ => None,
    }
}

impl Host for Floats {
    fn function_model(&self, _: Registry, _: Text) -> Option<Function> {
        unreachable!()
    }

    fn call_model(&self, _: Registry, _: Text, _: Models) -> Result<ValueModel, ErrorModel> {
        unreachable!()
    }

    fn float_literal_model(&self, _: Text) -> ValueModel {
        unreachable!()
    }

    fn float_binary_model(&self, _: Binary, _: ValueModel, _: ValueModel) -> Result<ValueModel, ErrorModel> {
        unreachable!()
    }

    fn function(&self, registry: Registry, name: &str) -> Option<Function> {
        match (registry, name) {
            (Registry::User, "double") => Some(Function { max_args: Some(1), min_args: Some(1) }),
            (Registry::User, "len") => Some(Function { max_args: None, min_args: None }),
            (Registry::Const, "answer") => Some(Function { max_args: None, min_args: None }),
            _ => None,
        }
    }

    fn call(&self, _registry: Registry, name: &str, args: Vec<Value>) -> Result<Value, Error> {
        match name {
            "double" => match &args[0] {
                Value::UInt(n) => Ok(Value::UInt(n * 2)),
                _ => Err(Error::ExpectedNumber),
            },
            "len" => Ok(Value::UInt(1000)),
            _ => Ok(Value::UInt(42)),
        }
    }

    fn float_literal(&self, text: &str) -> Value {
        match text.parse::<f64>() {
            Ok(x) if x.is_finite() => Value::Float(x.to_bits()),
            _ => Value::Null,
        }
    }

    fn float_binary(&self, op: Binary, a: &Value, b: &Value) -> Result<Value, Error> {
        match (as_double(a), as_double(b)) {
            (Some(x), Some(y)) => Ok(match op {
                Binary::Add => Value::Float((x + y).to_bits()),
                Binary::Sub => Value::Float((x - y).to_bits()),
                Binary::Mul => Value::Float((x * y).to_bits()),
                Binary::Div => Value::Float((x / y).to_bits()),
                Binary::Rem => Value::Float((x % y).to_bits()),
                Binary::Eq => Value::Bool(x == y),
                Binary::Ne => Value::Bool(x != y),
                Binary::Gt => Value::Bool(x > y),
                Binary::Lt => Value::Bool(x < y),
                Binary::Ge => Value::Bool(x >= y),
                _ => Value::Bool(x <= y),
            }),
            _ => Err(Error::ExpectedNumber),
        }
    }
}

fn run_in(expr: &str, contexts: &Vec<Context>) -> Result<Value, Error> {
    Tree::new(expr).compile()?.exec(contexts, &NoHost)
}

fn run(expr: &str) -> Result<Value, Error> {
    run_in(expr, &Vec::new())
}

fn run_with_floats(expr: &str) -> Result<Value, Error> {
    Tree::new(expr).compile()?.exec(&Vec::new(), &Floats)
}

fn is(expr: &str, expected: Value) {
    match run(expr) {
        Ok(v) => assert!(same(&v, &expected), "{} gave {:?}, not {:?}", expr, v, expected),
        Err(e) => panic!("{} failed with {:?}", expr, e),
    }
}

fn text(s: &str) -> Value {
    Value::String(s.to_string())
}

fn user_context() -> Vec<Context> {
    let user = Value::Object(vec![
        ("name".to_string(), text("alice")),
        ("age".to_string(), Value::UInt(30)),
        ("score".to_string(), Value::Float(1.5f64.to_bits())),
    ]);
    vec![vec![
        ("user".to_string(), user),
        ("list".to_string(), Value::Array(vec![
            Value::UInt(3), Value::UInt(1), Value::UInt(4), Value::UInt(1), Value::UInt(5), Value::UInt(9),
        ])),
    ]]
}

#[test]
fn integer_addition_stays_integer() {
    is("1 + 2", Value::UInt(3));
    assert!(matches!(run("1 + 2"), Ok(Value::UInt(3))));
}

#[test]
fn mixed_addition_is_a_double() {
    match run_with_floats("1 + 2.0") {
        Ok(Value::Float(bits)) => assert_eq!(f64::from_bits(bits), 3.0),
        other => panic!("unexpected {:?}", other),
    }
}

#[test]
fn a_double_without_floats_is_refused() {
    let contexts = user_context();
    assert!(matches!(run_in("user.score + 1", &contexts), Err(Error::Custom(_))));
    match run_in("user.score", &contexts) {
        Ok(Value::Float(bits)) => assert_eq!(f64::from_bits(bits), 1.5),
        other => panic!("unexpected {:?}", other),
    }
}

#[test]
fn multiplication_binds_tighter_than_addition() {
    is("1 + 2 * 3", Value::UInt(7));
    is("2 * 3 + 1", Value::UInt(7));
}

#[test]
fn parentheses_group() {
    is("(1 + 2) * 3", Value::UInt(9));
    is("2 * (3 + 4)", Value::UInt(14));
}

#[test]
fn comparison_binds_tighter_than_and() {
    is("1 == 1 && 2 > 1", Value::Bool(true));
    is("1 == 2 || 2 >= 2", Value::Bool(true));
    is("1 != 1 || 2 < 1", Value::Bool(false));
    is("1 <= 1 && true", Value::Bool(true));
}

#[test]
fn len_without_arguments_has_too_few() {
    assert!(matches!(run("len()"), Err(Error::ArgumentsLess(1))));
}

#[test]
fn len_with_two_arguments_has_too_many() {
    assert!(matches!(run("len(a, b)"), Err(Error::ArgumentsGreater(1))));
}

#[test]
fn an_open_parenthesis_is_unpaired() {
    assert!(matches!(Tree::new("(1 + 2").compile(), Err(Error::UnpairedBrackets)));
}

#[test]
fn min_of_three() {
    is("min(1, 2, 3)", Value::UInt(1));
    is("min(3, 2, 1)", Value::UInt(1));
    is("max(1, 3, 2)", Value::UInt(3));
}

#[test]
fn max_of_an_array() {
    let contexts = user_context();
    match run_in("max(list)", &contexts) {
        Ok(v) => assert!(same(&v, &Value::UInt(9))),
        Err(e) => panic!("failed with {:?}", e),
    }
    match run_in("min(list, 0)", &contexts) {
        Ok(v) => assert!(same(&v, &Value::UInt(0))),
        Err(e) => panic!("failed with {:?}", e),
    }
}

#[test]
fn a_bracket_in_a_call_takes_no_commas() {
    assert!(matches!(
        Tree::new("max([3, 1, 4, 1, 5, 9])").compile(),
        Err(Error::CommaNotWithFunction)
    ));
}

#[test]
fn min_of_nothing_comparable() {
    assert!(matches!(run("min(array())"), Err(Error::Custom(_))));
    assert!(matches!(run("min(1, true)"), Err(Error::ExpectedNumber)));
}

#[test]
fn index_into_a_call() {
    is("array(1, 2, 3)[2]", Value::UInt(3));
    is("array(1, 2, 3)[0]", Value::UInt(1));
    is("array(1, 2, 3)[3]", Value::Null);
}

#[test]
fn member_of_a_context_object() {
    let contexts = user_context();
    match run_in("user.name", &contexts) {
        Ok(v) => assert!(same(&v, &text("alice"))),
        Err(e) => panic!("failed with {:?}", e),
    }
    match run_in("user['age']", &contexts) {
        Ok(v) => assert!(same(&v, &Value::UInt(30))),
        Err(e) => panic!("failed with {:?}", e),
    }
    match run_in("list[4]", &contexts) {
        Ok(v) => assert!(same(&v, &Value::UInt(5))),
        Err(e) => panic!("failed with {:?}", e),
    }
}

#[test]
fn a_missing_name_gives_null_down_the_chain() {
    is("missing.field.deep", Value::Null);
    is("missing[0][1]", Value::Null);
    is("missing", Value::Null);
    let contexts = user_context();
    match run_in("user.nothing.deep", &contexts) {
        Ok(v) => assert!(same(&v, &Value::Null)),
        Err(e) => panic!("failed with {:?}", e),
    }
    assert!(matches!(run_in("user.age.deep", &contexts), Err(Error::ExpectedObject)));
    assert!(matches!(run_in("user.name.deep", &contexts), Ok(Value::Null)));
}

#[test]
fn a_range_is_half_open() {
    is("1..5", Value::Array(vec![Value::Int(1), Value::Int(2), Value::Int(3), Value::Int(4)]));
    is("len(1..5)", Value::UInt(4));
    is("len(5..1)", Value::UInt(0));
}

#[test]
fn a_range_of_three_parts_is_invalid() {
    assert!(matches!(run("1..2..3"), Err(Error::InvalidRange(_))));
    assert!(matches!(run("1...5"), Err(Error::InvalidRange(_))));
}

#[test]
fn not_of_an_empty_array_check() {
    is("!is_empty(array())", Value::Bool(false));
    is("is_empty(array())", Value::Bool(true));
    is("is_empty('')", Value::Bool(true));
    is("is_empty(1)", Value::Bool(false));
    is("is_empty(missing)", Value::Bool(true));
}

#[test]
fn not_takes_booleans_and_null() {
    is("!true", Value::Bool(false));
    is("!missing", Value::Bool(true));
    assert!(matches!(run("!(1)"), Err(Error::ExpectedBoolean(Value::UInt(1)))));
}

#[test]
fn inner_context_shadows_outer() {
    let contexts: Vec<Context> = vec![
        vec![("k".to_string(), Value::UInt(1)), ("only".to_string(), Value::UInt(7))],
        vec![("k".to_string(), Value::UInt(2))],
    ];
    assert!(matches!(run_in("k", &contexts), Ok(Value::UInt(2))));
    assert!(matches!(run_in("only", &contexts), Ok(Value::UInt(7))));
}

#[test]
fn evaluation_is_repeatable() {
    let compiled = Tree::new("min(4, 2) * 10 + len('abc')").compile().unwrap();
    let first = compiled.exec(&Vec::new(), &NoHost).unwrap();
    let second = compiled.exec(&Vec::new(), &NoHost).unwrap();
    assert!(same(&first, &second));
    assert!(same(&first, &Value::UInt(23)));
}

#[test]
fn strings_join_and_compare() {
    is("'a' + 'b'", text("ab"));
    is("\"a b\" + 1", text("a b1"));
    is("'n' + (0 - 12)", text("n-12"));
    is("'a' < 'b'", Value::Bool(true));
    is("'b' <= 'ab'", Value::Bool(false));
    is("'a' == 'a'", Value::Bool(true));
    is("'a' == 1", Value::Bool(false));
    assert!(matches!(run("'a' < 1"), Err(Error::ExpectedNumber)));
    assert!(matches!(run("array() + 1"), Err(Error::InvalidOperation)));
}

#[test]
fn integer_arithmetic() {
    is("7 - 9", Value::Int(-2));
    is("7 / 2", Value::UInt(3));
    is("(0 - 7) / 2", Value::Int(-3));
    is("(0 - 7) % 2", Value::Int(-1));
    is("7 % 4", Value::UInt(3));
    is("18446744073709551615 + 0", Value::UInt(18446744073709551615));
    assert!(matches!(run("18446744073709551615 + 1"), Err(Error::Custom(_))));
    assert!(matches!(run("18446744073709551615 * 18446744073709551615"), Err(Error::Custom(_))));
}

#[test]
fn division_by_zero_fails() {
    match run("1 / 0") {
        Err(Error::Custom(message)) => assert_eq!(message, "divide by zero"),
        other => panic!("unexpected {:?}", other),
    }
    assert!(matches!(run("1 % 0"), Err(Error::Custom(_))));
}

#[test]
fn logic_takes_booleans_only() {
    is("true && false", Value::Bool(false));
    is("true || false", Value::Bool(true));
    assert!(matches!(run("true && 1"), Err(Error::ExpectedBoolean(Value::UInt(1)))));
    assert!(matches!(run("missing || true"), Err(Error::ExpectedBoolean(Value::Null))));
}

#[test]
fn mismatched_logical_halves_are_unsupported() {
    assert!(matches!(Tree::new("a &| b").compile(), Err(Error::UnsupportedOperator(_))));
}

#[test]
fn a_lone_equals_sign_is_unsupported() {
    match Tree::new("a = b").compile() {
        Err(Error::UnsupportedOperator(token)) => assert_eq!(token, "="),
        _ => panic!("a lone = was accepted"),
    }
    assert!(matches!(Tree::new("a =").compile(), Err(Error::UnsupportedOperator(_))));
}

#[test]
fn parse_errors() {
    assert!(matches!(Tree::new("").compile(), Err(Error::NoFinalNode)));
    assert!(matches!(Tree::new("* 2").compile(), Err(Error::StartWithNonValueOperator)));
    assert!(matches!(Tree::new("1 2").compile(), Err(Error::DuplicateValueNode)));
    assert!(matches!(Tree::new("1 * * 2").compile(), Err(Error::DuplicateOperatorNode)));
    assert!(matches!(Tree::new("1, 2").compile(), Err(Error::CommaNotWithFunction)));
    assert!(matches!(Tree::new("()").compile(), Err(Error::BracketNotWithFunction)));
    assert!(matches!(Tree::new("]").compile(), Err(Error::BracketNotWithFunction)));
}

#[test]
fn unknown_function() {
    match run("nothing(1)") {
        Err(Error::FunctionNotExists(name)) => assert_eq!(name, "nothing"),
        other => panic!("unexpected {:?}", other),
    }
}

#[test]
fn host_functions_come_first() {
    assert!(matches!(run_with_floats("double(21)"), Ok(Value::UInt(42))));
    assert!(matches!(run_with_floats("double()"), Err(Error::ArgumentsLess(1))));
    assert!(matches!(run_with_floats("len('abc')"), Ok(Value::UInt(1000))));
    assert!(matches!(run_with_floats("answer(1, 2, 3)"), Ok(Value::UInt(42))));
    assert!(matches!(run_with_floats("3.5 > 2"), Ok(Value::Bool(true))));
    assert!(matches!(run_with_floats("1e2 == 100"), Ok(Value::Bool(true))));
}

#[test]
fn positions_cut_around_operators() {
    let mut tree = Tree::new("a+\"b c\"");
    tree.parse_pos().unwrap();
    assert_eq!(tree.pos, vec![1, 2, 2, 3, 6, 7, 7]);
    tree.parse_operators().unwrap();
    assert_eq!(tree.operators.len(), 3);
}

#[test]
fn an_identifier_before_a_parenthesis_is_a_function() {
    let mut tree = Tree::new("foo(1)");
    tree.parse_pos().unwrap();
    tree.parse_operators().unwrap();
    assert_eq!(tree.operators.len(), 4);
    assert_eq!(tree.operators[0].get_identifier(), "foo");
    assert!(!tree.operators[0].is_identifier());
    tree.parse_node().unwrap();
    let node = tree.node.unwrap();
    assert!(node.closed);
    assert_eq!(node.children.len(), 1);
}

#[test]
fn byte_length_of_text() {
    is("len('héllo')", Value::UInt(6));
    is("len(missing)", Value::UInt(0));
    assert!(matches!(run("len(1)"), Err(Error::Custom(_))));
}

#[test]
fn a_call_can_be_an_argument() {
    is("max(min(1, 2), 3)", Value::UInt(3));
    is("min(max(4, 5), 9, len('ab'))", Value::UInt(2));
    is("array(array(1, 2), 3)[0][1]", Value::UInt(2));
    is("max(array(1, 2)[0], 0)", Value::UInt(1));
}

#[test]
fn a_comma_outside_a_call_is_refused() {
    assert!(matches!(Tree::new("(1, 2)").compile(), Err(Error::CommaNotWithFunction)));
    assert!(matches!(Tree::new("f(,1)").compile(), Err(Error::CommaNotWithFunction)));
}

#[test]
fn an_index_can_stand_inside_brackets() {
    let contexts = user_context();
    let run = |expr: &str| run_in(expr, &contexts);
    assert!(matches!(run("(list[2])"), Ok(Value::UInt(4))));
    assert!(matches!(run("list[list[1]]"), Ok(Value::UInt(1))));
    assert!(matches!(run("len(array(list[0], list[1]))"), Ok(Value::UInt(2))));
    assert!(matches!(run("max(list[4])"), Ok(Value::UInt(5))));
}

#[test]
fn empty_square_brackets_are_refused() {
    assert!(matches!(Tree::new("[]").compile(), Err(Error::StartWithNonValueOperator)));
    assert!(matches!(Tree::new("([])").compile(), Err(Error::BracketNotWithFunction)));
    assert!(matches!(Tree::new("a[]").compile(), Err(Error::BracketNotWithFunction)));
    assert!(matches!(Tree::new("f([])").compile(), Err(Error::BracketNotWithFunction)));
}

#[test]
fn a_bare_comparison_needs_no_space() {
    is("2>1", Value::Bool(true));
    is("2<1", Value::Bool(false));
    is("2>=2", Value::Bool(true));
    is("1!=2", Value::Bool(true));
    is("'a'<'b'", Value::Bool(true));
    is("!('a'=='b')", Value::Bool(true));
    assert!(matches!(run("!1"), Err(Error::ExpectedBoolean(Value::UInt(1)))));
    assert!(matches!(run("!'a'"), Err(Error::ExpectedBoolean(Value::String(_)))));
}
