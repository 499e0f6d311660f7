//! The operators on values: arithmetic, comparison and logic.
use vstd::prelude::*;
use vstd::string::StringExecFns;
use crate::value::{Value, ValueModel, text_eq};
use crate::error::{Error, ErrorModel, outcome};
use crate::host::{Binary, Host};
use crate::number::chars_of;

verus! {

pub open spec fn overflow_message() -> Seq<char> {
    "integer overflow"@
}

pub open spec fn zero_message() -> Seq<char> {
    "divide by zero"@
}

/// The integer `n` as a value, where a value can hold it.
pub open spec fn int_result(n: int) -> Result<ValueModel, ErrorModel> {
    if i64::MIN <= n <= u64::MAX {
        Ok(ValueModel::Int(n))
    } else {
        Err(ErrorModel::Custom(overflow_message()))
    }
}

pub open spec fn magnitude(n: int) -> int {
    if n >= 0 {
        n
    } else {
        -n
    }
}

/// The quotient rounded toward zero.
pub open spec fn quotient(x: int, y: int) -> int
    recommends
        y != 0,
{
    if (x >= 0) == (y > 0) {
        magnitude(x) / magnitude(y)
    } else {
        -(magnitude(x) / magnitude(y))
    }
}

/// The remainder that goes with [`quotient`]: it has the sign of `x`.
pub open spec fn remainder(x: int, y: int) -> int
    recommends
        y != 0,
{
    if x >= 0 {
        magnitude(x) % magnitude(y)
    } else {
        -(magnitude(x) % magnitude(y))
    }
}

/// The character of a digit below ten.
pub open spec fn digit_char(d: int) -> char {
    if d == 0 {
        '0'
    } else if d == 1 {
        '1'
    } else if d == 2 {
        '2'
    } else if d == 3 {
        '3'
    } else if d == 4 {
        '4'
    } else if d == 5 {
        '5'
    } else if d == 6 {
        '6'
    } else if d == 7 {
        '7'
    } else if d == 8 {
        '8'
    } else {
        '9'
    }
}

/// The decimal digits of a natural number, without leading zeros.
pub open spec fn natural_text(n: int) -> Seq<char>
    decreases n,
{
    if n < 10 {
        seq![digit_char(n)]
    } else {
        natural_text(n / 10).push(digit_char(n % 10))
    }
}

/// The decimal form of an integer.
pub open spec fn int_text(n: int) -> Seq<char> {
    if n < 0 {
        seq!['-'] + natural_text(-n)
    } else {
        natural_text(n)
    }
}

/// The text that a value contributes where `+` joins texts; none for a
/// double, an array or an object.
pub open spec fn text_of(v: ValueModel) -> Option<Seq<char>> {
    match v {
        ValueModel::String(s) => Some(s),
        ValueModel::Int(n) => Some(int_text(n)),
        ValueModel::Bool(b) => Some(
            if b {
                "true"@
            } else {
                "false"@
            },
        ),
        ValueModel::Null => Some("null"@),
        _ => None,
    }
}

/// Whether the text `a` comes before `b`, character by character.
pub open spec fn text_less(a: Seq<char>, b: Seq<char>) -> bool
    decreases a.len(),
{
    if b.len() == 0 {
        false
    } else if a.len() == 0 {
        true
    } else if a[0] != b[0] {
        (a[0] as u32) < (b[0] as u32)
    } else {
        text_less(a.subrange(1, a.len() as int), b.subrange(1, b.len() as int))
    }
}

/// Whether `x` stands to `y` as the comparison `op` asks.
pub open spec fn ordered(op: Binary, less: bool, same: bool) -> bool {
    match op {
        Binary::Lt => less,
        Binary::Le => less || same,
        Binary::Gt => !less && !same,
        _ => !less,
    }
}

/// The result of an operator on two values of which neither is a double.
pub open spec fn plain_binary(op: Binary, a: ValueModel, b: ValueModel) -> Result<
    ValueModel,
    ErrorModel,
> {
    match op {
        Binary::Eq => Ok(ValueModel::Bool(a == b)),
        Binary::Ne => Ok(ValueModel::Bool(a != b)),
        Binary::And | Binary::Or => match (a, b) {
            (ValueModel::Bool(x), ValueModel::Bool(y)) => Ok(
                ValueModel::Bool(
                    if op == Binary::And {
                        x && y
                    } else {
                        x || y
                    },
                ),
            ),
            (ValueModel::Bool(_), _) => Err(ErrorModel::ExpectedBoolean(b)),
            _ => Err(ErrorModel::ExpectedBoolean(a)),
        },
        Binary::Add => match (a, b) {
            (ValueModel::Int(x), ValueModel::Int(y)) => int_result(x + y),
            _ => if (a is String || b is String) && text_of(a) is Some && text_of(b) is Some {
                Ok(ValueModel::String(text_of(a).unwrap() + text_of(b).unwrap()))
            } else {
                Err(ErrorModel::InvalidOperation)
            },
        },
        Binary::Sub | Binary::Mul | Binary::Div | Binary::Rem => match (a, b) {
            (ValueModel::Int(x), ValueModel::Int(y)) => if op == Binary::Sub {
                int_result(x - y)
            } else if op == Binary::Mul {
                int_result(x * y)
            } else if y == 0 {
                Err(ErrorModel::Custom(zero_message()))
            } else if op == Binary::Div {
                int_result(quotient(x, y))
            } else {
                int_result(remainder(x, y))
            },
            _ => Err(ErrorModel::ExpectedNumber),
        },
        _ => match (a, b) {
            (ValueModel::Int(x), ValueModel::Int(y)) => Ok(
                ValueModel::Bool(ordered(op, x < y, x == y)),
            ),
            (ValueModel::String(x), ValueModel::String(y)) => Ok(
                ValueModel::Bool(ordered(op, text_less(x, y), x == y)),
            ),
            _ => Err(ErrorModel::ExpectedNumber),
        },
    }
}

/// The result of an operator on two values. Where an operand of an
/// arithmetic or comparison operator is a double, the application computes.
pub open spec fn binary_model<H: Host>(host: &H, op: Binary, a: ValueModel, b: ValueModel) -> Result<
    ValueModel,
    ErrorModel,
> {
    if (a is Float || b is Float) && op != Binary::And && op != Binary::Or {
        host.float_binary_model(op, a, b)
    } else {
        plain_binary(op, a, b)
    }
}

/// The result of `!` on a value.
pub open spec fn not_model(v: ValueModel) -> Result<ValueModel, ErrorModel> {
    match v {
        ValueModel::Bool(b) => Ok(ValueModel::Bool(!b)),
        ValueModel::Null => Ok(ValueModel::Bool(true)),
        _ => Err(ErrorModel::ExpectedBoolean(v)),
    }
}

pub fn int_value(n: i128) -> (r: Result<Value, Error>)
    ensures
        outcome(r) == int_result(n as int),
{
    if n < -9223372036854775808 || n > 18446744073709551615 {
        Err(Error::Custom(String::from_str("integer overflow")))
    } else if n >= 0 {
        Ok(Value::UInt(n as u64))
    } else {
        Ok(Value::Int(n as i64))
    }
}

/// The integer that a value holds, if it holds one.
pub fn int_of(v: &Value) -> (r: Option<i128>)
    ensures
        match v.model() {
            ValueModel::Int(n) => r == Some(n as i128) && i64::MIN <= n <= u64::MAX,
            _ => r is None,
        },
{
    match v {
        Value::Int(i) => Some(*i as i128),
        Value::UInt(u) => Some(*u as i128),
        _ => None,
    }
}

pub fn is_float(v: &Value) -> (r: bool)
    ensures
        r == (v.model() is Float),
{
    match v {
        Value::Float(_) => true,
        _ => false,
    }
}

fn digit_text(d: u128) -> (r: &'static str)
    requires
        d < 10,
    ensures
        r@ == seq![digit_char(d as int)],
{
    proof {
        reveal_strlit("0");
        reveal_strlit("1");
        reveal_strlit("2");
        reveal_strlit("3");
        reveal_strlit("4");
        reveal_strlit("5");
        reveal_strlit("6");
        reveal_strlit("7");
        reveal_strlit("8");
        reveal_strlit("9");
    }
    let r = if d == 0 {
        "0"
    } else if d == 1 {
        "1"
    } else if d == 2 {
        "2"
    } else if d == 3 {
        "3"
    } else if d == 4 {
        "4"
    } else if d == 5 {
        "5"
    } else if d == 6 {
        "6"
    } else if d == 7 {
        "7"
    } else if d == 8 {
        "8"
    } else {
        "9"
    };
    assert(r@ =~= seq![digit_char(d as int)]);
    r
}

pub fn natural_to_text(n: u128) -> (r: String)
    ensures
        r@ == natural_text(n as int),
    decreases n,
{
    if n < 10 {
        String::from_str(digit_text(n))
    } else {
        let head = natural_to_text(n / 10);
        let r = head.concat(digit_text(n % 10));
        assert(r@ =~= natural_text(n as int));
        r
    }
}

pub fn int_to_text(n: i128) -> (r: String)
    requires
        n > i128::MIN,
    ensures
        r@ == int_text(n as int),
{
    if n < 0 {
        proof {
            reveal_strlit("-");
        }
        let sign = String::from_str("-");
        let r = sign.concat(natural_to_text((-n) as u128).as_str());
        assert(r@ =~= int_text(n as int));
        r
    } else {
        natural_to_text(n as u128)
    }
}

pub fn to_text(v: &Value) -> (r: Option<String>)
    ensures
        match text_of(v.model()) {
            Some(s) => r is Some && r->Some_0@ == s,
            None => r is None,
        },
{
    match v {
        Value::String(s) => Some(s.clone()),
        Value::Int(i) => Some(int_to_text(*i as i128)),
        Value::UInt(u) => Some(int_to_text(*u as i128)),
        Value::Bool(b) => Some(
            String::from_str(
                if *b {
                    "true"
                } else {
                    "false"
                },
            ),
        ),
        Value::Null => Some(String::from_str("null")),
        _ => None,
    }
}

/// Whether the text `a` comes before `b`.
pub fn less_text(a: &str, b: &str) -> (r: bool)
    ensures
        r == text_less(a@, b@),
{
    let x = chars_of(a);
    let y = chars_of(b);
    let mut i: usize = 0;
    assert(x@.subrange(0, x@.len() as int) =~= x@);
    assert(y@.subrange(0, y@.len() as int) =~= y@);
    loop
        invariant
            i <= x.len(),
            i <= y.len(),
            x@ == a@,
            y@ == b@,
            text_less(a@, b@) == text_less(
                x@.subrange(i as int, x@.len() as int),
                y@.subrange(i as int, y@.len() as int),
            ),
        decreases x.len() - i,
    {
        let ghost xs = x@.subrange(i as int, x@.len() as int);
        let ghost ys = y@.subrange(i as int, y@.len() as int);
        if i >= y.len() {
            return false;
        }
        if i >= x.len() {
            return true;
        }
        assert(xs[0] == x@[i as int] && ys[0] == y@[i as int]);
        if x[i] != y[i] {
            return (x[i] as u32) < (y[i] as u32);
        }
        assert(xs.subrange(1, xs.len() as int) =~= x@.subrange(i + 1, x@.len() as int));
        assert(ys.subrange(1, ys.len() as int) =~= y@.subrange(i + 1, y@.len() as int));
        i = i + 1;
    }
}

pub fn in_order(op: Binary, less: bool, same: bool) -> (r: bool)
    ensures
        r == ordered(op, less, same),
{
    match op {
        Binary::Lt => less,
        Binary::Le => less || same,
        Binary::Gt => !less && !same,
        _ => !less,
    }
}

/// Deep equality: whether two values stand for the same.
#[verifier::loop_isolation(false)]
pub fn same(a: &Value, b: &Value) -> (r: bool)
    ensures
        r == (a.model() == b.model()),
    decreases a,
{
    match (a, b) {
        (Value::Null, Value::Null) => true,
        (Value::Bool(x), Value::Bool(y)) => *x == *y,
        (Value::Float(x), Value::Float(y)) => *x == *y,
        (Value::String(x), Value::String(y)) => text_eq(x.as_str(), y.as_str()),
        (Value::Array(x), Value::Array(y)) => {
            if x.len() != y.len() {
                assert(a.model()->Array_0.len() != b.model()->Array_0.len());
                return false;
            }
            let mut i: usize = 0;
            while i < x.len()
                invariant
                    i <= x.len(),
                    x.len() == y.len(),
                    forall|j: int| 0 <= j < i ==> (#[trigger] x[j]).model() == y[j].model(),
                decreases x.len() - i,
            {
                proof {
                    vstd::std_specs::vec::axiom_vec_index_decreases(*x, i as int);
                }
                if !same(&x[i], &y[i]) {
                    assert(a.model()->Array_0[i as int] != b.model()->Array_0[i as int]);
                    return false;
                }
                i = i + 1;
            }
            assert(a.model()->Array_0 =~= b.model()->Array_0);
            true
        },
        (Value::Object(x), Value::Object(y)) => {
            if x.len() != y.len() {
                assert(a.model()->Object_0.len() != b.model()->Object_0.len());
                return false;
            }
            let mut i: usize = 0;
            while i < x.len()
                invariant
                    i <= x.len(),
                    x.len() == y.len(),
                    forall|j: int|
                        0 <= j < i ==> (#[trigger] x[j]).0@ == y[j].0@ && x[j].1.model()
                            == y[j].1.model(),
                decreases x.len() - i,
            {
                proof {
                    vstd::std_specs::vec::axiom_vec_index_decreases(*x, i as int);
                }
                if !text_eq(x[i].0.as_str(), y[i].0.as_str()) || !same(&x[i].1, &y[i].1) {
                    assert(a.model()->Object_0[i as int] != b.model()->Object_0[i as int]);
                    return false;
                }
                i = i + 1;
            }
            assert(a.model()->Object_0 =~= b.model()->Object_0);
            true
        },
        _ => match (int_of(a), int_of(b)) {
            (Some(x), Some(y)) => x == y,
            _ => false,
        },
    }
}

/// Applies an operator to two values of which neither is a double.
pub fn plain(op: Binary, a: &Value, b: &Value) -> (r: Result<Value, Error>)
    ensures
        outcome(r) == plain_binary(op, a.model(), b.model()),
{
    match op {
        Binary::Eq => Ok(Value::Bool(same(a, b))),
        Binary::Ne => Ok(Value::Bool(!same(a, b))),
        Binary::And | Binary::Or => match (a, b) {
            (Value::Bool(x), Value::Bool(y)) => Ok(
                Value::Bool(
                    match op {
                        Binary::And => *x && *y,
                        _ => *x || *y,
                    },
                ),
            ),
            (Value::Bool(_), _) => Err(Error::ExpectedBoolean(b.duplicate())),
            _ => Err(Error::ExpectedBoolean(a.duplicate())),
        },
        Binary::Add => match (int_of(a), int_of(b)) {
            (Some(x), Some(y)) => int_value(x + y),
            _ => {
                let either = match (a, b) {
                    (Value::String(_), _) => true,
                    (_, Value::String(_)) => true,
                    _ => false,
                };
                if either {
                    match (to_text(a), to_text(b)) {
                        (Some(s), Some(t)) => Ok(Value::String(s.concat(t.as_str()))),
                        _ => Err(Error::InvalidOperation),
                    }
                } else {
                    Err(Error::InvalidOperation)
                }
            },
        },
        Binary::Sub | Binary::Mul | Binary::Div | Binary::Rem => match (int_of(a), int_of(b)) {
            (Some(x), Some(y)) => match op {
                Binary::Sub => int_value(x - y),
                Binary::Mul => {
                    assert(-0x1_0000_0000_0000_0000_0000_0000_0000_0000 < x * y
                        < 0x1_0000_0000_0000_0000_0000_0000_0000_0000) by (nonlinear_arith)
                        requires
                            -0x8000_0000_0000_0000 <= x < 0x1_0000_0000_0000_0000,
                            -0x8000_0000_0000_0000 <= y < 0x1_0000_0000_0000_0000,
                    ;
                    match x.checked_mul(y) {
                        Some(p) => int_value(p),
                        None => Err(Error::Custom(String::from_str("integer overflow"))),
                    }
                },
                _ => {
                    if y == 0 {
                        return Err(Error::Custom(String::from_str("divide by zero")));
                    }
                    let ax: u128 = if x >= 0 {
                        x as u128
                    } else {
                        (-x) as u128
                    };
                    let ay: u128 = if y >= 0 {
                        y as u128
                    } else {
                        (-y) as u128
                    };
                    match op {
                        Binary::Div => {
                            let q = (ax / ay) as i128;
                            if (x >= 0) == (y > 0) {
                                int_value(q)
                            } else {
                                int_value(-q)
                            }
                        },
                        _ => {
                            let m = (ax % ay) as i128;
                            if x >= 0 {
                                int_value(m)
                            } else {
                                int_value(-m)
                            }
                        },
                    }
                },
            },
            _ => Err(Error::ExpectedNumber),
        },
        _ => match (a, b) {
            (Value::String(x), Value::String(y)) => Ok(
                Value::Bool(
                    in_order(op, less_text(x.as_str(), y.as_str()), text_eq(x.as_str(), y.as_str())),
                ),
            ),
            _ => match (int_of(a), int_of(b)) {
                (Some(x), Some(y)) => Ok(Value::Bool(in_order(op, x < y, x == y))),
                _ => Err(Error::ExpectedNumber),
            },
        },
    }
}

/// Applies an operator to two values.
pub fn binary<H: Host>(host: &H, op: Binary, a: &Value, b: &Value) -> (r: Result<Value, Error>)
    ensures
        outcome(r) == binary_model(host, op, a.model(), b.model()),
{
    let logical = match op {
        Binary::And | Binary::Or => true,
        _ => false,
    };
    if (is_float(a) || is_float(b)) && !logical {
        host.float_binary(op, a, b)
    } else {
        plain(op, a, b)
    }
}

/// Applies `!` to a value.
pub fn not(v: Value) -> (r: Result<Value, Error>)
    ensures
        outcome(r) == not_model(v.model()),
{
    match v {
        Value::Bool(b) => Ok(Value::Bool(!b)),
        Value::Null => Ok(Value::Bool(true)),
        _ => Err(Error::ExpectedBoolean(v)),
    }
}

} // verus!
