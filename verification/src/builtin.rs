//! The built-in functions: `min`, `max`, `len`, `is_empty` and `array`.
use vstd::prelude::*;
use vstd::string::StringExecFns;
use crate::value::{Value, ValueModel, models, text_eq};
use crate::error::{Error, ErrorModel, outcome};
use crate::host::{Binary, Function, Host};
use crate::math::{binary, binary_model};

verus! {

pub struct BuiltIn;

/// Which end of the order `min` and `max` look for.
#[derive(Clone, Copy, Debug, PartialEq, Eq)]
pub enum Compare {
    Min,
    Max,
}

/// The arity of the built-in function `name`, if there is one.
pub open spec fn builtin_arity(name: Seq<char>) -> Option<Function> {
    if name == "min"@ || name == "max"@ {
        Some(Function { max_args: None, min_args: Some(1) })
    } else if name == "len"@ || name == "is_empty"@ {
        Some(Function { max_args: Some(1), min_args: Some(1) })
    } else if name == "array"@ {
        Some(Function { max_args: None, min_args: None })
    } else {
        None
    }
}

/// The arguments with every array among them replaced by its items.
pub open spec fn flatten(values: Seq<ValueModel>) -> Seq<ValueModel>
    decreases values.len(),
{
    if values.len() == 0 {
        Seq::empty()
    } else {
        flatten(values.drop_last()) + (match values.last() {
            ValueModel::Array(items) => items,
            v => seq![v],
        })
    }
}

pub open spec fn no_extreme_message() -> Seq<char> {
    "can't find min value."@
}

/// The least item, or the greatest, by the operator `op` (`<` or `>`): a
/// later item replaces the one held only where it compares as strictly
/// beyond it. An item that cannot be compared fails the whole.
pub open spec fn extreme<H: Host>(host: &H, op: Binary, items: Seq<ValueModel>) -> Result<
    ValueModel,
    ErrorModel,
>
    decreases items.len(),
{
    if items.len() == 0 {
        Err(ErrorModel::Custom(no_extreme_message()))
    } else if items.len() == 1 {
        Ok(items[0])
    } else {
        match extreme(host, op, items.drop_last()) {
            Err(e) => Err(e),
            Ok(held) => match binary_model(host, op, items.last(), held) {
                Err(e) => Err(e),
                Ok(v) => if v == ValueModel::Bool(true) {
                    Ok(items.last())
                } else {
                    Ok(held)
                },
            },
        }
    }
}

pub open spec fn len_message() -> Seq<char> {
    "len() only accept string, array, object and null."@
}

/// The length of a text in bytes, of an array or of an object; 0 for null.
pub open spec fn len_model(v: ValueModel) -> Result<ValueModel, ErrorModel> {
    match v {
        ValueModel::String(s) => Ok(ValueModel::Int(vstd::utf8::encode_utf8(s).len() as usize as int)),
        ValueModel::Array(items) => Ok(ValueModel::Int(items.len() as int)),
        ValueModel::Object(members) => Ok(ValueModel::Int(members.len() as int)),
        ValueModel::Null => Ok(ValueModel::Int(0)),
        _ => Err(ErrorModel::Custom(len_message())),
    }
}

/// Whether a value is null or an empty text, array or object.
pub open spec fn is_empty_model(v: ValueModel) -> bool {
    match v {
        ValueModel::String(s) => s.len() == 0,
        ValueModel::Array(items) => items.len() == 0,
        ValueModel::Object(members) => members.len() == 0,
        ValueModel::Null => true,
        _ => false,
    }
}

/// What the built-in function `name` returns on `args`.
pub open spec fn builtin_model<H: Host>(host: &H, name: Seq<char>, args: Seq<ValueModel>) -> Result<
    ValueModel,
    ErrorModel,
> {
    if name == "min"@ {
        extreme(host, Binary::Lt, flatten(args))
    } else if name == "max"@ {
        extreme(host, Binary::Gt, flatten(args))
    } else if name == "len"@ {
        len_model(args[0])
    } else if name == "is_empty"@ {
        Ok(ValueModel::Bool(is_empty_model(args[0])))
    } else {
        Ok(ValueModel::Array(args))
    }
}

pub fn create_min_function() -> (r: Function)
    ensures
        r == (Function { max_args: None, min_args: Some(1) }),
{
    Function { max_args: None, min_args: Some(1) }
}

pub fn create_max_function() -> (r: Function)
    ensures
        r == (Function { max_args: None, min_args: Some(1) }),
{
    Function { max_args: None, min_args: Some(1) }
}

pub fn create_len_function() -> (r: Function)
    ensures
        r == (Function { max_args: Some(1), min_args: Some(1) }),
{
    Function { max_args: Some(1), min_args: Some(1) }
}

pub fn create_is_empty_function() -> (r: Function)
    ensures
        r == (Function { max_args: Some(1), min_args: Some(1) }),
{
    Function { max_args: Some(1), min_args: Some(1) }
}

pub fn create_array_function() -> (r: Function)
    ensures
        r == (Function { max_args: None, min_args: None }),
{
    Function { max_args: None, min_args: None }
}

/// The arguments with every array among them replaced by its items.
pub fn flattened(values: &Vec<Value>) -> (r: Vec<Value>)
    ensures
        models(r@) == flatten(models(values@)),
{
    let mut out: Vec<Value> = Vec::new();
    let ghost all = models(values@);
    let mut i: usize = 0;
    assert(models(out@) =~= Seq::empty());
    while i < values.len()
        invariant
            i <= values.len(),
            all == models(values@),
            models(out@) == flatten(all.subrange(0, i as int)),
        decreases values.len() - i,
    {
        let ghost base = models(out@);
        assert(all.subrange(0, i + 1).drop_last() =~= all.subrange(0, i as int));
        assert(all.subrange(0, i + 1).last() == values[i as int].model());
        match &values[i] {
            Value::Array(items) => {
                let ghost inner = values[i as int].model()->Array_0;
                let mut j: usize = 0;
                while j < items.len()
                    invariant
                        j <= items.len(),
                        inner.len() == items.len(),
                        forall|k: int| 0 <= k < items.len() ==> inner[k] == (#[trigger] items[k]).model(),
                        models(out@) == base + inner.subrange(0, j as int),
                    decreases items.len() - j,
                {
                    let ghost before = models(out@);
                    let item = items[j].duplicate();
                    out.push(item);
                    assert(models(out@) =~= before.push(item.model()));
                    assert(inner.subrange(0, j + 1) =~= inner.subrange(0, j as int).push(inner[j as int]));
                    j = j + 1;
                }
                assert(inner.subrange(0, items.len() as int) =~= inner);
            },
            v => {
                let item = v.duplicate();
                out.push(item);
                assert(models(out@) =~= base.push(item.model()));
                assert(base.push(item.model()) =~= base + seq![v.model()]);
            },
        }
        i = i + 1;
    }
    assert(all.subrange(0, values.len() as int) =~= all);
    out
}

/// The least of the arguments, or the greatest, arrays among them counting
/// by their items.
#[verifier::loop_isolation(false)]
pub fn compare<H: Host>(host: &H, kind: Compare, values: &Vec<Value>) -> (r: Result<Value, Error>)
    ensures
        outcome(r) == extreme(
            host,
            if kind == Compare::Min {
                Binary::Lt
            } else {
                Binary::Gt
            },
            flatten(models(values@)),
        ),
{
    let op = match kind {
        Compare::Min => Binary::Lt,
        Compare::Max => Binary::Gt,
    };
    let items = flattened(values);
    let ghost all = models(items@);
    if items.len() == 0 {
        return Err(Error::Custom(String::from_str("can't find min value.")));
    }
    let mut held = items[0].duplicate();
    let mut i: usize = 1;
    assert(all.subrange(0, 1).len() == 1 && all.subrange(0, 1)[0] == all[0]);
    while i < items.len()
        invariant
            1 <= i <= items.len(),
            all == models(items@),
            extreme(host, op, all.subrange(0, i as int)) == Ok::<ValueModel, ErrorModel>(held.model()),
        decreases items.len() - i,
    {
        assert(all.subrange(0, i + 1).drop_last() =~= all.subrange(0, i as int));
        assert(all.subrange(0, i + 1).last() == items[i as int].model());
        match binary(host, op, &items[i], &held) {
            Err(e) => {
                proof {
                    assert(all.subrange(0, i + 1).len() == i + 1);
                    assert(extreme(host, op, all.subrange(0, i + 1)) == Err::<ValueModel, ErrorModel>(
                        e.model(),
                    ));
                    lemma_extreme_fails(host, op, all, i + 1, all.len() as int);
                    assert(all.subrange(0, all.len() as int) =~= all);
                }
                return Err(e);
            },
            Ok(v) => {
                let beyond = match v {
                    Value::Bool(true) => true,
                    _ => false,
                };
                if beyond {
                    held = items[i].duplicate();
                }
            },
        }
        i = i + 1;
    }
    assert(all.subrange(0, items.len() as int) =~= all);
    Ok(held)
}

/// Once the items up to `k` have failed, every longer run fails alike.
pub proof fn lemma_extreme_fails<H: Host>(host: &H, op: Binary, items: Seq<ValueModel>, k: int, m: int)
    requires
        0 <= k <= m <= items.len(),
        extreme(host, op, items.subrange(0, k)) is Err,
        k >= 2,
    ensures
        extreme(host, op, items.subrange(0, m)) == extreme(host, op, items.subrange(0, k)),
    decreases m - k,
{
    if m > k {
        lemma_extreme_fails(host, op, items, k, m - 1);
        assert(items.subrange(0, m).drop_last() =~= items.subrange(0, m - 1));
    }
}

pub fn len_of(value: &Value) -> (r: Result<Value, Error>)
    ensures
        outcome(r) == len_model(value.model()),
{
    match value {
        Value::String(s) => Ok(Value::UInt(s.as_str().len() as u64)),
        Value::Array(items) => Ok(Value::UInt(items.len() as u64)),
        Value::Object(members) => Ok(Value::UInt(members.len() as u64)),
        Value::Null => Ok(Value::UInt(0)),
        _ => Err(Error::Custom(String::from_str("len() only accept string, array, object and null."))),
    }
}

pub fn is_empty(value: &Value) -> (r: bool)
    ensures
        r == is_empty_model(value.model()),
{
    match value {
        Value::String(s) => s.as_str().is_empty(),
        Value::Array(items) => items.len() == 0,
        Value::Object(members) => members.len() == 0,
        Value::Null => true,
        _ => false,
    }
}

impl BuiltIn {
    /// The built-in functions by name, each with its arity.
    pub fn create_builtins() -> (r: Vec<(String, Function)>)
        ensures
            r@.len() == 5,
            r@[0].0@ == "min"@ && r@[1].0@ == "max"@ && r@[2].0@ == "len"@ && r@[3].0@
                == "is_empty"@ && r@[4].0@ == "array"@,
            forall|i: int| 0 <= i < 5 ==> builtin_arity((#[trigger] r@[i]).0@) == Some(r@[i].1),
    {
        let mut functions: Vec<(String, Function)> = Vec::new();
        functions.push((String::from_str("min"), create_min_function()));
        functions.push((String::from_str("max"), create_max_function()));
        functions.push((String::from_str("len"), create_len_function()));
        functions.push((String::from_str("is_empty"), create_is_empty_function()));
        functions.push((String::from_str("array"), create_array_function()));
        proof {
            lemma_names_differ();
        }
        functions
    }

    /// The arity of the built-in function `name`, if there is one.
    pub fn get(name: &str) -> (r: Option<Function>)
        ensures
            r == builtin_arity(name@),
    {
        if text_eq(name, "min") {
            Some(create_min_function())
        } else if text_eq(name, "max") {
            Some(create_max_function())
        } else if text_eq(name, "len") {
            Some(create_len_function())
        } else if text_eq(name, "is_empty") {
            Some(create_is_empty_function())
        } else if text_eq(name, "array") {
            Some(create_array_function())
        } else {
            None
        }
    }

    /// Calls the built-in function `name`.
    pub fn call<H: Host>(host: &H, name: &str, args: Vec<Value>) -> (r: Result<Value, Error>)
        requires
            builtin_arity(name@) is Some,
            (name@ == "len"@ || name@ == "is_empty"@) ==> args@.len() >= 1,
        ensures
            outcome(r) == builtin_model(host, name@, models(args@)),
    {
        proof {
            lemma_names_differ();
        }
        if text_eq(name, "min") {
            compare(host, Compare::Min, &args)
        } else if text_eq(name, "max") {
            compare(host, Compare::Max, &args)
        } else if text_eq(name, "len") {
            len_of(&args[0])
        } else if text_eq(name, "is_empty") {
            Ok(Value::Bool(is_empty(&args[0])))
        } else {
            let r = Value::Array(args);
            assert(r.model()->Array_0 =~= models(args@));
            Ok(r)
        }
    }
}

/// The names of the built-in functions are five different texts.
pub proof fn lemma_names_differ()
    ensures
        "min"@ != "max"@,
        "min"@ != "len"@,
        "min"@ != "is_empty"@,
        "min"@ != "array"@,
        "max"@ != "len"@,
        "max"@ != "is_empty"@,
        "max"@ != "array"@,
        "len"@ != "is_empty"@,
        "len"@ != "array"@,
        "is_empty"@ != "array"@,
{
    reveal_strlit("min");
    reveal_strlit("max");
    reveal_strlit("len");
    reveal_strlit("is_empty");
    reveal_strlit("array");
    assert("min"@[1] != "max"@[1]);
    assert("min"@[0] != "len"@[0]);
    assert("max"@[0] != "len"@[0]);
    assert("min"@.len() != "is_empty"@.len());
    assert("max"@.len() != "is_empty"@.len());
    assert("len"@.len() != "is_empty"@.len());
    assert("min"@.len() != "array"@.len());
    assert("max"@.len() != "array"@.len());
    assert("len"@.len() != "array"@.len());
    assert("is_empty"@.len() != "array"@.len());
}

} // verus!
