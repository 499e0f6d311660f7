//! What the embedding application supplies to an evaluation: its
//! functions, and the arithmetic of doubles.
use vstd::prelude::*;
use vstd::string::StringExecFns;
use crate::value::{Models, Text, Value, ValueModel, models};
use crate::error::{Error, ErrorModel, outcome};
use crate::number::float_syntax;

verus! {

/// The arity that a callable function declares; `None` leaves a side open.
#[derive(Clone, Copy, Debug, PartialEq, Eq)]
pub struct Function {
    pub max_args: Option<usize>,
    pub min_args: Option<usize>,
}

/// The two registries of the application's functions. A function of the
/// first is held to its declared arity; the second is asked last, after the
/// built-in functions, and its functions take whatever they are given.
#[derive(Clone, Copy, Debug, PartialEq, Eq)]
pub enum Registry {
    User,
    Const,
}

/// The operators of two operands.
#[derive(Clone, Copy, Debug, PartialEq, Eq)]
pub enum Binary {
    Add,
    Sub,
    Mul,
    Div,
    Rem,
    Eq,
    Ne,
    Gt,
    Lt,
    Ge,
    Le,
    And,
    Or,
}

/// The application's side of an evaluation. Each method is a function of
/// its arguments: the `*_model` functions name what it returns, and the
/// evaluator's contract is stated over them. They are never run: an
/// implementation that is not verified leaves their bodies unreachable.
pub trait Host {
    /// The arity of the function `name` of a registry; `None` where the
    /// registry has no such function.
    spec fn function_model(&self, registry: Registry, name: Text) -> Option<Function>;

    /// What the function `name` of a registry returns on `args`.
    spec fn call_model(&self, registry: Registry, name: Text, args: Models) -> Result<
        ValueModel,
        ErrorModel,
    >;

    /// The value of a floating-point literal.
    spec fn float_literal_model(&self, text: Text) -> ValueModel;

    /// The result of an arithmetic or comparison operator where an operand
    /// is a double.
    spec fn float_binary_model(&self, op: Binary, a: ValueModel, b: ValueModel) -> Result<
        ValueModel,
        ErrorModel,
    >;

    fn function(&self, registry: Registry, name: &str) -> (r: Option<Function>)
        ensures
            r == self.function_model(registry, name@),
    ;

    fn call(&self, registry: Registry, name: &str, args: Vec<Value>) -> (r: Result<Value, Error>)
        ensures
            outcome(r) == self.call_model(registry, name@, models(args@)),
    ;

    fn float_literal(&self, text: &str) -> (r: Value)
        requires
            float_syntax(text@),
        ensures
            r.model() == self.float_literal_model(text@),
    ;

    fn float_binary(&self, op: Binary, a: &Value, b: &Value) -> (r: Result<Value, Error>)
        requires
            a.model() is Float || b.model() is Float,
            op != Binary::And && op != Binary::Or,
        ensures
            outcome(r) == self.float_binary_model(op, a.model(), b.model()),
    ;
}

/// The message of the error that [`NoHost`] gives where a double is met.
pub open spec fn no_float_message() -> Seq<char> {
    "floating point is not available"@
}

/// An application that supplies nothing: no functions, no doubles. A
/// floating-point literal evaluates to null, and an operator with a double
/// operand fails.
#[derive(Clone, Copy, Debug)]
pub struct NoHost;

impl Host for NoHost {
    open spec fn function_model(&self, registry: Registry, name: Text) -> Option<Function> {
        None
    }

    open spec fn call_model(&self, registry: Registry, name: Text, args: Models) -> Result<
        ValueModel,
        ErrorModel,
    > {
        Err(ErrorModel::FunctionNotExists(name))
    }

    open spec fn float_literal_model(&self, text: Text) -> ValueModel {
        ValueModel::Null
    }

    open spec fn float_binary_model(&self, op: Binary, a: ValueModel, b: ValueModel) -> Result<
        ValueModel,
        ErrorModel,
    > {
        Err(ErrorModel::Custom(no_float_message()))
    }

    fn function(&self, registry: Registry, name: &str) -> (r: Option<Function>) {
        None
    }

    fn call(&self, registry: Registry, name: &str, args: Vec<Value>) -> (r: Result<Value, Error>) {
        Err(Error::FunctionNotExists(String::from_str(name)))
    }

    fn float_literal(&self, text: &str) -> (r: Value) {
        Value::Null
    }

    fn float_binary(&self, op: Binary, a: &Value, b: &Value) -> (r: Result<Value, Error>) {
        Err(Error::Custom(String::from_str("floating point is not available")))
    }
}

} // verus!
