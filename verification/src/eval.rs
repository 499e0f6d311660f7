//! The evaluator: a recursive walk of the tree against a stack of
//! contexts, the application's functions and the built-in ones.
use vstd::prelude::*;
use vstd::string::{StrSliceExecFns, StringExecFns};
use crate::value::{Value, ValueModel, lookup, member, members_model, models};
use crate::error::{Error, ErrorModel, outcome};
use crate::operator::{Operator, OperatorModel};
use crate::node::{Node, NodeModel};
use crate::host::{Binary, Host, Registry};
use crate::math::{binary, binary_model, not, not_model};
use crate::builtin::{BuiltIn, builtin_arity, builtin_model};
use crate::number::{
    chars_of, float_syntax, is_float_text, parse_i64, parse_u64, text_as_i64, text_as_u64,
};
use crate::tree::Tree;

verus! {

/// The bindings of one scope, in insertion order.
pub type Context = Vec<(String, Value)>;

pub type ContextModel = Seq<(Seq<char>, ValueModel)>;

/// The models of a stack of contexts, innermost last.
pub open spec fn contexts_model(contexts: Seq<Context>) -> Seq<ContextModel> {
    Seq::new(contexts.len(), |i: int| members_model(contexts[i]@))
}

/// The value of `key` in the innermost context that binds it.
pub open spec fn find_model(contexts: Seq<ContextModel>, key: Seq<char>) -> Option<ValueModel>
    decreases contexts.len(),
{
    if contexts.len() == 0 {
        None
    } else {
        match member(contexts.last(), key) {
            Some(v) => Some(v),
            None => find_model(contexts.drop_last(), key),
        }
    }
}

/// The operator of two operands that a token is, if it is one.
pub open spec fn binary_of(op: OperatorModel) -> Option<Binary> {
    match op {
        OperatorModel::Add(_) => Some(Binary::Add),
        OperatorModel::Sub(_) => Some(Binary::Sub),
        OperatorModel::Mul(_) => Some(Binary::Mul),
        OperatorModel::Div(_) => Some(Binary::Div),
        OperatorModel::Rem(_) => Some(Binary::Rem),
        OperatorModel::Eq(_) => Some(Binary::Eq),
        OperatorModel::Ne(_) => Some(Binary::Ne),
        OperatorModel::Gt(_) => Some(Binary::Gt),
        OperatorModel::Lt(_) => Some(Binary::Lt),
        OperatorModel::Ge(_) => Some(Binary::Ge),
        OperatorModel::Le(_) => Some(Binary::Le),
        OperatorModel::And(_) => Some(Binary::And),
        OperatorModel::Or(_) => Some(Binary::Or),
        _ => None,
    }
}

/// The first index at or after `i` where two points stand side by side;
/// the length of the text where there is none.
pub open spec fn first_dots(s: Seq<char>, i: int) -> int
    decreases s.len() - i,
{
    if i < 0 || i + 1 >= s.len() {
        s.len() as int
    } else if s[i] == '.' && s[i + 1] == '.' {
        i
    } else {
        first_dots(s, i + 1)
    }
}

/// Whether a text holds `..`.
pub open spec fn range_syntax(s: Seq<char>) -> bool {
    first_dots(s, 0) < s.len()
}

/// The integers from `a` up to, not including, `b`.
pub open spec fn span(a: int, b: int) -> Seq<ValueModel> {
    Seq::new(
        if b > a {
            (b - a) as nat
        } else {
            0
        },
        |k: int| ValueModel::Int(a + k),
    )
}

/// The array that a range literal denotes: exactly two signed 64-bit
/// integers with `..` between them.
pub open spec fn range_model(s: Seq<char>) -> Result<ValueModel, ErrorModel> {
    let i = first_dots(s, 0);
    let head = s.subrange(0, i);
    let tail = s.subrange(i + 2, s.len() as int);
    if range_syntax(tail) {
        Err(ErrorModel::InvalidRange(s))
    } else {
        match (text_as_i64(head), text_as_i64(tail)) {
            (Some(a), Some(b)) => Ok(ValueModel::Array(span(a as int, b as int))),
            _ => Err(ErrorModel::InvalidRange(s)),
        }
    }
}

/// The number that a text denotes, if it denotes one: an unsigned integer,
/// else a signed one, else the double that the application reads.
pub open spec fn number_model<H: Host>(host: &H, name: Seq<char>) -> Option<ValueModel> {
    if text_as_u64(name) is Some {
        Some(ValueModel::Int(text_as_u64(name).unwrap() as int))
    } else if text_as_i64(name) is Some {
        Some(ValueModel::Int(text_as_i64(name).unwrap() as int))
    } else if float_syntax(name) {
        Some(host.float_literal_model(name))
    } else {
        None
    }
}

/// The value of an identifier: a number, a range, or else what the
/// contexts bind to it, null where none does.
pub open spec fn identifier_model<H: Host>(host: &H, contexts: Seq<ContextModel>, name: Seq<char>) -> Result<
    ValueModel,
    ErrorModel,
> {
    if number_model(host, name) is Some {
        Ok(number_model(host, name).unwrap())
    } else if range_syntax(name) {
        range_model(name)
    } else {
        match find_model(contexts, name) {
            Some(v) => Ok(v),
            None => Ok(ValueModel::Null),
        }
    }
}

/// Where a chain of member accesses or of indices stands.
pub enum Chain {
    /// Before the first child.
    Start,
    /// The value reached so far.
    Go(ValueModel),
    /// The chain has ended, with this result.
    Done(Result<ValueModel, ErrorModel>),
}

/// What the first child of a chain gives: a text is looked up in the
/// contexts; an object stands for itself, and so does an array that is
/// indexed; null, or a name that nothing binds, ends the chain with null.
pub open spec fn first_link(contexts: Seq<ContextModel>, name: ValueModel, indexing: bool) -> Chain {
    match name {
        ValueModel::String(s) => match find_model(contexts, s) {
            Some(v) => Chain::Go(v),
            None => Chain::Done(Ok(ValueModel::Null)),
        },
        ValueModel::Object(_) => Chain::Go(name),
        ValueModel::Null => Chain::Done(Ok(ValueModel::Null)),
        ValueModel::Array(_) => if indexing {
            Chain::Go(name)
        } else {
            Chain::Done(Err(ErrorModel::ExpectedObject))
        },
        _ => if indexing {
            Chain::Done(Err(ErrorModel::ExpectedArray))
        } else {
            Chain::Done(Err(ErrorModel::ExpectedObject))
        },
    }
}

/// One member access: `child` must be an identifier and `value` an object;
/// a member that the object lacks ends the chain with null.
pub open spec fn member_link(value: ValueModel, child: OperatorModel) -> Chain {
    match child {
        OperatorModel::Identifier(name) => match value {
            ValueModel::Object(members) => match member(members, name) {
                Some(v) => Chain::Go(v),
                None => Chain::Done(Ok(ValueModel::Null)),
            },
            _ => Chain::Done(Err(ErrorModel::ExpectedObject)),
        },
        _ => Chain::Done(Err(ErrorModel::ExpectedIdentifier)),
    }
}

/// One index: a text into an object, a natural number into an array. A
/// key or an index that is not there ends the chain with null.
pub open spec fn index_link(value: ValueModel, index: ValueModel) -> Chain {
    match value {
        ValueModel::Object(members) => match index {
            ValueModel::String(key) => match member(members, key) {
                Some(v) => Chain::Go(v),
                None => Chain::Done(Ok(ValueModel::Null)),
            },
            _ => Chain::Done(Err(ErrorModel::ExpectedIdentifier)),
        },
        _ => match index {
            ValueModel::Int(n) => if n < 0 {
                Chain::Done(Err(ErrorModel::ExpectedNumber))
            } else {
                match value {
                    ValueModel::Array(items) => if n < items.len() {
                        Chain::Go(items[n])
                    } else {
                        Chain::Done(Ok(ValueModel::Null))
                    },
                    _ => Chain::Done(Err(ErrorModel::ExpectedArray)),
                }
            },
            _ => Chain::Done(Err(ErrorModel::ExpectedNumber)),
        },
    }
}

pub open spec fn chain_result(chain: Chain) -> Result<ValueModel, ErrorModel> {
    match chain {
        Chain::Done(r) => r,
        Chain::Go(v) => Ok(v),
        Chain::Start => Ok(ValueModel::Null),
    }
}

/// The result of calling the function `name` from `node` with `args`: a
/// function of the application comes before a built-in one of the same
/// name, and both are held to their arity; a function of the second
/// registry is asked last.
pub open spec fn call_model<H: Host>(host: &H, node: NodeModel, name: Seq<char>, args: Seq<ValueModel>) -> Result<
    ValueModel,
    ErrorModel,
> {
    if host.function_model(Registry::User, name) is Some {
        match node.arity_error(host.function_model(Registry::User, name).unwrap()) {
            Some(e) => Err(e.model()),
            None => host.call_model(Registry::User, name, args),
        }
    } else if builtin_arity(name) is Some {
        match node.arity_error(builtin_arity(name).unwrap()) {
            Some(e) => Err(e.model()),
            None => builtin_model(host, name, args),
        }
    } else if host.function_model(Registry::Const, name) is Some {
        host.call_model(Registry::Const, name, args)
    } else {
        Err(ErrorModel::FunctionNotExists(name))
    }
}

/// The value of a tree. Children are evaluated from left to right, and the
/// first error ends the evaluation. An operator of two operands takes its
/// first and its last child; it cannot run without any. With one child
/// only, `+` leaves the child's value as it is and `-` takes it from zero.
pub open spec fn eval<H: Host>(host: &H, contexts: Seq<ContextModel>, node: NodeModel) -> Result<
    ValueModel,
    ErrorModel,
>
    decreases node, 1nat, 0nat,
{
    match node.operator {
        OperatorModel::Value(v) => Ok(v),
        OperatorModel::Identifier(name) => identifier_model(host, contexts, name),
        OperatorModel::Function(name) => match eval_args(
            host,
            contexts,
            node,
            node.children.len() as int,
        ) {
            Err(e) => Err(e),
            Ok(args) => call_model(host, node, name, args),
        },
        OperatorModel::Dot(_) => chain_result(
            chain(host, contexts, node, node.children.len() as int, false),
        ),
        OperatorModel::LeftSquareBracket(_) => chain_result(
            chain(host, contexts, node, node.children.len() as int, true),
        ),
        OperatorModel::Not(_) => if node.children.len() == 0 {
            Err(ErrorModel::CanNotExec(node.operator))
        } else {
            match eval(host, contexts, node.children.first()) {
                Err(e) => Err(e),
                Ok(v) => not_model(v),
            }
        },
        _ => if binary_of(node.operator) is Some && node.children.len() > 0 {
            match eval(host, contexts, node.children.first()) {
                Err(e) => Err(e),
                Ok(a) => if node.children.len() == 1 && node.operator is Add {
                    Ok(a)
                } else if node.children.len() == 1 && node.operator is Sub {
                    binary_model(host, Binary::Sub, ValueModel::Int(0), a)
                } else {
                    match eval(host, contexts, node.children.last()) {
                        Err(e) => Err(e),
                        Ok(b) => binary_model(host, binary_of(node.operator).unwrap(), a, b),
                    }
                },
            }
        } else {
            Err(ErrorModel::CanNotExec(node.operator))
        },
    }
}

/// The values of the first `k` children.
pub open spec fn eval_args<H: Host>(host: &H, contexts: Seq<ContextModel>, node: NodeModel, k: int) -> Result<
    Seq<ValueModel>,
    ErrorModel,
>
    decreases node, 0nat, k,
{
    if k <= 0 || k > node.children.len() {
        Ok(Seq::empty())
    } else {
        match eval_args(host, contexts, node, k - 1) {
            Err(e) => Err(e),
            Ok(args) => match eval(host, contexts, node.children[k - 1]) {
                Err(e) => Err(e),
                Ok(v) => Ok(args.push(v)),
            },
        }
    }
}

/// Where the chain stands after the first `k` children.
pub open spec fn chain<H: Host>(
    host: &H,
    contexts: Seq<ContextModel>,
    node: NodeModel,
    k: int,
    indexing: bool,
) -> Chain
    decreases node, 0nat, k,
{
    if k <= 0 || k > node.children.len() {
        Chain::Start
    } else {
        match chain(host, contexts, node, k - 1, indexing) {
            Chain::Done(r) => Chain::Done(r),
            Chain::Start => match eval(host, contexts, node.children[k - 1]) {
                Err(e) => Chain::Done(Err(e)),
                Ok(name) => first_link(contexts, name, indexing),
            },
            Chain::Go(value) => if indexing {
                match eval(host, contexts, node.children[k - 1]) {
                    Err(e) => Chain::Done(Err(e)),
                    Ok(index) => index_link(value, index),
                }
            } else {
                member_link(value, node.children[k - 1].operator)
            },
        }
    }
}

/// A chain that has ended stays as it is, whatever children follow.
pub proof fn lemma_chain_done<H: Host>(
    host: &H,
    contexts: Seq<ContextModel>,
    node: NodeModel,
    k: int,
    m: int,
    indexing: bool,
)
    requires
        0 <= k <= m <= node.children.len(),
        chain(host, contexts, node, k, indexing) is Done,
    ensures
        chain(host, contexts, node, m, indexing) == chain(host, contexts, node, k, indexing),
    decreases m - k,
{
    if m > k {
        lemma_chain_done(host, contexts, node, k, m - 1, indexing);
    }
}

/// Arguments that have failed stay failed, whatever children follow.
pub proof fn lemma_args_failed<H: Host>(
    host: &H,
    contexts: Seq<ContextModel>,
    node: NodeModel,
    k: int,
    m: int,
)
    requires
        0 <= k <= m <= node.children.len(),
        eval_args(host, contexts, node, k) is Err,
    ensures
        eval_args(host, contexts, node, m) == eval_args(host, contexts, node, k),
    decreases m - k,
{
    if m > k {
        lemma_args_failed(host, contexts, node, k, m - 1);
    }
}

pub fn binary_kind(op: &Operator) -> (r: Option<Binary>)
    ensures
        r == binary_of(op.model()),
{
    match op {
        Operator::Add(_) => Some(Binary::Add),
        Operator::Sub(_) => Some(Binary::Sub),
        Operator::Mul(_) => Some(Binary::Mul),
        Operator::Div(_) => Some(Binary::Div),
        Operator::Rem(_) => Some(Binary::Rem),
        Operator::Eq(_) => Some(Binary::Eq),
        Operator::Ne(_) => Some(Binary::Ne),
        Operator::Gt(_) => Some(Binary::Gt),
        Operator::Lt(_) => Some(Binary::Lt),
        Operator::Ge(_) => Some(Binary::Ge),
        Operator::Le(_) => Some(Binary::Le),
        Operator::And(_) => Some(Binary::And),
        Operator::Or(_) => Some(Binary::Or),
        _ => None,
    }
}

/// Looks a key up in the contexts, from the innermost outward.
pub fn find(contexts: &Vec<Context>, key: &str) -> (r: Option<Value>)
    ensures
        match find_model(contexts_model(contexts@), key@) {
            Some(v) => r is Some && r->Some_0.model() == v,
            None => r is None,
        },
{
    let ghost all = contexts_model(contexts@);
    let mut i: usize = contexts.len();
    assert(all.subrange(0, all.len() as int) =~= all);
    while i > 0
        invariant
            i <= contexts.len(),
            all == contexts_model(contexts@),
            find_model(all, key@) == find_model(all.subrange(0, i as int), key@),
        decreases i,
    {
        let ghost part = all.subrange(0, i as int);
        assert(part.last() == members_model(contexts[i - 1]@));
        assert(part.drop_last() =~= all.subrange(0, i - 1));
        match lookup(&contexts[i - 1], key) {
            Some(value) => {
                return Some(value.duplicate());
            },
            None => {},
        }
        i = i - 1;
    }
    None
}

pub fn find_dots(s: &Vec<char>, from: usize) -> (r: usize)
    requires
        from <= s.len(),
    ensures
        r == first_dots(s@, from as int),
        from <= r <= s.len(),
        r < s.len() ==> r + 2 <= s.len(),
{
    let mut i: usize = from;
    while i < s.len() && i + 1 < s.len()
        invariant
            from <= i <= s.len(),
            first_dots(s@, i as int) == first_dots(s@, from as int),
        decreases s.len() - i,
    {
        if s[i] == '.' && s[i + 1] == '.' {
            return i;
        }
        i = i + 1;
    }
    s.len()
}

pub fn is_range(ident: &str) -> (r: bool)
    ensures
        r == range_syntax(ident@),
{
    let s = chars_of(ident);
    find_dots(&s, 0) < s.len()
}

pub fn parse_range(ident: &str) -> (r: Result<Value, Error>)
    requires
        range_syntax(ident@),
    ensures
        outcome(r) == range_model(ident@),
{
    let s = chars_of(ident);
    let n = s.len();
    let i = find_dots(&s, 0);
    let head = ident.substring_char(0, i);
    let tail = ident.substring_char(i + 2, n);
    if is_range(tail) {
        return Err(Error::InvalidRange(String::from_str(ident)));
    }
    match (parse_i64(head), parse_i64(tail)) {
        (Some(start), Some(end)) => {
            let mut array: Vec<Value> = Vec::new();
            let mut m: i64 = start;
            while m < end
                invariant
                    start <= m,
                    m <= end || array.len() == 0,
                    array.len() == m - start,
                    forall|k: int| 0 <= k < array.len() ==> (#[trigger] array[k]).model() == ValueModel::Int(start + k),
                decreases end - m,
            {
                array.push(Value::Int(m));
                m = m + 1;
            }
            let r = Value::Array(array);
            assert(r.model()->Array_0 =~= span(start as int, end as int));
            Ok(r)
        },
        _ => Err(Error::InvalidRange(String::from_str(ident))),
    }
}

pub fn parse_number<H: Host>(host: &H, ident: &str) -> (r: Option<Value>)
    ensures
        match number_model(host, ident@) {
            Some(v) => r is Some && r->Some_0.model() == v,
            None => r is None,
        },
{
    if let Some(n) = parse_u64(ident) {
        return Some(Value::UInt(n));
    }
    if let Some(n) = parse_i64(ident) {
        return Some(Value::Int(n));
    }
    if is_float_text(ident) {
        return Some(host.float_literal(ident));
    }
    None
}

/// The value of an identifier.
pub fn identifier<H: Host>(host: &H, contexts: &Vec<Context>, ident: &str) -> (r: Result<Value, Error>)
    ensures
        outcome(r) == identifier_model(host, contexts_model(contexts@), ident@),
{
    if let Some(n) = parse_number(host, ident) {
        Ok(n)
    } else if is_range(ident) {
        parse_range(ident)
    } else {
        match find(contexts, ident) {
            Some(value) => Ok(value),
            None => Ok(Value::Null),
        }
    }
}

/// One step of a chain, as computed.
pub enum Link {
    Go(Value),
    Done(Result<Value, Error>),
}

impl Link {
    pub open spec fn model(&self) -> Chain {
        match self {
            Link::Go(v) => Chain::Go(v.model()),
            Link::Done(r) => Chain::Done(outcome(*r)),
        }
    }
}

pub fn first<H: Host>(contexts: &Vec<Context>, name: Value, indexing: bool) -> (r: Link)
    ensures
        r.model() == first_link(contexts_model(contexts@), name.model(), indexing),
{
    match name {
        Value::String(s) => match find(contexts, s.as_str()) {
            Some(v) => Link::Go(v),
            None => Link::Done(Ok(Value::Null)),
        },
        Value::Object(members) => Link::Go(Value::Object(members)),
        Value::Null => Link::Done(Ok(Value::Null)),
        Value::Array(items) => if indexing {
            Link::Go(Value::Array(items))
        } else {
            Link::Done(Err(Error::ExpectedObject))
        },
        _ => if indexing {
            Link::Done(Err(Error::ExpectedArray))
        } else {
            Link::Done(Err(Error::ExpectedObject))
        },
    }
}

pub fn member_of(value: &Value, child: &Operator) -> (r: Link)
    ensures
        r.model() == member_link(value.model(), child.model()),
{
    match child {
        Operator::Identifier(name) => match value {
            Value::Object(_) => match value.get(name.as_str()) {
                Some(v) => Link::Go(v.duplicate()),
                None => Link::Done(Ok(Value::Null)),
            },
            _ => Link::Done(Err(Error::ExpectedObject)),
        },
        _ => Link::Done(Err(Error::ExpectedIdentifier)),
    }
}

pub fn index_of(value: &Value, index: &Value) -> (r: Link)
    ensures
        r.model() == index_link(value.model(), index.model()),
{
    match value {
        Value::Object(_) => match index {
            Value::String(key) => match value.get(key.as_str()) {
                Some(v) => Link::Go(v.duplicate()),
                None => Link::Done(Ok(Value::Null)),
            },
            _ => Link::Done(Err(Error::ExpectedIdentifier)),
        },
        _ => {
            let at: Option<u64> = match index {
                Value::UInt(n) => Some(*n),
                Value::Int(n) => if *n >= 0 {
                    Some(*n as u64)
                } else {
                    None
                },
                _ => None,
            };
            match at {
                Some(n) => match value {
                    Value::Array(items) => if n < items.len() as u64 {
                        Link::Go(items[n as usize].duplicate())
                    } else {
                        Link::Done(Ok(Value::Null))
                    },
                    _ => Link::Done(Err(Error::ExpectedArray)),
                },
                None => Link::Done(Err(Error::ExpectedNumber)),
            }
        },
    }
}

/// Calls the function `name` with the values of the node's children.
pub fn call<H: Host>(host: &H, node: &Node, name: &str, args: Vec<Value>) -> (r: Result<Value, Error>)
    requires
        args@.len() == node.model().children.len(),
    ensures
        outcome(r) == call_model(host, node.model(), name@, models(args@)),
{
    if let Some(function) = host.function(Registry::User, name) {
        match node.check_function_args(&function) {
            Err(e) => Err(e),
            Ok(()) => host.call(Registry::User, name, args),
        }
    } else if let Some(function) = BuiltIn::get(name) {
        match node.check_function_args(&function) {
            Err(e) => Err(e),
            Ok(()) => BuiltIn::call(host, name, args),
        }
    } else if host.function(Registry::Const, name).is_some() {
        host.call(Registry::Const, name, args)
    } else {
        Err(Error::FunctionNotExists(String::from_str(name)))
    }
}

/// Walks a chain of member accesses, or of indices.
#[verifier::loop_isolation(false)]
pub fn run_chain<H: Host>(host: &H, contexts: &Vec<Context>, node: &Node, indexing: bool) -> (r: Result<
    Value,
    Error,
>)
    ensures
        outcome(r) == chain_result(
            chain(
                host,
                contexts_model(contexts@),
                node.model(),
                node.model().children.len() as int,
                indexing,
            ),
        ),
    decreases node, 0nat,
{
    proof {
        node.lemma_children();
    }
    let ghost cm = contexts_model(contexts@);
    let ghost model = node.model();
    let n = node.children.len();
    if n == 0 {
        return Ok(Value::Null);
    }
    proof {
        vstd::std_specs::vec::axiom_vec_index_decreases(node.children, 0);
    }
    let link = match exec_node(host, contexts, &node.children[0]) {
        Err(e) => Link::Done(Err(e)),
        Ok(name) => first::<H>(contexts, name, indexing),
    };
    assert(chain(host, cm, model, 0, indexing) == Chain::Start);
    assert(chain(host, cm, model, 1, indexing) == link.model());
    let mut value = match link {
        Link::Go(v) => v,
        Link::Done(r) => {
            proof {
                lemma_chain_done(host, cm, model, 1, n as int, indexing);
            }
            return r;
        },
    };
    let mut i: usize = 1;
    while i < n
        invariant
            1 <= i <= n,
            chain(host, cm, model, i as int, indexing) == Chain::Go(value.model()),
        decreases n - i,
    {
        proof {
            vstd::std_specs::vec::axiom_vec_index_decreases(node.children, i as int);
        }
        let link = if indexing {
            match exec_node(host, contexts, &node.children[i]) {
                Err(e) => Link::Done(Err(e)),
                Ok(index) => index_of(&value, &index),
            }
        } else {
            member_of(&value, &node.children[i].operator)
        };
        assert(chain(host, cm, model, i + 1, indexing) == link.model());
        match link {
            Link::Go(v) => {
                value = v;
            },
            Link::Done(r) => {
                proof {
                    lemma_chain_done(host, cm, model, i + 1, n as int, indexing);
                }
                return r;
            },
        }
        i = i + 1;
    }
    Ok(value)
}

/// Evaluates a tree against the contexts, innermost last.
#[verifier::loop_isolation(false)]
pub fn exec_node<H: Host>(host: &H, contexts: &Vec<Context>, node: &Node) -> (r: Result<Value, Error>)
    ensures
        outcome(r) == eval(host, contexts_model(contexts@), node.model()),
    decreases node, 1nat,
{
    proof {
        node.lemma_children();
    }
    let ghost cm = contexts_model(contexts@);
    let ghost model = node.model();
    let n = node.children.len();
    match &node.operator {
        Operator::Value(value) => Ok(value.duplicate()),
        Operator::Identifier(ident) => identifier(host, contexts, ident.as_str()),
        Operator::Function(ident) => {
            let mut values: Vec<Value> = Vec::new();
            let mut i: usize = 0;
            assert(models(values@) =~= Seq::empty());
            while i < n
                invariant
                    i <= n,
                    values.len() == i,
                    eval_args(host, cm, model, i as int) == Ok::<Seq<ValueModel>, ErrorModel>(
                        models(values@),
                    ),
                decreases n - i,
            {
                proof {
                    vstd::std_specs::vec::axiom_vec_index_decreases(node.children, i as int);
                }
                let ghost before = models(values@);
                match exec_node(host, contexts, &node.children[i]) {
                    Err(e) => {
                        proof {
                            lemma_args_failed(host, cm, model, i + 1, n as int);
                        }
                        return Err(e);
                    },
                    Ok(v) => {
                        values.push(v);
                        assert(models(values@) =~= before.push(v.model()));
                    },
                }
                i = i + 1;
            }
            call(host, node, ident.as_str(), values)
        },
        Operator::Dot(_) => run_chain(host, contexts, node, false),
        Operator::LeftSquareBracket(_) => run_chain(host, contexts, node, true),
        Operator::Not(_) => {
            if n == 0 {
                return Err(Error::CanNotExec(node.operator.duplicate()));
            }
            proof {
                vstd::std_specs::vec::axiom_vec_index_decreases(node.children, 0);
            }
            match exec_node(host, contexts, &node.children[0]) {
                Err(e) => Err(e),
                Ok(v) => not(v),
            }
        },
        _ => {
            match binary_kind(&node.operator) {
                Some(op) => {
                    if n == 0 {
                        return Err(Error::CanNotExec(node.operator.duplicate()));
                    }
                    proof {
                        vstd::std_specs::vec::axiom_vec_index_decreases(node.children, 0);
                        vstd::std_specs::vec::axiom_vec_index_decreases(node.children, n - 1);
                    }
                    let a = match exec_node(host, contexts, &node.children[0]) {
                        Err(e) => {
                            return Err(e);
                        },
                        Ok(a) => a,
                    };
                    if n == 1 {
                        match op {
                            Binary::Add => {
                                return Ok(a);
                            },
                            Binary::Sub => {
                                return binary(host, Binary::Sub, &Value::UInt(0), &a);
                            },
                            _ => {},
                        }
                    }
                    let b = match exec_node(host, contexts, &node.children[n - 1]) {
                        Err(e) => {
                            return Err(e);
                        },
                        Ok(b) => b,
                    };
                    binary(host, op, &a, &b)
                },
                None => Err(Error::CanNotExec(node.operator.duplicate())),
            }
        },
    }
}

/// A built tree, ready to be evaluated any number of times.
pub struct Compiled {
    pub node: Node,
}

impl Compiled {
    /// Evaluates the expression against the contexts, innermost last.
    pub fn exec<H: Host>(&self, contexts: &Vec<Context>, host: &H) -> (r: Result<Value, Error>)
        ensures
            outcome(r) == eval(host, contexts_model(contexts@), self.node.model()),
    {
        exec_node(host, contexts, &self.node)
    }
}

/// The tree that a text denotes: its cut points, the operators between
/// them, and the tree of those.
pub open spec fn compile_model(raw: Seq<char>) -> Result<NodeModel, ErrorModel> {
    match crate::lexer::lex(raw, crate::lexer::positions(raw)) {
        Ok(ops) => crate::builder::build_tree(ops),
        Err(e) => Err(e),
    }
}

impl Tree {
    /// Runs the three passes over the text.
    pub fn compile(self) -> (r: Result<Compiled, Error>)
        ensures
            match compile_model(self.raw@) {
                Ok(n) => r is Ok && r->Ok_0.node.model() == n,
                Err(e) => r is Err && r->Err_0.model() == e,
            },
    {
        let mut tree = self;
        match tree.parse_pos() {
            Ok(()) => {},
            Err(e) => {
                return Err(e);
            },
        }
        match tree.parse_operators() {
            Ok(()) => {},
            Err(e) => {
                return Err(e);
            },
        }
        match tree.parse_node() {
            Ok(()) => {},
            Err(e) => {
                return Err(e);
            },
        }
        match tree.node {
            Some(node) => Ok(Compiled { node }),
            None => Err(Error::NoFinalNode),
        }
    }
}

} // verus!
