//! The dynamically typed value that expressions compute, and its
//! mathematical model.
use vstd::prelude::*;
use vstd::string::StringExecFns;

verus! {

/// A JSON-shaped value. Integers are kept in two variants, as they are read;
/// a double is carried by its IEEE-754 bit pattern. An object keeps its
/// members in insertion order.
#[derive(Debug)]
pub enum Value {
    Null,
    Bool(bool),
    Int(i64),
    UInt(u64),
    Float(u64),
    String(String),
    Array(Vec<Value>),
    Object(Vec<(String, Value)>),
}

/// What a [`Value`] stands for. Both integer variants denote one integer.
pub enum ValueModel {
    Null,
    Bool(bool),
    Int(int),
    Float(u64),
    String(Seq<char>),
    Array(Seq<ValueModel>),
    Object(Seq<(Seq<char>, ValueModel)>),
}

/// What a text stands for: its characters.
pub type Text = Seq<char>;

/// What a list of values stands for.
pub type Models = Seq<ValueModel>;

/// The models of a sequence of values, item by item.
pub open spec fn models(values: Seq<Value>) -> Seq<ValueModel> {
    Seq::new(values.len(), |i: int| values[i].model())
}

/// The first value bound to `key` among `members`, if any.
pub open spec fn member(members: Seq<(Seq<char>, ValueModel)>, key: Seq<char>) -> Option<ValueModel>
    decreases members.len(),
{
    if members.len() == 0 {
        None
    } else if members[0].0 == key {
        Some(members[0].1)
    } else {
        member(members.subrange(1, members.len() as int), key)
    }
}

impl Value {
    pub open spec fn model(&self) -> ValueModel
        decreases self,
    {
        match self {
            Value::Null => ValueModel::Null,
            Value::Bool(b) => ValueModel::Bool(*b),
            Value::Int(i) => ValueModel::Int(*i as int),
            Value::UInt(u) => ValueModel::Int(*u as int),
            Value::Float(bits) => ValueModel::Float(*bits),
            Value::String(s) => ValueModel::String(s@),
            Value::Array(items) => ValueModel::Array(
                Seq::new(
                    items.len() as nat,
                    |i: int|
                        if 0 <= i < items.len() {
                            items[i].model()
                        } else {
                            ValueModel::Null
                        },
                ),
            ),
            Value::Object(members) => ValueModel::Object(
                Seq::new(
                    members.len() as nat,
                    |i: int|
                        if 0 <= i < members.len() {
                            (members[i].0@, members[i].1.model())
                        } else {
                            (Seq::empty(), ValueModel::Null)
                        },
                ),
            ),
        }
    }

    /// A deep copy.
    #[verifier::loop_isolation(false)]
    pub fn duplicate(&self) -> (r: Value)
        ensures
            r.model() == self.model(),
        decreases self,
    {
        match self {
            Value::Null => Value::Null,
            Value::Bool(b) => Value::Bool(*b),
            Value::Int(i) => Value::Int(*i),
            Value::UInt(u) => Value::UInt(*u),
            Value::Float(bits) => Value::Float(*bits),
            Value::String(s) => Value::String(s.clone()),
            Value::Array(items) => {
                let mut out: Vec<Value> = Vec::new();
                let mut i: usize = 0;
                while i < items.len()
                    invariant
                        i <= items.len(),
                        out.len() == i,
                        forall|j: int| 0 <= j < i ==> (#[trigger] out[j]).model() == items[j].model(),
                    decreases items.len() - i,
                {
                    proof {
                        vstd::std_specs::vec::axiom_vec_index_decreases(*items, i as int);
                    }
                    out.push(items[i].duplicate());
                    i = i + 1;
                }
                let r = Value::Array(out);
                assert(r.model()->Array_0 =~= self.model()->Array_0);
                r
            },
            Value::Object(members) => {
                let mut out: Vec<(String, Value)> = Vec::new();
                let mut i: usize = 0;
                while i < members.len()
                    invariant
                        i <= members.len(),
                        out.len() == i,
                        forall|j: int|
                            0 <= j < i ==> (#[trigger] out[j]).0@ == members[j].0@ && out[j].1.model()
                                == members[j].1.model(),
                    decreases members.len() - i,
                {
                    proof {
                        vstd::std_specs::vec::axiom_vec_index_decreases(*members, i as int);
                    }
                    out.push((members[i].0.clone(), members[i].1.duplicate()));
                    i = i + 1;
                }
                let r = Value::Object(out);
                assert(r.model()->Object_0 =~= self.model()->Object_0);
                r
            },
        }
    }

    /// The value bound to `key`, where `self` is an object that binds it.
    pub fn get(&self, key: &str) -> (r: Option<&Value>)
        ensures
            match self.model() {
                ValueModel::Object(members) => match member(members, key@) {
                    Some(v) => r is Some && r.unwrap().model() == v,
                    None => r is None,
                },
                _ => r is None,
            },
    {
        match self {
            Value::Object(members) => {
                assert(self.model()->Object_0 =~= members_model(members@));
                lookup(members, key)
            },
            _ => None,
        }
    }
}

/// The models of the members of an object or of a context, in order.
pub open spec fn members_model(members: Seq<(String, Value)>) -> Seq<(Seq<char>, ValueModel)> {
    Seq::new(members.len(), |i: int| (members[i].0@, members[i].1.model()))
}

/// The first value that `members` binds to `key`.
pub fn lookup<'a>(members: &'a Vec<(String, Value)>, key: &str) -> (r: Option<&'a Value>)
    ensures
        match member(members_model(members@), key@) {
            Some(v) => r is Some && r.unwrap().model() == v,
            None => r is None,
        },
{
    let ghost all = members_model(members@);
    let mut i: usize = 0;
    assert(all.subrange(0, all.len() as int) =~= all);
    while i < members.len()
        invariant
            i <= members.len(),
            all == members_model(members@),
            member(all, key@) == member(all.subrange(i as int, all.len() as int), key@),
        decreases members.len() - i,
    {
        let ghost rest = all.subrange(i as int, all.len() as int);
        assert(rest[0] == all[i as int]);
        assert(rest.subrange(1, rest.len() as int) =~= all.subrange(i + 1, all.len() as int));
        if text_eq(members[i].0.as_str(), key) {
            return Some(&members[i].1);
        }
        i = i + 1;
    }
    None
}

/// Whether two texts hold the same characters.
pub fn text_eq(a: &str, b: &str) -> (r: bool)
    ensures
        r == (a@ == b@),
{
    String::from_str(a) == String::from_str(b)
}

} // verus!
