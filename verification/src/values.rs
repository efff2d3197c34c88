use crate::dict::{lookup, Dict};
use std::rc::Rc;
use vstd::prelude::*;

verus! {

/// A dynamic value of the surrounding object model, reduced to the
/// operations the binding engine needs of it: telling strings apart,
/// iterating an aggregate, and looking a value up by key.
#[derive(Debug)]
pub enum Value {
    NoneValue,
    Bool(bool),
    Int(i64),
    Str(String),
    List(Rc<Vec<Value>>),
    Dict(Rc<Dict>),
}

/// Relies on std::rc::Rc::clone: the returned handle shares the original's
/// allocation, so it is the same value.
#[verifier::external_body]
pub(crate) fn rc_clone<T>(rc: &Rc<T>) -> (res: Rc<T>)
    ensures
        res == *rc,
{
    Rc::clone(rc)
}

impl Value {
    /// What iterating the value yields: a list yields its elements, a
    /// mapping yields its keys as string values, nothing else can be iterated.
    pub open spec fn iter_spec(self) -> Option<Seq<Value>> {
        match self {
            Value::List(l) => Some(l@),
            Value::Dict(d) => Some(d@.map_values(|e: (String, Value)| Value::Str(e.0))),
            _ => None,
        }
    }

    /// What looking `key` up in the value yields: a mapping yields the value
    /// stored at a string key, every other lookup is refused.
    pub open spec fn at_spec(self, key: Value) -> Option<Value> {
        match (self, key) {
            (Value::Dict(d), Value::Str(k)) => lookup(d@, k@),
            _ => None,
        }
    }

    /// The iteration capability of the value model: the yielded values in
    /// order, or a refusal where the value does not support iteration.
    pub fn iterate(&self) -> (r: Result<Vec<Value>, ()>)
        ensures
            match self.iter_spec() {
                Some(s) => r is Ok && r->Ok_0@ == s,
                None => r is Err,
            },
    {
        match self {
            Value::List(l) => Ok(clone_values(l)),
            Value::Dict(d) => {
                let kv = d.key_values();
                proof {
                    assert(kv@ =~= d@.map_values(|e: (String, Value)| Value::Str(e.0)));
                }
                Ok(kv)
            },
            _ => Err(()),
        }
    }

    /// The key-lookup capability of the value model.
    pub fn at(&self, key: &Value) -> (r: Result<Value, ()>)
        ensures
            match self.at_spec(*key) {
                Some(v) => r == Ok::<Value, ()>(v),
                None => r is Err,
            },
    {
        match (self, key) {
            (Value::Dict(d), Value::Str(k)) => match d.get(k) {
                Some(v) => Ok(v.clone()),
                None => Err(()),
            },
            _ => Err(()),
        }
    }
}

impl Clone for Value {
    fn clone(&self) -> (res: Self)
        ensures
            res == *self,
    {
        match self {
            Value::NoneValue => Value::NoneValue,
            Value::Bool(b) => Value::Bool(*b),
            Value::Int(i) => Value::Int(*i),
            Value::Str(s) => Value::Str(s.clone()),
            Value::List(l) => Value::List(rc_clone(l)),
            Value::Dict(d) => Value::Dict(rc_clone(d)),
        }
    }
}

/// Clones every element of a value sequence.
pub fn clone_values(v: &Vec<Value>) -> (res: Vec<Value>)
    ensures
        res@ == v@,
{
    let mut res: Vec<Value> = Vec::new();
    let mut i: usize = 0;
    while i < v.len()
        invariant
            i <= v.len(),
            res@ == v@.take(i as int),
        decreases v.len() - i,
    {
        res.push(v[i].clone());
        proof {
            assert(res@ =~= v@.take(i as int + 1));
        }
        i = i + 1;
    }
    proof {
        assert(res@ =~= v@);
    }
    res
}

} // verus!
