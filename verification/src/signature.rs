use crate::values::Value;
use vstd::prelude::*;

verus! {

/// One declared slot of a callable's parameter list.
#[derive(Debug)]
pub enum FunctionParameter {
    /// A required parameter: its absence is a binding error.
    Normal(String),
    /// An optional parameter: its absence binds "no value".
    Optional(String),
    /// A parameter with a default: its absence binds the default.
    WithDefaultValue(String, Value),
    /// Captures every positional argument not yet consumed.
    ArgsArray(String),
    /// Captures every keyword argument not yet consumed.
    KWArgsDict(String),
}

impl FunctionParameter {
    /// The declared name, marker characters included.
    pub open spec fn name_spec(&self) -> Seq<char> {
        match self {
            FunctionParameter::Normal(n) => n@,
            FunctionParameter::Optional(n) => n@,
            FunctionParameter::WithDefaultValue(n, _) => n@,
            FunctionParameter::ArgsArray(n) => n@,
            FunctionParameter::KWArgsDict(n) => n@,
        }
    }
}

impl Clone for FunctionParameter {
    fn clone(&self) -> (res: Self)
        ensures
            res == *self,
    {
        match self {
            FunctionParameter::Normal(n) => FunctionParameter::Normal(n.clone()),
            FunctionParameter::Optional(n) => FunctionParameter::Optional(n.clone()),
            FunctionParameter::WithDefaultValue(n, v) => FunctionParameter::WithDefaultValue(
                n.clone(),
                v.clone(),
            ),
            FunctionParameter::ArgsArray(n) => FunctionParameter::ArgsArray(n.clone()),
            FunctionParameter::KWArgsDict(n) => FunctionParameter::KWArgsDict(n.clone()),
        }
    }
}

/// Clones a parameter list.
pub fn clone_signature(sig: &Vec<FunctionParameter>) -> (res: Vec<FunctionParameter>)
    ensures
        res@ == sig@,
{
    let mut res: Vec<FunctionParameter> = Vec::new();
    let mut i: usize = 0;
    while i < sig.len()
        invariant
            i <= sig@.len(),
            res@ == sig@.take(i as int),
        decreases sig@.len() - i,
    {
        res.push(sig[i].clone());
        proof {
            assert(res@ =~= sig@.take(i as int + 1));
        }
        i = i + 1;
    }
    proof {
        assert(res@ =~= sig@);
    }
    res
}

/// A callable's display identity: it shapes diagnostics and rendering, and
/// never decides behaviour.
#[derive(Debug)]
pub enum FunctionType {
    /// A host-implemented callable, by name.
    Native(String),
    /// A script-defined callable: name and origin module.
    Def(String, String),
}

impl Clone for FunctionType {
    fn clone(&self) -> (res: Self)
        ensures
            res == *self,
    {
        match self {
            FunctionType::Native(n) => FunctionType::Native(n.clone()),
            FunctionType::Def(n, m) => FunctionType::Def(n.clone(), m.clone()),
        }
    }
}

impl FunctionType {
    /// The plain display name.
    pub fn to_str(&self) -> (r: String)
        ensures
            match self {
                FunctionType::Native(n) => r@ == n@,
                FunctionType::Def(n, _) => r@ == n@,
            },
    {
        match self {
            FunctionType::Native(n) => n.clone(),
            FunctionType::Def(n, _) => n.clone(),
        }
    }
}

} // verus!
