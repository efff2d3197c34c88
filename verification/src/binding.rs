use crate::args::{ArgView, FunctionArg};
use crate::dict::{insert_entry, lookup, remove_entry, Dict};
use crate::errors::{FunctionError, ValueError};
use crate::signature::{clone_signature, FunctionParameter, FunctionType};
use crate::values::Value;
use vstd::prelude::*;

verus! {

/// How binding a call can fail, at the mathematical level.
pub enum BindFailure {
    /// A required parameter went unserved; carries its declared name.
    NotEnough(Seq<char>),
    /// The positional-spread value does not support iteration.
    ArgsNotIterable,
    /// The keyword-spread value supports neither iteration nor key lookup.
    KwargsNotMappable,
    /// An element iterated out of the keyword-spread value was not a string.
    KwargsKeyNotString,
    /// Positional or keyword values were left over after the whole walk.
    Extra,
}

/// The outcome of walking a signature: the bound views together with what is
/// left of the positional and keyword arguments, or the name of the first
/// required parameter that went unserved.
pub enum WalkOutcome {
    Bound(Seq<ArgView>, Seq<Value>, Seq<(String, Value)>),
    Missing(Seq<char>),
}

/// Prepends one bound view to a walk's outcome; a missing parameter passes
/// through unchanged.
pub open spec fn walk_cons(a: ArgView, rest: WalkOutcome) -> WalkOutcome {
    match rest {
        WalkOutcome::Bound(s, p, k) => WalkOutcome::Bound(seq![a].add(s), p, k),
        WalkOutcome::Missing(n) => WalkOutcome::Missing(n),
    }
}

/// Walks the parameters in declaration order, consuming the expanded
/// positional sequence from the front and the keyword mapping by name; at
/// every slot a positional value is preferred over a same-named keyword.
pub open spec fn walk(
    sig: Seq<FunctionParameter>,
    pos: Seq<Value>,
    kw: Seq<(String, Value)>,
) -> WalkOutcome
    decreases sig.len(),
{
    if sig.len() == 0 {
        WalkOutcome::Bound(Seq::empty(), pos, kw)
    } else {
        match sig[0] {
            FunctionParameter::Normal(name) => if pos.len() > 0 {
                walk_cons(ArgView::Normal(pos[0]), walk(sig.drop_first(), pos.drop_first(), kw))
            } else {
                match lookup(kw, name@) {
                    Some(v) => walk_cons(
                        ArgView::Normal(v),
                        walk(sig.drop_first(), pos, remove_entry(kw, name@)),
                    ),
                    None => WalkOutcome::Missing(name@),
                }
            },
            FunctionParameter::Optional(name) => if pos.len() > 0 {
                walk_cons(
                    ArgView::Optional(Some(pos[0])),
                    walk(sig.drop_first(), pos.drop_first(), kw),
                )
            } else {
                match lookup(kw, name@) {
                    Some(v) => walk_cons(
                        ArgView::Optional(Some(v)),
                        walk(sig.drop_first(), pos, remove_entry(kw, name@)),
                    ),
                    None => walk_cons(ArgView::Optional(None), walk(sig.drop_first(), pos, kw)),
                }
            },
            FunctionParameter::WithDefaultValue(name, dflt) => if pos.len() > 0 {
                walk_cons(ArgView::Normal(pos[0]), walk(sig.drop_first(), pos.drop_first(), kw))
            } else {
                match lookup(kw, name@) {
                    Some(v) => walk_cons(
                        ArgView::Normal(v),
                        walk(sig.drop_first(), pos, remove_entry(kw, name@)),
                    ),
                    None => walk_cons(ArgView::Normal(dflt), walk(sig.drop_first(), pos, kw)),
                }
            },
            FunctionParameter::ArgsArray(_) => walk_cons(
                ArgView::ArgsArray(pos),
                walk(sig.drop_first(), Seq::empty(), kw),
            ),
            FunctionParameter::KWArgsDict(_) => walk_cons(
                ArgView::KWArgsDict(kw),
                walk(sig.drop_first(), pos, Seq::empty()),
            ),
        }
    }
}

/// The positional sequence after spreading, or nothing where the spread
/// value does not support iteration.
pub open spec fn expanded_positional(pos: Seq<Value>, args: Option<Value>) -> Option<Seq<Value>> {
    match args {
        None => Some(pos),
        Some(v) => match v.iter_spec() {
            Some(s) => Some(pos.add(s)),
            None => None,
        },
    }
}

/// Folds a spread mapping's entries into the working keyword mapping, in
/// order; an entry whose key is already present overwrites its value, so the
/// spread wins over an explicit keyword of the same name.
pub open spec fn fold_entries(
    base: Seq<(String, Value)>,
    es: Seq<(String, Value)>,
) -> Seq<(String, Value)>
    decreases es.len(),
{
    if es.len() == 0 {
        base
    } else {
        fold_entries(insert_entry(base, es[0].0, es[0].1), es.drop_first())
    }
}

/// The keyword mapping after spreading, or how the spread fails: a mapping
/// contributes every entry; an iterable that is no mapping fails on its first
/// element (a string key cannot be looked up in it, anything else is not a
/// key); a value that cannot be iterated fails outright.
pub open spec fn expanded_keywords(named: Seq<(String, Value)>, kwargs: Option<Value>) -> Result<
    Seq<(String, Value)>,
    BindFailure,
> {
    match kwargs {
        None => Ok(named),
        Some(v) => match v {
            Value::Dict(d) => Ok(fold_entries(named, d@)),
            Value::List(l) => if l@.len() == 0 {
                Ok(named)
            } else if l@[0] is Str {
                Err(BindFailure::KwargsNotMappable)
            } else {
                Err(BindFailure::KwargsKeyNotString)
            },
            _ => Err(BindFailure::KwargsNotMappable),
        },
    }
}

/// Everything binding decides, end to end: spread expansion, the walk, and
/// the refusal of leftovers.
pub open spec fn binding_outcome(
    sig: Seq<FunctionParameter>,
    pos: Seq<Value>,
    named: Seq<(String, Value)>,
    args: Option<Value>,
    kwargs: Option<Value>,
) -> Result<Seq<ArgView>, BindFailure> {
    match expanded_positional(pos, args) {
        None => Err(BindFailure::ArgsNotIterable),
        Some(pos2) => match expanded_keywords(named, kwargs) {
            Err(f) => Err(f),
            Ok(kw2) => match walk(sig, pos2, kw2) {
                WalkOutcome::Missing(n) => Err(BindFailure::NotEnough(n)),
                WalkOutcome::Bound(out, rem_pos, rem_kw) => if rem_pos.len() > 0 || rem_kw.len()
                    > 0 {
                    Err(BindFailure::Extra)
                } else {
                    Ok(out)
                },
            },
        },
    }
}

/// Whether an error value reports a binding failure as the taxonomy asks:
/// the right variant, and for a missing parameter the declared name, the
/// callee's identity and its full signature.
pub open spec fn reports(
    e: ValueError,
    f: BindFailure,
    sig: Seq<FunctionParameter>,
    ft: FunctionType,
) -> bool {
    match f {
        BindFailure::NotEnough(n) => e matches ValueError::Function(
            FunctionError::NotEnoughParameter { missing, function_type, signature },
        ) && missing@ == n && function_type == ft && signature@ == sig,
        BindFailure::ArgsNotIterable => e == ValueError::Function(
            FunctionError::ArgsArrayIsNotIterable,
        ),
        BindFailure::KwargsNotMappable => e == ValueError::Function(
            FunctionError::KWArgsDictIsNotMappable,
        ),
        BindFailure::KwargsKeyNotString => e == ValueError::Function(
            FunctionError::ArgsValueIsNotString,
        ),
        BindFailure::Extra => e == ValueError::Function(FunctionError::ExtraParameter),
    }
}

/// The walk as executed: one parameter per recursive step, leftovers refused
/// at the end.
fn walk_exec(
    signature: &Vec<FunctionParameter>,
    function_type: &FunctionType,
    i: usize,
    mut pos: Vec<Value>,
    mut kw: Dict,
) -> (r: Result<Vec<FunctionArg>, ValueError>)
    requires
        kw.wf(),
        i <= signature@.len(),
    ensures
        match walk(signature@.skip(i as int), pos@, kw@) {
            WalkOutcome::Missing(n) => r is Err && reports(
                r->Err_0,
                BindFailure::NotEnough(n),
                signature@,
                *function_type,
            ),
            WalkOutcome::Bound(out, rem_pos, rem_kw) => if rem_pos.len() > 0 || rem_kw.len() > 0 {
                r is Err && r->Err_0 == ValueError::Function(FunctionError::ExtraParameter)
            } else {
                r is Ok && r->Ok_0@.map_values(|a: FunctionArg| a@) == out
            },
        },
    decreases signature@.len() - i,
{
    let ghost pos0 = pos@;
    let ghost kw0 = kw@;
    if i == signature.len() {
        proof {
            assert(signature@.skip(i as int) =~= Seq::<FunctionParameter>::empty());
        }
        if pos.len() > 0 || kw.len() > 0 {
            return Err(ValueError::Function(FunctionError::ExtraParameter));
        }
        let out: Vec<FunctionArg> = Vec::new();
        proof {
            assert(out@.map_values(|a: FunctionArg| a@) =~= Seq::<ArgView>::empty());
        }
        return Ok(out);
    }
    proof {
        assert(signature@.skip(i as int)[0] == signature@[i as int]);
        assert(signature@.skip(i as int).drop_first() =~= signature@.skip(i as int + 1));
    }
    let head: FunctionArg;
    match &signature[i] {
        FunctionParameter::Normal(name) => {
            if pos.len() > 0 {
                let v = pos.remove(0);
                proof {
                    assert(pos@ =~= pos0.drop_first());
                }
                head = FunctionArg::Normal(v);
                proof {
                    assert(walk(signature@.skip(i as int), pos0, kw0) == walk_cons(
                        head@,
                        walk(signature@.skip(i as int + 1), pos@, kw@),
                    ));
                }
            } else {
                match kw.remove(name) {
                    Some(v) => {
                        head = FunctionArg::Normal(v);
                        proof {
                            assert(walk(signature@.skip(i as int), pos0, kw0) == walk_cons(
                                head@,
                                walk(signature@.skip(i as int + 1), pos@, kw@),
                            ));
                        }
                    },
                    None => {
                        return Err(
                            ValueError::Function(
                                FunctionError::NotEnoughParameter {
                                    missing: name.clone(),
                                    function_type: function_type.clone(),
                                    signature: clone_signature(signature),
                                },
                            ),
                        );
                    },
                }
            }
        },
        FunctionParameter::Optional(name) => {
            if pos.len() > 0 {
                let v = pos.remove(0);
                proof {
                    assert(pos@ =~= pos0.drop_first());
                }
                head = FunctionArg::Optional(Some(v));
                proof {
                    assert(walk(signature@.skip(i as int), pos0, kw0) == walk_cons(
                        head@,
                        walk(signature@.skip(i as int + 1), pos@, kw@),
                    ));
                }
            } else {
                match kw.remove(name) {
                    Some(v) => {
                        head = FunctionArg::Optional(Some(v));
                        proof {
                            assert(walk(signature@.skip(i as int), pos0, kw0) == walk_cons(
                                head@,
                                walk(signature@.skip(i as int + 1), pos@, kw@),
                            ));
                        }
                    },
                    None => {
                        head = FunctionArg::Optional(None);
                        proof {
                            crate::dict::lemma_remove_absent(kw0, name@);
                            assert(walk(signature@.skip(i as int), pos0, kw0) == walk_cons(
                                head@,
                                walk(signature@.skip(i as int + 1), pos@, kw@),
                            ));
                        }
                    },
                }
            }
        },
        FunctionParameter::WithDefaultValue(name, dflt) => {
            if pos.len() > 0 {
                let v = pos.remove(0);
                proof {
                    assert(pos@ =~= pos0.drop_first());
                }
                head = FunctionArg::Normal(v);
                proof {
                    assert(walk(signature@.skip(i as int), pos0, kw0) == walk_cons(
                        head@,
                        walk(signature@.skip(i as int + 1), pos@, kw@),
                    ));
                }
            } else {
                match kw.remove(name) {
                    Some(v) => {
                        head = FunctionArg::Normal(v);
                        proof {
                            assert(walk(signature@.skip(i as int), pos0, kw0) == walk_cons(
                                head@,
                                walk(signature@.skip(i as int + 1), pos@, kw@),
                            ));
                        }
                    },
                    None => {
                        head = FunctionArg::Normal(dflt.clone());
                        proof {
                            crate::dict::lemma_remove_absent(kw0, name@);
                            assert(walk(signature@.skip(i as int), pos0, kw0) == walk_cons(
                                head@,
                                walk(signature@.skip(i as int + 1), pos@, kw@),
                            ));
                        }
                    },
                }
            }
        },
        FunctionParameter::ArgsArray(_) => {
            head = FunctionArg::ArgsArray(pos);
            pos = Vec::new();
            proof {
                assert(pos@ =~= Seq::<Value>::empty());
                assert(walk(signature@.skip(i as int), pos0, kw0) == walk_cons(
                    head@,
                    walk(signature@.skip(i as int + 1), pos@, kw@),
                ));
            }
        },
        FunctionParameter::KWArgsDict(_) => {
            head = FunctionArg::KWArgsDict(kw);
            kw = Dict::new();
            proof {
                assert(kw@ =~= Seq::<(String, Value)>::empty());
                assert(walk(signature@.skip(i as int), pos0, kw0) == walk_cons(
                    head@,
                    walk(signature@.skip(i as int + 1), pos@, kw@),
                ));
            }
        },
    }
    let ghost headv = head@;
    let ghost rest_outcome = walk(signature@.skip(i as int + 1), pos@, kw@);
    proof {
        assert(walk(signature@.skip(i as int), pos0, kw0) == walk_cons(headv, rest_outcome));
    }
    match walk_exec(signature, function_type, i + 1, pos, kw) {
        Ok(rest) => {
            let ghost restv = rest@;
            let mut result = rest;
            result.insert(0, head);
            proof {
                assert(result@ =~= seq![head].add(restv));
                assert(result@.map_values(|a: FunctionArg| a@) =~= seq![headv].add(
                    restv.map_values(|a: FunctionArg| a@),
                ));
            }
            Ok(result)
        },
        Err(e) => Err(e),
    }
}

/// Binds a call site's arguments to a callable's signature: expands the two
/// spreads, walks the parameters in declaration order, and refuses leftover
/// arguments. On success the bound sequence has exactly one entry per
/// declared parameter, in declaration order.
#[verifier::loop_isolation(false)]
pub fn parse_signature(
    signature: &Vec<FunctionParameter>,
    function_type: &FunctionType,
    positional: Vec<Value>,
    named: Dict,
    args: Option<Value>,
    kwargs: Option<Value>,
) -> (r: Result<Vec<FunctionArg>, ValueError>)
    requires
        named.wf(),
    ensures
        match binding_outcome(signature@, positional@, named@, args, kwargs) {
            Ok(out) => r is Ok && r->Ok_0@.map_values(|a: FunctionArg| a@) == out,
            Err(f) => r is Err && reports(r->Err_0, f, signature@, *function_type),
        },
{
    // Expand the positional arguments.
    let mut av = positional;
    match &args {
        Some(x) => match x.iterate() {
            Ok(mut y) => {
                av.append(&mut y);
            },
            Err(_) => {
                return Err(ValueError::Function(FunctionError::ArgsArrayIsNotIterable));
            },
        },
        None => {},
    }
    // Expand the keyword arguments.
    let mut kw = named;
    match &kwargs {
        Some(x) => {
            if let Value::Dict(d) = x {
                let ghost named0 = kw@;
                proof {
                    assert(d@.skip(0) =~= d@);
                }
                let mut j: usize = 0;
                while j < d.len()
                    invariant
                        kw.wf(),
                        j <= d@.len(),
                        fold_entries(named0, d@) == fold_entries(kw@, d@.skip(j as int)),
                    decreases d@.len() - j,
                {
                    let e = d.entry_at(j);
                    let k = e.0.clone();
                    let v = e.1.clone();
                    proof {
                        assert(d@.skip(j as int)[0] == d@[j as int]);
                        assert(d@.skip(j as int).drop_first() =~= d@.skip(j as int + 1));
                    }
                    kw.insert(k, v);
                    j = j + 1;
                }
                proof {
                    assert(d@.skip(d@.len() as int) =~= Seq::<(String, Value)>::empty());
                }
            } else {
                match x.iterate() {
                    Ok(keys) => {
                        let mut j: usize = 0;
                        while j < keys.len()
                            invariant
                                j == 0,
                            decreases keys@.len() - j,
                        {
                            match &keys[j] {
                                Value::Str(_) => match x.at(&keys[j]) {
                                    Ok(_) => {
                                        // unreachable for a value that is no
                                        // mapping, whose lookups all fail
                                        return Err(
                                            ValueError::Function(
                                                FunctionError::KWArgsDictIsNotMappable,
                                            ),
                                        );
                                    },
                                    Err(_) => {
                                        return Err(
                                            ValueError::Function(
                                                FunctionError::KWArgsDictIsNotMappable,
                                            ),
                                        );
                                    },
                                },
                                _ => {
                                    return Err(
                                        ValueError::Function(FunctionError::ArgsValueIsNotString),
                                    );
                                },
                            }
                        }
                    },
                    Err(_) => {
                        return Err(ValueError::Function(FunctionError::KWArgsDictIsNotMappable));
                    },
                }
            }
        },
        None => {},
    }
    proof {
        assert(signature@.skip(0) =~= signature@);
    }
    walk_exec(signature, function_type, 0, av, kw)
}

} // verus!
