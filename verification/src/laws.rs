use crate::args::{ArgView, FunctionArg};
use crate::binding::{binding_outcome, expanded_keywords, expanded_positional, fold_entries, walk,
    walk_cons, WalkOutcome};
use crate::callable::Callable;
use crate::dict::{insert_entry, lookup, remove_entry};
use crate::errors::ValueError;
use crate::signature::FunctionParameter;
use crate::values::Value;
use vstd::prelude::*;

verus! {

/// Whether a bound view answers a parameter, variant for variant: a required
/// or defaulted parameter binds a present value, an optional one a maybe
/// value, the spreads their captures.
pub open spec fn answers(a: ArgView, p: FunctionParameter) -> bool {
    match p {
        FunctionParameter::Normal(_) => a is Normal,
        FunctionParameter::Optional(_) => a is Optional,
        FunctionParameter::WithDefaultValue(_, _) => a is Normal,
        FunctionParameter::ArgsArray(_) => a is ArgsArray,
        FunctionParameter::KWArgsDict(_) => a is KWArgsDict,
    }
}

/// Whether a walk's outcome is aligned with a signature.
pub open spec fn aligned(o: WalkOutcome, sig: Seq<FunctionParameter>) -> bool {
    match o {
        WalkOutcome::Bound(out, _, _) => out.len() == sig.len() && (forall|i: int|
            0 <= i < sig.len() ==> #[trigger] answers(out[i], sig[i])),
        WalkOutcome::Missing(_) => true,
    }
}

proof fn lemma_cons_alignment(sig: Seq<FunctionParameter>, a: ArgView, rest: WalkOutcome)
    requires
        sig.len() > 0,
        answers(a, sig[0]),
        aligned(rest, sig.drop_first()),
    ensures
        aligned(walk_cons(a, rest), sig),
{
    match rest {
        WalkOutcome::Bound(out, p, k) => {
            let full = seq![a].add(out);
            assert forall|i: int| 0 <= i < sig.len() implies #[trigger] answers(full[i], sig[i]) by {
                if i > 0 {
                    assert(full[i] == out[i - 1]);
                    assert(sig.drop_first()[i - 1] == sig[i]);
                    assert(answers(out[i - 1], sig.drop_first()[i - 1]));
                }
            }
        },
        WalkOutcome::Missing(_) => {},
    }
}

proof fn lemma_walk_alignment(sig: Seq<FunctionParameter>, pos: Seq<Value>, kw: Seq<(String, Value)>)
    ensures
        aligned(walk(sig, pos, kw), sig),
    decreases sig.len(),
{
    if sig.len() > 0 {
        let tail = sig.drop_first();
        match sig[0] {
            FunctionParameter::Normal(name) => {
                if pos.len() > 0 {
                    lemma_walk_alignment(tail, pos.drop_first(), kw);
                    lemma_cons_alignment(sig, ArgView::Normal(pos[0]), walk(tail, pos.drop_first(), kw));
                } else {
                    match lookup(kw, name@) {
                        Some(v) => {
                            lemma_walk_alignment(tail, pos, remove_entry(kw, name@));
                            lemma_cons_alignment(sig, ArgView::Normal(v), walk(tail, pos, remove_entry(kw, name@)));
                        },
                        None => {},
                    }
                }
            },
            FunctionParameter::Optional(name) => {
                if pos.len() > 0 {
                    lemma_walk_alignment(tail, pos.drop_first(), kw);
                    lemma_cons_alignment(sig, ArgView::Optional(Some(pos[0])), walk(tail, pos.drop_first(), kw));
                } else {
                    match lookup(kw, name@) {
                        Some(v) => {
                            lemma_walk_alignment(tail, pos, remove_entry(kw, name@));
                            lemma_cons_alignment(sig, ArgView::Optional(Some(v)), walk(tail, pos, remove_entry(kw, name@)));
                        },
                        None => {
                            lemma_walk_alignment(tail, pos, kw);
                            lemma_cons_alignment(sig, ArgView::Optional(None), walk(tail, pos, kw));
                        },
                    }
                }
            },
            FunctionParameter::WithDefaultValue(name, dflt) => {
                if pos.len() > 0 {
                    lemma_walk_alignment(tail, pos.drop_first(), kw);
                    lemma_cons_alignment(sig, ArgView::Normal(pos[0]), walk(tail, pos.drop_first(), kw));
                } else {
                    match lookup(kw, name@) {
                        Some(v) => {
                            lemma_walk_alignment(tail, pos, remove_entry(kw, name@));
                            lemma_cons_alignment(sig, ArgView::Normal(v), walk(tail, pos, remove_entry(kw, name@)));
                        },
                        None => {
                            lemma_walk_alignment(tail, pos, kw);
                            lemma_cons_alignment(sig, ArgView::Normal(dflt), walk(tail, pos, kw));
                        },
                    }
                }
            },
            FunctionParameter::ArgsArray(_) => {
                lemma_walk_alignment(tail, Seq::empty(), kw);
                lemma_cons_alignment(sig, ArgView::ArgsArray(pos), walk(tail, Seq::empty(), kw));
            },
            FunctionParameter::KWArgsDict(_) => {
                lemma_walk_alignment(tail, pos, Seq::empty());
                lemma_cons_alignment(sig, ArgView::KWArgsDict(kw), walk(tail, pos, Seq::empty()));
            },
        }
    }
}

/// Law: whenever binding succeeds, the bound sequence has exactly one entry
/// per declared parameter, in declaration order, and each entry's variant
/// answers its parameter's.
pub proof fn lemma_binding_alignment(
    sig: Seq<FunctionParameter>,
    pos: Seq<Value>,
    named: Seq<(String, Value)>,
    args: Option<Value>,
    kwargs: Option<Value>,
)
    ensures
        match binding_outcome(sig, pos, named, args, kwargs) {
            Ok(out) => out.len() == sig.len() && (forall|i: int|
                0 <= i < sig.len() ==> #[trigger] answers(out[i], sig[i])),
            Err(_) => true,
        },
{
    match expanded_positional(pos, args) {
        Some(pos2) => match expanded_keywords(named, kwargs) {
            Ok(kw2) => {
                lemma_walk_alignment(sig, pos2, kw2);
            },
            Err(_) => {},
        },
        None => {},
    }
}

/// Law: at every slot, a required, optional or defaulted parameter takes the
/// next positional value when one is left, whatever the keyword mapping
/// holds of its name.
pub proof fn lemma_positional_over_keyword(
    sig: Seq<FunctionParameter>,
    pos: Seq<Value>,
    kw: Seq<(String, Value)>,
)
    requires
        sig.len() > 0,
        pos.len() > 0,
        sig[0] is Normal || sig[0] is Optional || sig[0] is WithDefaultValue,
    ensures
        walk(sig, pos, kw) == walk_cons(
            if sig[0] is Optional {
                ArgView::Optional(Some(pos[0]))
            } else {
                ArgView::Normal(pos[0])
            },
            walk(sig.drop_first(), pos.drop_first(), kw),
        ),
{
}

/// Law: a positional-spread parameter captures every remaining positional
/// value and leaves none for the parameters after it.
pub proof fn lemma_spread_captures_rest(
    sig: Seq<FunctionParameter>,
    pos: Seq<Value>,
    kw: Seq<(String, Value)>,
)
    requires
        sig.len() > 0,
        sig[0] is ArgsArray,
    ensures
        walk(sig, pos, kw) == walk_cons(
            ArgView::ArgsArray(pos),
            walk(sig.drop_first(), Seq::empty(), kw),
        ),
{
}

proof fn lemma_lookup_insert(s: Seq<(String, Value)>, k: String, v: Value, q: Seq<char>)
    ensures
        lookup(insert_entry(s, k, v), q) == if q == k@ {
            Some(v)
        } else {
            lookup(s, q)
        },
    decreases s.len(),
{
    reveal_with_fuel(lookup, 3);
    reveal_with_fuel(insert_entry, 3);
    if s.len() == 0 {
        let t = insert_entry(s, k, v);
        assert(t[0] == (k, v));
        assert(t.drop_first() =~= Seq::<(String, Value)>::empty());
    } else if s[0].0@ == k@ {
        let t = insert_entry(s, k, v);
        assert(t[0] == (s[0].0, v));
        assert(t.drop_first() =~= s.drop_first());
    } else {
        lemma_lookup_insert(s.drop_first(), k, v, q);
        let t = insert_entry(s, k, v);
        assert(t[0] == s[0]);
        assert(t.drop_first() =~= insert_entry(s.drop_first(), k, v));
    }
}

proof fn lemma_fold_absent(base: Seq<(String, Value)>, es: Seq<(String, Value)>, q: Seq<char>)
    requires
        forall|j: int| 0 <= j < es.len() ==> es[j].0@ != q,
    ensures
        lookup(fold_entries(base, es), q) == lookup(base, q),
    decreases es.len(),
{
    if es.len() > 0 {
        lemma_fold_absent(insert_entry(base, es[0].0, es[0].1), es.drop_first(), q);
        lemma_lookup_insert(base, es[0].0, es[0].1, q);
    }
}

/// Law: a key of the spread mapping ends up in the expanded keyword mapping
/// with the spread's value — the last write wins over an explicit keyword of
/// the same name.
pub proof fn lemma_spread_keyword_wins(
    base: Seq<(String, Value)>,
    es: Seq<(String, Value)>,
    i: int,
)
    requires
        0 <= i < es.len(),
        forall|j: int| i < j < es.len() ==> es[j].0@ != es[i].0@,
    ensures
        lookup(fold_entries(base, es), es[i].0@) == Some(es[i].1),
    decreases es.len(),
{
    let base2 = insert_entry(base, es[0].0, es[0].1);
    if i == 0 {
        lemma_lookup_insert(base, es[0].0, es[0].1, es[0].0@);
        assert forall|j: int| 0 <= j < es.drop_first().len() implies es.drop_first()[j].0@
            != es[0].0@ by {
            assert(es.drop_first()[j] == es[j + 1]);
        }
        lemma_fold_absent(base2, es.drop_first(), es[0].0@);
    } else {
        assert forall|j: int| i - 1 < j < es.drop_first().len() implies #[trigger] es.drop_first()[j].0@
            != es.drop_first()[i - 1].0@ by {
            assert(es.drop_first()[j] == es[j + 1]);
            assert(es.drop_first()[i - 1] == es[i]);
        }
        lemma_spread_keyword_wins(base2, es.drop_first(), i - 1);
        assert(es.drop_first()[i - 1] == es[i]);
    }
}

/// Law: a bound method's identity is its underlying callable's, so two bound
/// methods wrapping the same callable have the same identity, whatever their
/// receivers.
pub proof fn lemma_bound_method_identity<F: Fn(Vec<FunctionArg>) -> Result<Value, ValueError>>(
    w1: Callable<F>,
    w2: Callable<F>,
)
    requires
        w1 is Method,
        w2 is Method,
        w1->Method_0.method == w2->Method_0.method,
    ensures
        w1.id_spec() == w2.id_spec(),
{
}

} // verus!
