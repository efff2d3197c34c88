use callbind::args::FunctionArg;
use callbind::binding::parse_signature;
use callbind::dict::Dict;
use callbind::errors::{FunctionError, ValueError};
use callbind::signature::{FunctionParameter, FunctionType};
use callbind::values::Value;
use std::rc::Rc;

fn ft() -> FunctionType {
    FunctionType::Native(String::from("f"))
}

fn value_eq(a: &Value, b: &Value) -> bool {
    match (a, b) {
        (Value::NoneValue, Value::NoneValue) => true,
        (Value::Bool(x), Value::Bool(y)) => x == y,
        (Value::Int(x), Value::Int(y)) => x == y,
        (Value::Str(x), Value::Str(y)) => x == y,
        (Value::List(x), Value::List(y)) => {
            x.len() == y.len() && x.iter().zip(y.iter()).all(|(u, v)| value_eq(u, v))
        }
        (Value::Dict(x), Value::Dict(y)) => {
            if x.len() != y.len() {
                return false;
            }
            for i in 0..x.len() {
                let ex = x.entry_at(i);
                let ey = y.entry_at(i);
                if ex.0 != ey.0 || !value_eq(&ex.1, &ey.1) {
                    return false;
                }
            }
            true
        }
        _ => false,
    }
}

#[test]
fn well_formed_call_binds_every_parameter_in_order() {
    let sig = vec![
        FunctionParameter::Normal(String::from("a")),
        FunctionParameter::Optional(String::from("b")),
        FunctionParameter::WithDefaultValue(String::from("c"), Value::Int(10)),
        FunctionParameter::ArgsArray(String::from("d")),
        FunctionParameter::KWArgsDict(String::from("e")),
    ];
    let pos = vec![Value::Int(1), Value::Int(2), Value::Int(3), Value::Int(4)];
    let mut named = Dict::new();
    named.insert(String::from("k"), Value::Int(9));
    let r = parse_signature(&sig, &ft(), pos, named, None, None).unwrap();
    assert_eq!(r.len(), sig.len());
    assert!(matches!(&r[0], FunctionArg::Normal(Value::Int(1))));
    assert!(matches!(&r[1], FunctionArg::Optional(Some(Value::Int(2)))));
    assert!(matches!(&r[2], FunctionArg::Normal(Value::Int(3))));
    match &r[3] {
        FunctionArg::ArgsArray(v) => {
            assert_eq!(v.len(), 1);
            assert!(matches!(v[0], Value::Int(4)));
        }
        _ => panic!("fourth argument should be the positional capture"),
    }
    match &r[4] {
        FunctionArg::KWArgsDict(d) => {
            assert_eq!(d.len(), 1);
            let e = d.entry_at(0);
            assert_eq!(e.0, "k");
            assert!(matches!(e.1, Value::Int(9)));
        }
        _ => panic!("fifth argument should be the keyword capture"),
    }
}

#[test]
fn positional_wins_over_same_named_keyword() {
    let sig = vec![
        FunctionParameter::Normal(String::from("x")),
        FunctionParameter::KWArgsDict(String::from("kw")),
    ];
    let mut named = Dict::new();
    named.insert(String::from("x"), Value::Int(2));
    let r = parse_signature(&sig, &ft(), vec![Value::Int(1)], named, None, None).unwrap();
    assert!(matches!(&r[0], FunctionArg::Normal(Value::Int(1))));
    match &r[1] {
        FunctionArg::KWArgsDict(d) => {
            let e = d.entry_at(0);
            assert_eq!(e.0, "x");
            assert!(matches!(e.1, Value::Int(2)));
        }
        _ => panic!("the unconsumed keyword must stay for the capture"),
    }
}

#[test]
fn unconsumed_same_named_keyword_is_extra() {
    let sig = vec![FunctionParameter::Normal(String::from("x"))];
    let mut named = Dict::new();
    named.insert(String::from("x"), Value::Int(2));
    let r = parse_signature(&sig, &ft(), vec![Value::Int(1)], named, None, None);
    assert!(matches!(
        r,
        Err(ValueError::Function(FunctionError::ExtraParameter))
    ));
}

#[test]
fn keyword_spread_overwrites_explicit_keyword() {
    let sig = vec![FunctionParameter::Normal(String::from("x"))];
    let mut named = Dict::new();
    named.insert(String::from("x"), Value::Int(1));
    let mut spread = Dict::new();
    spread.insert(String::from("x"), Value::Int(2));
    let r = parse_signature(
        &sig,
        &ft(),
        vec![],
        named,
        None,
        Some(Value::Dict(Rc::new(spread))),
    )
    .unwrap();
    assert!(matches!(&r[0], FunctionArg::Normal(Value::Int(2))));
}

#[test]
fn missing_required_parameter_names_it() {
    let sig = vec![
        FunctionParameter::Normal(String::from("a")),
        FunctionParameter::Normal(String::from("b")),
    ];
    let r = parse_signature(&sig, &ft(), vec![Value::Int(1)], Dict::new(), None, None);
    match r {
        Err(ValueError::Function(FunctionError::NotEnoughParameter {
            missing,
            function_type,
            signature,
        })) => {
            assert_eq!(missing, "b");
            assert!(matches!(function_type, FunctionType::Native(n) if n == "f"));
            assert_eq!(signature.len(), 2);
        }
        _ => panic!("binding must fail for the unserved required parameter"),
    }
}

#[test]
fn extra_positional_is_refused() {
    let sig = vec![FunctionParameter::Normal(String::from("a"))];
    let r = parse_signature(
        &sig,
        &ft(),
        vec![Value::Int(1), Value::Int(2)],
        Dict::new(),
        None,
        None,
    );
    assert!(matches!(
        r,
        Err(ValueError::Function(FunctionError::ExtraParameter))
    ));
}

#[test]
fn defaulted_parameter_falls_back_to_its_default() {
    let sig = vec![FunctionParameter::WithDefaultValue(
        String::from("n"),
        Value::Int(10),
    )];
    let r = parse_signature(&sig, &ft(), vec![], Dict::new(), None, None).unwrap();
    assert!(matches!(&r[0], FunctionArg::Normal(Value::Int(10))));
}

#[test]
fn optional_parameter_absence_binds_no_value() {
    let sig = vec![FunctionParameter::Optional(String::from("o"))];
    let r = parse_signature(&sig, &ft(), vec![], Dict::new(), None, None).unwrap();
    assert!(matches!(&r[0], FunctionArg::Optional(None)));
}

#[test]
fn keyword_serves_required_parameter_when_positionals_run_out() {
    let sig = vec![FunctionParameter::Normal(String::from("x"))];
    let mut named = Dict::new();
    named.insert(String::from("x"), Value::Int(5));
    let r = parse_signature(&sig, &ft(), vec![], named, None, None).unwrap();
    assert!(matches!(&r[0], FunctionArg::Normal(Value::Int(5))));
}

#[test]
fn optional_parameter_is_served_by_its_keyword() {
    let sig = vec![FunctionParameter::Optional(String::from("o"))];
    let mut named = Dict::new();
    named.insert(String::from("o"), Value::Int(3));
    let r = parse_signature(&sig, &ft(), vec![], named, None, None).unwrap();
    assert!(matches!(&r[0], FunctionArg::Optional(Some(Value::Int(3)))));
}

#[test]
fn defaulted_parameter_prefers_a_given_value_over_its_default() {
    let sig = vec![FunctionParameter::WithDefaultValue(
        String::from("n"),
        Value::Int(10),
    )];
    let by_pos = parse_signature(&sig, &ft(), vec![Value::Int(1)], Dict::new(), None, None)
        .unwrap();
    assert!(matches!(&by_pos[0], FunctionArg::Normal(Value::Int(1))));
    let mut named = Dict::new();
    named.insert(String::from("n"), Value::Int(2));
    let by_kw = parse_signature(&sig, &ft(), vec![], named, None, None).unwrap();
    assert!(matches!(&by_kw[0], FunctionArg::Normal(Value::Int(2))));
}

#[test]
fn positional_spread_captures_everything() {
    let sig = vec![FunctionParameter::ArgsArray(String::from("args"))];
    let pos = vec![Value::Int(1), Value::Int(2), Value::Int(3)];
    let r = parse_signature(&sig, &ft(), pos, Dict::new(), None, None).unwrap();
    match &r[0] {
        FunctionArg::ArgsArray(v) => {
            let want = vec![Value::Int(1), Value::Int(2), Value::Int(3)];
            assert_eq!(v.len(), 3);
            assert!(v.iter().zip(want.iter()).all(|(a, b)| value_eq(a, b)));
        }
        _ => panic!("the capture must be a positional rest"),
    }
}

#[test]
fn positional_spread_captures_nothing_when_nothing_is_left() {
    let sig = vec![FunctionParameter::ArgsArray(String::from("args"))];
    let r = parse_signature(&sig, &ft(), vec![], Dict::new(), None, None).unwrap();
    match &r[0] {
        FunctionArg::ArgsArray(v) => assert!(v.is_empty()),
        _ => panic!("the capture must be a positional rest"),
    }
}

#[test]
fn positional_spread_value_extends_the_positionals() {
    let sig = vec![
        FunctionParameter::Normal(String::from("a")),
        FunctionParameter::Normal(String::from("b")),
        FunctionParameter::Normal(String::from("c")),
    ];
    let spread = Value::List(Rc::new(vec![Value::Int(2), Value::Int(3)]));
    let r = parse_signature(
        &sig,
        &ft(),
        vec![Value::Int(1)],
        Dict::new(),
        Some(spread),
        None,
    )
    .unwrap();
    assert!(matches!(&r[0], FunctionArg::Normal(Value::Int(1))));
    assert!(matches!(&r[1], FunctionArg::Normal(Value::Int(2))));
    assert!(matches!(&r[2], FunctionArg::Normal(Value::Int(3))));
}

#[test]
fn non_iterable_positional_spread_is_refused() {
    let sig = vec![FunctionParameter::ArgsArray(String::from("args"))];
    let r = parse_signature(
        &sig,
        &ft(),
        vec![],
        Dict::new(),
        Some(Value::Int(1)),
        None,
    );
    assert!(matches!(
        r,
        Err(ValueError::Function(FunctionError::ArgsArrayIsNotIterable))
    ));
}

#[test]
fn non_mappable_keyword_spread_is_refused() {
    let sig = vec![FunctionParameter::KWArgsDict(String::from("kw"))];
    let r = parse_signature(
        &sig,
        &ft(),
        vec![],
        Dict::new(),
        None,
        Some(Value::Int(1)),
    );
    assert!(matches!(
        r,
        Err(ValueError::Function(FunctionError::KWArgsDictIsNotMappable))
    ));
}

#[test]
fn sequence_keyword_spread_with_string_element_is_not_mappable() {
    let sig = vec![FunctionParameter::KWArgsDict(String::from("kw"))];
    let spread = Value::List(Rc::new(vec![Value::Str(String::from("a"))]));
    let r = parse_signature(&sig, &ft(), vec![], Dict::new(), None, Some(spread));
    assert!(matches!(
        r,
        Err(ValueError::Function(FunctionError::KWArgsDictIsNotMappable))
    ));
}

#[test]
fn keyword_spread_element_that_is_no_string_is_refused() {
    let sig = vec![FunctionParameter::KWArgsDict(String::from("kw"))];
    let spread = Value::List(Rc::new(vec![Value::Int(1)]));
    let r = parse_signature(&sig, &ft(), vec![], Dict::new(), None, Some(spread));
    assert!(matches!(
        r,
        Err(ValueError::Function(FunctionError::ArgsValueIsNotString))
    ));
}

#[test]
fn empty_sequence_keyword_spread_adds_nothing() {
    let sig = vec![FunctionParameter::KWArgsDict(String::from("kw"))];
    let spread = Value::List(Rc::new(vec![]));
    let r = parse_signature(&sig, &ft(), vec![], Dict::new(), None, Some(spread)).unwrap();
    match &r[0] {
        FunctionArg::KWArgsDict(d) => assert_eq!(d.len(), 0),
        _ => panic!("the capture must be a keyword rest"),
    }
}

#[test]
fn keyword_capture_preserves_insertion_order() {
    let sig = vec![FunctionParameter::KWArgsDict(String::from("kw"))];
    let mut named = Dict::new();
    named.insert(String::from("b"), Value::Int(1));
    named.insert(String::from("a"), Value::Int(2));
    let mut spread = Dict::new();
    spread.insert(String::from("b"), Value::Int(3));
    spread.insert(String::from("c"), Value::Int(4));
    let r = parse_signature(
        &sig,
        &ft(),
        vec![],
        named,
        None,
        Some(Value::Dict(Rc::new(spread))),
    )
    .unwrap();
    match &r[0] {
        FunctionArg::KWArgsDict(d) => {
            assert_eq!(d.len(), 3);
            let e0 = d.entry_at(0);
            let e1 = d.entry_at(1);
            let e2 = d.entry_at(2);
            assert_eq!(e0.0, "b");
            assert!(matches!(e0.1, Value::Int(3)));
            assert_eq!(e1.0, "a");
            assert!(matches!(e1.1, Value::Int(2)));
            assert_eq!(e2.0, "c");
            assert!(matches!(e2.1, Value::Int(4)));
        }
        _ => panic!("the capture must be a keyword rest"),
    }
}

#[test]
fn early_positional_spread_starves_later_parameters() {
    let sig = vec![
        FunctionParameter::ArgsArray(String::from("a")),
        FunctionParameter::Normal(String::from("b")),
    ];
    let r = parse_signature(
        &sig,
        &ft(),
        vec![Value::Int(1), Value::Int(2)],
        Dict::new(),
        None,
        None,
    );
    match r {
        Err(ValueError::Function(FunctionError::NotEnoughParameter { missing, .. })) => {
            assert_eq!(missing, "b");
        }
        _ => panic!("the spread must starve the parameter after it"),
    }
}

#[test]
fn dict_spread_as_positional_spread_appends_its_keys() {
    let sig = vec![
        FunctionParameter::Normal(String::from("a")),
        FunctionParameter::Normal(String::from("b")),
    ];
    let mut spread = Dict::new();
    spread.insert(String::from("k1"), Value::Int(1));
    spread.insert(String::from("k2"), Value::Int(2));
    let r = parse_signature(
        &sig,
        &ft(),
        vec![],
        Dict::new(),
        Some(Value::Dict(Rc::new(spread))),
        None,
    )
    .unwrap();
    assert!(matches!(&r[0], FunctionArg::Normal(Value::Str(s)) if s == "k1"));
    assert!(matches!(&r[1], FunctionArg::Normal(Value::Str(s)) if s == "k2"));
}
