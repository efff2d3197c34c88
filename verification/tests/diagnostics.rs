use callbind::dict::Dict;
use callbind::errors::FunctionError;
use callbind::render::{repr, to_str};
use callbind::signature::{FunctionParameter, FunctionType};
use callbind::values::Value;
use std::rc::Rc;

#[test]
fn scalar_values_render_exactly() {
    assert_eq!(Value::NoneValue.to_repr(), "None");
    assert_eq!(Value::Bool(true).to_repr(), "True");
    assert_eq!(Value::Bool(false).to_repr(), "False");
    assert_eq!(Value::Int(0).to_repr(), "0");
    assert_eq!(Value::Int(42).to_repr(), "42");
    assert_eq!(Value::Int(-42).to_repr(), "-42");
    assert_eq!(Value::Int(i64::MIN).to_repr(), "-9223372036854775808");
    assert_eq!(Value::Str(String::from("hi")).to_repr(), "\"hi\"");
}

#[test]
fn aggregate_values_render_their_elements() {
    let l = Value::List(Rc::new(vec![
        Value::Int(1),
        Value::Str(String::from("a")),
        Value::List(Rc::new(vec![Value::Bool(true), Value::NoneValue])),
    ]));
    assert_eq!(l.to_repr(), "[1, \"a\", [True, None]]");
    let mut d = Dict::new();
    d.insert(String::from("k"), Value::Int(1));
    d.insert(String::from("m"), Value::List(Rc::new(vec![Value::Int(2)])));
    assert_eq!(Value::Dict(Rc::new(d)).to_repr(), "{\"k\": 1, \"m\": [2]}");
}

#[test]
fn declaration_renders_in_both_forms() {
    let ft = FunctionType::Def(String::from("f"), String::from("m"));
    let sig = vec![
        FunctionParameter::Optional(String::from("o")),
        FunctionParameter::WithDefaultValue(String::from("d"), Value::Str(String::from("s"))),
    ];
    assert_eq!(repr(&ft, &sig), "<function f from m(?o, d = \"s\")>");
    assert_eq!(to_str(&ft, &sig), "f(o, d = \"s\")");
    assert_eq!(ft.to_repr(), "<function f from m>");
    assert_eq!(ft.to_str(), "f");
}

#[test]
fn missing_parameter_report_strips_the_marker_and_shows_the_shape() {
    let e = FunctionError::NotEnoughParameter {
        missing: String::from("$x"),
        function_type: FunctionType::Native(String::from("f")),
        signature: vec![FunctionParameter::Normal(String::from("$x"))],
    };
    let r = e.into_runtime_error();
    assert_eq!(r.code, "CF00");
    assert_eq!(r.label, "Not enough parameters in function call");
    assert_eq!(
        r.message,
        "Missing parameter x for call to <native function f($x)>"
    );
}

#[test]
fn every_failure_carries_its_code_label_and_message() {
    let cases = vec![
        (
            FunctionError::ArgsValueIsNotString,
            "CF01",
            "not an identifier for *args",
            "The argument provided for *args is not an identifier",
        ),
        (
            FunctionError::ArgsArrayIsNotIterable,
            "CF02",
            "*args is not iterable",
            "The argument provided for *args is not iterable",
        ),
        (
            FunctionError::KWArgsDictIsNotMappable,
            "CF03",
            "**kwargs is not mappable",
            "The argument provided for **kwargs is not mappable",
        ),
        (
            FunctionError::ExtraParameter,
            "CF05",
            "Extraneous parameter in function call",
            "Extraneous parameter passed to function call",
        ),
    ];
    for (e, code, label, message) in cases {
        let r = e.into_runtime_error();
        assert_eq!(r.code, code);
        assert_eq!(r.label, label);
        assert_eq!(r.message, message);
    }
}

#[test]
fn mapping_insert_overwrites_in_place_and_remove_takes_out() {
    let mut d = Dict::new();
    d.insert(String::from("a"), Value::Int(1));
    d.insert(String::from("b"), Value::Int(2));
    d.insert(String::from("a"), Value::Int(3));
    assert_eq!(d.len(), 2);
    let e0 = d.entry_at(0);
    assert_eq!(e0.0, "a");
    assert!(matches!(e0.1, Value::Int(3)));
    let taken = d.remove(&String::from("a"));
    assert!(matches!(taken, Some(Value::Int(3))));
    assert_eq!(d.len(), 1);
    assert!(d.remove(&String::from("missing")).is_none());
    assert_eq!(d.len(), 1);
}
