use callbind::args::FunctionArg;
use callbind::dict::Dict;
use callbind::errors::ValueError;
use callbind::values::Value;

#[test]
fn required_extraction_converts_the_value() {
    let a = FunctionArg::Normal(Value::Int(7));
    let r: i64 = a.into_normal("x").unwrap();
    assert_eq!(r, 7);
}

#[test]
fn required_extraction_reports_the_parameter_on_a_type_mismatch() {
    let a = FunctionArg::Normal(Value::Str(String::from("no")));
    let r: Result<i64, ValueError> = a.into_normal("x");
    assert!(matches!(r, Err(ValueError::IncorrectParameterTypeNamed(n)) if n == "x"));
}

#[test]
fn required_extraction_refuses_another_kind() {
    let a = FunctionArg::Optional(Some(Value::Int(7)));
    let r: Result<i64, ValueError> = a.into_normal("x");
    assert!(matches!(r, Err(ValueError::IncorrectParameterType)));
}

#[test]
fn optional_extraction_handles_presence_and_absence() {
    let a = FunctionArg::Optional(Some(Value::Bool(true)));
    let r: Option<bool> = a.into_optional("o").unwrap();
    assert_eq!(r, Some(true));
    let b = FunctionArg::Optional(None);
    let r2: Option<bool> = b.into_optional("o").unwrap();
    assert_eq!(r2, None);
}

#[test]
fn optional_extraction_refuses_another_kind() {
    let a = FunctionArg::Normal(Value::Bool(true));
    let r: Result<Option<bool>, ValueError> = a.into_optional("o");
    assert!(matches!(r, Err(ValueError::IncorrectParameterType)));
}

#[test]
fn positional_capture_extraction_converts_every_element() {
    let a = FunctionArg::ArgsArray(vec![Value::Int(1), Value::Int(2)]);
    let r: Vec<i64> = a.into_args_array("args").unwrap();
    assert_eq!(r, vec![1, 2]);
}

#[test]
fn positional_capture_extraction_reports_the_first_failure() {
    let a = FunctionArg::ArgsArray(vec![Value::Int(1), Value::NoneValue]);
    let r: Result<Vec<i64>, ValueError> = a.into_args_array("args");
    assert!(matches!(r, Err(ValueError::IncorrectParameterTypeNamed(n)) if n == "args"));
}

#[test]
fn keyword_capture_extraction_preserves_key_order() {
    let mut d = Dict::new();
    d.insert(String::from("b"), Value::Int(1));
    d.insert(String::from("a"), Value::Int(2));
    let a = FunctionArg::KWArgsDict(d);
    let r: Vec<(String, i64)> = a.into_kw_args_dict("kw").unwrap();
    assert_eq!(r, vec![(String::from("b"), 1), (String::from("a"), 2)]);
}

#[test]
fn keyword_capture_extraction_reports_a_bad_value() {
    let mut d = Dict::new();
    d.insert(String::from("b"), Value::Bool(false));
    let a = FunctionArg::KWArgsDict(d);
    let r: Result<Vec<(String, i64)>, ValueError> = a.into_kw_args_dict("kw");
    assert!(matches!(r, Err(ValueError::IncorrectParameterTypeNamed(n)) if n == "kw"));
}

#[test]
fn extraction_into_a_value_is_lossless() {
    let a = FunctionArg::Normal(Value::Int(3));
    let r: Value = a.into_normal("x").unwrap();
    assert!(matches!(r, Value::Int(3)));
}

#[test]
fn required_binding_turns_back_into_its_value() {
    let v = FunctionArg::Normal(Value::Int(3)).into_value();
    assert!(matches!(v, Value::Int(3)));
}

#[test]
fn optional_binding_turns_back_into_value_or_sentinel() {
    let v = FunctionArg::Optional(Some(Value::Str(String::from("s")))).into_value();
    assert!(matches!(v, Value::Str(s) if s == "s"));
    let w = FunctionArg::Optional(None).into_value();
    assert!(matches!(w, Value::NoneValue));
}

#[test]
fn positional_capture_turns_back_into_the_same_sequence_value() {
    let v = FunctionArg::ArgsArray(vec![Value::Int(1), Value::Int(2)]).into_value();
    match v {
        Value::List(l) => {
            assert_eq!(l.len(), 2);
            assert!(matches!(l[0], Value::Int(1)));
            assert!(matches!(l[1], Value::Int(2)));
        }
        _ => panic!("a positional capture must turn into a sequence value"),
    }
}

#[test]
fn keyword_capture_turns_back_into_the_same_mapping_value() {
    let mut d = Dict::new();
    d.insert(String::from("k"), Value::Int(1));
    let v = FunctionArg::KWArgsDict(d).into_value();
    match v {
        Value::Dict(m) => {
            assert_eq!(m.len(), 1);
            let e = m.entry_at(0);
            assert_eq!(e.0, "k");
            assert!(matches!(e.1, Value::Int(1)));
        }
        _ => panic!("a keyword capture must turn into a mapping value"),
    }
}

#[test]
fn value_iteration_and_lookup_follow_the_capabilities() {
    let l = Value::List(std::rc::Rc::new(vec![Value::Int(1)]));
    assert!(matches!(l.iterate().unwrap()[0], Value::Int(1)));
    let mut d = Dict::new();
    d.insert(String::from("k"), Value::Int(5));
    let dv = Value::Dict(std::rc::Rc::new(d));
    let keys = dv.iterate().unwrap();
    assert!(matches!(&keys[0], Value::Str(s) if s == "k"));
    let got = dv.at(&Value::Str(String::from("k"))).unwrap();
    assert!(matches!(got, Value::Int(5)));
    assert!(Value::Int(1).iterate().is_err());
    assert!(l.at(&Value::Str(String::from("k"))).is_err());
}
