use crate::dict::Dict;
use crate::errors::ValueError;
use crate::values::Value;
use std::rc::Rc;
use vstd::prelude::*;

verus! {

/// One binding result, tagged as the parameter it answers was declared.
#[derive(Debug)]
pub enum FunctionArg {
    /// A present value: of a required parameter, or of a defaulted one
    /// (the default itself when the call left it out).
    Normal(Value),
    /// An optional parameter's value, or "no value" when absent.
    Optional(Option<Value>),
    /// The captured positional rest.
    ArgsArray(Vec<Value>),
    /// The captured keyword rest, order preserved.
    KWArgsDict(Dict),
}

/// The mathematical shape of a bound argument.
pub enum ArgView {
    Normal(Value),
    Optional(Option<Value>),
    ArgsArray(Seq<Value>),
    KWArgsDict(Seq<(String, Value)>),
}

impl View for FunctionArg {
    type V = ArgView;

    open spec fn view(&self) -> ArgView {
        match self {
            FunctionArg::Normal(v) => ArgView::Normal(*v),
            FunctionArg::Optional(ov) => ArgView::Optional(*ov),
            FunctionArg::ArgsArray(vs) => ArgView::ArgsArray(vs@),
            FunctionArg::KWArgsDict(d) => ArgView::KWArgsDict(d@),
        }
    }
}

/// A host type a bound value can be extracted into, through a fallible
/// conversion from a dynamic value.
pub trait TryParamConvertFromValue: Sized {
    /// Which dynamic values convert.
    spec fn can_convert(v: Value) -> bool;

    /// What a convertible value converts to.
    spec fn convert_spec(v: Value) -> Self;

    /// The conversion itself.
    fn try_from(v: Value) -> (r: Result<Self, ()>)
        ensures
            r is Ok <==> Self::can_convert(v),
            r is Ok ==> r->Ok_0 == Self::convert_spec(v),
    ;
}

impl TryParamConvertFromValue for i64 {
    open spec fn can_convert(v: Value) -> bool {
        v is Int
    }

    open spec fn convert_spec(v: Value) -> i64 {
        v->Int_0
    }

    fn try_from(v: Value) -> (r: Result<i64, ()>) {
        match v {
            Value::Int(i) => Ok(i),
            _ => Err(()),
        }
    }
}

impl TryParamConvertFromValue for bool {
    open spec fn can_convert(v: Value) -> bool {
        v is Bool
    }

    open spec fn convert_spec(v: Value) -> bool {
        v->Bool_0
    }

    fn try_from(v: Value) -> (r: Result<bool, ()>) {
        match v {
            Value::Bool(b) => Ok(b),
            _ => Err(()),
        }
    }
}

impl TryParamConvertFromValue for String {
    open spec fn can_convert(v: Value) -> bool {
        v is Str
    }

    open spec fn convert_spec(v: Value) -> String {
        v->Str_0
    }

    fn try_from(v: Value) -> (r: Result<String, ()>) {
        match v {
            Value::Str(s) => Ok(s),
            _ => Err(()),
        }
    }
}

impl TryParamConvertFromValue for Value {
    open spec fn can_convert(v: Value) -> bool {
        true
    }

    open spec fn convert_spec(v: Value) -> Value {
        v
    }

    fn try_from(v: Value) -> (r: Result<Value, ()>) {
        Ok(v)
    }
}

impl FunctionArg {
    /// Extracts the value of a required or defaulted parameter.
    pub fn into_normal<T: TryParamConvertFromValue>(self, param_name: &str) -> (r: Result<
        T,
        ValueError,
    >)
        ensures
            match self {
                FunctionArg::Normal(v) => if T::can_convert(v) {
                    r == Ok::<T, ValueError>(T::convert_spec(v))
                } else {
                    r matches Err(ValueError::IncorrectParameterTypeNamed(n)) && n@ == param_name@
                },
                _ => r == Err::<T, ValueError>(ValueError::IncorrectParameterType),
            },
    {
        match self {
            FunctionArg::Normal(v) => match T::try_from(v) {
                Ok(t) => Ok(t),
                Err(_) => Err(ValueError::IncorrectParameterTypeNamed(param_name.to_owned())),
            },
            _ => Err(ValueError::IncorrectParameterType),
        }
    }

    /// Extracts the value of an optional parameter, absence included.
    pub fn into_optional<T: TryParamConvertFromValue>(self, param_name: &str) -> (r: Result<
        Option<T>,
        ValueError,
    >)
        ensures
            match self {
                FunctionArg::Optional(ov) => match ov {
                    Some(v) => if T::can_convert(v) {
                        r == Ok::<Option<T>, ValueError>(Some(T::convert_spec(v)))
                    } else {
                        r matches Err(ValueError::IncorrectParameterTypeNamed(n)) && n@
                            == param_name@
                    },
                    None => r == Ok::<Option<T>, ValueError>(None),
                },
                _ => r == Err::<Option<T>, ValueError>(ValueError::IncorrectParameterType),
            },
    {
        match self {
            FunctionArg::Optional(ov) => match ov {
                Some(v) => match T::try_from(v) {
                    Ok(t) => Ok(Some(t)),
                    Err(_) => Err(ValueError::IncorrectParameterTypeNamed(param_name.to_owned())),
                },
                None => Ok(None),
            },
            _ => Err(ValueError::IncorrectParameterType),
        }
    }

    /// Extracts a captured positional rest, converting every element.
    #[verifier::loop_isolation(false)]
    pub fn into_args_array<T: TryParamConvertFromValue>(self, param_name: &str) -> (r: Result<
        Vec<T>,
        ValueError,
    >)
        ensures
            match self {
                FunctionArg::ArgsArray(vs) => if (forall|i: int|
                    0 <= i < vs@.len() ==> T::can_convert(vs@[i])) {
                    r is Ok && r->Ok_0@ == vs@.map_values(|v: Value| T::convert_spec(v))
                } else {
                    r matches Err(ValueError::IncorrectParameterTypeNamed(n)) && n@ == param_name@
                },
                _ => r == Err::<Vec<T>, ValueError>(ValueError::IncorrectParameterType),
            },
    {
        match self {
            FunctionArg::ArgsArray(vs) => {
                let mut out: Vec<T> = Vec::new();
                let mut i: usize = 0;
                while i < vs.len()
                    invariant
                        i <= vs@.len(),
                        out@.len() == i,
                        forall|j: int| 0 <= j < i ==> T::can_convert(vs@[j]),
                        forall|j: int| 0 <= j < i ==> out@[j] == T::convert_spec(vs@[j]),
                    decreases vs@.len() - i,
                {
                    match T::try_from(vs[i].clone()) {
                        Ok(t) => out.push(t),
                        Err(_) => {
                            proof {
                                assert(!T::can_convert(vs@[i as int]));
                            }
                            return Err(
                                ValueError::IncorrectParameterTypeNamed(param_name.to_owned()),
                            );
                        },
                    }
                    i = i + 1;
                }
                proof {
                    assert(out@ =~= vs@.map_values(|v: Value| T::convert_spec(v)));
                }
                Ok(out)
            },
            _ => Err(ValueError::IncorrectParameterType),
        }
    }

    /// Extracts a captured keyword rest, converting every value and keeping
    /// the key order.
    #[verifier::loop_isolation(false)]
    pub fn into_kw_args_dict<T: TryParamConvertFromValue>(self, param_name: &str) -> (r: Result<
        Vec<(String, T)>,
        ValueError,
    >)
        ensures
            match self {
                FunctionArg::KWArgsDict(d) => if (forall|i: int|
                    0 <= i < d@.len() ==> T::can_convert(d@[i].1)) {
                    r is Ok && r->Ok_0@.len() == d@.len() && (forall|i: int|
                        0 <= i < d@.len() ==> r->Ok_0@[i].0 == d@[i].0 && r->Ok_0@[i].1
                            == T::convert_spec(d@[i].1))
                } else {
                    r matches Err(ValueError::IncorrectParameterTypeNamed(n)) && n@ == param_name@
                },
                _ => r == Err::<Vec<(String, T)>, ValueError>(ValueError::IncorrectParameterType),
            },
    {
        match self {
            FunctionArg::KWArgsDict(d) => {
                let ghost dv = d@;
                let entries = d.into_entries();
                let mut out: Vec<(String, T)> = Vec::new();
                let mut i: usize = 0;
                while i < entries.len()
                    invariant
                        entries@ == dv,
                        i <= dv.len(),
                        out@.len() == i,
                        forall|j: int| 0 <= j < i ==> T::can_convert(dv[j].1),
                        forall|j: int|
                            0 <= j < i ==> out@[j].0 == dv[j].0 && out@[j].1 == T::convert_spec(
                                dv[j].1,
                            ),
                    decreases dv.len() - i,
                {
                    let k = entries[i].0.clone();
                    match T::try_from(entries[i].1.clone()) {
                        Ok(t) => out.push((k, t)),
                        Err(_) => {
                            proof {
                                assert(!T::can_convert(dv[i as int].1));
                            }
                            return Err(
                                ValueError::IncorrectParameterTypeNamed(param_name.to_owned()),
                            );
                        },
                    }
                    i = i + 1;
                }
                Ok(out)
            },
            _ => Err(ValueError::IncorrectParameterType),
        }
    }

    /// The lossless way back into the value model: a required or defaulted
    /// binding gives its value, an absent optional gives the "no value"
    /// sentinel, the captured rests give a sequence and a mapping value.
    /// It cannot fail: captured keys are strings by construction.
    pub fn into_value(self) -> (r: Value)
        ensures
            match self {
                FunctionArg::Normal(v) => r == v,
                FunctionArg::Optional(ov) => match ov {
                    Some(v) => r == v,
                    None => r == Value::NoneValue,
                },
                FunctionArg::ArgsArray(vs) => r matches Value::List(l) && l@ == vs@,
                FunctionArg::KWArgsDict(d) => r matches Value::Dict(d2) && d2@ == d@,
            },
    {
        match self {
            FunctionArg::Normal(v) => v,
            FunctionArg::Optional(ov) => match ov {
                Some(v) => v,
                None => Value::NoneValue,
            },
            FunctionArg::ArgsArray(vs) => Value::List(Rc::new(vs)),
            FunctionArg::KWArgsDict(d) => Value::Dict(Rc::new(d)),
        }
    }
}

} // verus!
