use crate::dict::{lemma_dict_view_decreases, Dict};
use crate::errors::{FunctionError, RuntimeError};
use crate::signature::{FunctionParameter, FunctionType};
use crate::values::Value;
use vstd::prelude::*;
use vstd::string::StrSliceExecFns;
use vstd::string::StringExecFns;

verus! {

broadcast use vstd::std_specs::vec::group_vec_axioms, vstd::seq::group_seq_axioms;

/// The decimal digit character.
pub open spec fn digit_char(d: int) -> char {
    if d == 0 {
        '0'
    } else if d == 1 {
        '1'
    } else if d == 2 {
        '2'
    } else if d == 3 {
        '3'
    } else if d == 4 {
        '4'
    } else if d == 5 {
        '5'
    } else if d == 6 {
        '6'
    } else if d == 7 {
        '7'
    } else if d == 8 {
        '8'
    } else {
        '9'
    }
}

/// The decimal rendering of a natural number, no leading zeroes.
pub open spec fn dec_digits(n: nat) -> Seq<char>
    decreases n,
{
    if n < 10 {
        seq![digit_char(n as int)]
    } else {
        dec_digits(n / 10).push(digit_char((n % 10) as int))
    }
}

/// The decimal rendering of an integer, a leading minus when negative.
pub open spec fn int_digits(i: int) -> Seq<char> {
    if i < 0 {
        seq!['-'].add(dec_digits((-i) as nat))
    } else {
        dec_digits(i as nat)
    }
}

/// How a value renders: the scalars by their literals, a string quoted, the
/// aggregates bracketed with comma-separated elements.
pub open spec fn value_repr(v: Value) -> Seq<char>
    decreases v,
    via value_repr_dec
{
    match v {
        Value::NoneValue => "None"@,
        Value::Bool(b) => if b {
            "True"@
        } else {
            "False"@
        },
        Value::Int(i) => int_digits(i as int),
        Value::Str(s) => "\""@ + s@ + "\""@,
        Value::List(l) => "["@ + items_repr(l@) + "]"@,
        Value::Dict(d) => "{"@ + entries_repr(d@) + "}"@,
    }
}

#[via_fn]
proof fn value_repr_dec(v: Value) {
    match v {
        Value::Dict(d) => {
            lemma_dict_view_decreases(&*d);
        },
        _ => {},
    }
}

/// Comma-separated renderings of a value sequence.
pub open spec fn items_repr(s: Seq<Value>) -> Seq<char>
    decreases s,
{
    if s.len() == 0 {
        Seq::empty()
    } else if s.len() == 1 {
        value_repr(s[0])
    } else {
        value_repr(s[0]) + ", "@ + items_repr(s.drop_first())
    }
}

/// Comma-separated `"key": value` renderings of mapping entries.
pub open spec fn entries_repr(s: Seq<(String, Value)>) -> Seq<char>
    decreases s,
{
    if s.len() == 0 {
        Seq::empty()
    } else {
        let e = "\""@ + s[0].0@ + "\": "@ + value_repr(s[0].1);
        if s.len() == 1 {
            e
        } else {
            e + ", "@ + entries_repr(s.drop_first())
        }
    }
}

/// The one-character string of a decimal digit.
fn digit_str(d: u64) -> (r: &'static str)
    requires
        d < 10,
    ensures
        r@ == seq![digit_char(d as int)],
{
    proof {
        reveal_strlit("0");
        reveal_strlit("1");
        reveal_strlit("2");
        reveal_strlit("3");
        reveal_strlit("4");
        reveal_strlit("5");
        reveal_strlit("6");
        reveal_strlit("7");
        reveal_strlit("8");
        reveal_strlit("9");
        assert(("0")@ =~= seq!['0']);
        assert(("1")@ =~= seq!['1']);
        assert(("2")@ =~= seq!['2']);
        assert(("3")@ =~= seq!['3']);
        assert(("4")@ =~= seq!['4']);
        assert(("5")@ =~= seq!['5']);
        assert(("6")@ =~= seq!['6']);
        assert(("7")@ =~= seq!['7']);
        assert(("8")@ =~= seq!['8']);
        assert(("9")@ =~= seq!['9']);
    }
    if d == 0 {
        "0"
    } else if d == 1 {
        "1"
    } else if d == 2 {
        "2"
    } else if d == 3 {
        "3"
    } else if d == 4 {
        "4"
    } else if d == 5 {
        "5"
    } else if d == 6 {
        "6"
    } else if d == 7 {
        "7"
    } else if d == 8 {
        "8"
    } else {
        "9"
    }
}

/// Appends the decimal rendering of a natural number.
fn push_dec(n: u64, out: &mut String)
    ensures
        final(out)@ == old(out)@ + dec_digits(n as nat),
    decreases n,
{
    if n < 10 {
        out.append(digit_str(n));
    } else {
        push_dec(n / 10, out);
        out.append(digit_str(n % 10));
        proof {
            assert(out@ =~= old(out)@ + dec_digits(n as nat));
        }
    }
}

/// Appends the decimal rendering of an integer.
fn push_int(i: i64, out: &mut String)
    ensures
        final(out)@ == old(out)@ + int_digits(i as int),
{
    if i < 0 {
        proof {
            reveal_strlit("-");
            assert(("-")@ =~= seq!['-']);
        }
        out.append("-");
        let m: u64 = ((-(i + 1)) as u64) + 1;
        proof {
            assert(m == (-(i as int)) as nat);
        }
        push_dec(m, out);
        proof {
            assert(out@ =~= old(out)@ + int_digits(i as int));
        }
    } else {
        push_dec(i as u64, out);
    }
}

/// Appends the rendering of one value.
fn push_value(v: &Value, out: &mut String)
    ensures
        final(out)@ == old(out)@ + value_repr(*v),
    decreases *v,
{
    match v {
        Value::NoneValue => {
            out.append("None");
        },
        Value::Bool(b) => {
            if *b {
                out.append("True");
            } else {
                out.append("False");
            }
        },
        Value::Int(i) => {
            push_int(*i, out);
        },
        Value::Str(s) => {
            out.append("\"");
            out.append(s.as_str());
            out.append("\"");
            proof {
                assert(out@ =~= old(out)@ + value_repr(*v));
            }
        },
        Value::List(l) => {
            proof {
                assert(decreases_to!(*v => *l));
                assert(l@.skip(0) =~= l@);
            }
            out.append("[");
            push_items(l, 0, out);
            out.append("]");
            proof {
                assert(out@ =~= old(out)@ + value_repr(*v));
            }
        },
        Value::Dict(d) => {
            proof {
                assert(decreases_to!(*v => **d));
                lemma_dict_view_decreases(&**d);
                assert(d@.skip(0) =~= d@);
            }
            out.append("{");
            push_entries(d, 0, out);
            out.append("}");
            proof {
                assert(out@ =~= old(out)@ + value_repr(*v));
            }
        },
    }
}

/// Appends the renderings of the values from a position on, comma-separated.
fn push_items(l: &Vec<Value>, i: usize, out: &mut String)
    requires
        i <= l@.len(),
    ensures
        final(out)@ == old(out)@ + items_repr(l@.skip(i as int)),
    decreases l@.skip(i as int),
{
    if i == l.len() {
        proof {
            assert(l@.skip(i as int) =~= Seq::<Value>::empty());
            assert(out@ =~= old(out)@ + items_repr(l@.skip(i as int)));
        }
        return ;
    }
    proof {
        assert(l@.skip(i as int)[0] == l@[i as int]);
        assert(l@.skip(i as int).drop_first() =~= l@.skip(i as int + 1));
        assert(l@.skip(i as int + 1) =~= l@.skip(i as int).subrange(
            1,
            l@.skip(i as int).len() as int,
        ));
    }
    push_value(&l[i], out);
    if i + 1 < l.len() {
        out.append(", ");
    }
    push_items(l, i + 1, out);
    proof {
        assert(out@ =~= old(out)@ + items_repr(l@.skip(i as int)));
    }
}

/// Appends the renderings of the entries from a position on, comma-separated.
fn push_entries(d: &Dict, i: usize, out: &mut String)
    requires
        i <= d@.len(),
    ensures
        final(out)@ == old(out)@ + entries_repr(d@.skip(i as int)),
    decreases d@.skip(i as int),
{
    if i == d.len() {
        proof {
            assert(d@.skip(i as int) =~= Seq::<(String, Value)>::empty());
            assert(out@ =~= old(out)@ + entries_repr(d@.skip(i as int)));
        }
        return ;
    }
    proof {
        assert(d@.skip(i as int)[0] == d@[i as int]);
        assert(d@.skip(i as int).drop_first() =~= d@.skip(i as int + 1));
        assert(d@.skip(i as int + 1) =~= d@.skip(i as int).subrange(
            1,
            d@.skip(i as int).len() as int,
        ));
    }
    let e = d.entry_at(i);
    out.append("\"");
    out.append(e.0.as_str());
    out.append("\": ");
    push_value(&e.1, out);
    if i + 1 < d.len() {
        out.append(", ");
    }
    push_entries(d, i + 1, out);
    proof {
        assert(out@ =~= old(out)@ + entries_repr(d@.skip(i as int)));
    }
}

impl Value {
    /// The value's rendering.
    pub fn to_repr(&self) -> (r: String)
        ensures
            r@ == value_repr(*self),
    {
        let mut out = String::new();
        push_value(self, &mut out);
        out
    }
}

/// How one parameter renders in a declaration: the full form marks an
/// optional parameter with a leading question mark, the plain form does not;
/// both show the spread markers and a default value.
pub open spec fn param_repr(p: FunctionParameter, full: bool) -> Seq<char> {
    match p {
        FunctionParameter::Normal(n) => n@,
        FunctionParameter::Optional(n) => if full {
            "?"@ + n@
        } else {
            n@
        },
        FunctionParameter::WithDefaultValue(n, v) => n@ + " = "@ + value_repr(v),
        FunctionParameter::ArgsArray(n) => "*"@ + n@,
        FunctionParameter::KWArgsDict(n) => "**"@ + n@,
    }
}

/// Comma-separated parameter renderings.
pub open spec fn params_repr(s: Seq<FunctionParameter>, full: bool) -> Seq<char>
    decreases s,
{
    if s.len() == 0 {
        Seq::empty()
    } else if s.len() == 1 {
        param_repr(s[0], full)
    } else {
        param_repr(s[0], full) + ", "@ + params_repr(s.drop_first(), full)
    }
}

/// The opening of an identity's diagnostic form: everything before the
/// parameter list and the closing bracket.
pub open spec fn ft_repr_head(ft: FunctionType) -> Seq<char> {
    match ft {
        FunctionType::Native(n) => "<native function "@ + n@,
        FunctionType::Def(n, m) => "<function "@ + n@ + " from "@ + m@,
    }
}

/// How a callable identity renders in diagnostics, on its own.
pub open spec fn ft_repr(ft: FunctionType) -> Seq<char> {
    ft_repr_head(ft) + ">"@
}

/// The plain display name of a callable identity.
pub open spec fn ft_str(ft: FunctionType) -> Seq<char> {
    match ft {
        FunctionType::Native(n) => n@,
        FunctionType::Def(n, _) => n@,
    }
}

/// The full declaration rendering: the parameter list, optional parameters
/// marked, stands inside the identity's closing bracket.
pub open spec fn sig_repr(ft: FunctionType, s: Seq<FunctionParameter>) -> Seq<char> {
    ft_repr_head(ft) + "("@ + params_repr(s, true) + ")>"@
}

/// The plain declaration rendering: name and parameter list.
pub open spec fn sig_str(ft: FunctionType, s: Seq<FunctionParameter>) -> Seq<char> {
    ft_str(ft) + "("@ + params_repr(s, false) + ")"@
}

/// Appends one parameter's rendering.
fn push_param(p: &FunctionParameter, full: bool, out: &mut String)
    ensures
        final(out)@ == old(out)@ + param_repr(*p, full),
{
    match p {
        FunctionParameter::Normal(n) => {
            out.append(n.as_str());
        },
        FunctionParameter::Optional(n) => {
            if full {
                out.append("?");
            }
            out.append(n.as_str());
            proof {
                assert(out@ =~= old(out)@ + param_repr(*p, full));
            }
        },
        FunctionParameter::WithDefaultValue(n, v) => {
            out.append(n.as_str());
            out.append(" = ");
            push_value(v, out);
            proof {
                assert(out@ =~= old(out)@ + param_repr(*p, full));
            }
        },
        FunctionParameter::ArgsArray(n) => {
            out.append("*");
            out.append(n.as_str());
            proof {
                assert(out@ =~= old(out)@ + param_repr(*p, full));
            }
        },
        FunctionParameter::KWArgsDict(n) => {
            out.append("**");
            out.append(n.as_str());
            proof {
                assert(out@ =~= old(out)@ + param_repr(*p, full));
            }
        },
    }
}

/// Appends the parameter renderings from a position on, comma-separated.
fn push_params(sig: &Vec<FunctionParameter>, full: bool, i: usize, out: &mut String)
    requires
        i <= sig@.len(),
    ensures
        final(out)@ == old(out)@ + params_repr(sig@.skip(i as int), full),
    decreases sig@.len() - i,
{
    if i == sig.len() {
        proof {
            assert(sig@.skip(i as int) =~= Seq::<FunctionParameter>::empty());
            assert(out@ =~= old(out)@ + params_repr(sig@.skip(i as int), full));
        }
        return ;
    }
    proof {
        assert(sig@.skip(i as int)[0] == sig@[i as int]);
        assert(sig@.skip(i as int).drop_first() =~= sig@.skip(i as int + 1));
    }
    push_param(&sig[i], full, out);
    if i + 1 < sig.len() {
        out.append(", ");
    }
    push_params(sig, full, i + 1, out);
    proof {
        assert(out@ =~= old(out)@ + params_repr(sig@.skip(i as int), full));
    }
}

impl FunctionType {
    /// The diagnostic rendering of the identity alone.
    pub fn to_repr(&self) -> (r: String)
        ensures
            r@ == ft_repr(*self),
    {
        let mut out = String::new();
        match self {
            FunctionType::Native(n) => {
                out.append("<native function ");
                out.append(n.as_str());
                out.append(">");
            },
            FunctionType::Def(n, m) => {
                out.append("<function ");
                out.append(n.as_str());
                out.append(" from ");
                out.append(m.as_str());
                out.append(">");
            },
        }
        proof {
            assert(out@ =~= ft_repr(*self));
        }
        out
    }
}

/// The full declaration rendering of a callable: its identity and its
/// parameter list, optional parameters marked and defaults shown.
pub fn repr(function_type: &FunctionType, signature: &Vec<FunctionParameter>) -> (r: String)
    ensures
        r@ == sig_repr(*function_type, signature@),
{
    let mut out = String::new();
    match function_type {
        FunctionType::Native(n) => {
            out.append("<native function ");
            out.append(n.as_str());
        },
        FunctionType::Def(n, m) => {
            out.append("<function ");
            out.append(n.as_str());
            out.append(" from ");
            out.append(m.as_str());
        },
    }
    out.append("(");
    proof {
        assert(out@ =~= ft_repr_head(*function_type) + ("(")@);
        assert(signature@.skip(0) =~= signature@);
    }
    push_params(signature, true, 0, &mut out);
    out.append(")>");
    proof {
        assert(out@ =~= sig_repr(*function_type, signature@));
    }
    out
}

/// The plain declaration rendering of a callable: its name and its parameter
/// list, without the optional marker.
pub fn to_str(function_type: &FunctionType, signature: &Vec<FunctionParameter>) -> (r: String)
    ensures
        r@ == sig_str(*function_type, signature@),
{
    let mut out = function_type.to_str();
    out.append("(");
    proof {
        assert(signature@.skip(0) =~= signature@);
    }
    push_params(signature, false, 0, &mut out);
    out.append(")");
    proof {
        assert(out@ =~= sig_str(*function_type, signature@));
    }
    out
}

impl<F> crate::callable::NativeFunction<F> where F: Fn(
    Vec<crate::args::FunctionArg>,
) -> Result<Value, crate::errors::ValueError> {
    /// The plain display form: name and parameter list.
    pub fn to_str(&self) -> (r: String)
        ensures
            r@ == sig_str(self.function_type, self.signature@),
    {
        to_str(&self.function_type, &self.signature)
    }

    /// The diagnostic display form: full identity and parameter list.
    pub fn to_repr(&self) -> (r: String)
        ensures
            r@ == sig_repr(self.function_type, self.signature@),
    {
        repr(&self.function_type, &self.signature)
    }
}

impl<F> crate::callable::Callable<F> where F: Fn(
    Vec<crate::args::FunctionArg>,
) -> Result<Value, crate::errors::ValueError> {
    /// What the callable displays as: a bound method displays as its
    /// underlying callable.
    pub open spec fn str_spec(&self) -> Seq<char>
        decreases self,
    {
        match self {
            crate::callable::Callable::Native(nf) => sig_str(nf.function_type, nf.signature@),
            crate::callable::Callable::Method(m) => m.method.str_spec(),
        }
    }

    /// What the callable renders as in diagnostics; a bound method delegates
    /// to its underlying callable.
    pub open spec fn repr_spec(&self) -> Seq<char>
        decreases self,
    {
        match self {
            crate::callable::Callable::Native(nf) => sig_repr(nf.function_type, nf.signature@),
            crate::callable::Callable::Method(m) => m.method.repr_spec(),
        }
    }

    /// The plain display form.
    pub fn to_str(&self) -> (r: String)
        ensures
            r@ == self.str_spec(),
        decreases self,
    {
        match self {
            crate::callable::Callable::Native(nf) => nf.to_str(),
            crate::callable::Callable::Method(m) => m.method.to_str(),
        }
    }

    /// The diagnostic display form.
    pub fn to_repr(&self) -> (r: String)
        ensures
            r@ == self.repr_spec(),
        decreases self,
    {
        match self {
            crate::callable::Callable::Native(nf) => nf.to_repr(),
            crate::callable::Callable::Method(m) => m.method.to_repr(),
        }
    }
}

impl<F> crate::callable::WrappedMethod<F> where F: Fn(
    Vec<crate::args::FunctionArg>,
) -> Result<Value, crate::errors::ValueError> {
    /// The plain display form: the underlying callable's.
    pub fn to_str(&self) -> (r: String)
        ensures
            r@ == self.method.str_spec(),
    {
        self.method.to_str()
    }

    /// The diagnostic display form: the underlying callable's.
    pub fn to_repr(&self) -> (r: String)
        ensures
            r@ == self.method.repr_spec(),
    {
        self.method.to_repr()
    }
}

/// A declared name with its leading marker characters dropped: parameters
/// whose name begins with the reserved marker are compiler-synthesized, and
/// diagnostics must not show the marker.
pub open spec fn strip_markers(s: Seq<char>) -> Seq<char>
    decreases s,
{
    if s.len() > 0 && s[0] == '$' {
        strip_markers(s.drop_first())
    } else {
        s
    }
}

proof fn lemma_strip_at(s: Seq<char>, i: int)
    requires
        0 <= i <= s.len(),
        forall|j: int| 0 <= j < i ==> s[j] == '$',
        i < s.len() ==> s[i] != '$',
    ensures
        strip_markers(s) == s.skip(i),
    decreases i,
{
    if i == 0 {
        assert(strip_markers(s) =~= s.skip(0));
    } else {
        lemma_strip_at(s.drop_first(), i - 1);
        assert(s.drop_first().skip(i - 1) =~= s.skip(i));
    }
}

/// Drops the leading marker characters of a declared name.
fn strip_marker_prefix(s: &str) -> (r: &str)
    ensures
        r@ == strip_markers(s@),
{
    let n = s.unicode_len();
    let mut i: usize = 0;
    while i < n && s.get_char(i) == '$'
        invariant
            i <= n,
            n == s@.len(),
            forall|j: int| 0 <= j < i ==> s@[j] == '$',
        decreases n - i,
    {
        i = i + 1;
    }
    proof {
        lemma_strip_at(s@, i as int);
    }
    s.substring_char(i, n)
}

/// The short machine code of a binding failure.
pub open spec fn error_code(e: FunctionError) -> Seq<char> {
    match e {
        FunctionError::NotEnoughParameter { .. } => "CF00"@,
        FunctionError::ArgsValueIsNotString => "CF01"@,
        FunctionError::ArgsArrayIsNotIterable => "CF02"@,
        FunctionError::KWArgsDictIsNotMappable => "CF03"@,
        FunctionError::ExtraParameter => "CF05"@,
    }
}

/// The short label of a binding failure.
pub open spec fn error_label(e: FunctionError) -> Seq<char> {
    match e {
        FunctionError::NotEnoughParameter { .. } => "Not enough parameters in function call"@,
        FunctionError::ArgsValueIsNotString => "not an identifier for *args"@,
        FunctionError::ArgsArrayIsNotIterable => "*args is not iterable"@,
        FunctionError::KWArgsDictIsNotMappable => "**kwargs is not mappable"@,
        FunctionError::ExtraParameter => "Extraneous parameter in function call"@,
    }
}

/// The full message of a binding failure: for a missing parameter it names
/// the parameter, markers stripped, and shows the expected call shape.
pub open spec fn error_message(e: FunctionError) -> Seq<char> {
    match e {
        FunctionError::NotEnoughParameter { missing, function_type, signature } => "Missing parameter "@
            + strip_markers(missing@) + " for call to "@ + sig_repr(function_type, signature@),
        FunctionError::ArgsValueIsNotString => "The argument provided for *args is not an identifier"@,
        FunctionError::ArgsArrayIsNotIterable => "The argument provided for *args is not iterable"@,
        FunctionError::KWArgsDictIsNotMappable => "The argument provided for **kwargs is not mappable"@,
        FunctionError::ExtraParameter => "Extraneous parameter passed to function call"@,
    }
}

impl FunctionError {
    /// The structured diagnostic the error-reporting collaborator consumes:
    /// code, label and full message.
    pub fn into_runtime_error(&self) -> (r: RuntimeError)
        ensures
            r.code@ == error_code(*self),
            r.label@ == error_label(*self),
            r.message@ == error_message(*self),
    {
        match self {
            FunctionError::NotEnoughParameter { missing, function_type, signature } => {
                let mut message = String::new();
                message.append("Missing parameter ");
                message.append(strip_marker_prefix(missing.as_str()));
                message.append(" for call to ");
                let shape = repr(function_type, signature);
                message.append(shape.as_str());
                proof {
                    assert(message@ =~= error_message(*self));
                }
                RuntimeError {
                    code: String::from_str("CF00"),
                    label: String::from_str("Not enough parameters in function call"),
                    message,
                }
            },
            FunctionError::ArgsValueIsNotString => RuntimeError {
                code: String::from_str("CF01"),
                label: String::from_str("not an identifier for *args"),
                message: String::from_str("The argument provided for *args is not an identifier"),
            },
            FunctionError::ArgsArrayIsNotIterable => RuntimeError {
                code: String::from_str("CF02"),
                label: String::from_str("*args is not iterable"),
                message: String::from_str("The argument provided for *args is not iterable"),
            },
            FunctionError::KWArgsDictIsNotMappable => RuntimeError {
                code: String::from_str("CF03"),
                label: String::from_str("**kwargs is not mappable"),
                message: String::from_str("The argument provided for **kwargs is not mappable"),
            },
            FunctionError::ExtraParameter => RuntimeError {
                code: String::from_str("CF05"),
                label: String::from_str("Extraneous parameter in function call"),
                message: String::from_str("Extraneous parameter passed to function call"),
            },
        }
    }
}

} // verus!
