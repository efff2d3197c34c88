use crate::args::{ArgView, FunctionArg};
use crate::binding::{binding_outcome, parse_signature, reports};
use crate::dict::Dict;
use crate::errors::ValueError;
use crate::signature::{FunctionParameter, FunctionType};
use crate::values::Value;
use std::rc::Rc;
use vstd::prelude::*;

verus! {

/// The identity token equality and hashing go by. The host registry gives
/// every native callable a distinct token when it registers it; it stands in
/// for the allocation identity the host value model uses.
#[derive(Debug, Clone, Copy, PartialEq, Eq, Structural)]
pub struct FunctionId(pub u64);

/// A host-implemented callable: a signature, a display identity, an identity
/// token, and the host function that consumes the bound arguments. The host
/// function closes over whatever evaluation context it needs, so the engine
/// hands it the bound arguments alone. It holds no child language-values:
/// its function is not a traversable value.
pub struct NativeFunction<F> where F: Fn(Vec<FunctionArg>) -> Result<Value, ValueError> {
    pub function: F,
    pub signature: Vec<FunctionParameter>,
    pub function_type: FunctionType,
    pub id: FunctionId,
}

/// A method bound to a receiver: the receiver was evaluated once, is stored,
/// and goes in front of the positional arguments of every call.
pub struct WrappedMethod<F> where F: Fn(Vec<FunctionArg>) -> Result<Value, ValueError> {
    pub method: Callable<F>,
    pub self_obj: Value,
}

/// A callable value: the closed set of variants behind the one call
/// capability.
pub enum Callable<F> where F: Fn(Vec<FunctionArg>) -> Result<Value, ValueError> {
    Native(Rc<NativeFunction<F>>),
    Method(Rc<WrappedMethod<F>>),
}

impl<F> NativeFunction<F> where F: Fn(Vec<FunctionArg>) -> Result<Value, ValueError> {
    /// The host function accepts every bound-argument vector.
    pub open spec fn wf(&self) -> bool {
        forall|v: Vec<FunctionArg>| #[trigger] call_requires(self.function, (v,))
    }

    /// Registers a native callable under a display name.
    pub fn new(name: String, function: F, signature: Vec<FunctionParameter>, id: FunctionId) -> (r:
        Callable<F>)
        requires
            forall|v: Vec<FunctionArg>| #[trigger] call_requires(function, (v,)),
        ensures
            r matches Callable::Native(nf) && nf.function == function && nf.signature@
                == signature@ && nf.function_type == FunctionType::Native(name) && nf.id == id
                && r.wf(),
    {
        Callable::Native(
            Rc::new(
                NativeFunction {
                    function,
                    signature,
                    function_type: FunctionType::Native(name),
                    id,
                },
            ),
        )
    }

    /// Binds the call site's arguments against the own signature and
    /// identity, then hands the bound arguments to the host function. A
    /// binding failure aborts the call and propagates unchanged; the host
    /// function's own result or error comes back unmodified.
    pub fn call(&self, positional: Vec<Value>, named: Dict, args: Option<Value>, kwargs: Option<
        Value,
    >) -> (r: Result<Value, ValueError>)
        requires
            self.wf(),
            named.wf(),
        ensures
            match binding_outcome(self.signature@, positional@, named@, args, kwargs) {
                Err(f) => r is Err && reports(r->Err_0, f, self.signature@, self.function_type),
                Ok(out) => exists|v: Vec<FunctionArg>|
                    #[trigger] call_ensures(self.function, (v,), r) && v@.map_values(
                        |a: FunctionArg| a@,
                    ) == out,
            },
    {
        let bound = match parse_signature(
            &self.signature,
            &self.function_type,
            positional,
            named,
            args,
            kwargs,
        ) {
            Ok(v) => v,
            Err(e) => {
                return Err(e);
            },
        };
        let ghost gb = bound;
        let r = (self.function)(bound);
        proof {
            assert(call_ensures(self.function, (gb,), r));
        }
        r
    }

    /// The children the sharing/freeze subsystem must traverse: none.
    pub fn values_for_descendant_check_and_freeze(&self) -> (r: Vec<Value>)
        ensures
            r@ == Seq::<Value>::empty(),
    {
        Vec::new()
    }
}

impl<F> Callable<F> where F: Fn(Vec<FunctionArg>) -> Result<Value, ValueError> {
    /// Every host function reachable through the callable accepts every
    /// bound-argument vector.
    pub open spec fn wf(&self) -> bool
        decreases self,
    {
        match self {
            Callable::Native(nf) => nf.wf(),
            Callable::Method(m) => m.method.wf(),
        }
    }

    /// The identity token: a native's own, a bound method's underlying
    /// callable's — never the receiver's.
    pub open spec fn id_spec(&self) -> FunctionId
        decreases self,
    {
        match self {
            Callable::Native(nf) => nf.id,
            Callable::Method(m) => m.method.id_spec(),
        }
    }

    /// The identity token, as equality and hashing consume it.
    pub fn function_id(&self) -> (r: FunctionId)
        ensures
            r == self.id_spec(),
        decreases self,
    {
        match self {
            Callable::Native(nf) => nf.id,
            Callable::Method(m) => m.method.function_id(),
        }
    }

    /// The uniform call capability over the closed set of callable kinds.
    pub fn call(&self, positional: Vec<Value>, named: Dict, args: Option<Value>, kwargs: Option<
        Value,
    >) -> (r: Result<Value, ValueError>)
        requires
            self.wf(),
            named.wf(),
        ensures
            call_behavior(*self, positional@, named@, args, kwargs, r),
        decreases self,
    {
        match self {
            Callable::Native(nf) => nf.call(positional, named, args, kwargs),
            Callable::Method(m) => m.call(positional, named, args, kwargs),
        }
    }
}

impl<F> Clone for Callable<F> where F: Fn(Vec<FunctionArg>) -> Result<Value, ValueError> {
    /// A callable value is shared, not copied: the clone is the same value.
    fn clone(&self) -> (res: Self)
        ensures
            res == *self,
    {
        match self {
            Callable::Native(nf) => Callable::Native(crate::values::rc_clone(nf)),
            Callable::Method(m) => Callable::Method(crate::values::rc_clone(m)),
        }
    }
}

/// What a call promises, by callable kind: a native binds against its own
/// signature — a failure is reported exactly, a success hands the bound
/// arguments to the host function and returns its result unmodified — and a
/// bound method prepends its stored receiver to the positional arguments and
/// delegates, intercepting nothing.
pub open spec fn call_behavior<F: Fn(Vec<FunctionArg>) -> Result<Value, ValueError>>(
    c: Callable<F>,
    pos: Seq<Value>,
    named: Seq<(String, Value)>,
    args: Option<Value>,
    kwargs: Option<Value>,
    r: Result<Value, ValueError>,
) -> bool
    decreases c,
{
    match c {
        Callable::Native(nf) => match binding_outcome(nf.signature@, pos, named, args, kwargs) {
            Err(f) => r is Err && reports(r->Err_0, f, nf.signature@, nf.function_type),
            Ok(out) => exists|v: Vec<FunctionArg>|
                #[trigger] call_ensures(nf.function, (v,), r) && v@.map_values(|a: FunctionArg| a@)
                    == out,
        },
        Callable::Method(m) => call_behavior(m.method, seq![m.self_obj].add(pos), named, args, kwargs, r),
    }
}

impl<F> WrappedMethod<F> where F: Fn(Vec<FunctionArg>) -> Result<Value, ValueError> {
    /// Pairs a receiver with an underlying callable.
    pub fn new(self_obj: Value, method: Callable<F>) -> (r: Callable<F>)
        ensures
            r matches Callable::Method(m) && m.self_obj == self_obj && m.method == method,
    {
        Callable::Method(Rc::new(WrappedMethod { method, self_obj }))
    }

    /// The identity token: the underlying callable's, whatever the receiver.
    pub fn function_id(&self) -> (r: FunctionId)
        ensures
            r == self.method.id_spec(),
    {
        self.method.function_id()
    }

    /// Inserts the stored receiver at the front of the positional arguments
    /// and delegates the call to the underlying callable, inspecting no
    /// signature itself and rewriting no error.
    pub fn call(&self, positional: Vec<Value>, named: Dict, args: Option<Value>, kwargs: Option<
        Value,
    >) -> (r: Result<Value, ValueError>)
        requires
            self.method.wf(),
            named.wf(),
        ensures
            call_behavior(self.method, seq![self.self_obj].add(positional@), named@, args, kwargs, r),
        decreases self,
    {
        let mut prefixed: Vec<Value> = Vec::new();
        prefixed.push(self.self_obj.clone());
        let mut rest = positional;
        prefixed.append(&mut rest);
        proof {
            assert(prefixed@ =~= seq![self.self_obj].add(positional@));
        }
        self.method.call(prefixed, named, args, kwargs)
    }

    /// The children the sharing/freeze subsystem must traverse: exactly the
    /// receiver and the underlying callable.
    pub fn values_for_descendant_check_and_freeze(&self) -> (r: (&Value, &Callable<F>))
        ensures
            r.0 == &self.self_obj,
            r.1 == &self.method,
    {
        (&self.self_obj, &self.method)
    }
}

} // verus!
