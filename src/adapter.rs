use vstd::prelude::*;
use vstd::string::StringExecFns;
use crate::transform::{opt_view, valid_literal, validate_literal};
use crate::value::{args_of, get_args, Error, Value};

verus! {

/// What an adapter answers for a unit-returning body that ended in `b`.
pub open spec fn unit_result(b: Result<(), Error>) -> Result<Value, Error> {
    match b {
        Ok(_) => Ok(Value::Null),
        Err(e) => Err(e),
    }
}

/// The adapter of a value-returning body that takes the arguments: the
/// body's result, success or failure, is the call's result.
pub fn adapt_value_fn<B: Fn(Vec<Value>) -> Result<Value, Error>>(body: &B, args: Vec<Value>) -> (r: Result<Value, Error>)
    requires
        body.requires((args,)),
    ensures
        body.ensures((args,), r),
{
    body(args)
}

/// The adapter of a value-returning body without parameters: the arguments
/// are dropped and the body's result is the call's result.
pub fn adapt_value_fn0<B: Fn() -> Result<Value, Error>>(body: &B, args: Vec<Value>) -> (r: Result<Value, Error>)
    requires
        body.requires(()),
    ensures
        body.ensures((), r),
{
    body()
}

/// The adapter of a unit-returning body that takes the arguments: null when
/// the body succeeds, the body's own error unchanged when it fails.
pub fn adapt_unit_fn<B: Fn(Vec<Value>) -> Result<(), Error>>(body: &B, args: Vec<Value>) -> (r: Result<Value, Error>)
    requires
        body.requires((args,)),
    ensures
        exists|b: Result<(), Error>| body.ensures((args,), b) && r == unit_result(b),
        r is Ok ==> r == Ok::<Value, Error>(Value::Null),
{
    let ghost a = args;
    let b = body(args);
    let ghost gb = b;
    let r = match b {
        Ok(()) => Ok(Value::Null),
        Err(e) => Err(e),
    };
    assert(body.ensures((a,), gb) && r == unit_result(gb));
    r
}

/// The adapter of a unit-returning body without parameters: null when the
/// body succeeds, the body's own error unchanged when it fails.
pub fn adapt_unit_fn0<B: Fn() -> Result<(), Error>>(body: &B, args: Vec<Value>) -> (r: Result<Value, Error>)
    requires
        body.requires(()),
    ensures
        exists|b: Result<(), Error>| body.ensures((), b) && r == unit_result(b),
        r is Ok ==> r == Ok::<Value, Error>(Value::Null),
{
    let b = body();
    let ghost gb = b;
    let r = match b {
        Ok(()) => Ok(Value::Null),
        Err(e) => Err(e),
    };
    assert(body.ensures((), gb) && r == unit_result(gb));
    r
}

/// A native function ready to be imported: its adapter, and the name and
/// optional scope under which scripts see it.
pub struct ImportedFn<F: Fn(Vec<Value>) -> Result<Value, Error>> {
    op_fn: F,
    name: String,
    scope: Option<String>,
}

impl<F: Fn(Vec<Value>) -> Result<Value, Error>> ImportedFn<F> {
    #[verifier::type_invariant]
    spec fn well_formed(&self) -> bool {
        &&& valid_literal(self.name@)
        &&& self.scope matches Some(s) ==> valid_literal(s@)
    }

    /// The name under which the function is registered and exposed.
    pub closed spec fn spec_name(&self) -> Seq<char> {
        self.name@
    }

    /// The scope under which the function is exposed, if any.
    pub closed spec fn spec_scope(&self) -> Option<Seq<char>> {
        opt_view(self.scope)
    }

    /// The adapter that answers the function's calls.
    pub closed spec fn spec_op(&self) -> F {
        self.op_fn
    }

    pub fn name(&self) -> (r: &str)
        ensures
            r@ == self.spec_name(),
            valid_literal(r@),
    {
        proof {
            use_type_invariant(self);
        }
        self.name.as_str()
    }

    pub fn scope(&self) -> (r: Option<&str>)
        ensures
            match r {
                Some(s) => self.spec_scope() == Some(s@),
                None => self.spec_scope() is None,
            },
            r matches Some(s) ==> valid_literal(s@),
    {
        proof {
            use_type_invariant(self);
        }
        match &self.scope {
            Some(s) => Some(s.as_str()),
            None => None,
        }
    }

    /// Answers one call from script code: takes the arguments out of the
    /// payload that the glue's stub built and hands them to the adapter.
    pub fn call(&self, payload: Value) -> (r: Result<Value, Error>)
        requires
            args_of(payload) is Some,
            self.spec_op().requires((args_of(payload)->0,)),
        ensures
            self.spec_op().ensures((args_of(payload)->0,), r),
    {
        match get_args(payload) {
            Some(args) => (self.op_fn)(args),
            None => {
                proof {
                    assert(false);
                }
                Err(Error::custom("malformed call payload"))
            },
        }
    }
}

/// Makes a native function importable under `name` and, if given, `scope`.
/// Both must be valid names; otherwise nothing is made.
pub fn create_sync_fn<F: Fn(Vec<Value>) -> Result<Value, Error>>(imported_fn: F, name: &str, scope: Option<String>) -> (r: Option<ImportedFn<F>>)
    ensures
        r is Some <==> valid_literal(name@) && (scope matches Some(s) ==> valid_literal(s@)),
        r matches Some(f) ==> f.spec_name() == name@ && f.spec_scope() == opt_view(scope) && f.spec_op() == imported_fn,
{
    if !validate_literal(name) {
        return None;
    }
    if let Some(s) = &scope {
        if !validate_literal(s.as_str()) {
            return None;
        }
    }
    Some(ImportedFn { op_fn: imported_fn, name: String::from_str(name), scope })
}

} // verus!
