use vstd::prelude::*;
use crate::text::str_eq;
use vstd::string::*;

verus! {

/// Where an error arose: in a native function's own body, or while a
/// script module was loaded and evaluated.
#[derive(Clone, Copy, Debug, PartialEq, Eq)]
pub enum ErrorKind {
    Business,
    ModuleEvaluation,
}

/// An error that crosses the boundary, with the message that script code or
/// the host sees.
#[derive(Debug, PartialEq)]
pub struct Error {
    pub kind: ErrorKind,
    pub message: String,
}

impl Error {
    /// The error that a native function raises to fail a call.
    pub fn custom(message: &str) -> (r: Error)
        ensures
            r.kind == ErrorKind::Business,
            r.message@ == message@,
    {
        Error { kind: ErrorKind::Business, message: String::from_str(message) }
    }

    /// The error that loading or evaluating a script module ended in.
    pub fn module_evaluation(message: String) -> (r: Error)
        ensures
            r.kind == ErrorKind::ModuleEvaluation,
            r.message == message,
    {
        Error { kind: ErrorKind::ModuleEvaluation, message }
    }
}

/// A value that crosses the boundary between native code and script code.
///
/// A number is held as its decimal text, the way the script engine prints
/// it; the bridge carries numbers through and never computes with them.
/// An object keeps its keys in insertion order.
#[derive(Debug, PartialEq)]
pub enum Value {
    Null,
    Bool(bool),
    Number(String),
    String(String),
    Array(Vec<Value>),
    Object(Vec<(String, Value)>),
}

/// The key under which a call payload carries its arguments.
pub open spec fn args_key() -> Seq<char> {
    seq!['a', 'r', 'g', 's']
}

/// The value stored under `key` in an object's entries: the first entry with
/// that key, if any.
pub open spec fn field_of(entries: Seq<(String, Value)>, key: Seq<char>) -> Option<Value>
    decreases entries.len(),
{
    if entries.len() == 0 {
        None
    } else if entries[0].0@ == key {
        Some(entries[0].1)
    } else {
        field_of(entries.drop_first(), key)
    }
}

/// The ordered arguments that a call payload carries: the payload must be an
/// object whose `args` entry is an array.
pub open spec fn args_of(payload: Value) -> Option<Vec<Value>> {
    match payload {
        Value::Object(entries) => match field_of(entries@, args_key()) {
            Some(Value::Array(args)) => Some(args),
            _ => None,
        },
        _ => None,
    }
}

/// Whether `payload` is exactly what a script stub hands to the native-call
/// mechanism for `args`: an object whose one entry is `args`, an array.
pub open spec fn is_payload_for(payload: Value, args: Seq<Value>) -> bool {
    match payload {
        Value::Object(entries) => {
            &&& entries@.len() == 1
            &&& entries@[0].0@ == args_key()
            &&& entries@[0].1 matches Value::Array(a)
            &&& a@ == args
        },
        _ => false,
    }
}

/// Builds the payload of a call with the ordered arguments `args`, as the
/// glue's stubs do: `{ args: [...] }`.
pub fn call_payload(args: Vec<Value>) -> (r: Value)
    ensures
        is_payload_for(r, args@),
        args_of(r) == Some(args),
{
    let mut key = String::new();
    key.append("args");
    proof {
        reveal_strlit("args");
        assert(key@ =~= args_key());
    }
    let mut entries: Vec<(String, Value)> = Vec::new();
    entries.push((key, Value::Array(args)));
    let r = Value::Object(entries);
    proof {
        assert(entries@.drop_first().len() == 0);
    }
    r
}

/// Where the `args` entry of an object stands: the first entry with that key.
fn args_position(entries: &Vec<(String, Value)>) -> (r: Option<usize>)
    ensures
        match r {
            Some(i) => i < entries@.len() && field_of(entries@, args_key()) == Some(entries@[i as int].1),
            None => field_of(entries@, args_key()) is None,
        },
{
    let n = entries.len();
    let mut i: usize = 0;
    proof {
        reveal_strlit("args");
        assert("args"@ =~= args_key());
        assert(entries@.subrange(0, n as int) =~= entries@);
    }
    while i < n
        invariant
            n == entries@.len(),
            i <= n,
            field_of(entries@.subrange(i as int, n as int), args_key()) == field_of(entries@, args_key()),
            "args"@ == args_key(),
        decreases n - i,
    {
        proof {
            assert(entries@.subrange(i as int, n as int).drop_first() =~= entries@.subrange(i + 1, n as int));
            assert(entries@.subrange(i as int, n as int)[0] == entries@[i as int]);
        }
        if str_eq(entries[i].0.as_str(), "args") {
            return Some(i);
        }
        i = i + 1;
    }
    proof {
        assert(entries@.subrange(n as int, n as int).len() == 0);
    }
    None
}

/// Whether `payload` has the shape that the glue's stubs give a call
/// payload, so that its arguments can be taken out.
pub fn has_args(payload: &Value) -> (r: bool)
    ensures
        r == args_of(*payload) is Some,
{
    match payload {
        Value::Object(entries) => match args_position(entries) {
            Some(i) => match &entries[i].1 {
                Value::Array(_) => true,
                _ => false,
            },
            None => false,
        },
        _ => false,
    }
}

/// The elements of an array value, or `None` for a value of another kind.
pub fn into_array(v: Value) -> (r: Option<Vec<Value>>)
    ensures
        match v {
            Value::Array(a) => r == Some(a),
            _ => r is None,
        },
{
    match v {
        Value::Array(a) => Some(a),
        _ => None,
    }
}

/// Takes the ordered arguments out of a call payload, or `None` where the
/// payload does not have the shape that the glue's stubs give it.
pub fn get_args(payload: Value) -> (r: Option<Vec<Value>>)
    ensures
        r == args_of(payload),
{
    match payload {
        Value::Object(entries) => match args_position(&entries) {
            Some(i) => {
                let mut entries = entries;
                let (_, field) = entries.remove(i);
                into_array(field)
            },
            None => None,
        },
        _ => None,
    }
}

} // verus!
