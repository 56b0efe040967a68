use vstd::prelude::*;
use crate::text::{copy_str, str_eq};

verus! {

/// Whether `c` is one of the ASCII characters that have the Unicode
/// White_Space property: tab, line feed, vertical tab, form feed, carriage
/// return and space.
pub open spec fn is_ascii_space(c: char) -> bool {
    c == '\t' || c == '\n' || c == '\x0B' || c == '\x0C' || c == '\r' || c == ' '
}

/// A valid name or scope: non-empty, ASCII only, and free of whitespace.
pub open spec fn valid_literal(s: Seq<char>) -> bool {
    &&& s.len() > 0
    &&& forall|i: int| 0 <= i < s.len() ==> (s[i] as u32) < 128 && !is_ascii_space(#[trigger] s[i])
}

/// Whether `name` may serve as a function name or a scope name.
pub fn validate_literal(name: &str) -> (r: bool)
    ensures
        r == valid_literal(name@),
{
    let n = name.unicode_len();
    if n == 0 {
        return false;
    }
    let mut i: usize = 0;
    while i < n
        invariant
            n == name@.len(),
            i <= n,
            forall|j: int| 0 <= j < i ==> (name@[j] as u32) < 128 && !is_ascii_space(#[trigger] name@[j]),
        decreases n - i,
    {
        let c = name.get_char(i);
        if (c as u32) >= 128 {
            return false;
        }
        if c == '\t' || c == '\n' || c == '\x0B' || c == '\x0C' || c == '\r' || c == ' ' {
            return false;
        }
        i = i + 1;
    }
    true
}

/// The value given to an option of an import declaration.
pub enum Literal {
    /// A string literal, with its escapes already resolved.
    Str(String),
    /// Any other literal (a number, a boolean, a byte string).
    Other,
}

/// One item of an import declaration's option list.
pub enum MetaItem {
    /// `key = value`, with the key's path written as text.
    NameValue(String, Literal),
    /// A bare path or a parenthesised list, neither of which is an option.
    Other,
}

/// The options of an import declaration: where the function is exposed.
pub struct ImportOptions {
    pub scope: Option<String>,
    pub name: Option<String>,
}

/// Why an import declaration is rejected. Errors in the option list carry
/// the position of the offending item.
#[derive(Clone, Copy, Debug, PartialEq, Eq)]
pub enum TransformError {
    InvalidScope(usize),
    InvalidName(usize),
    UnsupportedValue(usize),
    UnsupportedMeta(usize),
    IllegalArguments,
    IllegalReturnType,
    AsyncUnsupported,
}

impl TransformError {
    /// The diagnostic that names this error.
    pub fn message(&self) -> (r: String)
        ensures
            r@ == self.message_spec(),
    {
        match self {
            TransformError::InvalidScope(_) => copy_str("Invalid scope"),
            TransformError::InvalidName(_) => copy_str("Invalid name"),
            TransformError::UnsupportedValue(_) => copy_str("Unsupported value"),
            TransformError::UnsupportedMeta(_) => copy_str("Unsupported meta"),
            TransformError::IllegalArguments => copy_str(
                "Illegal arguments, should be empty or \"args: Vec<Value>\"",
            ),
            TransformError::IllegalReturnType => copy_str(
                "Illegal return type, should be empty or \"Value\"",
            ),
            TransformError::AsyncUnsupported => copy_str(
                "Asynchronous functions cannot be imported",
            ),
        }
    }

    pub open spec fn message_spec(&self) -> Seq<char> {
        match self {
            TransformError::InvalidScope(_) => "Invalid scope"@,
            TransformError::InvalidName(_) => "Invalid name"@,
            TransformError::UnsupportedValue(_) => "Unsupported value"@,
            TransformError::UnsupportedMeta(_) => "Unsupported meta"@,
            TransformError::IllegalArguments => "Illegal arguments, should be empty or \"args: Vec<Value>\""@,
            TransformError::IllegalReturnType => "Illegal return type, should be empty or \"Value\""@,
            TransformError::AsyncUnsupported => "Asynchronous functions cannot be imported"@,
        }
    }
}

pub open spec fn opt_view(o: Option<String>) -> Option<Seq<char>> {
    match o {
        Some(s) => Some(s@),
        None => None,
    }
}

/// Options as plain sequences: (scope, name).
pub type OptionsView = (Option<Seq<char>>, Option<Seq<char>>);

impl ImportOptions {
    pub open spec fn view(&self) -> OptionsView {
        (opt_view(self.scope), opt_view(self.name))
    }
}

/// What the option at position `index` does to the options read so far.
pub open spec fn meta_step(opts: OptionsView, item: MetaItem, index: int) -> Result<OptionsView, TransformError> {
    match item {
        MetaItem::NameValue(key, lit) => {
            if key@ == "scope"@ {
                match lit {
                    Literal::Str(s) => if valid_literal(s@) {
                        Ok((Some(s@), opts.1))
                    } else {
                        Err(TransformError::InvalidScope(index as usize))
                    },
                    Literal::Other => Err(TransformError::UnsupportedValue(index as usize)),
                }
            } else if key@ == "name"@ {
                match lit {
                    Literal::Str(s) => if valid_literal(s@) {
                        Ok((opts.0, Some(s@)))
                    } else {
                        Err(TransformError::InvalidName(index as usize))
                    },
                    Literal::Other => Err(TransformError::UnsupportedValue(index as usize)),
                }
            } else {
                Err(TransformError::UnsupportedMeta(index as usize))
            }
        },
        MetaItem::Other => Err(TransformError::UnsupportedMeta(index as usize)),
    }
}

/// The options that a whole option list gives, read from left to right; the
/// first offending item decides the error, and a later option of the same key
/// replaces an earlier one.
pub open spec fn meta_spec(metas: Seq<MetaItem>) -> Result<OptionsView, TransformError>
    decreases metas.len(),
{
    if metas.len() == 0 {
        Ok((None, None))
    } else {
        match meta_spec(metas.drop_last()) {
            Ok(opts) => meta_step(opts, metas.last(), metas.len() - 1),
            Err(e) => Err(e),
        }
    }
}

/// Once a prefix of the option list is rejected, the whole list is rejected
/// with the same error.
proof fn lemma_meta_error_stays(s: Seq<MetaItem>, k: int)
    requires
        0 <= k <= s.len(),
        meta_spec(s.take(k)) is Err,
    ensures
        meta_spec(s) == meta_spec(s.take(k)),
    decreases s.len() - k,
{
    if k < s.len() {
        assert(s.take(k + 1).drop_last() =~= s.take(k));
        lemma_meta_error_stays(s, k + 1);
    } else {
        assert(s.take(k) =~= s);
    }
}

/// Reads the option list of an import declaration.
pub fn parse_meta(metas: &Vec<MetaItem>) -> (r: Result<ImportOptions, TransformError>)
    ensures
        match r {
            Ok(o) => meta_spec(metas@) == Ok::<OptionsView, TransformError>(o@),
            Err(e) => meta_spec(metas@) == Err::<OptionsView, TransformError>(e),
        },
{
    let mut options = ImportOptions { scope: None, name: None };
    let n = metas.len();
    let mut i: usize = 0;
    proof {
        assert(metas@.take(0).len() == 0);
    }
    while i < n
        invariant
            n == metas@.len(),
            i <= n,
            meta_spec(metas@.take(i as int)) == Ok::<OptionsView, TransformError>(options@),
        decreases n - i,
    {
        proof {
            assert(metas@.take(i + 1).drop_last() =~= metas@.take(i as int));
            assert(metas@.take(i + 1).last() == metas@[i as int]);
        }
        let rejected = match &metas[i] {
            MetaItem::NameValue(key, lit) => {
                let is_scope = str_eq(key.as_str(), "scope");
                if is_scope || str_eq(key.as_str(), "name") {
                    match lit {
                        Literal::Str(s) => if !validate_literal(s.as_str()) {
                            if is_scope {
                                Some(TransformError::InvalidScope(i))
                            } else {
                                Some(TransformError::InvalidName(i))
                            }
                        } else {
                            if is_scope {
                                options.scope = Some(s.clone());
                            } else {
                                options.name = Some(s.clone());
                            }
                            None
                        },
                        Literal::Other => Some(TransformError::UnsupportedValue(i)),
                    }
                } else {
                    Some(TransformError::UnsupportedMeta(i))
                }
            },
            MetaItem::Other => Some(TransformError::UnsupportedMeta(i)),
        };
        if let Some(e) = rejected {
            proof {
                lemma_meta_error_stays(metas@, i + 1);
            }
            return Err(e);
        }
        i = i + 1;
    }
    proof {
        assert(metas@.take(n as int) =~= metas@);
    }
    Ok(options)
}

/// What the signature of a native function declaration looks like, each
/// part written as the text of its tokens separated by single spaces
/// (`args : Vec < Value >`, `-> Value`).
pub struct FnSignature {
    pub ident: String,
    pub inputs: String,
    pub output: String,
    pub is_async: bool,
}

/// What the body of an accepted function hands back.
#[derive(Clone, Copy, Debug, PartialEq, Eq)]
pub enum ReturnKind {
    /// The body's result is a value, passed on as it is.
    Value,
    /// The body only has effects; the adapter answers with null.
    Unit,
}

/// An accepted import declaration: where the function is exposed and which
/// adapter wraps its body.
pub struct ImportSpec {
    pub name: String,
    pub scope: Option<String>,
    pub takes_args: bool,
    pub returns: ReturnKind,
}

/// An accepted declaration as plain values: (name, scope, takes_args, returns).
pub type ImportSpecView = (Seq<char>, Option<Seq<char>>, bool, ReturnKind);

impl ImportSpec {
    pub open spec fn view(&self) -> ImportSpecView {
        (self.name@, opt_view(self.scope), self.takes_args, self.returns)
    }
}

/// The parameter lists that are accepted: none, or the one parameter `args`
/// holding the ordered argument values.
pub open spec fn accepted_inputs(t: Seq<char>) -> bool {
    ||| t == ""@
    ||| t == "args : Vec < Value >"@
    ||| t == "args : Vec < crabzilla :: Value >"@
    ||| t == "args : std :: vec :: Vec < Value >"@
    ||| t == "args : std :: vec :: Vec < crabzilla :: Value >"@
    ||| t == "args : :: vec :: Vec < Value >"@
    ||| t == "args : :: vec :: Vec < crabzilla :: Value >"@
}

/// The return types that make a value-returning function.
pub open spec fn value_output(t: Seq<char>) -> bool {
    t == "-> crabzilla :: Value"@ || t == "-> Value"@
}

/// The return types that make a unit-returning function.
pub open spec fn unit_output(t: Seq<char>) -> bool {
    t == "-> ()"@ || t == ""@
}

/// The outcome of checking a declaration whose options read as `opts`.
pub open spec fn signature_spec(opts: OptionsView, sig: FnSignature) -> Result<ImportSpecView, TransformError> {
    if !accepted_inputs(sig.inputs@) {
        Err(TransformError::IllegalArguments)
    } else if sig.is_async {
        Err(TransformError::AsyncUnsupported)
    } else {
        let name = match opts.1 {
            Some(n) => n,
            None => sig.ident@,
        };
        let takes_args = sig.inputs@ != ""@;
        if value_output(sig.output@) {
            Ok((name, opts.0, takes_args, ReturnKind::Value))
        } else if unit_output(sig.output@) {
            Ok((name, opts.0, takes_args, ReturnKind::Unit))
        } else {
            Err(TransformError::IllegalReturnType)
        }
    }
}

/// The outcome of checking a whole declaration: its options first, then its
/// parameters, then whether it is asynchronous, then its return type.
pub open spec fn transform_spec(metas: Seq<MetaItem>, sig: FnSignature) -> Result<ImportSpecView, TransformError> {
    match meta_spec(metas) {
        Ok(opts) => signature_spec(opts, sig),
        Err(e) => Err(e),
    }
}

fn is_accepted_inputs(t: &str) -> (r: bool)
    ensures
        r == accepted_inputs(t@),
{
    str_eq(t, "") || str_eq(t, "args : Vec < Value >") || str_eq(t, "args : Vec < crabzilla :: Value >")
        || str_eq(t, "args : std :: vec :: Vec < Value >") || str_eq(
        t,
        "args : std :: vec :: Vec < crabzilla :: Value >",
    ) || str_eq(t, "args : :: vec :: Vec < Value >") || str_eq(
        t,
        "args : :: vec :: Vec < crabzilla :: Value >",
    )
}

/// Checks a native function declaration with its option list, and says how
/// it is to be imported: under which name and scope, and with which adapter.
pub fn import_fn(metas: &Vec<MetaItem>, sig: &FnSignature) -> (r: Result<ImportSpec, TransformError>)
    ensures
        match r {
            Ok(spec) => transform_spec(metas@, *sig) == Ok::<ImportSpecView, TransformError>(spec@),
            Err(e) => transform_spec(metas@, *sig) == Err::<ImportSpecView, TransformError>(e),
        },
{
    let options = match parse_meta(metas) {
        Ok(o) => o,
        Err(e) => return Err(e),
    };
    if !is_accepted_inputs(sig.inputs.as_str()) {
        return Err(TransformError::IllegalArguments);
    }
    if sig.is_async {
        return Err(TransformError::AsyncUnsupported);
    }
    let name = match options.name {
        Some(n) => n,
        None => sig.ident.clone(),
    };
    let takes_args = !str_eq(sig.inputs.as_str(), "");
    let output = sig.output.as_str();
    if str_eq(output, "-> crabzilla :: Value") || str_eq(output, "-> Value") {
        Ok(ImportSpec { name, scope: options.scope, takes_args, returns: ReturnKind::Value })
    } else if str_eq(output, "-> ()") || str_eq(output, "") {
        Ok(ImportSpec { name, scope: options.scope, takes_args, returns: ReturnKind::Unit })
    } else {
        Err(TransformError::IllegalReturnType)
    }
}

} // verus!
