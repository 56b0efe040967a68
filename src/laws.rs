use vstd::prelude::*;
use crate::adapter::unit_result;
use crate::glue::{scope_line, scope_lines, stub_line, stub_lines, NameView};
use crate::runtime::{declared_scopes, glue_of};
use crate::transform::{
    accepted_inputs, meta_spec, transform_spec, unit_output, value_output, FnSignature, MetaItem,
    ReturnKind,
};
use crate::value::{args_of, is_payload_for, Error, Value};

verus! {

/// A declaration with acceptable options is accepted exactly when it has one
/// of the four supported shapes: no parameters or the one `args` parameter,
/// and a value or nothing as its result, and is not asynchronous. The
/// accepted declaration records which of the shapes it has.
pub proof fn lemma_supported_shapes(metas: Seq<MetaItem>, sig: FnSignature)
    requires
        meta_spec(metas) is Ok,
    ensures
        transform_spec(metas, sig) is Ok <==> accepted_inputs(sig.inputs@) && !sig.is_async && (
        value_output(sig.output@) || unit_output(sig.output@)),
        transform_spec(metas, sig) matches Ok(spec) ==> {
            &&& spec.2 == (sig.inputs@ != ""@)
            &&& (spec.3 == ReturnKind::Value <==> value_output(sig.output@))
        },
{
}

/// A value passed as the single argument of a call comes out of the call's
/// payload as it went in.
pub proof fn lemma_value_round_trip(v: Value, payload: Value)
    requires
        is_payload_for(payload, seq![v]),
    ensures
        args_of(payload) matches Some(args) && args@.len() == 1 && args@[0] == v,
{
    if let Value::Object(entries) = payload {
        assert(entries@[0].0@ == crate::value::args_key());
    }
}

/// A failing body's error, message included, is what the adapter answers,
/// and a failing adapter answer comes from a failing body.
pub proof fn lemma_error_unchanged(b: Result<(), Error>)
    ensures
        b matches Err(e) ==> unit_result(b) == Err::<Value, Error>(e),
        unit_result(b) matches Err(e) ==> b == Err::<(), Error>(e) && e.message == b->Err_0.message,
{
}

/// A unit-returning body that succeeds always yields null, whatever it did.
pub proof fn lemma_unit_success_is_null(b: Result<(), Error>)
    requires
        b is Ok,
    ensures
        unit_result(b) == Ok::<Value, Error>(Value::Null),
{
}

/// The glue source depends on the ordered imports alone: two sessions with
/// the same registrations get the same text.
pub proof fn lemma_glue_deterministic(a: Seq<NameView>, b: Seq<NameView>)
    requires
        a == b,
    ensures
        glue_of(a) == glue_of(b),
{
}

/// Whether `part` occurs in `text` as a contiguous piece.
pub open spec fn occurs_in(part: Seq<char>, text: Seq<char>) -> bool {
    exists|i: int| 0 <= i && i + part.len() <= text.len() && #[trigger] text.subrange(i, i + part.len()) == part
}

proof fn lemma_occurs_in_concat(part: Seq<char>, a: Seq<char>, b: Seq<char>)
    ensures
        occurs_in(part, a) ==> occurs_in(part, a + b),
        occurs_in(part, b) ==> occurs_in(part, a + b),
{
    if occurs_in(part, a) {
        let i = choose|i: int| 0 <= i && i + part.len() <= a.len() && #[trigger] a.subrange(i, i + part.len()) == part;
        assert((a + b).subrange(i, i + part.len()) =~= a.subrange(i, i + part.len()));
    }
    if occurs_in(part, b) {
        let i = choose|i: int| 0 <= i && i + part.len() <= b.len() && #[trigger] b.subrange(i, i + part.len()) == part;
        assert((a + b).subrange(a.len() + i, a.len() + i + part.len()) =~= b.subrange(i, i + part.len()));
    }
}

proof fn lemma_occurs_whole(part: Seq<char>)
    ensures
        occurs_in(part, part),
{
    let i: int = 0;
    assert(part.subrange(i, i + part.len()) =~= part);
}

proof fn lemma_stub_in_lines(names: Seq<NameView>, k: int)
    requires
        0 <= k < names.len(),
    ensures
        occurs_in(stub_line(names[k]), stub_lines(names)),
    decreases names.len(),
{
    let prefix = stub_lines(names.drop_last());
    if k == names.len() - 1 {
        lemma_occurs_whole(stub_line(names[k]));
        lemma_occurs_in_concat(stub_line(names[k]), prefix, stub_line(names.last()));
    } else {
        lemma_stub_in_lines(names.drop_last(), k);
        lemma_occurs_in_concat(stub_line(names[k]), prefix, stub_line(names.last()));
    }
}

proof fn lemma_scope_in_lines(scopes: Seq<Seq<char>>, k: int)
    requires
        0 <= k < scopes.len(),
    ensures
        occurs_in(scope_line(scopes[k]), scope_lines(scopes)),
    decreases scopes.len(),
{
    let prefix = scope_lines(scopes.drop_last());
    if k == scopes.len() - 1 {
        lemma_occurs_whole(scope_line(scopes[k]));
        lemma_occurs_in_concat(scope_line(scopes[k]), prefix, scope_line(scopes.last()));
    } else {
        lemma_scope_in_lines(scopes.drop_last(), k);
        lemma_occurs_in_concat(scope_line(scopes[k]), prefix, scope_line(scopes.last()));
    }
}

/// Every scope that an import names is declared, and each declared scope is
/// named by some import and declared only once.
pub proof fn lemma_declared_scopes(names: Seq<NameView>)
    ensures
        forall|k: int| 0 <= k < names.len() && (#[trigger] names[k]).1 is Some
            ==> declared_scopes(names).contains(names[k].1->0),
        forall|j: int| 0 <= j < declared_scopes(names).len() ==> exists|k: int|
            0 <= k < names.len() && (#[trigger] names[k]).1 == Some(#[trigger] declared_scopes(names)[j]),
        declared_scopes(names).no_duplicates(),
    decreases names.len(),
{
    if names.len() > 0 {
        let prev = names.drop_last();
        lemma_declared_scopes(prev);
        let scopes = declared_scopes(names);
        assert forall|k: int| 0 <= k < names.len() && (#[trigger] names[k]).1 is Some
            implies scopes.contains(names[k].1->0) by {
            if k < names.len() - 1 {
                assert(prev[k] == names[k]);
                let j = choose|j: int| 0 <= j < declared_scopes(prev).len() && declared_scopes(prev)[j] == names[k].1->0;
                assert(scopes[j] == names[k].1->0);
            } else if !declared_scopes(prev).contains(names[k].1->0) {
                assert(scopes[scopes.len() - 1] == names[k].1->0);
            }
        }
        assert forall|j: int| 0 <= j < scopes.len() implies exists|k: int|
            0 <= k < names.len() && (#[trigger] names[k]).1 == Some(#[trigger] scopes[j]) by {
            if j < declared_scopes(prev).len() {
                let k = choose|k: int| 0 <= k < prev.len() && (#[trigger] prev[k]).1 == Some(declared_scopes(prev)[j]);
                assert(names[k] == prev[k]);
            } else {
                assert(names[names.len() - 1].1 == Some(scopes[j]));
            }
        }
    }
}

/// The glue installs a stub for every import and creates the namespace
/// object of every scope that an import names.
pub proof fn lemma_glue_exposes_imports(names: Seq<NameView>)
    ensures
        forall|k: int| 0 <= k < names.len() ==> occurs_in(stub_line(#[trigger] names[k]), glue_of(names)),
        forall|k: int| 0 <= k < names.len() && (#[trigger] names[k]).1 is Some
            ==> occurs_in(scope_line(names[k].1->0), glue_of(names)),
{
    let head = "\"use strict\";\n((window) => {\n"@;
    let tail = "})(this);"@;
    let scopes = declared_scopes(names);
    assert(glue_of(names) == head + scope_lines(scopes) + stub_lines(names) + tail);
    lemma_declared_scopes(names);
    assert forall|k: int| 0 <= k < names.len() implies occurs_in(stub_line(#[trigger] names[k]), glue_of(names)) by {
        let part = stub_line(names[k]);
        lemma_stub_in_lines(names, k);
        lemma_occurs_in_concat(part, head + scope_lines(scopes), stub_lines(names));
        lemma_occurs_in_concat(part, head + scope_lines(scopes) + stub_lines(names), tail);
    }
    assert forall|k: int| 0 <= k < names.len() && (#[trigger] names[k]).1 is Some
        implies occurs_in(scope_line(names[k].1->0), glue_of(names)) by {
        let s = names[k].1->0;
        let j = choose|j: int| 0 <= j < scopes.len() && scopes[j] == s;
        let part = scope_line(s);
        lemma_scope_in_lines(scopes, j);
        lemma_occurs_in_concat(part, head, scope_lines(scopes));
        lemma_occurs_in_concat(part, head + scope_lines(scopes), stub_lines(names));
        lemma_occurs_in_concat(part, head + scope_lines(scopes) + stub_lines(names), tail);
    }
}

} // verus!
