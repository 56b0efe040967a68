use vstd::prelude::*;
use crate::adapter::ImportedFn;
use crate::glue::{glue_text, names_view, render_glue, strings_view, ImportedName, NameView};
use crate::text::{copy_str, str_eq};
use crate::transform::{opt_view, valid_literal};
use crate::value::{Error, Value};

verus! {

/// The scopes after one more function with `scope` is declared: a scope not
/// seen before is added at the end.
pub open spec fn add_scope(scopes: Seq<Seq<char>>, scope: Option<Seq<char>>) -> Seq<Seq<char>> {
    match scope {
        Some(s) => if scopes.contains(s) {
            scopes
        } else {
            scopes.push(s)
        },
        None => scopes,
    }
}

/// The scopes that a sequence of imports declares, each once, in the order
/// in which they were first seen.
pub open spec fn declared_scopes(names: Seq<NameView>) -> Seq<Seq<char>>
    decreases names.len(),
{
    if names.len() == 0 {
        Seq::empty()
    } else {
        add_scope(declared_scopes(names.drop_last()), names.last().1)
    }
}

/// Whether a function registered under `name` is among the imports.
pub open spec fn has_name(names: Seq<NameView>, name: Seq<char>) -> bool {
    exists|i: int| 0 <= i < names.len() && (#[trigger] names[i]).0 == name
}

/// No two imports share a registered name.
pub open spec fn names_unique(names: Seq<NameView>) -> bool {
    forall|i: int, j: int|
        0 <= i < names.len() && 0 <= j < names.len() && i != j ==> (#[trigger] names[i]).0 != (#[trigger] names[j]).0
}

/// Every import has a valid name and, if scoped, a valid scope.
pub open spec fn names_valid(names: Seq<NameView>) -> bool {
    forall|i: int|
        0 <= i < names.len() ==> valid_literal((#[trigger] names[i]).0) && (names[i].1 matches Some(s)
            ==> valid_literal(s))
}

/// The glue source for a sequence of imports.
pub open spec fn glue_of(names: Seq<NameView>) -> Seq<char> {
    glue_text(declared_scopes(names), names)
}

/// An engine session while functions are being imported. Once importing is
/// finished it becomes a [`ReadyRuntime`], which takes no more imports.
pub struct Runtime {
    imported_names: Vec<ImportedName>,
    scopes: Vec<String>,
}

impl Runtime {
    /// The declared scopes are those of the imports, and the imports have
    /// valid, distinct names.
    pub closed spec fn well_formed(&self) -> bool {
        let names = names_view(self.imported_names@);
        &&& strings_view(self.scopes@) == declared_scopes(names)
        &&& names_unique(names)
        &&& names_valid(names)
    }

    /// The imports so far, in the order of their registration.
    pub closed spec fn imports(&self) -> Seq<NameView> {
        names_view(self.imported_names@)
    }

    /// A session with nothing imported.
    pub fn new() -> (r: Runtime)
        ensures
            r.well_formed(),
            r.imports() == Seq::<NameView>::empty(),
    {
        let r = Runtime { imported_names: Vec::new(), scopes: Vec::new() };
        proof {
            assert(names_view(r.imported_names@) =~= Seq::<NameView>::empty());
            assert(strings_view(r.scopes@) =~= Seq::<Seq<char>>::empty());
        }
        r
    }

    /// Whether a function is already registered under `name`.
    pub fn is_imported(&self, name: &str) -> (r: bool)
        ensures
            r == has_name(self.imports(), name@),
    {
        let ghost names = self.imports();
        let mut i: usize = 0;
        while i < self.imported_names.len()
            invariant
                names == names_view(self.imported_names@),
                i <= self.imported_names.len(),
                forall|k: int| 0 <= k < i ==> (#[trigger] names[k]).0 != name@,
            decreases self.imported_names.len() - i,
        {
            if str_eq(self.imported_names[i].name.as_str(), name) {
                assert(names[i as int].0 == name@);
                return true;
            }
            i = i + 1;
        }
        false
    }

    /// Registers an imported function. Its name must not be registered yet:
    /// the native-call registry keys functions by name alone.
    pub fn import<F: Fn(Vec<Value>) -> Result<Value, Error>>(&mut self, imported_fn: &ImportedFn<F>)
        requires
            old(self).well_formed(),
            !has_name(old(self).imports(), imported_fn.spec_name()),
        ensures
            final(self).well_formed(),
            final(self).imports() == old(self).imports().push(
                (imported_fn.spec_name(), imported_fn.spec_scope()),
            ),
    {
        let ghost old_names = self.imports();
        let name = copy_str(imported_fn.name());
        let scope = match imported_fn.scope() {
            Some(s) => Some(copy_str(s)),
            None => None,
        };
        let ghost entry: NameView = (name@, opt_view(scope));
        if let Some(s) = &scope {
            let mut seen = false;
            let mut i: usize = 0;
            while i < self.scopes.len()
                invariant
                    i <= self.scopes.len(),
                    seen == exists|k: int| 0 <= k < i && (#[trigger] self.scopes@[k])@ == s@,
                decreases self.scopes.len() - i,
            {
                if str_eq(self.scopes[i].as_str(), s.as_str()) {
                    seen = true;
                }
                i = i + 1;
            }
            if !seen {
                self.scopes.push(s.clone());
            }
            proof {
                let sv = strings_view(old(self).scopes@);
                if seen {
                    let k = choose|k: int| 0 <= k < self.scopes@.len() && (#[trigger] self.scopes@[k])@ == s@;
                    assert(sv[k] == s@);
                } else {
                    assert forall|k: int| 0 <= k < sv.len() implies sv[k] != s@ by {
                        assert(self.scopes@[k]@ == sv[k]);
                    }
                    assert(strings_view(self.scopes@) =~= sv.push(s@));
                }
            }
        }
        self.imported_names.push(ImportedName { name, scope });
        proof {
            let names = names_view(self.imported_names@);
            assert(names =~= old_names.push(entry));
            assert(names.drop_last() =~= old_names);
        }
    }

    /// Ends the importing: the session can no longer take imports, and its
    /// glue source is written.
    pub fn importing_finished(self) -> (r: ReadyRuntime)
        requires
            self.well_formed(),
        ensures
            r.imports() == self.imports(),
    {
        let glue = render_glue(&self.scopes, &self.imported_names);
        ReadyRuntime { imported_names: self.imported_names, glue }
    }
}

/// An engine session whose imports are complete, with the glue source that
/// exposes them to scripts.
pub struct ReadyRuntime {
    imported_names: Vec<ImportedName>,
    glue: String,
}

impl ReadyRuntime {
    #[verifier::type_invariant]
    spec fn well_formed(&self) -> bool {
        let names = names_view(self.imported_names@);
        &&& self.glue@ == glue_of(names)
        &&& names_unique(names)
        &&& names_valid(names)
    }

    /// The imports, in the order of their registration.
    pub closed spec fn imports(&self) -> Seq<NameView> {
        names_view(self.imported_names@)
    }

    /// The glue source, to be run once before any module is loaded.
    pub fn glue(&self) -> (r: &str)
        ensures
            r@ == glue_of(self.imports()),
    {
        proof {
            use_type_invariant(self);
        }
        self.glue.as_str()
    }

    /// Which import the glue exposes at `scope` and `name`: its position in
    /// the order of registration, or `None` where nothing is exposed there.
    pub fn lookup(&self, scope: Option<&str>, name: &str) -> (r: Option<usize>)
        ensures
            match r {
                Some(k) => k < self.imports().len() && self.imports()[k as int] == (
                    name@,
                    match scope {
                        Some(s) => Some(s@),
                        None => None::<Seq<char>>,
                    },
                ),
                None => !exists|k: int|
                    0 <= k < self.imports().len() && #[trigger] self.imports()[k] == (
                        name@,
                        match scope {
                            Some(s) => Some(s@),
                            None => None::<Seq<char>>,
                        },
                    ),
            },
    {
        let ghost names = self.imports();
        let ghost target: NameView = (name@, match scope {
            Some(s) => Some(s@),
            None => None::<Seq<char>>,
        });
        let mut i: usize = 0;
        while i < self.imported_names.len()
            invariant
                names == names_view(self.imported_names@),
                target == (name@, match scope {
                    Some(s) => Some(s@),
                    None => None::<Seq<char>>,
                }),
                i <= self.imported_names.len(),
                forall|k: int| 0 <= k < i ==> #[trigger] names[k] != target,
            decreases self.imported_names.len() - i,
        {
            let entry = &self.imported_names[i];
            assert(names[i as int] == entry@);
            let same_name = str_eq(entry.name.as_str(), name);
            let same_scope = match &entry.scope {
                Some(a) => match scope {
                    Some(b) => str_eq(a.as_str(), b),
                    None => false,
                },
                None => match scope {
                    Some(_) => false,
                    None => true,
                },
            };
            assert(same_name && same_scope <==> names[i as int] == target);
            if same_name {
                if same_scope {
                    assert(names[i as int] == target);
                    return Some(i);
                }
            }
            i = i + 1;
        }
        None
    }
}

} // verus!
