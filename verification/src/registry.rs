//! The table in which scalar functions are looked up by name.

use std::sync::Arc;
use vstd::prelude::*;
use vstd::string::*;
use crate::engine::PyUDF;
use crate::shared::share;

verus! {

/// Whether `name` is the name of the function at `index`.
pub open spec fn named_at(functions: Seq<Arc<PyUDF>>, index: int, name: Seq<char>) -> bool {
    0 <= index < functions.len() && functions[index].spec_copr().name@ == name
}

/// Whether no two of `functions` bear the same name.
pub open spec fn distinct_names(functions: Seq<Arc<PyUDF>>) -> bool {
    forall|i: int, j: int|
        0 <= i < j < functions.len() ==> (#[trigger] functions[i]).spec_copr().name@ != (
        #[trigger] functions[j]).spec_copr().name@
}

/// Scalar functions by name. A table holds at most one function under a
/// name: registering a second one under the same name replaces the first. A
/// table does not guard itself against concurrent use; whoever shares one
/// between threads wraps it in a lock.
#[derive(Debug)]
pub struct FunctionRegistry {
    functions: Vec<Arc<PyUDF>>,
}

impl View for FunctionRegistry {
    type V = Map<Seq<char>, Arc<PyUDF>>;

    closed spec fn view(&self) -> Map<Seq<char>, Arc<PyUDF>> {
        Map::new(
            |name: Seq<char>| exists|i: int| named_at(self.functions@, i, name),
            |name: Seq<char>| self.functions@[choose|i: int| named_at(self.functions@, i, name)],
        )
    }
}

impl FunctionRegistry {
    #[verifier::type_invariant]
    spec fn well_formed(self) -> bool {
        distinct_names(self.functions@)
    }

    pub fn new() -> (registry: Self)
        ensures
            registry@ == Map::<Seq<char>, Arc<PyUDF>>::empty(),
    {
        let registry = FunctionRegistry { functions: Vec::new() };
        registry
    }

    /// The place of the function named `name`, if there is one.
    fn position(&self, name: &String) -> (found: Option<usize>)
        ensures
            found matches Some(i) ==> named_at(self.functions@, i as int, name@),
            found is None ==> forall|i: int| !named_at(self.functions@, i, name@),
    {
        let mut i: usize = 0;
        while i < self.functions.len()
            invariant
                i <= self.functions@.len(),
                forall|j: int| 0 <= j < i ==> !named_at(self.functions@, j, name@),
            decreases self.functions.len() - i,
        {
            if self.functions[i].copr().name == *name {
                return Some(i);
            }
            i += 1;
        }
        None
    }

    /// Puts `function` under its name. A function that stood under this name
    /// leaves the table; every other entry stays.
    pub fn register(&mut self, function: Arc<PyUDF>)
        ensures
            final(self)@ == old(self)@.insert(function.spec_copr().name@, function),
    {
        proof {
            use_type_invariant(&*self);
        }
        let ghost before = self.functions@;
        let ghost name = function.spec_copr().name@;
        let found = self.position(&function.copr().name);
        let mut taken = FunctionRegistry { functions: Vec::new() };
        core::mem::swap(self, &mut taken);
        let mut functions = taken.functions;
        match found {
            Some(i) => {
                functions.set(i, function);
                proof {
                    let after = functions@;
                    assert forall|key: Seq<char>, k: int| named_at(after, k, key) implies named_at(
                        before,
                        k,
                        key,
                    ) by {}
                    assert forall|key: Seq<char>, k: int| named_at(before, k, key) implies named_at(
                        after,
                        k,
                        key,
                    ) by {}
                    let updated = FunctionRegistry { functions };
                    Self::lemma_view_of(before, old(self)@);
                    Self::lemma_view_of(after, updated@);
                }
            },
            None => {
                functions.push(function);
                proof {
                    let after = functions@;
                    let last = before.len() as int;
                    assert(distinct_names(after)) by {
                        assert forall|a: int, b: int| 0 <= a < b < after.len() implies (
                        #[trigger] after[a]).spec_copr().name@ != (
                        #[trigger] after[b]).spec_copr().name@ by {
                            if b == last {
                                assert(!named_at(before, a, name));
                            }
                        }
                    }
                    let updated = FunctionRegistry { functions };
                    Self::lemma_view_of(before, old(self)@);
                    Self::lemma_view_of(after, updated@);
                    assert(updated@ =~= old(self)@.insert(name, function)) by {
                        assert forall|key: Seq<char>| #[trigger]
                            updated@.contains_key(key) <==> old(self)@.insert(
                                name,
                                function,
                            ).contains_key(key) by {
                            if updated@.contains_key(key) {
                                let k = choose|k: int| named_at(after, k, key);
                                if k != last {
                                    assert(named_at(before, k, key));
                                }
                            }
                            if old(self)@.contains_key(key) {
                                let k = choose|k: int| named_at(before, k, key);
                                assert(named_at(after, k, key));
                            }
                            if key == name {
                                assert(named_at(after, last, key));
                            }
                        }
                    }
                }
            },
        }
        *self = FunctionRegistry { functions };
    }

    /// The function registered under `name`, if there is one.
    pub fn get(&self, name: &str) -> (found: Option<Arc<PyUDF>>)
        ensures
            found is Some <==> self@.contains_key(name@),
            found matches Some(function) ==> function == self@[name@],
    {
        proof {
            use_type_invariant(self);
            Self::lemma_view_of(self.functions@, self@);
        }
        match self.position(&String::from_str(name)) {
            Some(i) => Some(share(&self.functions[i])),
            None => None,
        }
    }

    /// What the view of a table with distinct names holds: a name leads to
    /// the one function that bears it.
    proof fn lemma_view_of(functions: Seq<Arc<PyUDF>>, view: Map<Seq<char>, Arc<PyUDF>>)
        requires
            distinct_names(functions),
            view == Map::new(
                |name: Seq<char>| exists|i: int| named_at(functions, i, name),
                |name: Seq<char>| functions[choose|i: int| named_at(functions, i, name)],
            ),
        ensures
            forall|name: Seq<char>, i: int|
                named_at(functions, i, name) ==> view.contains_key(name) && view[name]
                    == functions[i],
            forall|name: Seq<char>|
                view.contains_key(name) ==> exists|i: int| named_at(functions, i, name),
    {
    }
}

} // verus!
