//! A namespace is the set of functions that a rule document has defined,
//! by name.

use vstd::prelude::*;
use vstd::string::*;
use serde_json::Value;
use crate::error::{Error, NumParams};
use crate::function::{parse, Function, FunctionView, Parsed};
use crate::json::json_of;

verus! {

/// What a call by name comes to.
pub enum Invocation {
    /// No function is registered under the name.
    Unknown,
    /// The call invokes this function.
    Function(FunctionView),
    /// A function is registered under the name, and its arity, this one,
    /// does not admit the number of arguments.
    WrongArgumentCount(NumParams),
}

/// The functions defined so far. At most one function is kept for a name:
/// a later definition takes the place of an earlier one.
pub struct Namespace {
    funcs: Vec<Function>,
    defined: Ghost<Map<Seq<char>, FunctionView>>,
}

impl View for Namespace {
    type V = Map<Seq<char>, FunctionView>;

    closed spec fn view(&self) -> Map<Seq<char>, FunctionView> {
        self.defined@
    }
}

impl Namespace {
    /// The namespace is consistent: it keeps one function for each name
    /// that is defined, and no other.
    pub closed spec fn wf(&self) -> bool {
        &&& forall|i: int|
            0 <= i < self.funcs.len() ==> self.defined@.contains_key(#[trigger] self.funcs[i]@.name)
                && self.defined@[self.funcs[i]@.name] == self.funcs[i]@
        &&& forall|i: int, k: int|
            0 <= i < k < self.funcs.len() ==> #[trigger] self.funcs[i]@.name
                != #[trigger] self.funcs[k]@.name
        &&& forall|name: Seq<char>| #[trigger]
            self.defined@.contains_key(name) ==> exists|i: int|
                0 <= i < self.funcs.len() && #[trigger] self.funcs[i]@.name == name
    }

    /// A namespace without functions.
    pub fn new() -> (ns: Namespace)
        ensures
            ns.wf(),
            ns@ == Map::<Seq<char>, FunctionView>::empty(),
    {
        Namespace { funcs: Vec::new(), defined: Ghost(Map::empty()) }
    }

    /// Where the function named `name` is kept, if there is one.
    fn position(&self, name: &str) -> (at: Option<usize>)
        requires
            self.wf(),
        ensures
            match at {
                Some(i) => i < self.funcs.len() && self.funcs[i as int]@.name == name@,
                None => !self@.contains_key(name@),
            },
    {
        let mut i: usize = 0;
        while i < self.funcs.len()
            invariant
                self.wf(),
                i <= self.funcs.len(),
                forall|j: int| 0 <= j < i ==> (#[trigger] self.funcs[j]@).name != name@,
            decreases self.funcs.len() - i,
        {
            if same_text(self.funcs[i].name().value(), name) {
                return Some(i);
            }
            i += 1;
        }
        None
    }

    /// Registers `func` under its name, in place of a function that was
    /// registered under that name before.
    pub fn register(&mut self, func: Function)
        requires
            old(self).wf(),
        ensures
            final(self).wf(),
            final(self)@ == old(self)@.insert(func@.name, func@),
    {
        let ghost name = func@.name;
        let ghost view = func@;
        let ghost before = self.funcs@;
        let ghost slot: int;
        match self.position(func.name().value()) {
            Some(i) => {
                proof {
                    slot = i as int;
                }
                self.funcs.set(i, func);
                assert forall|j: int| 0 <= j < self.funcs.len() implies (#[trigger] self.funcs[j]@).name
                    == before[j]@.name by {}
            },
            None => {
                proof {
                    slot = before.len() as int;
                }
                self.funcs.push(func);
                assert forall|j: int| 0 <= j < before.len() implies (#[trigger] self.funcs[j])
                    == before[j] by {}
            },
        }
        self.defined = Ghost(self.defined@.insert(name, view));
        assert forall|key: Seq<char>| #[trigger]
            self.defined@.contains_key(key) implies exists|i: int|
            0 <= i < self.funcs.len() && #[trigger] self.funcs[i]@.name == key by {
            if key != name {
                let i = choose|i: int| 0 <= i < before.len() && #[trigger] before[i]@.name == key;
                assert(self.funcs[i]@.name == key);
            } else {
                assert(self.funcs[slot]@.name == key);
            }
        }
    }

    /// Reads `value` as a function definition and registers the function.
    /// Returns whether the value was a definition; a value that is none,
    /// and a definition that is malformed, leave the namespace as it was.
    pub fn define(&mut self, value: &Value) -> (r: Result<bool, Error>)
        requires
            old(self).wf(),
        ensures
            final(self).wf(),
            match parse(json_of(*value)) {
                Parsed::NotAFunction => r == Ok::<bool, Error>(false) && final(self)@ == old(self)@,
                Parsed::Function(f) => r == Ok::<bool, Error>(true) && final(self)@ == old(self)@.insert(
                    f.name,
                    f,
                ),
                outcome => r is Err && Function::agrees(Err(r.unwrap_err()), outcome) && final(self)@
                    == old(self)@,
            },
    {
        match Function::from_value(value) {
            Ok(Some(func)) => {
                self.register(func);
                Ok(true)
            },
            Ok(None) => Ok(false),
            Err(e) => Err(e),
        }
    }

    /// The function registered under `name`, if there is one.
    pub fn get(&self, name: &str) -> (r: Option<&Function>)
        requires
            self.wf(),
        ensures
            match r {
                Some(func) => self@.contains_key(name@) && func@ == self@[name@],
                None => !self@.contains_key(name@),
            },
    {
        match self.position(name) {
            Some(i) => Some(&self.funcs[i]),
            None => None,
        }
    }

    /// What a call of `name` with `count` arguments invokes.
    pub open spec fn invocation(&self, name: Seq<char>, count: usize) -> Invocation {
        if !self@.contains_key(name) {
            Invocation::Unknown
        } else if self@[name].num_params.admits(count as nat) {
            Invocation::Function(self@[name])
        } else {
            Invocation::WrongArgumentCount(self@[name].num_params)
        }
    }

    /// The function that a call of `name` with `count` arguments invokes:
    /// none where no function is registered under the name, and a wrong
    /// argument count where the function's arity does not admit the call.
    pub fn invoked(&self, name: &str, count: usize) -> (r: Result<Option<&Function>, Error>)
        requires
            self.wf(),
        ensures
            match self.invocation(name@, count) {
                Invocation::Unknown => r is Ok && r.unwrap() is None,
                Invocation::Function(f) => r is Ok && r.unwrap() is Some && r.unwrap().unwrap()@ == f,
                Invocation::WrongArgumentCount(expected) => r == Err::<Option<&Function>, Error>(
                    Error::WrongArgumentCount { expected, actual: count },
                ),
            },
    {
        match self.position(name) {
            Some(i) => {
                let func = &self.funcs[i];
                match func.param_info().check(count) {
                    Ok(()) => Ok(Some(func)),
                    Err(e) => Err(e),
                }
            },
            None => Ok(None),
        }
    }

    /// The number of functions that are defined.
    pub fn len(&self) -> (n: usize)
        requires
            self.wf(),
        ensures
            self@.dom().finite(),
            n == self@.dom().len(),
    {
        proof {
            self.lemma_size();
        }
        self.funcs.len()
    }

    proof fn lemma_size(&self)
        requires
            self.wf(),
        ensures
            self@.dom().finite(),
            self@.dom().len() == self.funcs.len(),
    {
        let names = self.funcs@.map_values(|f: Function| f@.name);
        assert forall|i: int, k: int| 0 <= i < names.len() && 0 <= k < names.len() && i != k implies names[i]
            != names[k] by {
            if i < k {
                assert(self.funcs[i]@.name != self.funcs[k]@.name);
            } else {
                assert(self.funcs[k]@.name != self.funcs[i]@.name);
            }
        }
        assert(names.no_duplicates());
        names.unique_seq_to_set();
        assert(names.to_set() =~= self@.dom()) by {
            assert forall|key: Seq<char>| self@.dom().contains(key) implies names.to_set().contains(key) by {
                let i = choose|i: int| 0 <= i < self.funcs.len() && #[trigger] self.funcs[i]@.name == key;
                assert(names[i] == key);
            }
            assert forall|key: Seq<char>| names.to_set().contains(key) implies self@.dom().contains(key) by {
                let i = choose|i: int| 0 <= i < names.len() && names[i] == key;
                assert(self.funcs[i]@.name == key);
            }
        }
    }
}

/// Whether two texts are the same.
fn same_text(a: &str, b: &str) -> (same: bool)
    ensures
        same == (a@ == b@),
{
    String::from_str(a) == String::from_str(b)
}

} // verus!
