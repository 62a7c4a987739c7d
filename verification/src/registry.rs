//! The registry: the named serving units that the runtime knows, in the order
//! in which they were registered.

use crate::error::BootError;
use crate::name_index::{index_entries, index_get, index_insert, index_new};
use dashmap::DashMap;
use vstd::prelude::*;

verus! {

/// A collection of units, each under a name of its own.
pub struct Registry<T> {
    names: Vec<String>,
    units: Vec<T>,
    index: DashMap<String, usize>,
}

impl<T> Registry<T> {
    /// The registered names, oldest first.
    pub closed spec fn names(&self) -> Seq<Seq<char>> {
        Seq::new(self.names@.len(), |i: int| self.names@[i]@)
    }

    /// The registered units, oldest first.
    pub closed spec fn units(&self) -> Seq<T> {
        self.units@
    }

    /// Whether a unit is registered under `name`.
    pub open spec fn has(&self, name: Seq<char>) -> bool {
        self.names().contains(name)
    }

    /// The invariant of the type: the index holds exactly the registered
    /// names, each bound to its position.
    pub closed spec fn index_agrees(&self) -> bool {
        &&& forall|i: int|
            0 <= i < self.names@.len() ==> {
                &&& #[trigger] index_entries(self.index).contains_key(self.names@[i]@)
                &&& index_entries(self.index)[self.names@[i]@] == i
            }
        &&& forall|name: Seq<char>| #[trigger]
            index_entries(self.index).contains_key(name) ==> {
                &&& index_entries(self.index)[name] < self.names@.len()
                &&& self.names@[index_entries(self.index)[name] as int]@ == name
            }
    }

    /// Well-formedness: one unit per name, and no name twice.
    pub open spec fn wf(&self) -> bool {
        &&& self.names().len() == self.units().len()
        &&& self.names().no_duplicates()
        &&& self.index_agrees()
    }

    /// The empty registry.
    pub fn new() -> (registry: Self)
        ensures
            registry.wf(),
            registry.names() == Seq::<Seq<char>>::empty(),
            registry.units() == Seq::<T>::empty(),
    {
        let registry = Registry { names: Vec::new(), units: Vec::new(), index: index_new() };
        assert(registry.names() =~= Seq::<Seq<char>>::empty());
        registry
    }

    /// The number of registered units.
    pub fn len(&self) -> (n: usize)
        ensures
            n == self.names().len(),
    {
        self.names.len()
    }

    /// Where `name` was registered: its position, oldest first.
    pub fn position(&self, name: &str) -> (found: Option<usize>)
        requires
            self.wf(),
        ensures
            found is Some <==> self.has(name@),
            found matches Some(i) ==> i < self.names().len() && self.names()[i as int] == name@,
    {
        let found = index_get(&self.index, name);
        proof {
            self.lemma_index_holds(name@);
        }
        found
    }

    /// Whether a unit is registered under `name`.
    pub fn contains(&self, name: &str) -> (present: bool)
        requires
            self.wf(),
        ensures
            present == self.has(name@),
    {
        self.position(name).is_some()
    }

    /// Registers `unit` under `name`, behind the units registered so far. A
    /// name that is taken is refused, and the registry stays as it was.
    pub fn register(&mut self, name: String, unit: T) -> (result: Result<(), BootError>)
        requires
            old(self).wf(),
        ensures
            final(self).wf(),
            old(self).has(name@) ==> {
                &&& result matches Err(BootError::DuplicateComponent(taken))
                &&& taken@ == name@
                &&& *final(self) == *old(self)
            },
            !old(self).has(name@) ==> {
                &&& result is Ok
                &&& final(self).names() == old(self).names().push(name@)
                &&& final(self).units() == old(self).units().push(unit)
            },
    {
        if self.contains(name.as_str()) {
            return Err(BootError::DuplicateComponent(name));
        }
        let position = self.names.len();
        let key = name.clone();
        let _ = index_insert(&mut self.index, key, position);
        self.names.push(name);
        self.units.push(unit);
        proof {
            assert(self.names() =~= old(self).names().push(name@));
            assert forall|i: int| 0 <= i < self.names@.len() implies {
                &&& #[trigger] index_entries(self.index).contains_key(self.names@[i]@)
                &&& index_entries(self.index)[self.names@[i]@] == i
            } by {
                if i < position {
                    assert(old(self).names()[i] == old(self).names@[i]@);
                    assert(old(self).names().contains(old(self).names@[i]@));
                    assert(index_entries(old(self).index).contains_key(old(self).names@[i]@));
                }
            }
            assert forall|i: int, j: int|
                0 <= i < self.names().len() && 0 <= j < self.names().len() && i != j implies self.names()[i]
                != self.names()[j] by {
                if i < position && j < position {
                    assert(old(self).names()[i] != old(self).names()[j]);
                } else if i < position {
                    assert(old(self).names().contains(old(self).names()[i]));
                } else {
                    assert(old(self).names().contains(old(self).names()[j]));
                }
            }
        }
        Ok(())
    }

    /// The name at `position`, oldest first; `None` past the end.
    pub fn name(&self, position: usize) -> (found: Option<&String>)
        ensures
            found is Some <==> position < self.names().len(),
            found matches Some(name) ==> name@ == self.names()[position as int],
    {
        if position < self.names.len() {
            Some(&self.names[position])
        } else {
            None
        }
    }

    /// The unit at `position`, oldest first; `None` past the end.
    pub fn unit(&self, position: usize) -> (found: Option<&T>)
        ensures
            found is Some <==> position < self.units().len(),
            found matches Some(unit) ==> *unit == self.units()[position as int],
    {
        if position < self.units.len() {
            Some(&self.units[position])
        } else {
            None
        }
    }

    /// The unit registered under `name`, if there is one.
    pub fn get(&self, name: &str) -> (found: Option<&T>)
        requires
            self.wf(),
        ensures
            found is Some <==> self.has(name@),
            found matches Some(unit) ==> exists|i: int|
                0 <= i < self.names().len() && self.names()[i] == name@ && *unit == self.units()[i],
    {
        match self.position(name) {
            Some(position) => Some(&self.units[position]),
            None => None,
        }
    }

    /// All registered units, oldest first. The order is the same at every
    /// call for as long as nothing is registered.
    pub fn iterate(&self) -> (all: &Vec<T>)
        ensures
            all@ == self.units(),
    {
        &self.units
    }

    /// The index has an entry for `name` exactly if `name` is registered, and
    /// the entry is the position at which it stands.
    proof fn lemma_index_holds(&self, name: Seq<char>)
        requires
            self.wf(),
        ensures
            index_entries(self.index).contains_key(name) <==> self.has(name),
            index_entries(self.index).contains_key(name) ==> {
                &&& index_entries(self.index)[name] < self.names().len()
                &&& self.names()[index_entries(self.index)[name] as int] == name
            },
    {
        if self.has(name) {
            let i = choose|i: int| 0 <= i < self.names().len() && self.names()[i] == name;
            assert(self.names@[i]@ == name);
            assert(index_entries(self.index).contains_key(self.names@[i]@));
        }
        if index_entries(self.index).contains_key(name) {
            let i = index_entries(self.index)[name] as int;
            assert(self.names()[i] == name);
        }
    }
}

} // verus!
