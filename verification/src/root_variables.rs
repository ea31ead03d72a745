//! The variable usage map: for one fragment, every variable referenced
//! anywhere within its transitive selection set, with the type inferred
//! for it. It is produced by an upstream analysis pass and read-only to
//! the refetch generation; entries are kept in a deterministic order and
//! keyed by unique names.

use vstd::prelude::*;
use crate::ir::WithLocation;
use crate::schema::TypeReference;

verus! {

/// One usage-map entry: a variable's name (at the location it was first
/// seen) and its inferred type.
#[derive(Debug)]
pub struct Variable {
    pub name: WithLocation<String>,
    pub type_: TypeReference,
}

impl Clone for Variable {
    fn clone(&self) -> (r: Self)
        ensures
            r == *self,
    {
        Variable { name: self.name.clone(), type_: self.type_.clone() }
    }
}

/// The usage map itself: an ordered sequence of entries with unique
/// names.
#[derive(Debug)]
pub struct VariableMap {
    pub entries: Vec<Variable>,
}

impl VariableMap {
    /// Whether an entry of this name is present.
    pub open spec fn contains_name(self, name: Seq<char>) -> bool {
        exists|i: int| 0 <= i < self.entries@.len() && self.entries@[i].name.item@ == name
    }

    /// Well-formedness: entry names are unique.
    pub open spec fn wf(self) -> bool {
        forall|i: int, j: int|
            0 <= i < j < self.entries@.len() ==> self.entries@[i].name.item@
                != self.entries@[j].name.item@
    }

    /// An empty map.
    pub fn new() -> (m: VariableMap)
        ensures
            m.wf(),
            m.entries@.len() == 0,
    {
        VariableMap { entries: Vec::new() }
    }

    /// Whether an entry of this name is present.
    pub fn contains(&self, name: &String) -> (r: bool)
        ensures
            r == self.contains_name(name@),
    {
        let mut i: usize = 0;
        while i < self.entries.len()
            invariant
                i <= self.entries@.len(),
                forall|k: int| 0 <= k < i ==> self.entries@[k].name.item@ != name@,
            decreases self.entries@.len() - i,
        {
            if self.entries[i].name.item == *name {
                proof {
                    assert(self.entries@[i as int].name.item@ == name@);
                }
                return true;
            }
            i = i + 1;
        }
        false
    }

    /// Records a variable. Returns `true` when it was added; a variable
    /// whose name is already present leaves the map unchanged.
    pub fn add(&mut self, variable: Variable) -> (added: bool)
        ensures
            added == !old(self).contains_name(variable.name.item@),
            added ==> final(self).entries@ == old(self).entries@.push(variable),
            !added ==> *final(self) == *old(self),
            old(self).wf() ==> final(self).wf(),
    {
        if self.contains(&variable.name.item) {
            return false;
        }
        self.entries.push(variable);
        proof {
            if old(self).wf() {
                assert forall|i: int, j: int|
                    0 <= i < j < self.entries@.len() implies self.entries@[i].name.item@
                    != self.entries@[j].name.item@ by {
                    if j < self.entries@.len() - 1 {
                    } else {
                        assert(self.entries@[i] == old(self).entries@[i]);
                    }
                }
            }
        }
        true
    }
}

} // verus!
