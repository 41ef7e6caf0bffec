//! The table of global variables.

use vstd::prelude::*;
use crate::value::{Value, ValueView};

verus! {

/// One binding of a global variable.
#[derive(Debug)]
pub struct Global {
    pub name: String,
    pub value: Value,
}

/// The mapping that a list of bindings stands for: where a name occurs more
/// than once, its last binding counts.
pub open spec fn bindings(entries: Seq<Global>) -> Map<Seq<char>, ValueView>
    decreases entries.len(),
{
    if entries.len() == 0 {
        Map::empty()
    } else {
        bindings(entries.drop_last()).insert(entries.last().name@, entries.last().value@)
    }
}

/// Whether `index` is the position of the last binding of `name`.
pub open spec fn is_last_binding(entries: Seq<Global>, name: Seq<char>, index: int) -> bool {
    &&& 0 <= index < entries.len()
    &&& entries[index].name@ == name
    &&& forall|j: int| index < j < entries.len() ==> (#[trigger] entries[j]).name@ != name
}

/// A name that no entry carries is unbound.
pub proof fn lemma_unbound(entries: Seq<Global>, name: Seq<char>)
    requires
        forall|j: int| 0 <= j < entries.len() ==> (#[trigger] entries[j]).name@ != name,
    ensures
        !bindings(entries).contains_key(name),
    decreases entries.len(),
{
    if entries.len() > 0 {
        lemma_unbound(entries.drop_last(), name);
    }
}

/// A name is bound to the value of its last binding.
pub proof fn lemma_bound(entries: Seq<Global>, name: Seq<char>, index: int)
    requires
        is_last_binding(entries, name, index),
    ensures
        bindings(entries).contains_key(name),
        bindings(entries)[name] == entries[index].value@,
    decreases entries.len(),
{
    if index < entries.len() - 1 {
        lemma_bound(entries.drop_last(), name, index);
    }
}

/// Replacing the last binding of a name rebinds the name and nothing else.
pub proof fn lemma_rebound(entries: Seq<Global>, name: Seq<char>, index: int, entry: Global)
    requires
        is_last_binding(entries, name, index),
        entry.name@ == name,
    ensures
        bindings(entries.update(index, entry)) == bindings(entries).insert(name, entry.value@),
    decreases entries.len(),
{
    let updated = entries.update(index, entry);
    if index < entries.len() - 1 {
        lemma_rebound(entries.drop_last(), name, index, entry);
        assert(updated.drop_last() =~= entries.drop_last().update(index, entry));
        assert(updated.last() == entries.last());
        assert(bindings(updated) =~= bindings(entries).insert(name, entry.value@));
    } else {
        assert(updated.drop_last() =~= entries.drop_last());
        assert(bindings(updated) =~= bindings(entries).insert(name, entry.value@));
    }
}

/// The global variables of a machine, by name.
#[derive(Debug)]
pub struct Globals {
    entries: Vec<Global>,
}

impl View for Globals {
    type V = Map<Seq<char>, ValueView>;

    closed spec fn view(&self) -> Map<Seq<char>, ValueView> {
        bindings(self.entries@)
    }
}

impl Globals {
    /// A table with no bindings.
    pub fn new() -> (res: Globals)
        ensures
            res@ == Map::<Seq<char>, ValueView>::empty(),
    {
        Globals { entries: Vec::new() }
    }

    /// The position of the last binding of `name`, if it has one.
    fn find(&self, name: &String) -> (res: Option<usize>)
        ensures
            match res {
                Some(index) => is_last_binding(self.entries@, name@, index as int),
                None => forall|j: int|
                    0 <= j < self.entries@.len() ==> (#[trigger] self.entries@[j]).name@ != name@,
            },
    {
        let mut index = self.entries.len();
        while index > 0
            invariant
                index <= self.entries@.len(),
                forall|j: int|
                    index <= j < self.entries@.len() ==> (#[trigger] self.entries@[j]).name@
                        != name@,
            decreases index,
        {
            index -= 1;
            if self.entries[index].name == *name {
                return Some(index);
            }
        }
        None
    }

    /// Whether `name` is bound.
    pub fn contains(&self, name: &String) -> (res: bool)
        ensures
            res == self@.contains_key(name@),
    {
        let found = self.find(name);
        proof {
            match found {
                Some(index) => lemma_bound(self.entries@, name@, index as int),
                None => lemma_unbound(self.entries@, name@),
            }
        }
        found.is_some()
    }

    /// The value that `name` is bound to; `None` when it is unbound.
    pub fn get(&self, name: &String) -> (res: Option<&Value>)
        ensures
            res is Some == self@.contains_key(name@),
            res matches Some(value) ==> value@ == self@[name@],
    {
        match self.find(name) {
            Some(index) => {
                proof {
                    lemma_bound(self.entries@, name@, index as int);
                }
                Some(&self.entries[index].value)
            },
            None => {
                proof {
                    lemma_unbound(self.entries@, name@);
                }
                None
            },
        }
    }

    /// Binds `name` to `value`, whether or not it was bound before.
    pub fn insert(&mut self, name: String, value: Value)
        ensures
            final(self)@ == old(self)@.insert(name@, value@),
    {
        match self.find(&name) {
            Some(index) => {
                let entry = Global { name, value };
                proof {
                    lemma_rebound(self.entries@, entry.name@, index as int, entry);
                }
                self.entries.set(index, entry);
            },
            None => {
                let entry = Global { name, value };
                self.entries.push(entry);
                assert(self.entries@.drop_last() =~= old(self).entries@);
            },
        }
    }
}

} // verus!
