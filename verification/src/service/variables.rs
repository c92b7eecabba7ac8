//! The variables of a task or of a report, by name.

use vstd::prelude::*;
use crate::service::model::{Variable, VariableView};

verus! {

/// The mathematical value of a [`VariableMap`]: names and variables, in the
/// order in which the names first came.
pub type VariableEntries = Seq<(Seq<char>, VariableView)>;

/// The values of a list of entries, one for one.
pub open spec fn entry_views(entries: Seq<(String, Variable)>) -> VariableEntries {
    entries.map_values(|e: (String, Variable)| (e.0@, e.1@))
}

/// No name occurs twice.
pub open spec fn distinct_names(entries: VariableEntries) -> bool {
    forall|i: int, j: int|
        0 <= i < j < entries.len() ==> (#[trigger] entries[i]).0 != (#[trigger] entries[j]).0
}

/// Some entry has this name.
pub open spec fn has_name(entries: VariableEntries, name: Seq<char>) -> bool {
    exists|k: int| 0 <= k < entries.len() && (#[trigger] entries[k]).0 == name
}

/// The place of an entry with this name, where there is one.
pub open spec fn position(entries: VariableEntries, name: Seq<char>) -> int {
    choose|k: int| 0 <= k < entries.len() && (#[trigger] entries[k]).0 == name
}

/// The variable of this name, if there is one.
pub open spec fn variable_named(entries: VariableEntries, name: Seq<char>) -> Option<
    VariableView,
> {
    if has_name(entries, name) {
        Some(entries[position(entries, name)].1)
    } else {
        None
    }
}

/// The entries after `name` has been set to `variable`: in the place of the
/// old entry of that name, or appended where there was none.
pub open spec fn with_variable(
    entries: VariableEntries,
    name: Seq<char>,
    variable: VariableView,
) -> VariableEntries {
    if has_name(entries, name) {
        entries.update(position(entries, name), (name, variable))
    } else {
        entries.push((name, variable))
    }
}

/// Where the names are distinct, an entry is the one that its name finds.
pub proof fn lemma_position_is_unique(entries: VariableEntries, at: int)
    requires
        distinct_names(entries),
        0 <= at < entries.len(),
    ensures
        has_name(entries, entries[at].0),
        position(entries, entries[at].0) == at,
        variable_named(entries, entries[at].0) == Some(entries[at].1),
{
    let name = entries[at].0;
    let chosen = position(entries, name);
    assert(entries[chosen].0 == name);
    if chosen < at {
        assert(entries[chosen].0 != entries[at].0);
    } else if chosen > at {
        assert(entries[at].0 != entries[chosen].0);
    }
}

/// Setting a variable keeps the names distinct, makes the name find the new
/// variable, and leaves every other name with what it found before.
pub proof fn lemma_with_variable(
    entries: VariableEntries,
    name: Seq<char>,
    variable: VariableView,
    other: Seq<char>,
)
    requires
        distinct_names(entries),
    ensures
        distinct_names(with_variable(entries, name, variable)),
        variable_named(with_variable(entries, name, variable), name) == Some(variable),
        other != name ==> variable_named(with_variable(entries, name, variable), other)
            == variable_named(entries, other),
        with_variable(entries, name, variable).len() == if has_name(entries, name) {
            entries.len()
        } else {
            entries.len() + 1
        },
{
    let after = with_variable(entries, name, variable);
    let at = if has_name(entries, name) {
        position(entries, name)
    } else {
        entries.len() as int
    };
    assert(after.len() > at && after[at] == (name, variable));
    assert forall|i: int, j: int| 0 <= i < j < after.len() implies (#[trigger] after[i]).0 != (
    #[trigger] after[j]).0 by {
        if i != at && j != at {
            assert(after[i] == entries[i] && after[j] == entries[j]);
        } else if i == at {
            if j < entries.len() {
                assert(after[j] == entries[j]);
                if has_name(entries, name) {
                    assert(entries[at].0 != entries[j].0);
                }
            }
        } else {
            assert(after[i] == entries[i]);
            if has_name(entries, name) {
                assert(entries[i].0 != entries[at].0);
            }
        }
    }
    lemma_position_is_unique(after, at);
    if other != name {
        if has_name(entries, other) {
            let k = position(entries, other);
            assert(after[k] == entries[k]);
            lemma_position_is_unique(after, k);
        } else if has_name(after, other) {
            let k = position(after, other);
            assert(k != at);
            assert(entries[k].0 == other);
        }
    }
}

/// Variables by name. A name occurs once; the entries keep the order in
/// which their names were first inserted.
#[derive(Debug, PartialEq, Eq)]
pub struct VariableMap {
    entries: Vec<(String, Variable)>,
}

impl View for VariableMap {
    type V = VariableEntries;

    closed spec fn view(&self) -> VariableEntries {
        entry_views(self.entries@)
    }
}

impl VariableMap {
    #[verifier::type_invariant]
    spec fn names_are_distinct(self) -> bool {
        distinct_names(entry_views(self.entries@))
    }

    /// A map without entries.
    pub fn new() -> (map: Self)
        ensures
            map@ == Seq::<(Seq<char>, VariableView)>::empty(),
    {
        let map = VariableMap { entries: Vec::new() };
        assert(entry_views(map.entries@) =~= Seq::empty());
        map
    }

    /// The number of entries.
    pub fn len(&self) -> (len: usize)
        ensures
            len == self@.len(),
    {
        self.entries.len()
    }

    /// Whether the map has no entry.
    pub fn is_empty(&self) -> (empty: bool)
        ensures
            empty == (self@.len() == 0),
    {
        self.entries.len() == 0
    }

    /// The entries in their order.
    pub fn entries(&self) -> (entries: &Vec<(String, Variable)>)
        ensures
            entry_views(entries@) == self@,
            distinct_names(self@),
    {
        proof {
            use_type_invariant(self);
        }
        &self.entries
    }

    /// The place of `name` among the entries, or their number where no
    /// entry has the name.
    fn find(&self, name: &String) -> (at: usize)
        ensures
            at <= self.entries.len(),
            at < self.entries.len() ==> self.entries[at as int].0@ == name@,
            at == self.entries.len() ==> !has_name(self@, name@),
            at < self.entries.len() ==> has_name(self@, name@) && position(self@, name@) == at,
    {
        proof {
            use_type_invariant(self);
        }
        let mut i: usize = 0;
        while i < self.entries.len()
            invariant
                i <= self.entries.len(),
                forall|k: int| 0 <= k < i ==> self.entries[k].0@ != name@,
                distinct_names(self@),
            decreases self.entries.len() - i,
        {
            if self.entries[i].0 == *name {
                proof {
                    assert(self@[i as int].0 == name@);
                    lemma_position_is_unique(self@, i as int);
                }
                return i;
            }
            i += 1;
        }
        assert forall|k: int| 0 <= k < self@.len() implies (#[trigger] self@[k]).0 != name@ by {
            assert(self@[k].0 == self.entries[k].0@);
        }
        i
    }

    /// Whether some entry has this name.
    pub fn contains_key(&self, name: &str) -> (found: bool)
        ensures
            found == has_name(self@, name@),
    {
        let key = name.to_owned();
        self.find(&key) < self.entries.len()
    }

    /// The variable of this name, if there is one.
    pub fn get(&self, name: &str) -> (found: Option<&Variable>)
        ensures
            match found {
                Some(variable) => variable_named(self@, name@) == Some(variable@),
                None => variable_named(self@, name@) is None,
            },
    {
        let key = name.to_owned();
        let at = self.find(&key);
        if at < self.entries.len() {
            Some(&self.entries[at].1)
        } else {
            None
        }
    }

    /// Sets `name` to `variable`. Where the name was set before, the new
    /// variable takes the place of the old one, which is returned.
    pub fn insert(&mut self, name: String, variable: Variable) -> (replaced: Option<Variable>)
        ensures
            final(self)@ == with_variable(old(self)@, name@, variable@),
            match replaced {
                Some(before) => variable_named(old(self)@, name@) == Some(before@),
                None => variable_named(old(self)@, name@) is None,
            },
    {
        proof {
            use_type_invariant(&*self);
        }
        let at = self.find(&name);
        let ghost before = self@;
        if at < self.entries.len() {
            let mut entries: Vec<(String, Variable)> = Vec::new();
            std::mem::swap(&mut entries, &mut self.entries);
            let old_entry = entries.remove(at);
            entries.insert(at, (name, variable));
            assert(entry_views(entries@) =~= before.update(at as int, (name@, variable@)));
            self.entries = entries;
            Some(old_entry.1)
        } else {
            let mut entries: Vec<(String, Variable)> = Vec::new();
            std::mem::swap(&mut entries, &mut self.entries);
            entries.push((name, variable));
            assert(entry_views(entries@) =~= before.push((name@, variable@)));
            self.entries = entries;
            None
        }
    }
}

impl Default for VariableMap {
    fn default() -> (map: Self)
        ensures
            map@ == Seq::<(Seq<char>, VariableView)>::empty(),
    {
        VariableMap::new()
    }
}

impl Clone for VariableMap {
    fn clone(&self) -> (copy: Self)
        ensures
            copy@ == self@,
    {
        proof {
            use_type_invariant(self);
        }
        let mut entries: Vec<(String, Variable)> = Vec::new();
        let mut i: usize = 0;
        while i < self.entries.len()
            invariant
                i <= self.entries.len(),
                entries.len() == i,
                forall|k: int|
                    0 <= k < i ==> entries[k].0@ == self.entries[k].0@ && entries[k].1@
                        == self.entries[k].1@,
            decreases self.entries.len() - i,
        {
            entries.push((self.entries[i].0.clone(), self.entries[i].1.clone()));
            i += 1;
        }
        assert(entry_views(entries@) =~= entry_views(self.entries@));
        VariableMap { entries }
    }
}

} // verus!
