//! The registry of compiled analyzers, keyed by name.

use vstd::prelude::*;
use crate::analyzer::{Analyzer, AnalyzerView};
use crate::text::same_text;

verus! {

/// A name-keyed store of analyzers. Registering under a name that is taken
/// replaces the analyzer that was there: the last registration wins.
#[derive(Debug)]
pub struct AnalyzerRegistry {
    entries: Vec<(String, Analyzer)>,
}

/// No name stands twice.
spec fn names_distinct(entries: Seq<(String, Analyzer)>) -> bool {
    forall|i: int, j: int|
        0 <= i < j < entries.len() ==> (#[trigger] entries[i]).0@ != (#[trigger] entries[j]).0@
}

/// Some entry has the name `name`.
spec fn has_name(entries: Seq<(String, Analyzer)>, name: Seq<char>) -> bool {
    exists|i: int| 0 <= i < entries.len() && (#[trigger] entries[i]).0@ == name
}

/// The mapping that the entries stand for, from each name to the analyzer
/// under it.
spec fn entries_map(entries: Seq<(String, Analyzer)>) -> Map<Seq<char>, AnalyzerView>
    decreases entries.len(),
{
    if entries.len() == 0 {
        Map::empty()
    } else {
        entries_map(entries.drop_last()).insert(entries.last().0@, entries.last().1@)
    }
}

/// The names of the mapping are the names of the entries, and where no name
/// stands twice each entry is what its name maps to.
proof fn lemma_entries_map(entries: Seq<(String, Analyzer)>)
    ensures
        forall|name: Seq<char>|
            #[trigger] entries_map(entries).contains_key(name) <==> has_name(entries, name),
        names_distinct(entries) ==> forall|i: int|
            0 <= i < entries.len() ==> entries_map(entries)[(#[trigger] entries[i]).0@]
                == entries[i].1@,
    decreases entries.len(),
{
    if entries.len() > 0 {
        let front = entries.drop_last();
        let last = entries.last();
        lemma_entries_map(front);
        assert(entries_map(entries) == entries_map(front).insert(last.0@, last.1@));
        assert forall|name: Seq<char>| #[trigger]
            entries_map(entries).contains_key(name) <==> has_name(entries, name) by {
            if name == last.0@ {
                assert(entries[entries.len() - 1].0@ == name);
            } else {
                assert(entries_map(entries).contains_key(name) == entries_map(front).contains_key(
                    name,
                ));
                if has_name(front, name) {
                    let i = choose|i: int| 0 <= i < front.len() && (#[trigger] front[i]).0@ == name;
                    assert(entries[i].0@ == name);
                }
                if has_name(entries, name) {
                    let i = choose|i: int|
                        0 <= i < entries.len() && (#[trigger] entries[i]).0@ == name;
                    assert(front[i].0@ == name);
                }
            }
        }
        if names_distinct(entries) {
            assert(names_distinct(front)) by {
                assert forall|i: int, j: int| 0 <= i < j < front.len() implies (
                #[trigger] front[i]).0@ != (#[trigger] front[j]).0@ by {
                    assert(front[i] == entries[i] && front[j] == entries[j]);
                }
            }
            assert forall|i: int| 0 <= i < entries.len() implies entries_map(entries)[(
            #[trigger] entries[i]).0@] == entries[i].1@ by {
                if i < entries.len() - 1 {
                    assert(front[i] == entries[i]);
                    assert(entries[i].0@ != entries[entries.len() - 1].0@);
                }
            }
        }
    }
}

/// Replacing the analyzer of an entry, under the same name, is an insertion
/// into the mapping.
proof fn lemma_entries_map_update(
    entries: Seq<(String, Analyzer)>,
    i: int,
    entry: (String, Analyzer),
)
    requires
        names_distinct(entries),
        0 <= i < entries.len(),
        entries[i].0@ == entry.0@,
    ensures
        names_distinct(entries.update(i, entry)),
        entries_map(entries.update(i, entry)) == entries_map(entries).insert(entry.0@, entry.1@),
    decreases entries.len(),
{
    let updated = entries.update(i, entry);
    assert forall|a: int, b: int| 0 <= a < b < updated.len() implies (#[trigger] updated[a]).0@ != (
    #[trigger] updated[b]).0@ by {
        assert(updated[a].0@ == entries[a].0@ && updated[b].0@ == entries[b].0@);
    }
    let front = entries.drop_last();
    let last = entries.last();
    if i == entries.len() - 1 {
        assert(updated.drop_last() =~= front);
        assert(entries_map(updated) =~= entries_map(entries).insert(entry.0@, entry.1@));
    } else {
        assert(names_distinct(front)) by {
            assert forall|a: int, b: int| 0 <= a < b < front.len() implies (#[trigger] front[a]).0@
                != (#[trigger] front[b]).0@ by {
                assert(front[a] == entries[a] && front[b] == entries[b]);
            }
        }
        assert(front[i] == entries[i]);
        lemma_entries_map_update(front, i, entry);
        assert(updated.drop_last() =~= front.update(i, entry));
        assert(updated.last() == last);
        assert(entries[i].0@ != entries[entries.len() - 1].0@);
        assert(entries_map(updated) =~= entries_map(entries).insert(entry.0@, entry.1@));
    }
}

impl View for AnalyzerRegistry {
    type V = Map<Seq<char>, AnalyzerView>;

    closed spec fn view(&self) -> Map<Seq<char>, AnalyzerView> {
        entries_map(self.entries@)
    }
}

impl AnalyzerRegistry {
    #[verifier::type_invariant]
    spec fn distinct(self) -> bool {
        names_distinct(self.entries@)
    }

    /// A registry that holds nothing.
    pub fn new() -> (registry: AnalyzerRegistry)
        ensures
            registry@ == Map::<Seq<char>, AnalyzerView>::empty(),
    {
        AnalyzerRegistry { entries: Vec::new() }
    }

    /// The index of the entry under `name`.
    fn position(&self, name: &str) -> (found: Option<usize>)
        ensures
            match found {
                Some(i) => i < self.entries@.len() && self.entries@[i as int].0@ == name@,
                None => !has_name(self.entries@, name@),
            },
    {
        let mut i: usize = 0;
        while i < self.entries.len()
            invariant
                i <= self.entries@.len(),
                forall|j: int| 0 <= j < i ==> (#[trigger] self.entries@[j]).0@ != name@,
            decreases self.entries@.len() - i,
        {
            if same_text(self.entries[i].0.as_str(), name) {
                return Some(i);
            }
            i += 1;
        }
        None
    }

    /// Puts `analyzer` under `name`, in place of what was there.
    pub fn register(&mut self, name: String, analyzer: Analyzer)
        ensures
            final(self)@ == old(self)@.insert(name@, analyzer@),
    {
        proof {
            use_type_invariant(&*self);
        }
        let found = self.position(name.as_str());
        let mut entries: Vec<(String, Analyzer)> = Vec::new();
        core::mem::swap(&mut self.entries, &mut entries);
        let ghost before = entries@;
        match found {
            Some(i) => {
                proof {
                    lemma_entries_map_update(before, i as int, (name, analyzer));
                }
                entries.set(i, (name, analyzer));
            },
            None => {
                proof {
                    let after = before.push((name, analyzer));
                    assert(after.drop_last() =~= before);
                    assert forall|a: int, b: int| 0 <= a < b < after.len() implies (
                    #[trigger] after[a]).0@ != (#[trigger] after[b]).0@ by {
                        if b == before.len() {
                            assert(before[a].0@ != name@);
                        }
                    }
                }
                entries.push((name, analyzer));
            },
        }
        core::mem::swap(&mut self.entries, &mut entries);
    }

    /// The analyzer under `name`, if there is one.
    pub fn get(&self, name: &str) -> (found: Option<&Analyzer>)
        ensures
            match found {
                Some(analyzer) => self@.contains_key(name@) && self@[name@] == analyzer@,
                None => !self@.contains_key(name@),
            },
    {
        proof {
            use_type_invariant(self);
            lemma_entries_map(self.entries@);
        }
        match self.position(name) {
            Some(i) => Some(&self.entries[i].1),
            None => None,
        }
    }

    /// Whether an analyzer stands under `name`.
    pub fn contains(&self, name: &str) -> (found: bool)
        ensures
            found == self@.contains_key(name@),
    {
        self.get(name).is_some()
    }

    /// The names under which analyzers stand, each once.
    pub fn names(&self) -> (names: Vec<String>)
        ensures
            forall|name: Seq<char>|
                self@.contains_key(name) <==> exists|i: int|
                    0 <= i < names@.len() && (#[trigger] names@[i])@ == name,
            forall|i: int, j: int|
                0 <= i < j < names@.len() ==> (#[trigger] names@[i])@ != (#[trigger] names@[j])@,
    {
        proof {
            use_type_invariant(self);
            lemma_entries_map(self.entries@);
        }
        let mut names: Vec<String> = Vec::new();
        let mut i: usize = 0;
        while i < self.entries.len()
            invariant
                i <= self.entries@.len(),
                names@.len() == i,
                forall|j: int| 0 <= j < i ==> (#[trigger] names@[j])@ == self.entries@[j].0@,
            decreases self.entries@.len() - i,
        {
            names.push(self.entries[i].0.clone());
            i += 1;
        }
        proof {
            assert forall|name: Seq<char>|
                self@.contains_key(name) <==> exists|i: int|
                    0 <= i < names@.len() && (#[trigger] names@[i])@ == name by {
                if has_name(self.entries@, name) {
                    let k = choose|k: int|
                        0 <= k < self.entries@.len() && (#[trigger] self.entries@[k]).0@ == name;
                    assert(names@[k]@ == name);
                }
                if exists|i: int| 0 <= i < names@.len() && (#[trigger] names@[i])@ == name {
                    let k = choose|k: int| 0 <= k < names@.len() && (#[trigger] names@[k])@ == name;
                    assert(self.entries@[k].0@ == name);
                }
            }
        }
        names
    }
}

} // verus!
