//! The table of known projects: short keys and the names shown for them.

use crate::text::{first_index, lemma_first_index, lemma_first_index_step};
use vstd::prelude::*;

verus! {

/// A table as a list of entries, each a key and the name that goes with it.
pub type Table = Seq<(Seq<char>, Seq<char>)>;

/// The keys of `table`, in the order of its entries.
pub open spec fn keys_of(table: Table) -> Seq<Seq<char>> {
    Seq::new(table.len(), |i: int| table[i].0)
}

/// The place of `key` in `table`, if it has one: the first entry with that key.
pub open spec fn position(table: Table, key: Seq<char>) -> Option<int> {
    first_index(keys_of(table), key)
}

/// The name that `table` gives for `key`.
pub open spec fn name_of(table: Table, key: Seq<char>) -> Option<Seq<char>> {
    match position(table, key) {
        Some(i) => Some(table[i].1),
        None => None,
    }
}

/// `table` after `key` was given `name`: the entry of a known key is
/// replaced where it stands, a new key is added at the end.
pub open spec fn put(table: Table, key: Seq<char>, name: Seq<char>) -> Table {
    match position(table, key) {
        Some(i) => table.update(i, (key, name)),
        None => table.push((key, name)),
    }
}

/// No key occurs twice in `table`.
pub open spec fn distinct_keys(table: Table) -> bool {
    forall|i: int, j: int|
        0 <= i < table.len() && 0 <= j < table.len() && i != j ==> (#[trigger] table[i]).0 != (
        #[trigger] table[j]).0
}

/// What `position` finds is an entry with the key, and none stands before it;
/// where it finds nothing, no entry has the key.
pub proof fn lemma_position(table: Table, key: Seq<char>)
    ensures
        match position(table, key) {
            Some(i) => 0 <= i < table.len() && table[i].0 == key && forall|j: int|
                0 <= j < i ==> (#[trigger] table[j]).0 != key,
            None => forall|j: int| 0 <= j < table.len() ==> (#[trigger] table[j]).0 != key,
        },
{
    let keys = keys_of(table);
    lemma_first_index(keys, key);
    match position(table, key) {
        Some(i) => {
            assert(keys[i] == table[i].0);
            assert forall|j: int| 0 <= j < i implies (#[trigger] table[j]).0 != key by {
                assert(keys[j] == table[j].0);
            }
        },
        None => {
            assert forall|j: int| 0 <= j < table.len() implies (#[trigger] table[j]).0 != key by {
                assert(keys[j] == table[j].0);
            }
        },
    }
}

/// Giving a key a name keeps the keys distinct, and the key then has that name.
pub proof fn lemma_put(table: Table, key: Seq<char>, name: Seq<char>)
    requires
        distinct_keys(table),
    ensures
        distinct_keys(put(table, key, name)),
        name_of(put(table, key, name), key) == Some(name),
        forall|other: Seq<char>|
            other != key ==> name_of(put(table, key, name), other) == name_of(table, other),
{
    let after = put(table, key, name);
    lemma_position(table, key);
    lemma_position(after, key);
    match position(table, key) {
        Some(i) => {
            assert(after[i].0 == key);
        },
        None => {
            assert(after[table.len() as int].0 == key);
            assert forall|j: int| 0 <= j < table.len() implies (#[trigger] after[j]).0 != key by {
                assert(after[j] == table[j]);
            }
        },
    }
    assert forall|i: int, j: int|
        0 <= i < after.len() && 0 <= j < after.len() && i != j implies (#[trigger] after[i]).0 != (
    #[trigger] after[j]).0 by {
        if i < table.len() && j < table.len() {
            assert(after[i].0 == table[i].0);
            assert(after[j].0 == table[j].0);
        }
    }
    assert forall|other: Seq<char>| other != key implies name_of(after, other) == name_of(
        table,
        other,
    ) by {
        lemma_position(table, other);
        lemma_position(after, other);
        match position(table, other) {
            Some(i) => {
                assert(after[i] == table[i]);
                match position(after, other) {
                    Some(k) => {
                        if k < i {
                            assert(after[k].0 == table[k].0);
                        }
                    },
                    None => {},
                }
            },
            None => {
                match position(after, other) {
                    Some(k) => {
                        if k < table.len() {
                            assert(after[k].0 == table[k].0);
                        }
                    },
                    None => {},
                }
            },
        }
    }
}

/// The projects a profile knows: keys, each with a name, no key twice.
#[derive(Debug)]
pub struct Projects {
    entries: Vec<(String, String)>,
}

/// The table that a list of stored entries stands for.
spec fn table_of(entries: Seq<(String, String)>) -> Table {
    Seq::new(entries.len(), |i: int| (entries[i].0@, entries[i].1@))
}

impl View for Projects {
    type V = Table;

    closed spec fn view(&self) -> Table {
        table_of(self.entries@)
    }
}

impl Projects {
    #[verifier::type_invariant]
    spec fn well_formed(&self) -> bool {
        distinct_keys(self@)
    }

    /// The table without any project.
    pub fn new() -> (table: Projects)
        ensures
            table@ == Table::empty(),
    {
        let table = Projects { entries: Vec::new() };
        assert(table@ =~= Table::empty());
        table
    }

    /// The number of projects.
    pub fn len(&self) -> (n: usize)
        ensures
            n == self@.len(),
            distinct_keys(self@),
    {
        proof {
            use_type_invariant(self);
        }
        self.entries.len()
    }

    /// Tells whether no project is known.
    pub fn is_empty(&self) -> (none: bool)
        ensures
            none == (self@.len() == 0),
    {
        self.entries.len() == 0
    }

    fn find(&self, key: &str) -> (found: Option<usize>)
        ensures
            match found {
                Some(i) => position(self@, key@) == Some(i as int) && i < self.entries@.len(),
                None => position(self@, key@) is None,
            },
    {
        let wanted = String::from_str(key);
        let mut i: usize = 0;
        while i < self.entries.len()
            invariant
                i <= self.entries@.len(),
                wanted@ == key@,
                first_index(keys_of(self@).take(i as int), key@) is None,
            decreases self.entries@.len() - i,
        {
            proof {
                lemma_first_index_step(keys_of(self@), key@, i + 1);
            }
            if self.entries[i].0 == wanted {
                return Some(i);
            }
            i = i + 1;
        }
        assert(keys_of(self@).take(i as int) == keys_of(self@));
        None
    }

    /// Tells whether `key` is the key of a project.
    pub fn contains_key(&self, key: &str) -> (known: bool)
        ensures
            known == position(self@, key@) is Some,
    {
        self.find(key).is_some()
    }

    /// The name of the project `key`.
    pub fn get(&self, key: &str) -> (name: Option<&String>)
        ensures
            match name {
                Some(n) => name_of(self@, key@) == Some(n@),
                None => name_of(self@, key@) is None,
            },
    {
        match self.find(key) {
            Some(i) => Some(&self.entries[i].1),
            None => None,
        }
    }

    /// Gives the project `key` the name `name`, whether the key is new or known.
    pub fn insert(&mut self, key: String, name: String)
        ensures
            final(self)@ == put(old(self)@, key@, name@),
    {
        let mut table = Projects::new();
        core::mem::swap(self, &mut table);
        proof {
            use_type_invariant(&table);
            lemma_put(table@, key@, name@);
        }
        let ghost before = table@;
        let found = table.find(key.as_str());
        let mut entries = table.entries;
        match found {
            Some(i) => {
                entries.set(i, (key, name));
            },
            None => {
                entries.push((key, name));
            },
        }
        assert(table_of(entries@) =~= put(before, key@, name@));
        *self = Projects { entries };
    }

    /// The projects, each as its key and its name, in the order of the table.
    pub fn entries(&self) -> (entries: Vec<(String, String)>)
        ensures
            entries.deep_view() == self@,
            distinct_keys(self@),
    {
        proof {
            use_type_invariant(self);
        }
        let mut entries: Vec<(String, String)> = Vec::new();
        let mut i: usize = 0;
        while i < self.entries.len()
            invariant
                i <= self.entries@.len(),
                entries@.len() == i,
                forall|j: int|
                    0 <= j < i ==> (#[trigger] entries@[j]).0@ == self@[j].0 && entries@[j].1@
                        == self@[j].1,
            decreases self.entries@.len() - i,
        {
            entries.push((self.entries[i].0.clone(), self.entries[i].1.clone()));
            i = i + 1;
        }
        assert(entries.deep_view() =~= self@);
        entries
    }

    /// The keys of the projects, in the order of the table.
    pub fn keys(&self) -> (keys: Vec<String>)
        ensures
            keys.deep_view() == keys_of(self@),
            keys_of(self@).no_duplicates(),
    {
        proof {
            use_type_invariant(self);
        }
        let mut keys: Vec<String> = Vec::new();
        let mut i: usize = 0;
        while i < self.entries.len()
            invariant
                i <= self.entries@.len(),
                keys@.len() == i,
                forall|j: int| 0 <= j < i ==> (#[trigger] keys@[j])@ == self@[j].0,
            decreases self.entries@.len() - i,
        {
            keys.push(self.entries[i].0.clone());
            i = i + 1;
        }
        assert(keys.deep_view() =~= keys_of(self@));
        keys
    }
}

impl Clone for Projects {
    fn clone(&self) -> (copy: Self)
        ensures
            copy@ == self@,
    {
        proof {
            use_type_invariant(self);
        }
        let entries = self.entries();
        assert(table_of(entries@) =~= self@);
        let copy = Projects { entries };
        assert(copy@ =~= self@);
        copy
    }
}

} // verus!
