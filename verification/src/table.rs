//! A small table from names to values.
use vstd::prelude::*;

verus! {

/// One named entry of a table.
struct Entry<V> {
    name: String,
    value: V,
}

/// The map that a sequence of entries stands for: each entry maps its name to
/// its value, and where a name occurs more than once the last entry counts.
spec fn entries_map<V>(entries: Seq<Entry<V>>) -> Map<Seq<char>, V>
    decreases entries.len(),
{
    if entries.len() == 0 {
        Map::empty()
    } else {
        entries_map(entries.drop_last()).insert(entries.last().name@, entries.last().value)
    }
}

/// A name that no entry carries is not in the map.
proof fn lemma_entries_map_absent<V>(entries: Seq<Entry<V>>, name: Seq<char>)
    requires
        forall|j: int| 0 <= j < entries.len() ==> entries[j].name@ != name,
    ensures
        !entries_map(entries).dom().contains(name),
    decreases entries.len(),
{
    if entries.len() > 0 {
        lemma_entries_map_absent(entries.drop_last(), name);
    }
}

/// The last entry that carries a name decides what the name maps to.
proof fn lemma_entries_map_last<V>(entries: Seq<Entry<V>>, name: Seq<char>, i: int)
    requires
        0 <= i < entries.len(),
        entries[i].name@ == name,
        forall|j: int| i < j < entries.len() ==> entries[j].name@ != name,
    ensures
        entries_map(entries).dom().contains(name),
        entries_map(entries)[name] == entries[i].value,
    decreases entries.len(),
{
    if i < entries.len() - 1 {
        lemma_entries_map_last(entries.drop_last(), name, i);
    }
}

/// Replacing the last entry that carries a name changes what that name maps
/// to and nothing else.
proof fn lemma_entries_map_update<V>(entries: Seq<Entry<V>>, i: int, entry: Entry<V>)
    requires
        0 <= i < entries.len(),
        entries[i].name@ == entry.name@,
        forall|j: int| i < j < entries.len() ==> entries[j].name@ != entry.name@,
    ensures
        entries_map(entries.update(i, entry)) == entries_map(entries).insert(
            entry.name@,
            entry.value,
        ),
    decreases entries.len(),
{
    let updated = entries.update(i, entry);
    if i == entries.len() - 1 {
        assert(updated.drop_last() =~= entries.drop_last());
    } else {
        assert(updated.drop_last() =~= entries.drop_last().update(i, entry));
        lemma_entries_map_update(entries.drop_last(), i, entry);
    }
}

/// A table from names to values.
pub struct NameTable<V> {
    entries: Vec<Entry<V>>,
}

impl<V> View for NameTable<V> {
    type V = Map<Seq<char>, V>;

    closed spec fn view(&self) -> Map<Seq<char>, V> {
        entries_map(self.entries@)
    }
}

impl<V> NameTable<V> {
    /// An empty table.
    pub fn new() -> (table: Self)
        ensures
            table@ == Map::<Seq<char>, V>::empty(),
    {
        NameTable { entries: Vec::new() }
    }

    /// The index of the last entry called `name`.
    fn position(&self, name: &String) -> (found: Option<usize>)
        ensures
            match found {
                Some(i) => i < self.entries.len() && self.entries[i as int].name@ == name@ && (
                forall|j: int| i < j < self.entries.len() ==> self.entries[j].name@ != name@),
                None => forall|j: int| 0 <= j < self.entries.len() ==> self.entries[j].name@ != name@,
            },
    {
        let mut i: usize = self.entries.len();
        while i > 0
            invariant
                i <= self.entries.len(),
                forall|j: int| i <= j < self.entries.len() ==> self.entries[j].name@ != name@,
            decreases i,
        {
            i = i - 1;
            if self.entries[i].name == *name {
                return Some(i);
            }
        }
        None
    }

    /// Whether the table has an entry called `name`.
    pub fn contains(&self, name: &str) -> (found: bool)
        ensures
            found == self@.dom().contains(name@),
    {
        let owned = name.to_owned();
        let found = self.position(&owned);
        proof {
            match found {
                Some(i) => lemma_entries_map_last(self.entries@, name@, i as int),
                None => lemma_entries_map_absent(self.entries@, name@),
            }
        }
        found.is_some()
    }

    /// The value called `name`, if there is one.
    pub fn get(&self, name: &str) -> (value: Option<&V>)
        ensures
            value == (if self@.dom().contains(name@) {
                Some(&self@[name@])
            } else {
                None
            }),
    {
        let owned = name.to_owned();
        let found = self.position(&owned);
        proof {
            match found {
                Some(i) => lemma_entries_map_last(self.entries@, name@, i as int),
                None => lemma_entries_map_absent(self.entries@, name@),
            }
        }
        match found {
            Some(i) => Some(&self.entries[i].value),
            None => None,
        }
    }

    /// Sets the value called `name`, whether or not there was one before.
    pub fn set(&mut self, name: &str, value: V)
        ensures
            final(self)@ == old(self)@.insert(name@, value),
    {
        let owned = name.to_owned();
        let found = self.position(&owned);
        let entry = Entry { name: owned, value };
        match found {
            Some(i) => {
                proof {
                    lemma_entries_map_update(self.entries@, i as int, entry);
                }
                self.entries[i] = entry;
            },
            None => {
                assert(self.entries@.push(entry).drop_last() =~= self.entries@);
                self.entries.push(entry);
            },
        }
    }

    /// Adds a value called `name` unless the table has one already. Returns
    /// whether the value was added.
    pub fn add(&mut self, name: &str, value: V) -> (added: bool)
        ensures
            added == !old(self)@.dom().contains(name@),
            added ==> final(self)@ == old(self)@.insert(name@, value),
            !added ==> final(self)@ == old(self)@,
    {
        let owned = name.to_owned();
        let found = self.position(&owned);
        proof {
            match found {
                Some(i) => lemma_entries_map_last(self.entries@, name@, i as int),
                None => lemma_entries_map_absent(self.entries@, name@),
            }
        }
        if found.is_some() {
            false
        } else {
            let entry = Entry { name: owned, value };
            assert(self.entries@.push(entry).drop_last() =~= self.entries@);
            self.entries.push(entry);
            true
        }
    }

    /// Removes every entry.
    pub fn clear(&mut self)
        ensures
            final(self)@ == Map::<Seq<char>, V>::empty(),
    {
        self.entries.clear();
    }
}

} // verus!
