//! Small maps that keep the order of insertion: lists of entries with
//! distinct names.

use vstd::prelude::*;

verus! {

pub struct NameTable<V> {
    entries: Vec<(String, V)>,
}

/// Whether entry `i` is the entry of the name.
pub open spec fn names_at<K, V>(entries: Seq<(K, V)>, name: K, i: int) -> bool {
    0 <= i < entries.len() && entries[i].0 == name
}

/// Whether no two entries have the same name.
pub open spec fn distinct_names<K, V>(entries: Seq<(K, V)>) -> bool {
    forall|i: int, j: int|
        0 <= i < j < entries.len() ==> (#[trigger] entries[i]).0 != (#[trigger] entries[j]).0
}

/// The map that entries with distinct names stand for.
pub open spec fn map_of<K, V>(entries: Seq<(K, V)>) -> Map<K, V> {
    Map::new(
        |name: K| exists|i: int| names_at(entries, name, i),
        |name: K| entries[choose|i: int| names_at(entries, name, i)].1,
    )
}

impl<V> NameTable<V> {
    /// The entries in the order of their first insertion: name and value.
    pub closed spec fn entries(&self) -> Seq<(Seq<char>, V)> {
        Seq::new(self.entries@.len(), |i: int| (self.entries@[i].0@, self.entries@[i].1))
    }

    /// No two entries have the same name.
    pub open spec fn wf(&self) -> bool {
        distinct_names(self.entries())
    }

    /// An empty table.
    pub fn new() -> (table: NameTable<V>)
        ensures
            table.wf(),
            table.entries().len() == 0,
            table@ == Map::<Seq<char>, V>::empty(),
    {
        let table = NameTable { entries: Vec::new() };
        assert(table@ =~= Map::<Seq<char>, V>::empty());
        table
    }

    /// The number of entries.
    pub fn len(&self) -> (len: usize)
        ensures
            len == self.entries().len(),
    {
        self.entries.len()
    }

    /// The place of the entry of a name, if the table has one.
    pub fn position(&self, name: &str) -> (found: Option<usize>)
        ensures
            match found {
                Some(i) => names_at(self.entries(), name@, i as int),
                None => !self@.dom().contains(name@),
            },
    {
        let wanted: String = name.to_owned();
        let mut i: usize = 0;
        while i < self.entries.len()
            invariant
                i <= self.entries@.len(),
                wanted@ == name@,
                forall|j: int| 0 <= j < i ==> !names_at(self.entries(), name@, j),
            decreases self.entries@.len() - i,
        {
            if self.entries[i].0 == wanted {
                assert(self.entries()[i as int].0 == name@);
                return Some(i);
            }
            assert(self.entries()[i as int].0 != name@);
            i = i + 1;
        }
        None
    }

    /// Whether the table has an entry of the name.
    pub fn contains_key(&self, name: &str) -> (found: bool)
        ensures
            found == self@.dom().contains(name@),
    {
        self.position(name).is_some()
    }

    /// The value of a name, if the table has one.
    pub fn get(&self, name: &str) -> (value: Option<&V>)
        requires
            self.wf(),
        ensures
            match value {
                Some(value) => self@.dom().contains(name@) && *value == self@[name@],
                None => !self@.dom().contains(name@),
            },
    {
        match self.position(name) {
            Some(i) => {
                proof {
                    lemma_map_of_entry(self.entries(), i as int);
                }
                Some(&self.entries[i].1)
            },
            None => None,
        }
    }

    /// The entry at a place: name and value.
    pub fn entry(&self, i: usize) -> (entry: (&String, &V))
        requires
            i < self.entries().len(),
        ensures
            entry.0@ == self.entries()[i as int].0,
            *entry.1 == self.entries()[i as int].1,
    {
        (&self.entries[i].0, &self.entries[i].1)
    }

    /// Sets the value of a name. A name that the table has keeps its place;
    /// a new name goes to the end.
    pub fn insert(&mut self, name: String, value: V)
        requires
            old(self).wf(),
        ensures
            final(self).wf(),
            final(self)@ == old(self)@.insert(name@, value),
            old(self)@.dom().contains(name@) ==> final(self).entries().len() == old(
                self,
            ).entries().len(),
            !old(self)@.dom().contains(name@) ==> final(self).entries() == old(
                self,
            ).entries().push((name@, value)),
    {
        let ghost before = self.entries();
        match self.position(name.as_str()) {
            Some(i) => {
                self.entries[i] = (name, value);
                assert(self.entries() =~= before.update(i as int, (name@, value)));
                proof {
                    lemma_map_of_update(before, i as int, value);
                }
            },
            None => {
                self.entries.push((name, value));
                assert(self.entries() =~= before.push((name@, value)));
                proof {
                    lemma_map_of_push(before, name@, value);
                }
            },
        }
    }

    /// Removes every entry.
    pub fn clear(&mut self)
        ensures
            final(self).wf(),
            final(self).entries().len() == 0,
            final(self)@ == Map::<Seq<char>, V>::empty(),
    {
        self.entries = Vec::new();
        assert(self@ =~= Map::<Seq<char>, V>::empty());
    }
}

impl<V> View for NameTable<V> {
    type V = Map<Seq<char>, V>;

    open spec fn view(&self) -> Map<Seq<char>, V> {
        map_of(self.entries())
    }
}

/// Among entries with distinct names, the map gives each name the value of
/// its entry.
pub proof fn lemma_map_of_entry<K, V>(entries: Seq<(K, V)>, i: int)
    requires
        distinct_names(entries),
        0 <= i < entries.len(),
    ensures
        map_of(entries).dom().contains(entries[i].0),
        map_of(entries)[entries[i].0] == entries[i].1,
{
    let name = entries[i].0;
    assert(names_at(entries, name, i));
    let j = choose|j: int| names_at(entries, name, j);
    if j < i {
        assert(entries[j].0 != entries[i].0);
    } else if i < j {
        assert(entries[i].0 != entries[j].0);
    }
}

/// Replacing the value of an entry sets the value of its name in the map.
pub proof fn lemma_map_of_update<K, V>(entries: Seq<(K, V)>, i: int, value: V)
    requires
        distinct_names(entries),
        0 <= i < entries.len(),
    ensures
        distinct_names(entries.update(i, (entries[i].0, value))),
        map_of(entries.update(i, (entries[i].0, value))) == map_of(entries).insert(
            entries[i].0,
            value,
        ),
{
    let name = entries[i].0;
    let after = entries.update(i, (name, value));
    assert forall|a: int, b: int| 0 <= a < b < after.len() implies (#[trigger] after[a]).0 != (
    #[trigger] after[b]).0 by {
        assert(entries[a].0 != entries[b].0);
    }
    assert forall|n: K| #[trigger]
        map_of(after).dom().contains(n) <==> map_of(entries).insert(name, value).dom().contains(
            n,
        ) by {
        if map_of(after).dom().contains(n) {
            let k = choose|k: int| names_at(after, n, k);
            assert(names_at(entries, n, k));
        }
        if map_of(entries).dom().contains(n) {
            let k = choose|k: int| names_at(entries, n, k);
            assert(names_at(after, n, k));
        }
        if n == name {
            assert(names_at(after, n, i));
        }
    }
    assert forall|n: K| #[trigger] map_of(after).dom().contains(n) implies map_of(after)[n]
        == map_of(entries).insert(name, value)[n] by {
        let k = choose|k: int| names_at(after, n, k);
        lemma_map_of_entry(after, k);
        if n != name {
            assert(k != i);
            assert(names_at(entries, n, k));
            lemma_map_of_entry(entries, k);
        } else {
            lemma_map_of_entry(after, i);
        }
    }
    assert(map_of(after) =~= map_of(entries).insert(name, value));
}

/// Appending an entry with a new name sets the value of the name in the map.
pub proof fn lemma_map_of_push<K, V>(entries: Seq<(K, V)>, name: K, value: V)
    requires
        distinct_names(entries),
        !map_of(entries).dom().contains(name),
    ensures
        distinct_names(entries.push((name, value))),
        map_of(entries.push((name, value))) == map_of(entries).insert(name, value),
{
    let after = entries.push((name, value));
    assert forall|a: int, b: int| 0 <= a < b < after.len() implies (#[trigger] after[a]).0 != (
    #[trigger] after[b]).0 by {
        if b == entries.len() {
            if after[a].0 == name {
                assert(names_at(entries, name, a));
            }
        } else {
            assert(entries[a].0 != entries[b].0);
        }
    }
    assert forall|n: K| #[trigger]
        map_of(after).dom().contains(n) <==> map_of(entries).insert(name, value).dom().contains(
            n,
        ) by {
        if map_of(after).dom().contains(n) {
            let k = choose|k: int| names_at(after, n, k);
            if k < entries.len() {
                assert(names_at(entries, n, k));
            }
        }
        if map_of(entries).dom().contains(n) {
            let k = choose|k: int| names_at(entries, n, k);
            assert(names_at(after, n, k));
        }
        if n == name {
            assert(names_at(after, n, entries.len() as int));
        }
    }
    assert forall|n: K| #[trigger] map_of(after).dom().contains(n) implies map_of(after)[n]
        == map_of(entries).insert(name, value)[n] by {
        let k = choose|k: int| names_at(after, n, k);
        lemma_map_of_entry(after, k);
        if n != name {
            assert(k < entries.len());
            assert(names_at(entries, n, k));
            lemma_map_of_entry(entries, k);
        } else {
            lemma_map_of_entry(after, entries.len() as int);
        }
    }
    assert(map_of(after) =~= map_of(entries).insert(name, value));
}

} // verus!
