use vstd::prelude::*;
use crate::value::Value;

verus! {

/// One record: column names mapped to values, in insertion order.
///
/// A name is looked up at its first entry; the builder methods never create a
/// second entry for a name.
#[derive(Debug, PartialEq, Eq)]
pub struct Row {
    pub entries: Vec<(String, Value)>,
}

/// Whether entry `i` is the first one of `entries` named `name`.
pub open spec fn first_named(entries: Seq<(String, Value)>, name: Seq<char>, i: int) -> bool {
    &&& 0 <= i < entries.len()
    &&& entries[i].0@ == name
    &&& forall|j: int| 0 <= j < i ==> entries[j].0@ != name
}

/// The value under `name` in `entries`, if any: the one at its first entry.
pub open spec fn lookup(entries: Seq<(String, Value)>, name: Seq<char>) -> Option<Value> {
    if exists|i: int| first_named(entries, name, i) {
        Some(entries[choose|i: int| first_named(entries, name, i)].1)
    } else {
        None
    }
}

/// The names of `entries`, in order.
pub open spec fn names_of(entries: Seq<(String, Value)>) -> Seq<Seq<char>> {
    entries.map_values(|e: (String, Value)| e.0@)
}

/// No name occurs at two entries.
pub open spec fn names_unique(entries: Seq<(String, Value)>) -> bool {
    forall|i: int, j: int|
        0 <= i < j < entries.len() ==> #[trigger] entries[i].0@ != #[trigger] entries[j].0@
}

/// A name is found at the first entry that carries it, and at no other.
pub proof fn lemma_first_named_unique(entries: Seq<(String, Value)>, name: Seq<char>, i: int, k: int)
    requires
        first_named(entries, name, i),
        first_named(entries, name, k),
    ensures
        i == k,
{
}

/// The lookup of a name that entry `i` carries first is that entry's value.
pub proof fn lemma_lookup_at(entries: Seq<(String, Value)>, name: Seq<char>, i: int)
    requires
        first_named(entries, name, i),
    ensures
        lookup(entries, name) == Some(entries[i].1),
{
    let k = choose|k: int| first_named(entries, name, k);
    lemma_first_named_unique(entries, name, i, k);
}

/// A name carried by some entry is found, at that entry or an earlier one.
pub proof fn lemma_lookup_present(entries: Seq<(String, Value)>, name: Seq<char>, i: int)
    requires
        0 <= i < entries.len(),
        entries[i].0@ == name,
    ensures
        exists|k: int| 0 <= k <= i && first_named(entries, name, k),
    decreases i,
{
    if exists|j: int| 0 <= j < i && entries[j].0@ == name {
        let j = choose|j: int| 0 <= j < i && entries[j].0@ == name;
        lemma_lookup_present(entries, name, j);
    } else {
        assert(first_named(entries, name, i));
    }
}

impl Row {
    /// The value under `name`, if the row has one.
    pub open spec fn spec_get(self, name: Seq<char>) -> Option<Value> {
        lookup(self.entries@, name)
    }

    /// The row's names, in insertion order.
    pub open spec fn names(self) -> Seq<Seq<char>> {
        names_of(self.entries@)
    }

    /// A row with no entries.
    pub fn new() -> (r: Row)
        ensures
            r.entries@.len() == 0,
            names_unique(r.entries@),
            forall|n: Seq<char>| r.spec_get(n) is None,
    {
        Row { entries: Vec::new() }
    }

    /// The number of entries.
    pub fn len(&self) -> (r: usize)
        ensures
            r == self.entries@.len(),
    {
        self.entries.len()
    }

    /// The index of the first entry named `name`, if there is one.
    fn position(&self, name: &String) -> (r: Option<usize>)
        ensures
            match r {
                Some(i) => first_named(self.entries@, name@, i as int),
                None => forall|j: int|
                    0 <= j < self.entries@.len() ==> self.entries@[j].0@ != name@,
            },
    {
        let mut i: usize = 0;
        while i < self.entries.len()
            invariant
                i <= self.entries@.len(),
                forall|j: int| 0 <= j < i ==> self.entries@[j].0@ != name@,
            decreases self.entries@.len() - i,
        {
            if self.entries[i].0 == *name {
                return Some(i);
            }
            i = i + 1;
        }
        None
    }

    /// The value under `name`; `None` when the row lacks that column.
    pub fn get(&self, name: &str) -> (r: Option<&Value>)
        ensures
            match r {
                Some(v) => self.spec_get(name@) == Some(*v),
                None => self.spec_get(name@) is None,
            },
    {
        let key = name.to_owned();
        match self.position(&key) {
            Some(i) => {
                proof {
                    lemma_lookup_at(self.entries@, name@, i as int);
                }
                Some(&self.entries[i].1)
            },
            None => None,
        }
    }

    /// Sets the value under `name`: replaces the value of an existing entry in
    /// place, or appends a new entry.
    pub fn insert(&mut self, name: &str, value: Value)
        requires
            names_unique(old(self).entries@),
        ensures
            names_unique(final(self).entries@),
            final(self).spec_get(name@) == Some(value),
            forall|n: Seq<char>| n != name@ ==> final(self).spec_get(n) == old(self).spec_get(n),
            old(self).names().contains(name@) ==> final(self).names() == old(self).names(),
            !old(self).names().contains(name@) ==> final(self).names() == old(self).names().push(
                name@,
            ),
    {
        let key = name.to_owned();
        let ghost pre = self.entries@;
        match self.position(&key) {
            Some(i) => {
                self.entries.set(i, (key, value));
                proof {
                    let post = self.entries@;
                    assert(first_named(post, name@, i as int));
                    lemma_lookup_at(post, name@, i as int);
                    assert forall|n: Seq<char>| n != name@ implies lookup(post, n) == lookup(pre, n) by {
                        if exists|k: int| first_named(pre, n, k) {
                            let k = choose|k: int| first_named(pre, n, k);
                            assert(first_named(post, n, k));
                            lemma_lookup_at(pre, n, k);
                            lemma_lookup_at(post, n, k);
                        } else {
                            if exists|k: int| first_named(post, n, k) {
                                let k = choose|k: int| first_named(post, n, k);
                                assert(first_named(pre, n, k));
                            }
                        }
                    }
                    assert(names_of(post) =~= names_of(pre));
                    assert(names_of(pre)[i as int] == name@);
                }
            },
            None => {
                self.entries.push((key, value));
                proof {
                    let post = self.entries@;
                    let last = pre.len() as int;
                    assert(first_named(post, name@, last));
                    lemma_lookup_at(post, name@, last);
                    assert forall|n: Seq<char>| n != name@ implies lookup(post, n) == lookup(pre, n) by {
                        if exists|k: int| first_named(pre, n, k) {
                            let k = choose|k: int| first_named(pre, n, k);
                            assert(first_named(post, n, k));
                            lemma_lookup_at(pre, n, k);
                            lemma_lookup_at(post, n, k);
                        } else {
                            if exists|k: int| first_named(post, n, k) {
                                let k = choose|k: int| first_named(post, n, k);
                                assert(first_named(pre, n, k));
                            }
                        }
                    }
                    assert(names_of(post) =~= names_of(pre).push(name@));
                    if names_of(pre).contains(name@) {
                        let j = choose|j: int| 0 <= j < names_of(pre).len() && names_of(pre)[j] == name@;
                        assert(pre[j].0@ == name@);
                    }
                }
            },
        }
    }

    /// This row with `value` set under `name`, as `insert` does.
    pub fn with(self, name: &str, value: Value) -> (r: Row)
        requires
            names_unique(self.entries@),
        ensures
            names_unique(r.entries@),
            r.spec_get(name@) == Some(value),
            forall|n: Seq<char>| n != name@ ==> r.spec_get(n) == self.spec_get(n),
    {
        let mut row = self;
        row.insert(name, value);
        row
    }
}

} // verus!
