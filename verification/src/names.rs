use vstd::prelude::*;

verus! {

/// The map that a list of entries denotes: each entry binds its key, and a
/// later entry replaces an earlier one with the same key.
pub open spec fn entries_map(entries: Seq<(Seq<char>, Seq<char>)>) -> Map<Seq<char>, Seq<char>>
    decreases entries.len(),
{
    if entries.len() == 0 {
        Map::empty()
    } else {
        entries_map(entries.drop_last()).insert(entries.last().0, entries.last().1)
    }
}

/// The keys and values of a list of entries, as character sequences.
pub open spec fn entries_view(entries: Seq<(String, String)>) -> Seq<(Seq<char>, Seq<char>)> {
    entries.map_values(|e: (String, String)| (e.0@, e.1@))
}

/// No key occurs twice.
pub open spec fn distinct_keys(entries: Seq<(Seq<char>, Seq<char>)>) -> bool {
    forall|i: int, j: int|
        0 <= i < j < entries.len() ==> (#[trigger] entries[i]).0 != (#[trigger] entries[j]).0
}

/// A key that no entry holds is not bound.
proof fn lemma_unbound(entries: Seq<(Seq<char>, Seq<char>)>, key: Seq<char>)
    requires
        forall|i: int| 0 <= i < entries.len() ==> (#[trigger] entries[i]).0 != key,
    ensures
        !entries_map(entries).contains_key(key),
    decreases entries.len(),
{
    if entries.len() > 0 {
        lemma_unbound(entries.drop_last(), key);
    }
}

/// With distinct keys, the key of entry `i` is bound to the value of entry `i`.
proof fn lemma_bound(entries: Seq<(Seq<char>, Seq<char>)>, i: int)
    requires
        distinct_keys(entries),
        0 <= i < entries.len(),
    ensures
        entries_map(entries).contains_key(entries[i].0),
        entries_map(entries)[entries[i].0] == entries[i].1,
    decreases entries.len(),
{
    if i < entries.len() - 1 {
        let rest = entries.drop_last();
        assert(distinct_keys(rest)) by {
            assert forall|a: int, b: int| 0 <= a < b < rest.len() implies (#[trigger] rest[a]).0
                != (#[trigger] rest[b]).0 by {
                assert(rest[a] == entries[a] && rest[b] == entries[b]);
            }
        }
        lemma_bound(rest, i);
        assert(rest[i] == entries[i]);
        assert(entries[i].0 != entries[entries.len() - 1].0);
    }
}

/// With distinct keys, replacing the value of entry `i` rebinds its key and
/// nothing else.
proof fn lemma_replace(entries: Seq<(Seq<char>, Seq<char>)>, i: int, value: Seq<char>)
    requires
        distinct_keys(entries),
        0 <= i < entries.len(),
    ensures
        entries_map(entries.update(i, (entries[i].0, value))) == entries_map(entries).insert(
            entries[i].0,
            value,
        ),
    decreases entries.len(),
{
    let key = entries[i].0;
    let changed = entries.update(i, (key, value));
    let rest = entries.drop_last();
    if i == entries.len() - 1 {
        assert(changed.drop_last() == rest);
        assert(entries_map(changed) == entries_map(rest).insert(key, value));
        assert(entries_map(entries) == entries_map(rest).insert(key, entries[i].1));
        assert(entries_map(rest).insert(key, entries[i].1).insert(key, value) == entries_map(
            rest,
        ).insert(key, value));
    } else {
        assert(distinct_keys(rest)) by {
            assert forall|a: int, b: int| 0 <= a < b < rest.len() implies (#[trigger] rest[a]).0
                != (#[trigger] rest[b]).0 by {
                assert(rest[a] == entries[a] && rest[b] == entries[b]);
            }
        }
        lemma_replace(rest, i, value);
        assert(rest[i] == entries[i]);
        assert(changed.drop_last() == rest.update(i, (key, value)));
        let last = entries.last();
        assert(changed.last() == last);
        assert(last.0 != key) by {
            assert(entries[i].0 != entries[entries.len() - 1].0);
        }
        assert(entries_map(rest).insert(key, value).insert(last.0, last.1) == entries_map(
            rest,
        ).insert(last.0, last.1).insert(key, value));
    }
}

/// A table of names keyed by language, with at most one name per key.
#[derive(Debug)]
pub struct NameTable {
    entries: Vec<(String, String)>,
}

impl View for NameTable {
    type V = Map<Seq<char>, Seq<char>>;

    closed spec fn view(&self) -> Map<Seq<char>, Seq<char>> {
        entries_map(entries_view(self.entries@))
    }
}

impl NameTable {
    #[verifier::type_invariant]
    spec fn distinct(self) -> bool {
        distinct_keys(entries_view(self.entries@))
    }

    /// The empty table.
    pub fn new() -> (table: Self)
        ensures
            table@ == Map::<Seq<char>, Seq<char>>::empty(),
    {
        NameTable { entries: Vec::new() }
    }

    /// The position of `key` among the entries, if it is there.
    fn position(&self, key: &String) -> (found: Option<usize>)
        ensures
            match found {
                Some(i) => i < self.entries.len() && self.entries[i as int].0@ == key@,
                None => forall|i: int|
                    0 <= i < self.entries.len() ==> (#[trigger] self.entries[i]).0@ != key@,
            },
    {
        let mut i: usize = 0;
        while i < self.entries.len()
            invariant
                i <= self.entries.len(),
                forall|j: int| 0 <= j < i ==> (#[trigger] self.entries[j]).0@ != key@,
            decreases self.entries.len() - i,
        {
            if self.entries[i].0 == *key {
                return Some(i);
            }
            i += 1;
        }
        None
    }

    /// The name bound to `key`, if there is one.
    pub fn get(&self, key: &str) -> (name: Option<&String>)
        ensures
            match name {
                Some(value) => self@.contains_key(key@) && self@[key@] == value@,
                None => !self@.contains_key(key@),
            },
    {
        proof {
            use_type_invariant(self);
        }
        let ghost entries = entries_view(self.entries@);
        let key = key.to_owned();
        match self.position(&key) {
            Some(i) => {
                proof {
                    lemma_bound(entries, i as int);
                }
                Some(&self.entries[i].1)
            },
            None => {
                proof {
                    assert forall|i: int| 0 <= i < entries.len() implies (#[trigger] entries[i]).0
                        != key@ by {
                        assert(entries[i].0 == self.entries[i].0@);
                    }
                    lemma_unbound(entries, key@);
                }
                None
            },
        }
    }

    /// The table with `key` bound to `value` in place of the name that `key`
    /// had, and every other key as before.
    pub fn with(self, key: String, value: String) -> (table: Self)
        ensures
            table@ == self@.insert(key@, value@),
    {
        proof {
            use_type_invariant(&self);
        }
        let ghost before = entries_view(self.entries@);
        let found = self.position(&key);
        let mut entries = self.entries;
        match found {
            Some(i) => {
                proof {
                    lemma_replace(before, i as int, value@);
                }
                entries.set(i, (key, value));
                proof {
                    let after = entries_view(entries@);
                    assert(after == before.update(i as int, (before[i as int].0, value@)));
                    assert(distinct_keys(after)) by {
                        assert forall|a: int, b: int| 0 <= a < b < after.len() implies (
                        #[trigger] after[a]).0 != (#[trigger] after[b]).0 by {
                            assert(after[a].0 == before[a].0 && after[b].0 == before[b].0);
                        }
                    }
                }
            },
            None => {
                entries.push((key, value));
                proof {
                    let after = entries_view(entries@);
                    assert(after.drop_last() == before);
                    assert(after.last() == (key@, value@));
                    assert(distinct_keys(after)) by {
                        assert forall|a: int, b: int| 0 <= a < b < after.len() implies (
                        #[trigger] after[a]).0 != (#[trigger] after[b]).0 by {
                            if b < before.len() {
                                assert(after[a] == before[a] && after[b] == before[b]);
                            } else {
                                assert(after[a] == before[a]);
                                assert(before[a].0 == self.entries[a].0@);
                            }
                        }
                    }
                }
            },
        }
        NameTable { entries }
    }

    /// The table that binds the entries in order, a later entry replacing an
    /// earlier one with the same key.
    pub fn from_entries(entries: Vec<(String, String)>) -> (table: Self)
        ensures
            table@ == entries_map(entries_view(entries@)),
    {
        let mut table = NameTable::new();
        let mut i: usize = 0;
        while i < entries.len()
            invariant
                i <= entries.len(),
                table@ == entries_map(entries_view(entries@).take(i as int)),
            decreases entries.len() - i,
        {
            let key = entries[i].0.clone();
            let value = entries[i].1.clone();
            proof {
                let all = entries_view(entries@);
                assert(all.take(i + 1).drop_last() == all.take(i as int));
                assert(all.take(i + 1).last() == (key@, value@));
            }
            table = table.with(key, value);
            i += 1;
        }
        proof {
            let all = entries_view(entries@);
            assert(all.take(entries.len() as int) == all);
        }
        table
    }
}

} // verus!
