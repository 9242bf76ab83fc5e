//! A map from strings to values, kept as a list of entries with distinct keys.
//!
//! Its view is a `Map<Seq<char>, V>`: keys are compared by their characters.

use vstd::prelude::*;

verus! {

/// The keys of a list of entries, each by its characters, in list order.
spec fn entry_keys<V>(entries: Seq<(String, V)>) -> Seq<Seq<char>> {
    entries.map_values(|e: (String, V)| e.0@)
}

/// The map that a list of entries stands for.
spec fn entries_map<V>(entries: Seq<(String, V)>) -> Map<Seq<char>, V> {
    Map::new(
        |k: Seq<char>| entry_keys(entries).contains(k),
        |k: Seq<char>| entries[entry_keys(entries).index_of(k)].1,
    )
}

/// With distinct keys, the map holds at each entry's key that entry's value.
proof fn lemma_entry_lookup<V>(entries: Seq<(String, V)>, i: int)
    requires
        entry_keys(entries).no_duplicates(),
        0 <= i < entries.len(),
    ensures
        entries_map(entries).contains_key(entries[i].0@),
        entries_map(entries)[entries[i].0@] == entries[i].1,
{
    let keys = entry_keys(entries);
    assert(keys[i] == entries[i].0@);
    assert(keys.contains(keys[i]));
    let j = keys.index_of(keys[i]);
    assert(0 <= j < keys.len() && keys[j] == keys[i]);
}

/// A key is in the map exactly if some entry has it.
proof fn lemma_entry_domain<V>(entries: Seq<(String, V)>, key: Seq<char>)
    ensures
        entries_map(entries).contains_key(key) <==> exists|i: int|
            0 <= i < entries.len() && (#[trigger] entries[i]).0@ == key,
{
    let keys = entry_keys(entries);
    if keys.contains(key) {
        let i = choose|i: int| 0 <= i < keys.len() && keys[i] == key;
        assert(entries[i].0@ == key);
    }
    if exists|i: int| 0 <= i < entries.len() && (#[trigger] entries[i]).0@ == key {
        let i = choose|i: int| 0 <= i < entries.len() && (#[trigger] entries[i]).0@ == key;
        assert(keys[i] == key);
    }
}

/// Replacing the entry that has a key, or adding one where none has it,
/// keeps the keys distinct and sets the map's value at that key.
proof fn lemma_insert_entry<V>(
    before: Seq<(String, V)>,
    after: Seq<(String, V)>,
    key: String,
    value: V,
)
    requires
        entry_keys(before).no_duplicates(),
        (exists|i: int|
            0 <= i < before.len() && (#[trigger] before[i]).0@ == key@ && after == before.update(
                i,
                (key, value),
            )) || (!entries_map(before).contains_key(key@) && after == before.push((key, value))),
    ensures
        entry_keys(after).no_duplicates(),
        entries_map(after) == entries_map(before).insert(key@, value),
{
    let goal = entries_map(before).insert(key@, value);
    lemma_entry_domain(before, key@);
    assert(forall|j: int|
        0 <= j < before.len() ==> entry_keys(before)[j] == (#[trigger] before[j]).0@);
    assert(forall|j: int| 0 <= j < after.len() ==> entry_keys(after)[j] == (#[trigger] after[j]).0@);
    assert(entry_keys(after).no_duplicates());
    assert forall|k: Seq<char>| entries_map(after).contains_key(k) <==> goal.contains_key(k) by {
        lemma_entry_domain(after, k);
        lemma_entry_domain(before, k);
        if goal.contains_key(k) && k != key@ {
            let j = choose|j: int| 0 <= j < before.len() && (#[trigger] before[j]).0@ == k;
            assert(after[j].0@ == k);
        }
        if k == key@ {
            if entries_map(before).contains_key(key@) {
                let i = choose|i: int| 0 <= i < before.len() && (#[trigger] before[i]).0@ == key@;
                assert(after[i].0@ == k);
            } else {
                assert(after[before.len() as int].0@ == k);
            }
        }
        if entries_map(after).contains_key(k) && k != key@ {
            let j = choose|j: int| 0 <= j < after.len() && (#[trigger] after[j]).0@ == k;
            assert(before[j].0@ == k);
        }
    }
    assert forall|k: Seq<char>| entries_map(after).contains_key(k) implies entries_map(after)[k]
        == goal[k] by {
        lemma_entry_domain(after, k);
        let j = choose|j: int| 0 <= j < after.len() && (#[trigger] after[j]).0@ == k;
        lemma_entry_lookup(after, j);
        if k != key@ {
            lemma_entry_lookup(before, j);
        }
    }
    assert(entries_map(after) =~= goal);
}

/// A finite map with string keys.
#[derive(Debug)]
pub struct StringMap<V> {
    entries: Vec<(String, V)>,
}

impl<V> View for StringMap<V> {
    type V = Map<Seq<char>, V>;

    closed spec fn view(&self) -> Map<Seq<char>, V> {
        entries_map(self.entries@)
    }
}

impl<V> StringMap<V> {
    #[verifier::type_invariant]
    spec fn distinct_keys(&self) -> bool {
        entry_keys(self.entries@).no_duplicates()
    }

    /// The empty map.
    pub fn new() -> (m: Self)
        ensures
            m@ == Map::<Seq<char>, V>::empty(),
    {
        let m = StringMap { entries: Vec::new() };
        proof {
            assert(m@ =~= Map::<Seq<char>, V>::empty());
        }
        m
    }

    /// Whether the map holds no key.
    pub fn is_empty(&self) -> (b: bool)
        ensures
            b == self@.is_empty(),
    {
        proof {
            if self.entries@.len() > 0 {
                lemma_entry_domain(self.entries@, self.entries@[0].0@);
            } else {
                assert(self@.dom() =~= Set::<Seq<char>>::empty());
            }
        }
        self.entries.len() == 0
    }

    /// The index of the entry with the given key, if there is one.
    fn position(&self, key: &String) -> (r: Option<usize>)
        ensures
            match r {
                Some(i) => i < self.entries@.len() && self.entries@[i as int].0@ == key@,
                None => !self@.contains_key(key@),
            },
    {
        let mut i: usize = 0;
        while i < self.entries.len()
            invariant
                i <= self.entries@.len(),
                forall|j: int| 0 <= j < i ==> (#[trigger] self.entries@[j]).0@ != key@,
            decreases self.entries@.len() - i,
        {
            if self.entries[i].0.eq(key) {
                return Some(i);
            }
            i += 1;
        }
        proof {
            lemma_entry_domain(self.entries@, key@);
        }
        None
    }

    /// The number of keys.
    pub fn len(&self) -> (n: usize)
        ensures
            self@.dom().finite(),
            n == self@.len(),
    {
        proof {
            use_type_invariant(self);
            let keys = entry_keys(self.entries@);
            keys.unique_seq_to_set();
            assert(self@.dom() =~= keys.to_set());
        }
        self.entries.len()
    }

    /// Sets the value at the key, whether or not the map held the key.
    pub fn insert(&mut self, key: String, value: V)
        ensures
            final(self)@ == old(self)@.insert(key@, value),
    {
        let found = self.position(&key);
        proof {
            use_type_invariant(&*self);
            lemma_entry_domain(self.entries@, key@);
        }
        let ghost before = self.entries@;
        let mut entries: Vec<(String, V)> = Vec::new();
        core::mem::swap(&mut self.entries, &mut entries);
        let ghost after = match found {
            Some(i) => before.update(i as int, (key, value)),
            None => before.push((key, value)),
        };
        match found {
            Some(i) => {
                entries.set(i, (key, value));
            },
            None => {
                entries.push((key, value));
            },
        }
        proof {
            lemma_insert_entry(before, after, key, value);
        }
        self.entries = entries;
    }

    /// Whether the map holds the key.
    pub fn contains_key(&self, key: &str) -> (b: bool)
        ensures
            b == self@.contains_key(key@),
    {
        let owned = key.to_owned();
        match self.position(&owned) {
            Some(i) => {
                proof {
                    lemma_entry_domain(self.entries@, key@);
                }
                true
            },
            None => false,
        }
    }

    /// The value at the key, if the map holds the key.
    pub fn get(&self, key: &str) -> (result: Option<&V>)
        ensures
            match result {
                Some(v) => self@.contains_key(key@) && *v == self@[key@],
                None => !self@.contains_key(key@),
            },
    {
        let owned = key.to_owned();
        match self.position(&owned) {
            Some(i) => {
                proof {
                    use_type_invariant(self);
                    lemma_entry_lookup(self.entries@, i as int);
                }
                Some(&self.entries[i].1)
            },
            None => None,
        }
    }
}

impl Clone for StringMap<bool> {
    /// A copy that shares nothing with the map.
    fn clone(&self) -> (res: Self)
        ensures
            res@ == self@,
    {
        let mut entries: Vec<(String, bool)> = Vec::new();
        let mut i: usize = 0;
        while i < self.entries.len()
            invariant
                i <= self.entries@.len(),
                entries@ == self.entries@.subrange(0, i as int),
            decreases self.entries@.len() - i,
        {
            entries.push((self.entries[i].0.clone(), self.entries[i].1));
            proof {
                assert(entries@ =~= self.entries@.subrange(0, i + 1));
            }
            i += 1;
        }
        proof {
            use_type_invariant(self);
            assert(entries@ =~= self.entries@);
        }
        StringMap { entries }
    }
}

impl Clone for StringMap<String> {
    /// A copy that shares nothing with the map.
    fn clone(&self) -> (res: Self)
        ensures
            res@ == self@,
    {
        let mut entries: Vec<(String, String)> = Vec::new();
        let mut i: usize = 0;
        while i < self.entries.len()
            invariant
                i <= self.entries@.len(),
                entries@ == self.entries@.subrange(0, i as int),
            decreases self.entries@.len() - i,
        {
            entries.push((self.entries[i].0.clone(), self.entries[i].1.clone()));
            proof {
                assert(entries@ =~= self.entries@.subrange(0, i + 1));
            }
            i += 1;
        }
        proof {
            use_type_invariant(self);
            assert(entries@ =~= self.entries@);
        }
        StringMap { entries }
    }
}

} // verus!
