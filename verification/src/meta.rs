//! Task metadata: text keys mapped to text values, held as a list of
//! entries in which no key occurs twice.
use vstd::prelude::*;

verus! {

/// The map that a list of entries denotes: an entry later in the list
/// overrides an earlier one with the same key.
pub open spec fn entries_map(entries: Seq<(String, String)>) -> Map<Seq<char>, Seq<char>>
    decreases entries.len(),
{
    if entries.len() == 0 {
        Map::empty()
    } else {
        let last = entries.last();
        entries_map(entries.drop_last()).insert(last.0@, last.1@)
    }
}

/// No key occurs twice among the entries.
pub open spec fn keys_unique(entries: Seq<(String, String)>) -> bool {
    forall|i: int, j: int|
        0 <= i < entries.len() && 0 <= j < entries.len() && i != j ==> #[trigger] entries[i].0@
            != #[trigger] entries[j].0@
}

/// The keys of a list of entries are exactly its map's domain, and each
/// entry's value is the map's value at its key.
proof fn lemma_entries_map(entries: Seq<(String, String)>)
    requires
        keys_unique(entries),
    ensures
        forall|k: Seq<char>|
            #![trigger entries_map(entries).contains_key(k)]
            entries_map(entries).contains_key(k) <==> exists|i: int|
                0 <= i < entries.len() && #[trigger] entries[i].0@ == k,
        forall|i: int|
            #![trigger entries[i]]
            0 <= i < entries.len() ==> entries_map(entries)[entries[i].0@] == entries[i].1@,
        entries_map(entries).dom().finite(),
    decreases entries.len(),
{
    if entries.len() > 0 {
        let init = entries.drop_last();
        assert(keys_unique(init));
        lemma_entries_map(init);
        let n = entries.len() - 1;
        assert forall|k: Seq<char>| #![trigger entries_map(entries).contains_key(k)]
            entries_map(entries).contains_key(k) implies exists|i: int|
                0 <= i < entries.len() && #[trigger] entries[i].0@ == k by {
            if k != entries[n].0@ {
                let i = choose|i: int| 0 <= i < init.len() && #[trigger] init[i].0@ == k;
                assert(entries[i] == init[i]);
            }
        }
        assert forall|i: int| #![trigger entries[i]] 0 <= i < entries.len() implies entries_map(
            entries,
        )[entries[i].0@] == entries[i].1@ by {
            if i < n {
                assert(entries[i] == init[i]);
                assert(entries[i].0@ != entries[n].0@);
            }
        }
        assert forall|k: Seq<char>| #![trigger entries_map(entries).contains_key(k)]
            (exists|i: int| 0 <= i < entries.len() && #[trigger] entries[i].0@ == k)
            implies entries_map(entries).contains_key(k) by {
            let i = choose|i: int| 0 <= i < entries.len() && #[trigger] entries[i].0@ == k;
            if i < n {
                assert(init[i] == entries[i]);
            }
        }
    }
}

/// Replacing the value of an entry updates the map at its key.
proof fn lemma_entries_map_update(entries: Seq<(String, String)>, j: int, v: String)
    requires
        keys_unique(entries),
        0 <= j < entries.len(),
    ensures
        entries_map(entries.update(j, (entries[j].0, v))) == entries_map(entries).insert(
            entries[j].0@,
            v@,
        ),
    decreases entries.len(),
{
    let n = entries.len() - 1;
    let upd = entries.update(j, (entries[j].0, v));
    if j == n {
        assert(upd.drop_last() =~= entries.drop_last());
        lemma_entries_map(entries.drop_last());
        assert forall|i: int| 0 <= i < entries.drop_last().len() implies entries.drop_last()[i].0@
            != entries[j].0@ by {
            assert(entries.drop_last()[i] == entries[i]);
        }
        assert(entries_map(upd) =~= entries_map(entries).insert(entries[j].0@, v@));
    } else {
        let init = entries.drop_last();
        assert(keys_unique(init));
        lemma_entries_map_update(init, j, v);
        assert(upd.drop_last() =~= init.update(j, (init[j].0, v)));
        assert(init[j] == entries[j]);
        assert(entries[j].0@ != entries[n].0@);
        assert(entries_map(upd) =~= entries_map(entries).insert(entries[j].0@, v@));
    }
}

/// Removing an entry removes its key from the map.
proof fn lemma_entries_map_remove(entries: Seq<(String, String)>, j: int)
    requires
        keys_unique(entries),
        0 <= j < entries.len(),
    ensures
        entries_map(entries.remove(j)) == entries_map(entries).remove(entries[j].0@),
        keys_unique(entries.remove(j)),
    decreases entries.len(),
{
    let n = entries.len() - 1;
    let rem = entries.remove(j);
    let init = entries.drop_last();
    assert(keys_unique(init));
    if j == n {
        assert(rem =~= init);
        lemma_entries_map(init);
        assert forall|i: int| 0 <= i < init.len() implies init[i].0@ != entries[j].0@ by {
            assert(init[i] == entries[i]);
        }
        assert(entries_map(rem) =~= entries_map(entries).remove(entries[j].0@));
    } else {
        lemma_entries_map_remove(init, j);
        assert(rem.drop_last() =~= init.remove(j));
        assert(rem.last() == entries.last());
        assert(init[j] == entries[j]);
        assert(entries[j].0@ != entries[n].0@);
        assert(entries_map(rem) =~= entries_map(entries).remove(entries[j].0@));
    }
    assert forall|a: int, b: int|
        0 <= a < rem.len() && 0 <= b < rem.len() && a != b implies #[trigger] rem[a].0@
        != #[trigger] rem[b].0@ by {
        let a2 = if a < j { a } else { a + 1 };
        let b2 = if b < j { b } else { b + 1 };
        assert(rem[a] == entries[a2]);
        assert(rem[b] == entries[b2]);
    }
}

/// Metadata of a task: text keys mapped to text values.
#[derive(Debug)]
pub struct MetaMap {
    entries: Vec<(String, String)>,
}

impl View for MetaMap {
    type V = Map<Seq<char>, Seq<char>>;

    closed spec fn view(&self) -> Map<Seq<char>, Seq<char>> {
        entries_map(self.entries@)
    }
}

impl MetaMap {
    /// No key occurs twice.
    #[verifier::type_invariant]
    closed spec fn inv(self) -> bool {
        keys_unique(self.entries@)
    }

    /// The metadata without entries.
    pub fn new() -> (m: MetaMap)
        ensures
            m@ == Map::<Seq<char>, Seq<char>>::empty(),
    {
        MetaMap { entries: Vec::new() }
    }

    /// The number of keys.
    pub fn len(&self) -> (n: usize)
        ensures
            n == self@.len(),
            self@.dom().finite(),
    {
        proof {
            use_type_invariant(self);
            lemma_entries_len(self.entries@);
        }
        self.entries.len()
    }

    /// The position of the entry with key `key`, if there is one.
    fn find(entries: &Vec<(String, String)>, key: &String) -> (r: Option<usize>)
        ensures
            match r {
                Some(j) => j < entries@.len() && entries@[j as int].0@ == key@,
                None => forall|i: int|
                    0 <= i < entries@.len() ==> #[trigger] entries@[i].0@ != key@,
            },
    {
        let mut i: usize = 0;
        while i < entries.len()
            invariant
                i <= entries@.len(),
                forall|k: int| 0 <= k < i ==> #[trigger] entries@[k].0@ != key@,
            decreases entries@.len() - i,
        {
            if entries[i].0 == *key {
                return Some(i);
            }
            i = i + 1;
        }
        None
    }

    /// Whether `key` has a value.
    pub fn contains_key(&self, key: &String) -> (b: bool)
        ensures
            b == self@.contains_key(key@),
    {
        proof {
            use_type_invariant(self);
            lemma_entries_map(self.entries@);
        }
        Self::find(&self.entries, key).is_some()
    }

    /// The value of `key`, if it has one.
    pub fn get(&self, key: &String) -> (r: Option<&String>)
        ensures
            match r {
                Some(v) => self@.contains_key(key@) && self@[key@] == v@,
                None => !self@.contains_key(key@),
            },
    {
        proof {
            use_type_invariant(self);
            lemma_entries_map(self.entries@);
        }
        match Self::find(&self.entries, key) {
            Some(j) => Some(&self.entries[j].1),
            None => None,
        }
    }

    /// Gives `key` the value `value`, replacing any value it had.
    pub fn insert(&mut self, key: String, value: String)
        ensures
            final(self)@ == old(self)@.insert(key@, value@),
    {
        proof {
            use_type_invariant(&*self);
        }
        let mut entries: Vec<(String, String)> = Vec::new();
        std::mem::swap(&mut entries, &mut self.entries);
        let ghost before = entries@;
        match Self::find(&entries, &key) {
            Some(j) => {
                proof {
                    lemma_entries_map_update(before, j as int, value);
                }
                let k = entries[j].0.clone();
                entries.set(j, (k, value));
                assert(entries@ == before.update(j as int, (before[j as int].0, value)));
                proof {
                    assert forall|a: int, b: int|
                        0 <= a < entries@.len() && 0 <= b < entries@.len() && a != b
                        implies #[trigger] entries@[a].0@ != #[trigger] entries@[b].0@ by {
                        assert(entries@[a].0@ == before[a].0@);
                        assert(entries@[b].0@ == before[b].0@);
                    }
                }
            },
            None => {
                entries.push((key, value));
                proof {
                    assert(entries@.drop_last() =~= before);
                    assert forall|a: int, b: int|
                        0 <= a < entries@.len() && 0 <= b < entries@.len() && a != b
                        implies #[trigger] entries@[a].0@ != #[trigger] entries@[b].0@ by {
                        if a < before.len() {
                            assert(entries@[a] == before[a]);
                        }
                        if b < before.len() {
                            assert(entries@[b] == before[b]);
                        }
                    }
                }
            },
        }
        self.entries = entries;
    }

    /// Takes the value of `key` out of the metadata.
    pub fn remove(&mut self, key: &String) -> (r: Option<String>)
        ensures
            final(self)@ == old(self)@.remove(key@),
            match r {
                Some(v) => old(self)@.contains_key(key@) && old(self)@[key@] == v@,
                None => !old(self)@.contains_key(key@),
            },
    {
        proof {
            use_type_invariant(&*self);
            lemma_entries_map(self.entries@);
        }
        let mut entries: Vec<(String, String)> = Vec::new();
        std::mem::swap(&mut entries, &mut self.entries);
        let ghost before = entries@;
        let r = match Self::find(&entries, key) {
            Some(j) => {
                proof {
                    lemma_entries_map_remove(before, j as int);
                }
                let (_, v) = entries.remove(j);
                Some(v)
            },
            None => {
                assert(entries_map(before) =~= entries_map(before).remove(key@));
                None
            },
        };
        self.entries = entries;
        r
    }

    /// The entries, each key once, in the order in which the keys first
    /// received a value.
    pub fn into_entries(self) -> (v: Vec<(String, String)>)
        ensures
            keys_unique(v@),
            entries_map(v@) == self@,
    {
        proof {
            use_type_invariant(&self);
        }
        self.entries
    }
}

impl Clone for MetaMap {
    fn clone(&self) -> (c: Self)
        ensures
            c@ == self@,
    {
        proof {
            use_type_invariant(self);
        }
        let mut entries: Vec<(String, String)> = Vec::new();
        let mut i: usize = 0;
        while i < self.entries.len()
            invariant
                i <= self.entries@.len(),
                entries@.len() == i,
                keys_unique(self.entries@),
                forall|k: int|
                    0 <= k < i ==> (#[trigger] entries@[k]).0@ == self.entries@[k].0@
                        && entries@[k].1@ == self.entries@[k].1@,
            decreases self.entries@.len() - i,
        {
            let k = self.entries[i].0.clone();
            let v = self.entries[i].1.clone();
            entries.push((k, v));
            i = i + 1;
        }
        proof {
            lemma_entries_map_same(entries@, self.entries@);
        }
        MetaMap { entries }
    }
}

/// Lists whose entries have the same keys and values denote the same map.
proof fn lemma_entries_map_same(a: Seq<(String, String)>, b: Seq<(String, String)>)
    requires
        a.len() == b.len(),
        forall|k: int| 0 <= k < a.len() ==> (#[trigger] a[k]).0@ == b[k].0@ && a[k].1@ == b[k].1@,
    ensures
        entries_map(a) == entries_map(b),
        keys_unique(b) ==> keys_unique(a),
    decreases a.len(),
{
    if a.len() > 0 {
        lemma_entries_map_same(a.drop_last(), b.drop_last());
        assert(a.last() == a[a.len() - 1]);
    }
    if keys_unique(b) {
        assert forall|i: int, j: int|
            0 <= i < a.len() && 0 <= j < a.len() && i != j implies #[trigger] a[i].0@
            != #[trigger] a[j].0@ by {
            assert(a[i].0@ == b[i].0@);
            assert(a[j].0@ == b[j].0@);
        }
    }
}

/// A list of entries with unique keys has as many keys as entries.
proof fn lemma_entries_len(entries: Seq<(String, String)>)
    requires
        keys_unique(entries),
    ensures
        entries_map(entries).len() == entries.len(),
        entries_map(entries).dom().finite(),
    decreases entries.len(),
{
    if entries.len() > 0 {
        let init = entries.drop_last();
        assert(keys_unique(init));
        lemma_entries_len(init);
        lemma_entries_map(init);
        let n = entries.len() - 1;
        assert forall|i: int| 0 <= i < init.len() implies init[i].0@ != entries[n].0@ by {
            assert(init[i] == entries[i]);
        }
        assert(!entries_map(init).contains_key(entries[n].0@));
    }
}

} // verus!
