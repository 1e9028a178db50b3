//! The context of an error: string annotations keyed by string, each key held
//! once.

use vstd::prelude::*;

verus! {

/// The map that a list of entries stands for. Where a key occurs more than
/// once, the entry nearest the end decides its value.
spec fn entries_map(entries: Seq<(String, String)>) -> Map<Seq<char>, Seq<char>>
    decreases entries.len(),
{
    if entries.len() == 0 {
        Map::empty()
    } else {
        entries_map(entries.drop_last()).insert(entries.last().0@, entries.last().1@)
    }
}

/// No two entries have the same key.
spec fn distinct_keys(entries: Seq<(String, String)>) -> bool {
    forall|i: int, j: int| 0 <= i < j < entries.len() ==> entries[i].0@ != entries[j].0@
}

/// A list with distinct keys keeps them distinct without its last entry.
proof fn lemma_distinct_front(entries: Seq<(String, String)>)
    requires
        distinct_keys(entries),
        entries.len() > 0,
    ensures
        distinct_keys(entries.drop_last()),
{
    let front = entries.drop_last();
    assert forall|a: int, b: int| 0 <= a < b < front.len() implies front[a].0@ != front[b].0@ by {
        assert(entries[a].0@ != entries[b].0@);
    }
}

/// A key is in the map of a list exactly when some entry of the list has it.
proof fn lemma_entries_map_contains(entries: Seq<(String, String)>, key: Seq<char>)
    ensures
        entries_map(entries).contains_key(key) <==> exists|i: int|
            0 <= i < entries.len() && #[trigger] entries[i].0@ == key,
    decreases entries.len(),
{
    if entries.len() > 0 {
        let front = entries.drop_last();
        lemma_entries_map_contains(front, key);
        if entries_map(entries).contains_key(key) {
            if entries.last().0@ == key {
                assert(entries[entries.len() - 1].0@ == key);
            } else {
                let i = choose|i: int| 0 <= i < front.len() && #[trigger] front[i].0@ == key;
                assert(entries[i].0@ == key);
            }
        }
        if exists|i: int| 0 <= i < entries.len() && #[trigger] entries[i].0@ == key {
            let i = choose|i: int| 0 <= i < entries.len() && #[trigger] entries[i].0@ == key;
            if i < entries.len() - 1 {
                assert(front[i].0@ == key);
            }
        }
    }
}

/// With distinct keys, the map of a list gives each entry's key that entry's
/// value.
proof fn lemma_entries_map_lookup(entries: Seq<(String, String)>, i: int)
    requires
        distinct_keys(entries),
        0 <= i < entries.len(),
    ensures
        entries_map(entries).contains_key(entries[i].0@),
        entries_map(entries)[entries[i].0@] == entries[i].1@,
    decreases entries.len(),
{
    if i < entries.len() - 1 {
        let front = entries.drop_last();
        lemma_distinct_front(entries);
        lemma_entries_map_lookup(front, i);
        assert(front[i] == entries[i]);
        assert(entries[i].0@ != entries[entries.len() - 1].0@);
    }
}

/// The map of a list is finite, and with distinct keys it has as many keys as
/// the list has entries.
proof fn lemma_entries_map_len(entries: Seq<(String, String)>)
    ensures
        entries_map(entries).dom().finite(),
        distinct_keys(entries) ==> entries_map(entries).len() == entries.len(),
    decreases entries.len(),
{
    if entries.len() > 0 {
        let front = entries.drop_last();
        lemma_entries_map_len(front);
        if distinct_keys(entries) {
            lemma_distinct_front(entries);
            let key = entries.last().0@;
            lemma_entries_map_contains(front, key);
            if entries_map(front).contains_key(key) {
                let i = choose|i: int| 0 <= i < front.len() && #[trigger] front[i].0@ == key;
                assert(entries[i].0@ != entries[entries.len() - 1].0@);
            }
        }
    }
}

/// A list with distinct keys stands for the map `m` when `m` holds every
/// entry of the list and nothing else.
proof fn lemma_entries_map_is(entries: Seq<(String, String)>, m: Map<Seq<char>, Seq<char>>)
    requires
        distinct_keys(entries),
        forall|i: int|
            0 <= i < entries.len() ==> m.contains_key(#[trigger] entries[i].0@) && m[entries[i].0@]
                == entries[i].1@,
        forall|key: Seq<char>| #[trigger]
            m.contains_key(key) ==> exists|i: int|
                0 <= i < entries.len() && #[trigger] entries[i].0@ == key,
    ensures
        entries_map(entries) == m,
{
    assert forall|key: Seq<char>| entries_map(entries).contains_key(key) == m.contains_key(
        key,
    ) by {
        lemma_entries_map_contains(entries, key);
    }
    assert forall|key: Seq<char>| entries_map(entries).contains_key(key) implies entries_map(
        entries,
    )[key] == m[key] by {
        lemma_entries_map_contains(entries, key);
        let i = choose|i: int| 0 <= i < entries.len() && #[trigger] entries[i].0@ == key;
        lemma_entries_map_lookup(entries, i);
    }
    assert(entries_map(entries) =~= m);
}

/// The position of the entry with the given key, if there is one.
fn position(entries: &Vec<(String, String)>, key: &str) -> (found: Option<usize>)
    ensures
        match found {
            Some(i) => i < entries@.len() && entries@[i as int].0@ == key@,
            None => forall|j: int| 0 <= j < entries@.len() ==> entries@[j].0@ != key@,
        },
{
    let mut i: usize = 0;
    while i < entries.len()
        invariant
            i <= entries@.len(),
            forall|j: int| 0 <= j < i ==> entries@[j].0@ != key@,
        decreases entries@.len() - i,
    {
        if *entries[i].0.as_str() == *key {
            return Some(i);
        }
        i = i + 1;
    }
    None
}

/// Puts `value` under `key` in a list with distinct keys: in place of the
/// entry that has the key, or else at the end.
fn put(entries: &mut Vec<(String, String)>, key: String, value: String)
    requires
        distinct_keys(old(entries)@),
    ensures
        distinct_keys(final(entries)@),
        entries_map(final(entries)@) == entries_map(old(entries)@).insert(key@, value@),
{
    let ghost before = entries@;
    let ghost target = entries_map(before).insert(key@, value@);
    match position(entries, key.as_str()) {
        Some(i) => {
            entries.set(i, (key, value));
            proof {
                let after = entries@;
                assert forall|a: int, b: int| 0 <= a < b < after.len() implies after[a].0@
                    != after[b].0@ by {
                    assert(before[a].0@ != before[b].0@);
                }
                assert forall|j: int| 0 <= j < after.len() implies target.contains_key(
                    #[trigger] after[j].0@,
                ) && target[after[j].0@] == after[j].1@ by {
                    if j != i {
                        lemma_entries_map_lookup(before, j);
                        assert(before[j].0@ != before[i as int].0@);
                    }
                }
                assert forall|k: Seq<char>| #[trigger] target.contains_key(k) implies exists|
                    j: int,
                |
                    0 <= j < after.len() && #[trigger] after[j].0@ == k by {
                    if k == key@ {
                        assert(after[i as int].0@ == k);
                    } else {
                        lemma_entries_map_contains(before, k);
                        let j = choose|j: int|
                            0 <= j < before.len() && #[trigger] before[j].0@ == k;
                        assert(after[j].0@ == k);
                    }
                }
                lemma_entries_map_is(after, target);
            }
        },
        None => {
            entries.push((key, value));
            proof {
                assert(entries@.drop_last() == before);
            }
        },
    }
}

/// String annotations keyed by string. A key occurs at most once; inserting
/// under a key that is present replaces its value.
#[derive(Debug)]
pub struct Context {
    entries: Vec<(String, String)>,
}

impl View for Context {
    type V = Map<Seq<char>, Seq<char>>;

    closed spec fn view(&self) -> Map<Seq<char>, Seq<char>> {
        entries_map(self.entries@)
    }
}

impl Clone for Context {
    fn clone(&self) -> (result: Context)
        ensures
            result@ == self@,
    {
        proof {
            use_type_invariant(self);
        }
        let mut entries: Vec<(String, String)> = Vec::new();
        let mut i: usize = 0;
        while i < self.entries.len()
            invariant
                i <= self.entries@.len(),
                entries@ == self.entries@.subrange(0, i as int),
            decreases self.entries@.len() - i,
        {
            let entry = &self.entries[i];
            entries.push((entry.0.clone(), entry.1.clone()));
            i = i + 1;
        }
        proof {
            assert(entries@ == self.entries@);
        }
        Context { entries }
    }
}

impl Context {
    #[verifier::type_invariant]
    spec fn keys_are_distinct(self) -> bool {
        distinct_keys(self.entries@)
    }

    /// A context always has finitely many keys.
    pub proof fn lemma_finite(self)
        ensures
            self@.dom().finite(),
    {
        lemma_entries_map_len(self.entries@);
    }

    /// The empty context.
    pub fn new() -> (context: Context)
        ensures
            context@ == Map::<Seq<char>, Seq<char>>::empty(),
    {
        Context { entries: Vec::new() }
    }

    /// The number of keys.
    pub fn len(&self) -> (n: usize)
        ensures
            self@.dom().finite(),
            n == self@.len(),
    {
        proof {
            use_type_invariant(self);
            lemma_entries_map_len(self.entries@);
        }
        self.entries.len()
    }

    /// Whether the context has no key.
    pub fn is_empty(&self) -> (empty: bool)
        ensures
            empty == (self@.len() == 0),
    {
        proof {
            use_type_invariant(self);
            lemma_entries_map_len(self.entries@);
        }
        self.entries.len() == 0
    }

    /// Whether the key is present.
    pub fn contains_key(&self, key: &str) -> (present: bool)
        ensures
            present == self@.contains_key(key@),
    {
        proof {
            lemma_entries_map_contains(self.entries@, key@);
        }
        position(&self.entries, key).is_some()
    }

    /// The value under the key, if the key is present.
    pub fn get(&self, key: &str) -> (value: Option<&String>)
        ensures
            match value {
                Some(v) => self@.contains_key(key@) && self@[key@] == v@,
                None => !self@.contains_key(key@),
            },
    {
        proof {
            use_type_invariant(self);
            lemma_entries_map_contains(self.entries@, key@);
        }
        match position(&self.entries, key) {
            Some(i) => {
                proof {
                    lemma_entries_map_lookup(self.entries@, i as int);
                }
                Some(&self.entries[i].1)
            },
            None => None,
        }
    }

    /// Puts `value` under `key`, replacing the value that was there.
    pub fn insert(self, key: String, value: String) -> (result: Context)
        ensures
            result@ == self@.insert(key@, value@),
    {
        proof {
            use_type_invariant(&self);
        }
        let mut entries = self.entries;
        put(&mut entries, key, value);
        Context { entries }
    }

    /// Copies every entry of `other` into this context. A key of `other` that
    /// is present here takes `other`'s value.
    pub fn extend(self, other: Context) -> (result: Context)
        ensures
            result@ == self@.union_prefer_right(other@),
    {
        proof {
            use_type_invariant(&self);
            use_type_invariant(&other);
        }
        let ghost incoming = other.entries@;
        let ghost start = self@;
        let mut entries = self.entries;
        proof {
            assert(entries_map(incoming.subrange(0, 0)) == Map::<Seq<char>, Seq<char>>::empty());
            assert(start.union_prefer_right(Map::empty()) == start);
        }
        for entry in it: other.entries.into_iter()
            invariant
                it.seq() == incoming,
                distinct_keys(entries@),
                entries_map(entries@) == start.union_prefer_right(
                    entries_map(incoming.subrange(0, it.index())),
                ),
        {
            let ghost done = incoming.subrange(0, it.index());
            let ghost next = incoming.subrange(0, it.index() + 1);
            proof {
                assert(next.drop_last() == done);
                assert(next.last() == entry);
                assert(start.union_prefer_right(entries_map(done)).insert(entry.0@, entry.1@)
                    == start.union_prefer_right(entries_map(next)));
            }
            put(&mut entries, entry.0, entry.1);
        }
        proof {
            assert(incoming.subrange(0, incoming.len() as int) == incoming);
        }
        Context { entries }
    }
}

} // verus!
