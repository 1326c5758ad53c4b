//! A small in-memory store of values under text keys.
use vstd::prelude::*;
use crate::error::DbError;

verus! {

/// One key with its value.
#[derive(Debug)]
struct DbEntry<V> {
    key: String,
    value: V,
}

/// An in-memory store: at most one value under each key.
#[derive(Debug)]
pub struct Db<V> {
    entries: Vec<DbEntry<V>>,
}

/// Whether some entry has the key `k`.
spec fn has_key<V>(entries: Seq<DbEntry<V>>, k: Seq<char>) -> bool {
    exists|i: int| 0 <= i < entries.len() && (#[trigger] entries[i]).key@ == k
}

/// The place of an entry with the key `k`.
spec fn key_index<V>(entries: Seq<DbEntry<V>>, k: Seq<char>) -> int {
    choose|i: int| 0 <= i < entries.len() && (#[trigger] entries[i]).key@ == k
}

/// Whether no two entries share a key.
spec fn distinct_keys<V>(entries: Seq<DbEntry<V>>) -> bool {
    forall|i: int, j: int|
        0 <= i < j < entries.len() ==> (#[trigger] entries[i]).key@ != (#[trigger] entries[j]).key@
}

/// What a sequence of entries holds, as a map from keys to values.
spec fn contents<V>(entries: Seq<DbEntry<V>>) -> Map<Seq<char>, V> {
    Map::new(
        |k: Seq<char>| has_key(entries, k),
        |k: Seq<char>| entries[key_index(entries, k)].value,
    )
}

/// Among entries with distinct keys, the entry at a place is the one that
/// its key finds.
proof fn lemma_lookup<V>(entries: Seq<DbEntry<V>>, i: int)
    requires
        distinct_keys(entries),
        0 <= i < entries.len(),
    ensures
        has_key(entries, entries[i].key@),
        key_index(entries, entries[i].key@) == i,
        contents(entries).contains_key(entries[i].key@),
        contents(entries)[entries[i].key@] == entries[i].value,
{
    let j = key_index(entries, entries[i].key@);
    assert(0 <= j < entries.len() && entries[j].key@ == entries[i].key@);
    if j < i {
        assert(entries[j].key@ != entries[i].key@);
    } else if i < j {
        assert(entries[i].key@ != entries[j].key@);
    }
}

impl<V> View for Db<V> {
    type V = Map<Seq<char>, V>;

    closed spec fn view(&self) -> Map<Seq<char>, V> {
        contents(self.entries@)
    }
}

impl<V> Db<V> {
    #[verifier::type_invariant]
    spec fn keys_are_distinct(self) -> bool {
        distinct_keys(self.entries@)
    }

    /// An empty store.
    pub fn new() -> (db: Db<V>)
        ensures
            db@ == Map::<Seq<char>, V>::empty(),
    {
        let db = Db { entries: Vec::new() };
        assert(db@ =~= Map::<Seq<char>, V>::empty());
        db
    }

    /// The place of the entry under `key`, if there is one.
    fn position(&self, key: &str) -> (place: Option<usize>)
        ensures
            match place {
                Some(i) => i < self.entries@.len() && self.entries@[i as int].key@ == key@,
                None => !has_key(self.entries@, key@),
            },
    {
        let wanted = key.to_owned();
        let mut i: usize = 0;
        while i < self.entries.len()
            invariant
                i <= self.entries.len(),
                wanted@ == key@,
                forall|j: int| 0 <= j < i ==> (#[trigger] self.entries@[j]).key@ != key@,
            decreases self.entries.len() - i,
        {
            if self.entries[i].key == wanted {
                return Some(i);
            }
            i += 1;
        }
        None
    }

    /// The value under `key`, if there is one.
    pub fn get(&self, key: &str) -> (value: Option<&V>)
        ensures
            match value {
                Some(v) => self@.contains_key(key@) && *v == self@[key@],
                None => !self@.contains_key(key@),
            },
    {
        proof {
            use_type_invariant(self);
        }
        match self.position(key) {
            Some(i) => {
                proof {
                    lemma_lookup(self.entries@, i as int);
                }
                Some(&self.entries[i].value)
            },
            None => None,
        }
    }

    /// Whether the store holds a value under `key`.
    pub fn contains_key(&self, key: &str) -> (held: bool)
        ensures
            held == self@.contains_key(key@),
    {
        self.position(key).is_some()
    }

    /// The keys of the store, each once.
    pub fn keys(&self) -> (keys: Vec<String>)
        ensures
            forall|i: int| 0 <= i < keys@.len() ==> self@.contains_key(#[trigger] keys@[i]@),
            forall|k: Seq<char>|
                self@.contains_key(k) ==> exists|i: int|
                    0 <= i < keys@.len() && (#[trigger] keys@[i])@ == k,
            forall|i: int, j: int|
                0 <= i < j < keys@.len() ==> (#[trigger] keys@[i])@ != (#[trigger] keys@[j])@,
    {
        proof {
            use_type_invariant(self);
        }
        let mut keys: Vec<String> = Vec::new();
        let mut i: usize = 0;
        while i < self.entries.len()
            invariant
                i <= self.entries.len(),
                keys@.len() == i,
                forall|j: int| 0 <= j < i ==> (#[trigger] keys@[j])@ == self.entries@[j].key@,
            decreases self.entries.len() - i,
        {
            keys.push(self.entries[i].key.clone());
            i += 1;
        }
        proof {
            assert forall|j: int| 0 <= j < keys@.len() implies self@.contains_key(
                #[trigger] keys@[j]@,
            ) by {
                lemma_lookup(self.entries@, j);
            }
            assert forall|k: Seq<char>| self@.contains_key(k) implies exists|j: int|
                0 <= j < keys@.len() && (#[trigger] keys@[j])@ == k by {
                let j = key_index(self.entries@, k);
                assert(keys@[j]@ == k);
            }
            assert forall|a: int, b: int| 0 <= a < b < keys@.len() implies (#[trigger] keys@[a])@ != (
            #[trigger] keys@[b])@ by {
                assert(self.entries@[a].key@ != self.entries@[b].key@);
            }
        }
        keys
    }

    /// Puts `value` under `key`, in place of the value that was there.
    pub fn set(&mut self, key: String, value: V)
        ensures
            final(self)@ == old(self)@.insert(key@, value),
    {
        proof {
            use_type_invariant(&*self);
        }
        let ghost before = self.entries@;
        let ghost k = key@;
        let place = self.position(key.as_str());
        let mut entries: Vec<DbEntry<V>> = Vec::new();
        core::mem::swap(&mut self.entries, &mut entries);
        match place {
            Some(i) => {
                entries.set(i, DbEntry { key, value });
                proof {
                    let after = entries@;
                    assert(distinct_keys(after)) by {
                        assert forall|a: int, b: int| 0 <= a < b < after.len() implies (
                        #[trigger] after[a]).key@ != (#[trigger] after[b]).key@ by {
                            assert(before[a].key@ != before[b].key@);
                        }
                    }
                    assert forall|q: Seq<char>| has_key(after, q) == has_key(before, q) by {
                        if has_key(before, q) {
                            let j = key_index(before, q);
                            assert(after[j].key@ == q);
                        }
                        if has_key(after, q) {
                            let j = key_index(after, q);
                            assert(before[j].key@ == q);
                        }
                    }
                    assert forall|q: Seq<char>| has_key(after, q) implies contents(after)[q]
                        == contents(before).insert(k, value)[q] by {
                        let j = key_index(after, q);
                        lemma_lookup(after, j);
                        lemma_lookup(before, j);
                        lemma_lookup(before, i as int);
                    }
                    assert(contents(after) =~= contents(before).insert(k, value));
                }
            },
            None => {
                entries.push(DbEntry { key, value });
                proof {
                    let after = entries@;
                    let last = before.len() as int;
                    assert(distinct_keys(after)) by {
                        assert forall|a: int, b: int| 0 <= a < b < after.len() implies (
                        #[trigger] after[a]).key@ != (#[trigger] after[b]).key@ by {
                            if b < last {
                                assert(before[a].key@ != before[b].key@);
                            } else {
                                assert(before[a].key@ != k);
                            }
                        }
                    }
                    assert forall|q: Seq<char>| has_key(after, q) == (has_key(before, q) || q
                        == k) by {
                        if has_key(before, q) {
                            let j = key_index(before, q);
                            assert(after[j].key@ == q);
                        }
                        if q == k {
                            assert(after[last].key@ == q);
                        }
                        if has_key(after, q) && q != k {
                            let j = key_index(after, q);
                            assert(before[j].key@ == q);
                        }
                    }
                    assert forall|q: Seq<char>| has_key(after, q) implies contents(after)[q]
                        == contents(before).insert(k, value)[q] by {
                        let j = key_index(after, q);
                        lemma_lookup(after, j);
                        if j < last {
                            lemma_lookup(before, j);
                        }
                    }
                    assert(contents(after) =~= contents(before).insert(k, value));
                }
            },
        }
        self.entries = entries;
    }

    /// Takes away the value under `key`. A key that holds nothing is an
    /// error, and the store stays as it was.
    pub fn remove(&mut self, key: &str) -> (removed: Result<(), DbError>)
        ensures
            match removed {
                Ok(()) => old(self)@.contains_key(key@) && final(self)@ == old(self)@.remove(key@),
                Err(e) => !old(self)@.contains_key(key@) && final(self)@ == old(self)@,
            },
    {
        proof {
            use_type_invariant(&*self);
        }
        let ghost before = self.entries@;
        let ghost k = key@;
        match self.position(key) {
            Some(i) => {
                let mut entries: Vec<DbEntry<V>> = Vec::new();
                core::mem::swap(&mut self.entries, &mut entries);
                let _ = entries.remove(i);
                proof {
                    let after = entries@;
                    lemma_lookup(before, i as int);
                    assert(distinct_keys(after)) by {
                        assert forall|a: int, b: int| 0 <= a < b < after.len() implies (
                        #[trigger] after[a]).key@ != (#[trigger] after[b]).key@ by {
                            let a0 = if a < i { a } else { a + 1 };
                            let b0 = if b < i { b } else { b + 1 };
                            assert(before[a0].key@ != before[b0].key@);
                        }
                    }
                    assert forall|q: Seq<char>| has_key(after, q) == (has_key(before, q) && q
                        != k) by {
                        if has_key(before, q) && q != k {
                            let j = key_index(before, q);
                            let j1 = if j < i { j } else { j - 1 };
                            assert(after[j1].key@ == q);
                        }
                        if has_key(after, q) {
                            let j = key_index(after, q);
                            let j0 = if j < i { j } else { j + 1 };
                            assert(before[j0].key@ == q);
                            if j0 < i {
                                assert(before[j0].key@ != before[i as int].key@);
                            } else {
                                assert(before[i as int].key@ != before[j0].key@);
                            }
                        }
                    }
                    assert forall|q: Seq<char>| has_key(after, q) implies contents(after)[q]
                        == contents(before).remove(k)[q] by {
                        let j = key_index(after, q);
                        let j0 = if j < i { j } else { j + 1 };
                        lemma_lookup(after, j);
                        lemma_lookup(before, j0);
                    }
                    assert(contents(after) =~= contents(before).remove(k));
                }
                self.entries = entries;
                Ok(())
            },
            None => Err(DbError::KeyNotFound),
        }
    }
}

} // verus!
