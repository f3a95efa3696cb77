//! The associative store backing every pallet's state.
//!
//! A `StorageMap` is a vector of entries whose keys are pairwise distinct.
//! Its specification is the finite map from each entry's key (the
//! mathematical key of the stored identifier) to the entry's value, so
//! callers reason about it exactly as about a `Map`.

use vstd::prelude::*;

use crate::traits::Identifier;

verus! {

/// A map from identifiers to values, specified as a `Map` from the
/// identifiers' mathematical keys to the stored values.
pub struct StorageMap<K: Identifier, V> {
    entries: Vec<(K, V)>,
}

impl<K: Identifier, V> View for StorageMap<K, V> {
    type V = Map<K::Key, V>;

    closed spec fn view(&self) -> Map<K::Key, V> {
        Self::seq_map(self.entries@)
    }
}

impl<K: Identifier, V> StorageMap<K, V> {
    /// No two entries of `s` carry the same key.
    spec fn distinct_keys(s: Seq<(K, V)>) -> bool {
        forall|i: int, j: int|
            0 <= i < s.len() && 0 <= j < s.len() && i != j ==> (#[trigger] s[i].0.key())
                != (#[trigger] s[j].0.key())
    }

    /// Some entry of `s` carries the key `k`.
    spec fn has_key(s: Seq<(K, V)>, k: K::Key) -> bool {
        exists|i: int| 0 <= i < s.len() && (#[trigger] s[i].0.key()) == k
    }

    /// The position of the entry of `s` carrying the key `k`.
    spec fn index_for(s: Seq<(K, V)>, k: K::Key) -> int {
        choose|i: int| 0 <= i < s.len() && (#[trigger] s[i].0.key()) == k
    }

    /// The finite map an entry sequence stands for.
    spec fn seq_map(s: Seq<(K, V)>) -> Map<K::Key, V> {
        Map::new(
            |k: K::Key| Self::has_key(s, k),
            |k: K::Key| s[Self::index_for(s, k)].1,
        )
    }

    #[verifier::type_invariant]
    spec fn wf(&self) -> bool {
        Self::distinct_keys(self.entries@)
    }

    /// With distinct keys, the entry at `i` is the one its key selects.
    proof fn lemma_entry_at(s: Seq<(K, V)>, i: int)
        requires
            Self::distinct_keys(s),
            0 <= i < s.len(),
        ensures
            Self::has_key(s, s[i].0.key()),
            Self::index_for(s, s[i].0.key()) == i,
            Self::seq_map(s).contains_key(s[i].0.key()),
            Self::seq_map(s)[s[i].0.key()] == s[i].1,
    {
        let k = s[i].0.key();
        assert(Self::has_key(s, k));
        let j = Self::index_for(s, k);
        assert(0 <= j < s.len() && s[j].0.key() == k);
        assert(j == i);
    }

    /// Appending an entry with a fresh key inserts it into the map.
    proof fn lemma_push_view(s: Seq<(K, V)>, key: K, value: V)
        requires
            Self::distinct_keys(s),
            !Self::has_key(s, key.key()),
        ensures
            Self::distinct_keys(s.push((key, value))),
            Self::seq_map(s.push((key, value))) == Self::seq_map(s).insert(key.key(), value),
    {
        let s2 = s.push((key, value));
        let k = key.key();
        let n = s.len() as int;
        assert(s2[n] == (key, value));
        assert forall|i: int, j: int|
            0 <= i < s2.len() && 0 <= j < s2.len() && i != j implies (#[trigger] s2[i].0.key())
            != (#[trigger] s2[j].0.key()) by {
            if i < n && j < n {
                assert(s2[i] == s[i] && s2[j] == s[j]);
            } else if i == n {
                assert(s2[j] == s[j]);
                if s[j].0.key() == k {
                    assert(Self::has_key(s, k));
                }
            } else {
                assert(s2[i] == s[i]);
                if s[i].0.key() == k {
                    assert(Self::has_key(s, k));
                }
            }
        }
        assert forall|k2: K::Key| Self::has_key(s2, k2) implies Self::has_key(s, k2) || k2
            == k by {
            let i = choose|i: int| 0 <= i < s2.len() && (#[trigger] s2[i].0.key()) == k2;
            if i < n {
                assert(s2[i] == s[i]);
                assert(Self::has_key(s, k2));
            }
        }
        assert forall|k2: K::Key| Self::has_key(s, k2) implies Self::has_key(s2, k2) by {
            let i = choose|i: int| 0 <= i < s.len() && (#[trigger] s[i].0.key()) == k2;
            assert(s2[i] == s[i]);
            assert((#[trigger] s2[i].0.key()) == k2);
        }
        assert(Self::seq_map(s2) =~= Self::seq_map(s).insert(k, value)) by {
            Self::lemma_entry_at(s2, n);
            assert forall|k2: K::Key| Self::has_key(s, k2) implies Self::seq_map(s2)[k2]
                == Self::seq_map(s)[k2] by {
                let i = Self::index_for(s, k2);
                assert(0 <= i < s.len() && s[i].0.key() == k2);
                Self::lemma_entry_at(s, i);
                assert(s2[i] == s[i]);
                Self::lemma_entry_at(s2, i);
            }
        }
    }

    /// Removing the entry at `i` removes its key from the map.
    proof fn lemma_remove_view(s: Seq<(K, V)>, i: int)
        requires
            Self::distinct_keys(s),
            0 <= i < s.len(),
        ensures
            Self::distinct_keys(s.remove(i)),
            !Self::has_key(s.remove(i), s[i].0.key()),
            Self::seq_map(s.remove(i)) == Self::seq_map(s).remove(s[i].0.key()),
    {
        let s2 = s.remove(i);
        let k = s[i].0.key();
        assert forall|a: int, b: int|
            0 <= a < s2.len() && 0 <= b < s2.len() && a != b implies (#[trigger] s2[a].0.key())
            != (#[trigger] s2[b].0.key()) by {
            let a0: int = if a < i { a } else { a + 1 };
            let b0: int = if b < i { b } else { b + 1 };
            assert(s2[a] == s[a0] && s2[b] == s[b0]);
        }
        assert forall|j: int| 0 <= j < s2.len() implies (#[trigger] s2[j].0.key()) != k by {
            let j0: int = if j < i { j } else { j + 1 };
            assert(s2[j] == s[j0]);
        }
        assert forall|k2: K::Key| Self::has_key(s2, k2) implies Self::has_key(s, k2) && k2
            != k by {
            let j = choose|j: int| 0 <= j < s2.len() && (#[trigger] s2[j].0.key()) == k2;
            let j0: int = if j < i { j } else { j + 1 };
            assert(s2[j] == s[j0]);
            assert((#[trigger] s[j0].0.key()) == k2);
        }
        assert forall|k2: K::Key| Self::has_key(s, k2) && k2 != k implies Self::has_key(
            s2,
            k2,
        ) by {
            let j = choose|j: int| 0 <= j < s.len() && (#[trigger] s[j].0.key()) == k2;
            assert(j != i);
            let j2: int = if j < i { j } else { j - 1 };
            assert(s2[j2] == s[j]);
            assert((#[trigger] s2[j2].0.key()) == k2);
        }
        assert(Self::seq_map(s2) =~= Self::seq_map(s).remove(k)) by {
            assert forall|k2: K::Key| Self::has_key(s2, k2) implies Self::seq_map(s2)[k2]
                == Self::seq_map(s)[k2] by {
                let j = Self::index_for(s2, k2);
                assert(0 <= j < s2.len() && s2[j].0.key() == k2);
                Self::lemma_entry_at(s2, j);
                let j0: int = if j < i { j } else { j + 1 };
                assert(s2[j] == s[j0]);
                Self::lemma_entry_at(s, j0);
            }
        }
    }

    /// An empty map.
    pub fn new() -> (r: Self)
        ensures
            r@ == Map::<K::Key, V>::empty(),
    {
        let r = StorageMap { entries: Vec::new() };
        proof {
            assert(r@ =~= Map::<K::Key, V>::empty());
        }
        r
    }

    /// The position of the entry carrying the key of `key`, if any.
    fn find(&self, key: &K) -> (r: Option<usize>)
        ensures
            match r {
                Some(i) => i < self.entries@.len() && self.entries@[i as int].0.key()
                    == key.key(),
                None => !Self::has_key(self.entries@, key.key()),
            },
    {
        let n = self.entries.len();
        let mut i: usize = 0;
        while i < n
            invariant
                n == self.entries@.len(),
                i <= n,
                forall|j: int| 0 <= j < i ==> (#[trigger] self.entries@[j].0.key()) != key.key(),
            decreases n - i,
        {
            if self.entries[i].0.id_eq(key) {
                return Some(i);
            }
            i = i + 1;
        }
        None
    }

    /// Look the key of `key` up.
    pub fn get(&self, key: &K) -> (r: Option<&V>)
        ensures
            match r {
                Some(v) => self@.contains_key(key.key()) && *v == self@[key.key()],
                None => !self@.contains_key(key.key()),
            },
    {
        proof {
            use_type_invariant(self);
        }
        match self.find(key) {
            Some(i) => {
                proof {
                    Self::lemma_entry_at(self.entries@, i as int);
                }
                Some(&self.entries[i].1)
            },
            None => None,
        }
    }

    /// Whether the key of `key` is present.
    pub fn contains_key(&self, key: &K) -> (r: bool)
        ensures
            r == self@.contains_key(key.key()),
    {
        proof {
            use_type_invariant(self);
        }
        match self.find(key) {
            Some(i) => {
                proof {
                    Self::lemma_entry_at(self.entries@, i as int);
                }
                true
            },
            None => false,
        }
    }

    /// Map the key of `key` to `value`, replacing any earlier entry.
    pub fn insert(&mut self, key: K, value: V)
        ensures
            final(self)@ == old(self)@.insert(key.key(), value),
    {
        proof {
            use_type_invariant(&*self);
        }
        let found = self.find(&key);
        let ghost s = self.entries@;
        let mut entries: Vec<(K, V)> = Vec::new();
        core::mem::swap(&mut entries, &mut self.entries);
        match found {
            Some(i) => {
                entries.remove(i);
                proof {
                    Self::lemma_remove_view(s, i as int);
                    Self::lemma_push_view(s.remove(i as int), key, value);
                    assert(Self::seq_map(s.remove(i as int)).insert(key.key(), value)
                        =~= Self::seq_map(s).insert(key.key(), value));
                }
                entries.push((key, value));
            },
            None => {
                proof {
                    Self::lemma_push_view(s, key, value);
                }
                entries.push((key, value));
            },
        }
        self.entries = entries;
    }

    /// Drop the entry carrying the key of `key`, if any.
    pub fn remove(&mut self, key: &K)
        ensures
            final(self)@ == old(self)@.remove(key.key()),
    {
        proof {
            use_type_invariant(&*self);
        }
        let found = self.find(key);
        let ghost s = self.entries@;
        match found {
            Some(i) => {
                let mut entries: Vec<(K, V)> = Vec::new();
                core::mem::swap(&mut entries, &mut self.entries);
                entries.remove(i);
                proof {
                    Self::lemma_remove_view(s, i as int);
                }
                self.entries = entries;
            },
            None => {
                proof {
                    assert(self@ =~= self@.remove(key.key()));
                }
            },
        }
    }
}

} // verus!
