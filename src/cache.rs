//! A keyed cache whose entries carry an absolute expiry instant.

use vstd::prelude::*;
use crate::text::str_eq;

verus! {

struct CacheEntry<T> {
    key: String,
    expires_at_ms: u64,
    value: T,
}

/// Values keyed by a string (a URL), each usable until its expiry instant.
/// Storing under a key supersedes whatever was stored there before.
pub struct ExpiringCache<T> {
    entries: Vec<CacheEntry<T>>,
}

impl<T> ExpiringCache<T> {
    #[verifier::type_invariant]
    spec fn keys_unique(&self) -> bool {
        forall|i: int, j: int|
            0 <= i < j < self.entries@.len() ==> #[trigger] self.entries@[i].key@
                != #[trigger] self.entries@[j].key@
    }

    spec fn has_index(&self, key: Seq<char>, i: int) -> bool {
        0 <= i < self.entries@.len() && self.entries@[i].key@ == key
    }

    /// The entries as a map from key to (expiry instant in ms, value).
    pub closed spec fn contents(&self) -> Map<Seq<char>, (u64, T)> {
        Map::new(
            |k: Seq<char>| exists|i: int| self.has_index(k, i),
            |k: Seq<char>|
                {
                    let i = choose|i: int| self.has_index(k, i);
                    (self.entries@[i].expires_at_ms, self.entries@[i].value)
                },
        )
    }

    /// Is there an entry for `key` whose expiry lies after `now_ms`?
    pub open spec fn fresh(&self, key: Seq<char>, now_ms: u64) -> bool {
        self.contents().contains_key(key) && now_ms < self.contents()[key].0
    }

    pub fn new() -> (r: Self)
        ensures
            r.contents() == Map::<Seq<char>, (u64, T)>::empty(),
    {
        let r = ExpiringCache { entries: Vec::new() };
        assert(r.contents() =~= Map::<Seq<char>, (u64, T)>::empty());
        r
    }

    fn find(&self, key: &str) -> (r: Option<usize>)
        ensures
            r is Some ==> self.has_index(key@, r->0 as int),
            r is None ==> !(exists|i: int| self.has_index(key@, i)),
    {
        let mut i: usize = 0;
        while i < self.entries.len()
            invariant
                i <= self.entries@.len(),
                forall|k: int| 0 <= k < i ==> !self.has_index(key@, k),
            decreases self.entries@.len() - i,
        {
            if str_eq(self.entries[i].key.as_str(), key) {
                return Some(i);
            }
            i = i + 1;
        }
        None
    }

    proof fn lemma_index_is_entry(&self, key: Seq<char>, i: int)
        requires
            self.keys_unique(),
            self.has_index(key, i),
        ensures
            self.contents().contains_key(key),
            self.contents()[key] == (self.entries@[i].expires_at_ms, self.entries@[i].value),
    {
        let j = choose|j: int| self.has_index(key, j);
        if i < j {
            assert(self.entries@[i].key@ != self.entries@[j].key@);
        } else if j < i {
            assert(self.entries@[j].key@ != self.entries@[i].key@);
        }
    }

    /// The value stored under `key`, if its expiry lies after `now_ms`.
    pub fn get_fresh(&self, key: &str, now_ms: u64) -> (r: Option<&T>)
        ensures
            r is Some <==> self.fresh(key@, now_ms),
            r is Some ==> *r->0 == self.contents()[key@].1,
    {
        proof {
            use_type_invariant(self);
        }
        match self.find(key) {
            Some(i) => {
                proof {
                    self.lemma_index_is_entry(key@, i as int);
                }
                if now_ms < self.entries[i].expires_at_ms {
                    Some(&self.entries[i].value)
                } else {
                    None
                }
            },
            None => None,
        }
    }

    /// Stores `value` under `key` until `expires_at_ms`, replacing any earlier entry.
    pub fn put(&mut self, key: String, expires_at_ms: u64, value: T)
        ensures
            final(self).contents() == old(self).contents().insert(key@, (expires_at_ms, value)),
    {
        proof {
            use_type_invariant(&*self);
        }
        let ghost snapshot = *self;
        let ghost before = self.contents();
        let ghost old_entries = self.entries@;
        let found = self.find(key.as_str());
        let ghost k = key@;
        proof {
            if found is None {
                assert forall|j: int| 0 <= j < old_entries.len() implies old_entries[j].key@ != k by {
                    if old_entries[j].key@ == k {
                        assert(self.has_index(k, j));
                    }
                }
            } else {
                assert(old_entries[found->0 as int].key@ == k);
            }
        }
        let mut entries: Vec<CacheEntry<T>> = Vec::new();
        std::mem::swap(&mut entries, &mut self.entries);
        assert(entries@ == old_entries);
        let entry = CacheEntry { key, expires_at_ms, value };
        match found {
            Some(i) => {
                entries.set(i, entry);
            },
            None => {
                entries.push(entry);
            },
        }
        assert forall|a: int, b: int|
            0 <= a < b < entries@.len() implies #[trigger] entries@[a].key@
                != #[trigger] entries@[b].key@ by {
            if found is Some {
                let i = found->0 as int;
                if a != i && b != i {
                    assert(old_entries[a].key@ != old_entries[b].key@);
                } else if a == i {
                    assert(old_entries[b].key@ != old_entries[i].key@ || b < i);
                    assert(old_entries[i].key@ != old_entries[b].key@);
                } else {
                    assert(old_entries[a].key@ != old_entries[i].key@);
                }
            } else {
                if b < old_entries.len() {
                    assert(old_entries[a].key@ != old_entries[b].key@);
                } else {
                    assert(old_entries[a].key@ != k);
                }
            }
        }
        self.entries = entries;
        proof {
            let after = self.contents();
            let expected = before.insert(k, (expires_at_ms, value));
            assert forall|q: Seq<char>| #[trigger] after.contains_key(q) == expected.contains_key(q)
                by {
                if q == k {
                    let i = if found is Some {
                        found->0 as int
                    } else {
                        old_entries.len() as int
                    };
                    assert(self.has_index(q, i));
                } else {
                    if after.contains_key(q) {
                        let j = choose|j: int| self.has_index(q, j);
                        assert(old_entries[j].key@ == q);
                        assert(0 <= j < old_entries.len());
                        assert(snapshot.has_index(q, j));
                        assert(before.contains_key(q));
                    }
                    if before.contains_key(q) {
                        let j = choose|j: int| 0 <= j < old_entries.len() && old_entries[j].key@ == q;
                        assert(self.entries@[j].key@ == q);
                        assert(self.has_index(q, j));
                    }
                }
            }
            assert forall|q: Seq<char>| after.contains_key(q) implies #[trigger] after[q]
                == expected[q] by {
                let j = choose|j: int| self.has_index(q, j);
                self.lemma_index_is_entry(q, j);
                if q != k {
                    assert(old_entries[j].key@ == q);
                    assert(0 <= j < old_entries.len() && old_entries[j].key@ == q);
                    assert(snapshot.has_index(q, j));
                    let j0 = choose|j0: int| snapshot.has_index(q, j0);
                    if j0 != j {
                        if j0 < j {
                            assert(old_entries[j0].key@ != old_entries[j].key@);
                        } else {
                            assert(old_entries[j].key@ != old_entries[j0].key@);
                        }
                    }
                }
            }
            assert(after =~= expected);
        }
    }
}

} // verus!
