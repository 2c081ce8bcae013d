//! A map from names to values, kept in ascending name order (as a `BTreeMap<String, V>` is).

use vstd::prelude::*;
use crate::text::str_eq;

verus! {

/// Lexicographic order of character sequences, which is the order of `String`.
pub open spec fn lex_lt(a: Seq<char>, b: Seq<char>) -> bool
    decreases a.len(),
{
    if a.len() == 0 {
        b.len() > 0
    } else if b.len() == 0 {
        false
    } else if a[0] != b[0] {
        a[0] < b[0]
    } else {
        lex_lt(a.drop_first(), b.drop_first())
    }
}

pub proof fn lemma_lex_total(a: Seq<char>, b: Seq<char>)
    ensures
        a == b || lex_lt(a, b) || lex_lt(b, a),
    decreases a.len(),
{
    if a.len() > 0 && b.len() > 0 && a[0] == b[0] {
        lemma_lex_total(a.drop_first(), b.drop_first());
        if a.drop_first() == b.drop_first() {
            assert(a == seq![a[0]] + a.drop_first());
            assert(b == seq![b[0]] + b.drop_first());
        }
    }
}

pub proof fn lemma_lex_transitive(a: Seq<char>, b: Seq<char>, c: Seq<char>)
    requires
        lex_lt(a, b),
        lex_lt(b, c),
    ensures
        lex_lt(a, c),
    decreases a.len(),
{
    if a.len() > 0 && b.len() > 0 && c.len() > 0 && a[0] == b[0] && b[0] == c[0] {
        lemma_lex_transitive(a.drop_first(), b.drop_first(), c.drop_first());
    }
}

/// `a < b` in the order of `String`.
pub fn str_lt(a: &str, b: &str) -> (r: bool)
    ensures
        r == lex_lt(a@, b@),
{
    let n = a.unicode_len();
    let m = b.unicode_len();
    let mut i: usize = 0;
    assert(a@.skip(0) == a@ && b@.skip(0) == b@);
    while i < n && i < m
        invariant
            n == a@.len(),
            m == b@.len(),
            i <= n,
            i <= m,
            lex_lt(a@, b@) == lex_lt(a@.skip(i as int), b@.skip(i as int)),
        decreases n - i,
    {
        let x = a.get_char(i);
        let y = b.get_char(i);
        if x != y {
            return x < y;
        }
        assert(a@.skip(i as int).drop_first() == a@.skip(i + 1));
        assert(b@.skip(i as int).drop_first() == b@.skip(i + 1));
        i = i + 1;
    }
    i == n && i < m
}

/// Values under distinct names, in ascending name order.
#[derive(Debug)]
pub struct NameMap<V> {
    entries: Vec<(String, V)>,
}

impl<V> NameMap<V> {
    #[verifier::type_invariant]
    spec fn ordered(&self) -> bool {
        forall|i: int, j: int|
            0 <= i < j < self.entries@.len() ==> lex_lt(
                #[trigger] self.entries@[i].0@,
                #[trigger] self.entries@[j].0@,
            )
    }

    /// The names, in ascending order.
    pub closed spec fn names(&self) -> Seq<Seq<char>> {
        self.entries@.map_values(|e: (String, V)| e.0@)
    }

    /// The values, in the order of their names.
    pub closed spec fn values(&self) -> Seq<V> {
        self.entries@.map_values(|e: (String, V)| e.1)
    }

    /// Is there a value under `name`?
    pub open spec fn has(&self, name: Seq<char>) -> bool {
        self.names().contains(name)
    }

    pub proof fn lemma_lengths(&self)
        ensures
            self.names().len() == self.values().len(),
    {
    }

    pub fn new() -> (r: Self)
        ensures
            r.names().len() == 0,
            r.values().len() == 0,
    {
        NameMap { entries: Vec::new() }
    }

    /// A map holding one value.
    pub fn singleton(name: String, value: V) -> (r: Self)
        ensures
            r.names() == seq![name@],
            r.values() == seq![value],
    {
        let mut entries: Vec<(String, V)> = Vec::new();
        entries.push((name, value));
        let r = NameMap { entries };
        assert(r.names() =~= seq![r.entries@[0].0@]);
        assert(r.values() =~= seq![r.entries@[0].1]);
        r
    }

    pub fn len(&self) -> (r: usize)
        ensures
            r == self.names().len(),
            r == self.values().len(),
    {
        self.entries.len()
    }

    pub fn name_at(&self, i: usize) -> (r: &String)
        requires
            i < self.names().len(),
        ensures
            r@ == self.names()[i as int],
    {
        &self.entries[i].0
    }

    pub fn value_at(&self, i: usize) -> (r: &V)
        requires
            i < self.values().len(),
        ensures
            *r == self.values()[i as int],
    {
        &self.entries[i].1
    }

    /// The position of `name`, if present.
    pub fn position(&self, name: &str) -> (r: Option<usize>)
        ensures
            r is Some ==> r->0 < self.names().len() && self.names()[r->0 as int] == name@,
            r is None ==> !self.has(name@),
    {
        let mut i: usize = 0;
        while i < self.entries.len()
            invariant
                i <= self.entries@.len(),
                forall|k: int| 0 <= k < i ==> self.entries@[k].0@ != name@,
            decreases self.entries@.len() - i,
        {
            if str_eq(self.entries[i].0.as_str(), name) {
                return Some(i);
            }
            i = i + 1;
        }
        proof {
            if self.has(name@) {
                let k = choose|k: int| 0 <= k < self.names().len() && self.names()[k] == name@;
                assert(self.entries@[k].0@ == name@);
            }
        }
        None
    }

    pub fn contains_key(&self, name: &str) -> (r: bool)
        ensures
            r == self.has(name@),
    {
        self.position(name).is_some()
    }

    pub fn get(&self, name: &str) -> (r: Option<&V>)
        ensures
            r is None <==> !self.has(name@),
            r is Some ==> exists|i: int|
                0 <= i < self.names().len() && self.names()[i] == name@ && *r->0
                    == #[trigger] self.values()[i],
    {
        match self.position(name) {
            Some(i) => {
                assert(self.values()[i as int] == self.entries@[i as int].1);
                Some(&self.entries[i].1)
            },
            None => None,
        }
    }

    /// Stores `value` under `name`, replacing what was there; order is kept.
    pub fn insert(&mut self, name: String, value: V)
        ensures
            final(self).has(name@),
            forall|q: Seq<char>| q != name@ ==> (final(self).has(q) == old(self).has(q)),
    {
        proof {
            use_type_invariant(&*self);
        }
        let ghost old_entries = self.entries@;
        let mut p: usize = 0;
        while p < self.entries.len() && str_lt(self.entries[p].0.as_str(), name.as_str())
            invariant
                p <= self.entries@.len(),
                self.entries@ == old_entries,
                forall|k: int| 0 <= k < p ==> lex_lt(#[trigger] old_entries[k].0@, name@),
            decreases self.entries@.len() - p,
        {
            p = p + 1;
        }
        let replace = p < self.entries.len() && str_eq(self.entries[p].0.as_str(), name.as_str());
        let ghost k = name@;
        let mut entries: Vec<(String, V)> = Vec::new();
        std::mem::swap(&mut entries, &mut self.entries);
        if replace {
            entries.set(p, (name, value));
        } else {
            entries.insert(p, (name, value));
        }
        proof {
            if p < old_entries.len() && !replace {
                lemma_lex_total(old_entries[p as int].0@, k);
            }
            assert forall|i: int, j: int|
                0 <= i < j < entries@.len() implies lex_lt(
                #[trigger] entries@[i].0@,
                #[trigger] entries@[j].0@,
            ) by {
                if replace {
                    if i != p && j != p {
                        assert(lex_lt(old_entries[i].0@, old_entries[j].0@));
                    } else if i == p {
                        assert(lex_lt(old_entries[i].0@, old_entries[j].0@));
                    } else {
                        assert(lex_lt(old_entries[i].0@, k));
                    }
                } else {
                    if j < p {
                        assert(lex_lt(old_entries[i].0@, old_entries[j].0@));
                    } else if j == p {
                        assert(lex_lt(old_entries[i].0@, k));
                    } else if i < p {
                        assert(lex_lt(old_entries[i].0@, old_entries[j - 1].0@));
                    } else if i == p {
                        assert(entries@[j].0@ == old_entries[j - 1].0@);
                        if j - 1 > p {
                            assert(lex_lt(old_entries[p as int].0@, old_entries[j - 1].0@));
                            lemma_lex_transitive(k, old_entries[p as int].0@, old_entries[j - 1].0@);
                        }
                    } else {
                        assert(lex_lt(old_entries[i - 1].0@, old_entries[j - 1].0@));
                    }
                }
            }
        }
        self.entries = entries;
        proof {
            let names = self.names();
            let old_names = old_entries.map_values(|e: (String, V)| e.0@);
            assert(names[p as int] == k);
            assert forall|q: Seq<char>| q != k implies (#[trigger] names.contains(q)
                == old_names.contains(q)) by {
                if names.contains(q) {
                    let i = choose|i: int| 0 <= i < names.len() && names[i] == q;
                    if replace {
                        assert(old_names[i] == q);
                    } else if i < p {
                        assert(old_names[i] == q);
                    } else {
                        assert(old_names[i - 1] == q);
                    }
                }
                if old_names.contains(q) {
                    let i = choose|i: int| 0 <= i < old_names.len() && old_names[i] == q;
                    if replace {
                        assert(names[i] == q);
                    } else if i < p {
                        assert(names[i] == q);
                    } else {
                        assert(names[i + 1] == q);
                    }
                }
            }
        }
    }
}

} // verus!
