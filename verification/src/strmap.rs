//! A small map from strings to strings, kept as a vector of entries with
//! distinct keys (insertion order is kept; inserting an existing key
//! replaces its value in place).
use vstd::prelude::*;

use crate::detect::types::str_eq;

verus! {

/// The entries as a map.
pub open spec fn pairs_map(v: Seq<(Seq<char>, Seq<char>)>) -> Map<Seq<char>, Seq<char>>
    decreases v.len(),
{
    if v.len() == 0 {
        Map::empty()
    } else {
        pairs_map(v.drop_last()).insert(v.last().0, v.last().1)
    }
}

pub open spec fn keys_distinct(v: Seq<(Seq<char>, Seq<char>)>) -> bool {
    forall|i: int, j: int| 0 <= i < j < v.len() ==> #[trigger] v[i].0 != #[trigger] v[j].0
}

pub open spec fn pair_view(p: (String, String)) -> (Seq<char>, Seq<char>) {
    (p.0@, p.1@)
}

proof fn lemma_pairs_map_keys(v: Seq<(Seq<char>, Seq<char>)>)
    ensures
        forall|k: Seq<char>|
            #[trigger] pairs_map(v).contains_key(k) <==> exists|i: int|
                0 <= i < v.len() && v[i].0 == k,
        pairs_map(v).dom().finite(),
    decreases v.len(),
{
    if v.len() > 0 {
        lemma_pairs_map_keys(v.drop_last());
        assert forall|k: Seq<char>|
            #[trigger] pairs_map(v).contains_key(k) <==> exists|i: int|
                0 <= i < v.len() && v[i].0 == k by {
            if pairs_map(v).contains_key(k) && k != v.last().0 {
                let i = choose|i: int| 0 <= i < v.len() - 1 && v.drop_last()[i].0 == k;
                assert(v[i].0 == k);
            }
            if exists|i: int| 0 <= i < v.len() && v[i].0 == k {
                let i = choose|i: int| 0 <= i < v.len() && v[i].0 == k;
                if i < v.len() - 1 {
                    assert(v.drop_last()[i].0 == k);
                }
            }
        }
    }
}

proof fn lemma_pairs_map_len(v: Seq<(Seq<char>, Seq<char>)>)
    requires
        keys_distinct(v),
    ensures
        pairs_map(v).dom().len() == v.len(),
    decreases v.len(),
{
    if v.len() > 0 {
        let w = v.drop_last();
        assert(keys_distinct(w)) by {
            assert forall|i: int, j: int| 0 <= i < j < w.len() implies #[trigger] w[i].0 != #[trigger] w[j].0 by {
                assert(w[i] == v[i] && w[j] == v[j]);
            }
        }
        lemma_pairs_map_len(w);
        lemma_pairs_map_keys(w);
        if pairs_map(w).contains_key(v.last().0) {
            let i = choose|i: int| 0 <= i < w.len() && w[i].0 == v.last().0;
            assert(v[i].0 == v[v.len() - 1].0);
        }
    }
}

proof fn lemma_pairs_map_update(v: Seq<(Seq<char>, Seq<char>)>, i: int, val: Seq<char>)
    requires
        keys_distinct(v),
        0 <= i < v.len(),
    ensures
        pairs_map(v.update(i, (v[i].0, val))) == pairs_map(v).insert(v[i].0, val),
    decreases v.len(),
{
    let u = v.update(i, (v[i].0, val));
    if i == v.len() - 1 {
        assert(u.drop_last() =~= v.drop_last());
        assert(pairs_map(u) =~= pairs_map(v).insert(v[i].0, val));
    } else {
        let w = v.drop_last();
        assert(keys_distinct(w)) by {
            assert forall|a: int, b: int| 0 <= a < b < w.len() implies #[trigger] w[a].0 != #[trigger] w[b].0 by {
                assert(w[a] == v[a] && w[b] == v[b]);
            }
        }
        lemma_pairs_map_update(w, i, val);
        assert(u.drop_last() =~= w.update(i, (w[i].0, val)));
        assert(v[i].0 != v[v.len() - 1].0);
        assert(pairs_map(u) =~= pairs_map(v).insert(v[i].0, val));
    }
}

/// A map from strings to strings.
#[derive(Debug)]
pub struct StringMap {
    entries: Vec<(String, String)>,
}

impl StringMap {
    /// The entries, in insertion order.
    pub closed spec fn entry_seq(&self) -> Seq<(Seq<char>, Seq<char>)> {
        self.entries@.map_values(|p: (String, String)| pair_view(p))
    }

    #[verifier::type_invariant]
    closed spec fn wf(&self) -> bool {
        keys_distinct(self.entry_seq())
    }

    pub open spec fn view(&self) -> Map<Seq<char>, Seq<char>> {
        pairs_map(self.entry_seq())
    }

    pub fn new() -> (r: StringMap)
        ensures
            r.view() == Map::<Seq<char>, Seq<char>>::empty(),
    {
        let r = StringMap { entries: Vec::new() };
        assert(r.entry_seq() =~= Seq::<(Seq<char>, Seq<char>)>::empty());
        r
    }

    /// Position of a key among the entries.
    fn position(&self, key: &str) -> (r: Option<usize>)
        ensures
            r matches Some(i) ==> i < self.entries@.len() && self.entry_seq()[i as int].0 == key@,
            r is None ==> forall|i: int|
                0 <= i < self.entries@.len() ==> self.entry_seq()[i].0 != key@,
    {
        let mut i: usize = 0;
        while i < self.entries.len()
            invariant
                i <= self.entries@.len(),
                forall|j: int| 0 <= j < i ==> self.entry_seq()[j].0 != key@,
            decreases self.entries.len() - i,
        {
            if str_eq(self.entries[i].0.as_str(), key) {
                return Some(i);
            }
            i = i + 1;
        }
        None
    }

    /// Insert a key, replacing its value if it is there.
    pub fn insert(&mut self, key: String, value: String)
        ensures
            final(self).view() == old(self).view().insert(key@, value@),
    {
        proof {
            use_type_invariant(&*self);
        }
        let ghost before = self.entry_seq();
        let pos = self.position(key.as_str());
        let mut v: Vec<(String, String)> = Vec::new();
        std::mem::swap(&mut v, &mut self.entries);
        let ghost vb = v@;
        assert(vb.map_values(|p: (String, String)| pair_view(p)) == before);
        match pos {
            Some(i) => {
                v.set(i, (key, value));
                proof {
                    let after = v@.map_values(|p: (String, String)| pair_view(p));
                    assert(after =~= before.update(i as int, (before[i as int].0, value@)));
                    lemma_pairs_map_update(before, i as int, value@);
                    assert forall|a: int, b: int| 0 <= a < b < after.len() implies #[trigger] after[a].0 != #[trigger] after[b].0 by {
                        assert(after[a].0 == before[a].0 && after[b].0 == before[b].0);
                    }
                }
            },
            None => {
                v.push((key, value));
                proof {
                    let after = v@.map_values(|p: (String, String)| pair_view(p));
                    assert(after =~= before.push((key@, value@)));
                    assert(after.drop_last() =~= before);
                    assert forall|a: int, b: int| 0 <= a < b < after.len() implies #[trigger] after[a].0 != #[trigger] after[b].0 by {
                        if b < before.len() {
                            assert(after[a] == before[a] && after[b] == before[b]);
                        } else {
                            assert(after[a] == before[a]);
                        }
                    }
                }
            },
        }
        self.entries = v;
    }

    pub fn contains_key(&self, key: &str) -> (r: bool)
        ensures
            r == self.view().contains_key(key@),
    {
        proof {
            lemma_pairs_map_keys(self.entry_seq());
        }
        match self.position(key) {
            Some(i) => true,
            None => false,
        }
    }

    pub fn get(&self, key: &str) -> (r: Option<String>)
        ensures
            crate::paths::opt_string_view(r) == (if self.view().contains_key(key@) {
                Some(self.view()[key@])
            } else {
                None
            }),
    {
        proof {
            use_type_invariant(self);
            lemma_pairs_map_keys(self.entry_seq());
        }
        match self.position(key) {
            Some(i) => {
                proof {
                    let v = self.entry_seq();
                    assert(v.update(i as int, (v[i as int].0, v[i as int].1)) =~= v);
                    lemma_pairs_map_update(v, i as int, v[i as int].1);
                }
                Some(self.entries[i].1.clone())
            },
            None => None,
        }
    }

    pub fn len(&self) -> (r: usize)
        ensures
            r == self.view().dom().len(),
    {
        proof {
            use_type_invariant(self);
            lemma_pairs_map_len(self.entry_seq());
        }
        self.entries.len()
    }

    pub fn is_empty(&self) -> (r: bool)
        ensures
            r == (self.view().dom().len() == 0),
    {
        self.len() == 0
    }

    /// The keys, in insertion order.
    pub fn keys(&self) -> (r: Vec<String>)
        ensures
            r@.len() == self.view().dom().len(),
            forall|i: int| 0 <= i < r@.len() ==> self.view().contains_key(#[trigger] r@[i]@),
            forall|k: Seq<char>|
                #[trigger] self.view().contains_key(k) ==> exists|i: int| 0 <= i < r@.len() && r@[i]@ == k,
    {
        proof {
            use_type_invariant(self);
            lemma_pairs_map_keys(self.entry_seq());
            lemma_pairs_map_len(self.entry_seq());
        }
        let mut r: Vec<String> = Vec::new();
        let mut i: usize = 0;
        while i < self.entries.len()
            invariant
                i <= self.entries@.len(),
                r@.len() == i,
                forall|j: int| 0 <= j < i ==> #[trigger] r@[j]@ == self.entry_seq()[j].0,
            decreases self.entries.len() - i,
        {
            r.push(self.entries[i].0.clone());
            i = i + 1;
        }
        assert forall|j: int| 0 <= j < r@.len() implies self.view().contains_key(#[trigger] r@[j]@) by {
            assert(self.entry_seq()[j].0 == r@[j]@);
        }
        assert forall|k: Seq<char>| #[trigger] self.view().contains_key(k) implies exists|i: int|
            0 <= i < r@.len() && r@[i]@ == k by {
            let i = choose|i: int| 0 <= i < self.entry_seq().len() && self.entry_seq()[i].0 == k;
            assert(r@[i]@ == k);
        }
        r
    }
}

} // verus!
