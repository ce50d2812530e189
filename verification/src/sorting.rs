//! Ordering of strings and stable sorting by a key.
use vstd::multiset::Multiset;
use vstd::prelude::*;

verus! {

broadcast use vstd::seq_lib::group_to_multiset_ensures;

/// Lexicographic order on strings, by character code (the order of `str`'s
/// `Ord`, since UTF-8 keeps code point order).
pub open spec fn str_le(a: Seq<char>, b: Seq<char>) -> bool
    decreases a.len(),
{
    if a.len() == 0 {
        true
    } else if b.len() == 0 {
        false
    } else if a[0] != b[0] {
        a[0] < b[0]
    } else {
        str_le(a.drop_first(), b.drop_first())
    }
}

pub proof fn lemma_str_le_total(a: Seq<char>, b: Seq<char>)
    ensures
        str_le(a, b) || str_le(b, a),
    decreases a.len(),
{
    if a.len() > 0 && b.len() > 0 && a[0] == b[0] {
        lemma_str_le_total(a.drop_first(), b.drop_first());
    }
}

pub proof fn lemma_str_le_transitive(a: Seq<char>, b: Seq<char>, c: Seq<char>)
    requires
        str_le(a, b),
        str_le(b, c),
    ensures
        str_le(a, c),
    decreases a.len(),
{
    if a.len() > 0 && b.len() > 0 && c.len() > 0 && a[0] == b[0] && b[0] == c[0] {
        lemma_str_le_transitive(a.drop_first(), b.drop_first(), c.drop_first());
    }
}

pub proof fn lemma_str_le_antisymmetric(a: Seq<char>, b: Seq<char>)
    requires
        str_le(a, b),
        str_le(b, a),
    ensures
        a == b,
    decreases a.len(),
{
    if a.len() == 0 {
        assert(b.len() == 0);
        assert(a =~= b);
    } else {
        assert(b.len() > 0);
        assert(a[0] == b[0]);
        lemma_str_le_antisymmetric(a.drop_first(), b.drop_first());
        assert(a =~= seq![a[0]] + a.drop_first());
        assert(b =~= seq![b[0]] + b.drop_first());
    }
}

/// `a <= b` for strings.
pub fn str_le_exec(a: &str, b: &str) -> (r: bool)
    ensures
        r == str_le(a@, b@),
{
    let x = crate::text::chars_of(a);
    let y = crate::text::chars_of(b);
    let mut i: usize = 0;
    assert(x@.skip(0) =~= x@);
    assert(y@.skip(0) =~= y@);
    while i < x.len() && i < y.len() && x[i] == y[i]
        invariant
            i <= x@.len(),
            i <= y@.len(),
            x@ == a@,
            y@ == b@,
            str_le(a@, b@) == str_le(x@.skip(i as int), y@.skip(i as int)),
        decreases x.len() - i,
    {
        assert(x@.skip(i as int).drop_first() =~= x@.skip(i + 1));
        assert(y@.skip(i as int).drop_first() =~= y@.skip(i + 1));
        i = i + 1;
    }
    if i >= x.len() {
        true
    } else if i >= y.len() {
        false
    } else {
        x[i] < y[i]
    }
}

/// A total preorder by which values are sorted.
pub trait KeyOrder: Sized {
    spec fn key_le(&self, other: &Self) -> bool;

    proof fn lemma_key_le_total(a: &Self, b: &Self)
        ensures
            a.key_le(b) || b.key_le(a),
    ;

    proof fn lemma_key_le_transitive(a: &Self, b: &Self, c: &Self)
        requires
            a.key_le(b),
            b.key_le(c),
        ensures
            a.key_le(c),
    ;

    fn key_le_exec(&self, other: &Self) -> (r: bool)
        ensures
            r == self.key_le(other),
    ;
}

pub open spec fn sorted_by_key<T: KeyOrder>(s: Seq<T>) -> bool {
    forall|i: int, j: int| #![trigger s[i], s[j]] 0 <= i < j < s.len() ==> s[i].key_le(&s[j])
}

/// Sorts by the key, stably (equal keys keep their order): the result is
/// sorted and holds the same values.
pub fn sort_by_key<T: KeyOrder>(v: Vec<T>) -> (r: Vec<T>)
    ensures
        sorted_by_key(r@),
        r@.to_multiset() == v@.to_multiset(),
        r@.len() == v@.len(),
{
    let ghost orig = v@;
    let mut rest = v;
    let mut out: Vec<T> = Vec::new();
    assert(orig =~= out@ + rest@);
    while rest.len() > 0
        invariant
            sorted_by_key(out@),
            out@.to_multiset().add(rest@.to_multiset()) == orig.to_multiset(),
        decreases rest.len(),
    {
        let ghost rest_before = rest@;
        let x = rest.remove(0);
        proof {
            vstd::seq_lib::to_multiset_remove(rest_before, 0);
        }
        let mut p: usize = 0;
        while p < out.len() && out[p].key_le_exec(&x)
            invariant
                p <= out@.len(),
                forall|k: int| 0 <= k < p ==> (#[trigger] out@[k]).key_le(&x),
            decreases out.len() - p,
        {
            p = p + 1;
        }
        proof {
            assert forall|k: int| #![trigger out@[k]] p <= k < out@.len() implies x.key_le(&out@[k]) by {
                if out@[k].key_le(&x) {
                    T::lemma_key_le_transitive(&out@[p as int], &out@[k], &x);
                }
                T::lemma_key_le_total(&out@[k], &x);
            }
        }
        let ghost before = out@;
        out.insert(p, x);
        proof {
            vstd::seq_lib::to_multiset_insert(before, p as int, x);
            let s = out@;
            assert(s =~= before.insert(p as int, x));
            assert forall|i: int, j: int| #![trigger s[i], s[j]] 0 <= i < j < s.len() implies s[i].key_le(
                &s[j],
            ) by {
                if i < p && j < p {
                    assert(s[i] == before[i] && s[j] == before[j]);
                } else if i < p && j == p {
                } else if i < p {
                    assert(s[i] == before[i] && s[j] == before[j - 1]);
                    T::lemma_key_le_transitive(&before[i], &x, &before[j - 1]);
                } else if i == p {
                    assert(s[j] == before[j - 1]);
                } else {
                    assert(s[i] == before[i - 1] && s[j] == before[j - 1]);
                }
            }
            assert(out@.to_multiset().add(rest@.to_multiset()) =~= orig.to_multiset());
        }
    }
    proof {
        assert(rest@.to_multiset() =~= vstd::multiset::Multiset::empty());
        assert(out@.to_multiset() =~= orig.to_multiset());
        out@.to_multiset_ensures();
        orig.to_multiset_ensures();
    }
    out
}

/// Sequences with the same elements still have the same elements after
/// mapping each element.
pub proof fn lemma_permutation_map<A, B>(a: Seq<A>, b: Seq<A>, f: spec_fn(A) -> B)
    requires
        a.to_multiset() == b.to_multiset(),
    ensures
        a.map_values(f).to_multiset() == b.map_values(f).to_multiset(),
    decreases a.len(),
{
    a.to_multiset_ensures();
    b.to_multiset_ensures();
    if a.len() == 0 {
        assert(b.len() == 0);
        assert(a.map_values(f) =~= Seq::<B>::empty());
        assert(b.map_values(f) =~= Seq::<B>::empty());
    } else {
        let x = a[0];
        assert(a.to_multiset().count(x) > 0);
        assert(b.to_multiset().contains(x));
        let k = choose|k: int| 0 <= k < b.len() && b[k] == x;
        vstd::seq_lib::to_multiset_remove(b, k);
        vstd::seq_lib::to_multiset_remove(a, 0);
        assert(a.remove(0) =~= a.drop_first());
        lemma_permutation_map(a.drop_first(), b.remove(k), f);
        let ma = a.map_values(f);
        let mb = b.map_values(f);
        vstd::seq_lib::to_multiset_remove(ma, 0);
        vstd::seq_lib::to_multiset_remove(mb, k);
        assert(ma.remove(0) =~= a.drop_first().map_values(f));
        assert(mb.remove(k) =~= b.remove(k).map_values(f));
        ma.to_multiset_ensures();
        mb.to_multiset_ensures();
        assert(ma.to_multiset().contains(f(x)));
        assert(mb[k] == f(x));
        assert(mb.to_multiset().contains(f(x)));
        assert(ma.to_multiset() =~= ma.to_multiset().remove(f(x)).insert(f(x)));
        assert(mb.to_multiset() =~= mb.to_multiset().remove(f(x)).insert(f(x)));
    }
}

/// The order of `(text, number, text)` triples: by the first text, then the
/// number, then the second text.
pub open spec fn triple_le(a: (Seq<char>, int, Seq<char>), b: (Seq<char>, int, Seq<char>)) -> bool {
    if a.0 != b.0 {
        str_le(a.0, b.0)
    } else if a.1 != b.1 {
        a.1 < b.1
    } else {
        str_le(a.2, b.2)
    }
}

pub proof fn lemma_triple_le_total(a: (Seq<char>, int, Seq<char>), b: (Seq<char>, int, Seq<char>))
    ensures
        triple_le(a, b) || triple_le(b, a),
{
    lemma_str_le_total(a.0, b.0);
    lemma_str_le_total(a.2, b.2);
}

pub proof fn lemma_triple_le_transitive(
    a: (Seq<char>, int, Seq<char>),
    b: (Seq<char>, int, Seq<char>),
    c: (Seq<char>, int, Seq<char>),
)
    requires
        triple_le(a, b),
        triple_le(b, c),
    ensures
        triple_le(a, c),
{
    if a.0 != b.0 && b.0 != c.0 {
        lemma_str_le_transitive(a.0, b.0, c.0);
        if a.0 == c.0 {
            lemma_str_le_antisymmetric(a.0, b.0);
        }
    } else if a.0 == b.0 && b.0 == c.0 {
        if a.1 == b.1 && b.1 == c.1 {
            lemma_str_le_transitive(a.2, b.2, c.2);
        }
    }
}

/// `triple_le` on executable values.
pub fn triple_le_exec(a0: &str, a1: usize, a2: &str, b0: &str, b1: usize, b2: &str) -> (r: bool)
    ensures
        r == triple_le((a0@, a1 as int, a2@), (b0@, b1 as int, b2@)),
{
    if !crate::detect::types::str_eq(a0, b0) {
        str_le_exec(a0, b0)
    } else if a1 != b1 {
        a1 < b1
    } else {
        str_le_exec(a2, b2)
    }
}

impl KeyOrder for String {
    open spec fn key_le(&self, other: &Self) -> bool {
        str_le(self@, other@)
    }

    proof fn lemma_key_le_total(a: &Self, b: &Self) {
        lemma_str_le_total(a@, b@);
    }

    proof fn lemma_key_le_transitive(a: &Self, b: &Self, c: &Self) {
        lemma_str_le_transitive(a@, b@, c@);
    }

    fn key_le_exec(&self, other: &Self) -> (r: bool) {
        str_le_exec(self.as_str(), other.as_str())
    }
}

/// The elements that `f` keeps, each replaced by what `f` gives for it, in
/// their order.
pub open spec fn filter_map<A, B>(s: Seq<A>, f: spec_fn(A) -> Option<B>) -> Seq<B>
    decreases s.len(),
{
    if s.len() == 0 {
        Seq::empty()
    } else {
        let prev = filter_map(s.drop_last(), f);
        match f(s.last()) {
            Some(b) => prev.push(b),
            None => prev,
        }
    }
}

/// What an optional value adds to a multiset.
pub open spec fn option_multiset<B>(o: Option<B>) -> Multiset<B> {
    match o {
        Some(b) => Multiset::singleton(b),
        None => Multiset::empty(),
    }
}

proof fn lemma_filter_map_remove<A, B>(s: Seq<A>, k: int, f: spec_fn(A) -> Option<B>)
    requires
        0 <= k < s.len(),
    ensures
        filter_map(s, f).to_multiset() == filter_map(s.remove(k), f).to_multiset().add(
            option_multiset(f(s[k])),
        ),
    decreases s.len(),
{
    broadcast use vstd::multiset::group_multiset_axioms;

    let p = filter_map(s.drop_last(), f);
    p.to_multiset_ensures();
    if k == s.len() - 1 {
        assert(s.remove(k) =~= s.drop_last());
        match f(s.last()) {
            Some(b) => {
                assert(p.push(b).to_multiset() =~= p.to_multiset().add(Multiset::singleton(b)));
            },
            None => {
                assert(p.to_multiset() =~= p.to_multiset().add(Multiset::empty()));
            },
        }
    } else {
        lemma_filter_map_remove(s.drop_last(), k, f);
        let r = s.remove(k);
        assert(s.drop_last().remove(k) =~= r.drop_last());
        assert(r.last() == s.last());
        assert(s.drop_last()[k] == s[k]);
        let q = filter_map(r.drop_last(), f);
        q.to_multiset_ensures();
        match f(s.last()) {
            Some(b) => {
                assert(p.push(b).to_multiset() =~= p.to_multiset().insert(b));
                assert(q.push(b).to_multiset() =~= q.to_multiset().insert(b));
                assert(filter_map(s, f).to_multiset() =~= filter_map(r, f).to_multiset().add(
                    option_multiset(f(s[k])),
                ));
            },
            None => {},
        }
    }
}

/// Sequences with the same elements keep the same elements through a
/// filter-map.
pub proof fn lemma_filter_map_permutation<A, B>(a: Seq<A>, b: Seq<A>, f: spec_fn(A) -> Option<B>)
    requires
        a.to_multiset() == b.to_multiset(),
    ensures
        filter_map(a, f).to_multiset() == filter_map(b, f).to_multiset(),
    decreases a.len(),
{
    a.to_multiset_ensures();
    b.to_multiset_ensures();
    if a.len() == 0 {
        assert(b.len() == 0);
    } else {
        let x = a.last();
        assert(a.to_multiset().count(x) > 0);
        assert(b.to_multiset().contains(x));
        let k = choose|k: int| 0 <= k < b.len() && b[k] == x;
        let n = a.len() - 1;
        assert(a.remove(n) =~= a.drop_last());
        lemma_filter_map_remove(a, n, f);
        lemma_filter_map_remove(b, k, f);
        lemma_filter_map_permutation(a.drop_last(), b.remove(k), f);
    }
}

} // verus!
