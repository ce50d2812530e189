//! Helpers that the language analyzers share: walking children of syntax
//! nodes, counting control-flow captures, and the views and orders of
//! declarations and imports.
use vstd::prelude::*;

use crate::analysis::facts::{BodyView, DeclView, Declaration, FunctionBody, Import, ImportFactView};
use crate::analysis::syntax::{
    capture_view, child_indices, children, match_view, matches_view, nodes_view, Capture,
    CaptureView, NodeView, SyntaxNode,
};
use crate::detect::types::str_eq;
use crate::sorting::triple_le;

verus! {

// ---------------------------------------------------------------------------
// Node helpers
// ---------------------------------------------------------------------------

/// The first of the nodes with the given kind.
pub open spec fn first_of_kind(ns: Seq<NodeView>, ks: Seq<int>, kind: Seq<char>) -> Option<int>
    decreases ks.len(),
{
    if ks.len() == 0 {
        None
    } else if ns[ks[0]].kind == kind {
        Some(ks[0])
    } else {
        first_of_kind(ns, ks.drop_first(), kind)
    }
}

/// The first of the nodes that hangs under the given field name.
pub open spec fn first_of_field(ns: Seq<NodeView>, ks: Seq<int>, field: Seq<char>) -> Option<int>
    decreases ks.len(),
{
    if ks.len() == 0 {
        None
    } else if ns[ks[0]].field == Some(field) {
        Some(ks[0])
    } else {
        first_of_field(ns, ks.drop_first(), field)
    }
}

pub open spec fn as_ints(v: Seq<usize>) -> Seq<int> {
    v.map_values(|k: usize| k as int)
}

pub fn first_of_kind_exec(ns: &Vec<SyntaxNode>, ks: &Vec<usize>, kind: &str) -> (r: Option<usize>)
    requires
        forall|j: int| 0 <= j < ks@.len() ==> #[trigger] ks@[j] < ns@.len(),
    ensures
        match r {
            Some(k) => first_of_kind(nodes_view(ns@), as_ints(ks@), kind@) == Some(k as int) && k
                < ns@.len(),
            None => first_of_kind(nodes_view(ns@), as_ints(ks@), kind@) is None,
        },
{
    let ghost nv = nodes_view(ns@);
    let mut i: usize = 0;
    assert(as_ints(ks@).skip(0) =~= as_ints(ks@));
    while i < ks.len()
        invariant
            i <= ks@.len(),
            nv == nodes_view(ns@),
            forall|j: int| 0 <= j < ks@.len() ==> #[trigger] ks@[j] < ns@.len(),
            first_of_kind(nv, as_ints(ks@), kind@) == first_of_kind(
                nv,
                as_ints(ks@).skip(i as int),
                kind@,
            ),
        decreases ks.len() - i,
    {
        let k = ks[i];
        assert(as_ints(ks@).skip(i as int)[0] == k as int);
        assert(nv[k as int] == ns@[k as int]@);
        if str_eq(ns[k].kind.as_str(), kind) {
            return Some(k);
        }
        assert(as_ints(ks@).skip(i as int).drop_first() =~= as_ints(ks@).skip(i + 1));
        i = i + 1;
    }
    assert(as_ints(ks@).skip(i as int) =~= Seq::<int>::empty());
    None
}

pub fn first_of_field_exec(ns: &Vec<SyntaxNode>, ks: &Vec<usize>, field: &str) -> (r: Option<usize>)
    requires
        forall|j: int| 0 <= j < ks@.len() ==> #[trigger] ks@[j] < ns@.len(),
    ensures
        match r {
            Some(k) => first_of_field(nodes_view(ns@), as_ints(ks@), field@) == Some(k as int)
                && k < ns@.len(),
            None => first_of_field(nodes_view(ns@), as_ints(ks@), field@) is None,
        },
{
    let ghost nv = nodes_view(ns@);
    let mut i: usize = 0;
    assert(as_ints(ks@).skip(0) =~= as_ints(ks@));
    while i < ks.len()
        invariant
            i <= ks@.len(),
            nv == nodes_view(ns@),
            forall|j: int| 0 <= j < ks@.len() ==> #[trigger] ks@[j] < ns@.len(),
            first_of_field(nv, as_ints(ks@), field@) == first_of_field(
                nv,
                as_ints(ks@).skip(i as int),
                field@,
            ),
        decreases ks.len() - i,
    {
        let k = ks[i];
        assert(as_ints(ks@).skip(i as int)[0] == k as int);
        assert(nv[k as int] == ns@[k as int]@);
        let hit = match &ns[k].field {
            Some(f) => str_eq(f.as_str(), field),
            None => false,
        };
        if hit {
            return Some(k);
        }
        assert(as_ints(ks@).skip(i as int).drop_first() =~= as_ints(ks@).skip(i + 1));
        i = i + 1;
    }
    assert(as_ints(ks@).skip(i as int) =~= Seq::<int>::empty());
    None
}


pub fn children_exec(ns: &Vec<SyntaxNode>, k: usize) -> (r: Vec<usize>)
    requires
        k < ns@.len(),
    ensures
        as_ints(r@) == children(nodes_view(ns@), k as int),
        forall|j: int| 0 <= j < r@.len() ==> #[trigger] r@[j] < ns@.len(),
{
    let r = child_indices(ns, k);
    assert(as_ints(r@) =~= r@.map_values(|x: usize| x as int));
    r
}


// ---------------------------------------------------------------------------
// Control flow
// ---------------------------------------------------------------------------

/// A capture of a node that lies within the given bytes.
pub open spec fn within(c: CaptureView, lo: usize, hi: usize) -> bool {
    lo <= c.1 && c.2 <= hi
}

/// The captures of a match with the given name that lie within the bytes.
pub open spec fn count_in(m: Seq<CaptureView>, name: Seq<char>, lo: usize, hi: usize) -> nat
    decreases m.len(),
{
    if m.len() == 0 {
        0
    } else {
        count_in(m.drop_last(), name, lo, hi) + if m.last().0 == name && within(m.last(), lo, hi) {
            1nat
        } else {
            0nat
        }
    }
}

/// The captures of all matches with the given name that lie within the bytes.
pub open spec fn count_all(cm: Seq<Seq<CaptureView>>, name: Seq<char>, lo: usize, hi: usize) -> nat
    decreases cm.len(),
{
    if cm.len() == 0 {
        0
    } else {
        count_all(cm.drop_last(), name, lo, hi) + count_in(cm.last(), name, lo, hi)
    }
}

/// A count, stopped at the largest `usize`.
pub open spec fn sat(n: nat) -> usize {
    if n > usize::MAX {
        usize::MAX
    } else {
        n as usize
    }
}

pub fn count_captures(cm: &Vec<Vec<Capture>>, name: &str, lo: usize, hi: usize) -> (r: usize)
    ensures
        r == sat(count_all(matches_view(cm@), name@, lo, hi)),
{
    let ghost mv = matches_view(cm@);
    let mut n: usize = 0;
    let mut i: usize = 0;
    while i < cm.len()
        invariant
            i <= cm@.len(),
            mv == matches_view(cm@),
            n == sat(count_all(mv.take(i as int), name@, lo, hi)),
        decreases cm.len() - i,
    {
        let m = &cm[i];
        let ghost base = count_all(mv.take(i as int), name@, lo, hi);
        assert(mv[i as int] == match_view(*m));
        let mut j: usize = 0;
        while j < m.len()
            invariant
                j <= m@.len(),
                n == sat(base + count_in(match_view(*m).take(j as int), name@, lo, hi)),
            decreases m.len() - j,
        {
            let c = &m[j];
            assert(match_view(*m).take(j + 1).drop_last() =~= match_view(*m).take(j as int));
            assert(match_view(*m).take(j + 1).last() == capture_view(*c));
            if str_eq(c.0.as_str(), name) && lo <= c.1.start && c.1.end <= hi && n < usize::MAX {
                n = n + 1;
            }
            j = j + 1;
        }
        assert(match_view(*m).take(m@.len() as int) =~= match_view(*m));
        assert(mv.take(i + 1).drop_last() =~= mv.take(i as int));
        i = i + 1;
    }
    assert(mv.take(mv.len() as int) =~= mv);
    n
}

/// The control flow within the given bytes.

/// Declarations ordered by start offset, then name.
pub open spec fn decls_sorted(ds: Seq<DeclView>) -> bool {
    forall|i: int, j: int|
        #![trigger ds[i], ds[j]]
        0 <= i < j < ds.len() ==> triple_le(
            (Seq::empty(), ds[i].span.start_byte as int, ds[i].name),
            (Seq::empty(), ds[j].span.start_byte as int, ds[j].name),
        )
}

/// Imports ordered by path.
pub open spec fn imports_sorted(is: Seq<ImportFactView>) -> bool {
    forall|i: int, j: int|
        #![trigger is[i], is[j]]
        0 <= i < j < is.len() ==> triple_le(
            (is[i].path, 0, Seq::empty()),
            (is[j].path, 0, Seq::empty()),
        )
}



pub open spec fn decls_view(v: Seq<Declaration>) -> Seq<DeclView> {
    v.map_values(|d: Declaration| d@)
}



pub open spec fn opt_body_view(o: Option<FunctionBody>) -> Option<BodyView> {
    match o {
        Some(b) => Some(b@),
        None => None,
    }
}



pub open spec fn imports_view(v: Seq<Import>) -> Seq<ImportFactView> {
    v.map_values(|i: Import| i@)
}

pub open spec fn opt_import_view(o: Option<Import>) -> Option<ImportFactView> {
    match o {
        Some(i) => Some(i@),
        None => None,
    }
}

} // verus!
