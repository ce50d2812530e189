//! PyPI names and lookups.
use vstd::prelude::*;

use crate::registry::{PackageStatus, RegistryError};
use crate::text::{
    ascii_lower, chars_of, concat, concat_str, contains, contains_seq, ends_with, has_prefix,
    has_suffix, replace_all, replace_str, starts_with, string_of, to_ascii_lower_char,
    trim_matches, trim_matches_char, slice_range, chars_eq_str,
};

verus! {

pub open spec fn is_separator(c: char) -> bool {
    c == '-' || c == '_' || c == '.'
}

/// The normalisation state after reading `s`: the output so far and whether
/// the last character read was a separator that was written.
pub open spec fn normalize_state(s: Seq<char>) -> (Seq<char>, bool)
    decreases s.len(),
{
    if s.len() == 0 {
        (Seq::empty(), false)
    } else {
        let (r, prev) = normalize_state(s.drop_last());
        let c = s.last();
        if is_separator(c) {
            if !prev && r.len() > 0 {
                (r.push('-'), true)
            } else {
                (r, prev)
            }
        } else {
            (r.push(ascii_lower(c)), false)
        }
    }
}

/// PEP 503 style normalisation: runs of `-`, `_` and `.` become one `-`
/// (none at the start or the end) and ASCII letters are lowercased.
pub open spec fn normalized_package_name(s: Seq<char>) -> Seq<char> {
    let r = normalize_state(s).0;
    if r.len() > 0 && r.last() == '-' {
        r.drop_last()
    } else {
        r
    }
}

pub fn normalize_package_name(name: &str) -> (r: String)
    ensures
        r@ == normalized_package_name(name@),
{
    let cs = chars_of(name);
    let mut out: Vec<char> = Vec::new();
    let mut prev_separator = false;
    let mut i: usize = 0;
    while i < cs.len()
        invariant
            i <= cs@.len(),
            cs@ == name@,
            (out@, prev_separator) == normalize_state(cs@.take(i as int)),
        decreases cs.len() - i,
    {
        let c = cs[i];
        assert(cs@.take(i + 1).drop_last() =~= cs@.take(i as int));
        if c == '-' || c == '_' || c == '.' {
            if !prev_separator && out.len() > 0 {
                out.push('-');
                prev_separator = true;
            }
        } else {
            out.push(to_ascii_lower_char(c));
            prev_separator = false;
        }
        i = i + 1;
    }
    assert(cs@.take(cs@.len() as int) =~= cs@);
    if out.len() > 0 && out[out.len() - 1] == '-' {
        out.pop();
    }
    string_of(out.as_slice())
}

/// A name is normal: no `_` or `.`, no ASCII uppercase, no `-` at either
/// end, and no two `-` in a row.
pub open spec fn is_normal_name(s: Seq<char>) -> bool {
    &&& forall|i: int| 0 <= i < s.len() ==> s[i] != '_' && s[i] != '.' && ascii_lower(#[trigger] s[i]) == s[i]
    &&& (s.len() > 0 ==> s[0] != '-' && s.last() != '-')
    &&& forall|i: int| 0 <= i < s.len() - 1 ==> !(#[trigger] s[i] == '-' && s[i + 1] == '-')
}

proof fn lemma_state_shape(s: Seq<char>)
    ensures
        ({
            let (r, prev) = normalize_state(s);
            &&& forall|i: int| 0 <= i < r.len() ==> r[i] != '_' && r[i] != '.' && ascii_lower(#[trigger] r[i]) == r[i]
            &&& (r.len() > 0 ==> r[0] != '-')
            &&& forall|i: int| 0 <= i < r.len() - 1 ==> !(#[trigger] r[i] == '-' && r[i + 1] == '-')
            &&& prev == (r.len() > 0 && r.last() == '-')
        }),
    decreases s.len(),
{
    if s.len() > 0 {
        lemma_state_shape(s.drop_last());
        let (r0, p0) = normalize_state(s.drop_last());
        let (r, prev) = normalize_state(s);
        let c = s.last();
        if !is_separator(c) {
            let lc = ascii_lower(c);
            assert(ascii_lower(lc) == lc);
            assert(lc != '-' && lc != '_' && lc != '.');
            assert forall|i: int| 0 <= i < r.len() implies r[i] != '_' && r[i] != '.' && ascii_lower(#[trigger] r[i]) == r[i] by {
                if i < r0.len() {
                    assert(r[i] == r0[i]);
                }
            }
            assert forall|i: int| 0 <= i < r.len() - 1 implies !(#[trigger] r[i] == '-' && r[i + 1] == '-') by {
                if i < r0.len() - 1 {
                    assert(r[i] == r0[i] && r[i + 1] == r0[i + 1]);
                }
            }
        } else if !p0 && r0.len() > 0 {
            assert forall|i: int| 0 <= i < r.len() implies r[i] != '_' && r[i] != '.' && ascii_lower(#[trigger] r[i]) == r[i] by {
                if i < r0.len() {
                    assert(r[i] == r0[i]);
                }
            }
            assert forall|i: int| 0 <= i < r.len() - 1 implies !(#[trigger] r[i] == '-' && r[i + 1] == '-') by {
                if i < r0.len() - 1 {
                    assert(r[i] == r0[i] && r[i + 1] == r0[i + 1]);
                }
            }
        }
    }
}

/// The output of normalisation is a normal name.
pub proof fn lemma_normalized_is_normal(s: Seq<char>)
    ensures
        is_normal_name(normalized_package_name(s)),
{
    lemma_state_shape(s);
    let r = normalize_state(s).0;
    let n = normalized_package_name(s);
    if r.len() > 0 && r.last() == '-' {
        assert forall|i: int| 0 <= i < n.len() implies n[i] != '_' && n[i] != '.' && ascii_lower(#[trigger] n[i]) == n[i] by {
            assert(n[i] == r[i]);
        }
        assert forall|i: int| 0 <= i < n.len() - 1 implies !(#[trigger] n[i] == '-' && n[i + 1] == '-') by {
            assert(n[i] == r[i] && n[i + 1] == r[i + 1]);
        }
        if n.len() > 0 {
            assert(n[0] == r[0]);
            assert(n.last() == r[r.len() - 2]);
            assert(!(r[r.len() - 2] == '-' && r[r.len() - 1] == '-'));
        }
    }
}

proof fn lemma_state_of_normal(s: Seq<char>, k: int)
    requires
        is_normal_name(s),
        0 <= k <= s.len(),
    ensures
        normalize_state(s.take(k)) == (s.take(k), k > 0 && s[k - 1] == '-'),
    decreases k,
{
    if k > 0 {
        lemma_state_of_normal(s, k - 1);
        let t = s.take(k);
        assert(t.drop_last() =~= s.take(k - 1));
        assert(t.last() == s[k - 1]);
        let c = s[k - 1];
        if is_separator(c) {
            assert(c == '-');
            assert(k - 1 > 0) by {
                assert(s[0] != '-');
            }
            assert(!(s[k - 2] == '-' && s[k - 1] == '-'));
            assert(s.take(k - 1).push('-') =~= t);
        } else {
            assert(ascii_lower(s[k - 1]) == s[k - 1]);
            assert(s.take(k - 1).push(c) =~= t);
        }
    }
}

/// Normalising twice is normalising once.
pub proof fn lemma_normalize_idempotent(s: Seq<char>)
    ensures
        normalized_package_name(normalized_package_name(s)) == normalized_package_name(s),
{
    let n = normalized_package_name(s);
    lemma_normalized_is_normal(s);
    lemma_state_of_normal(n, n.len() as int);
    assert(n.take(n.len() as int) =~= n);
}

// ---------------------------------------------------------------------------
// Name variants
// ---------------------------------------------------------------------------

/// Appends `x` to `v` when `cond` holds.
pub open spec fn push_if(v: Seq<Seq<char>>, cond: bool, x: Seq<char>) -> Seq<Seq<char>> {
    if cond {
        v.push(x)
    } else {
        v
    }
}

/// The names a (normalised) package may be published under on PyPI, in the
/// order they are tried: the name itself, with and without `py`/`python-`
/// prefixes, with `-py`, `-client`, `-api` suffixes, with `.py`, and with
/// `async` taken out (or `-async` added).
pub open spec fn name_variants(n: Seq<char>) -> Seq<Seq<char>> {
    let v0 = seq![n];
    let v1 = push_if(v0, !has_prefix(n, "py"@), "py"@ + n);
    let v2 = push_if(v1, !has_prefix(n, "python-"@), "python-"@ + n);
    let v3 = push_if(v2, !has_suffix(n, "-py"@), n + "-py"@);
    let v4 = push_if(v3, !has_suffix(n, "-client"@), n + "-client"@);
    let v5 = push_if(v4, !has_suffix(n, "-api"@), n + "-api"@);
    let s1 = n.skip(2);
    let v6 = push_if(v5, has_prefix(n, "py"@) && s1.len() > 0 && s1 != "thon"@, s1);
    let s2 = n.skip(7);
    let v7 = push_if(v6, has_prefix(n, "python-"@) && s2.len() > 0, s2);
    let v8 = v7.push(n + ".py"@);
    let without = replace_all(n, "async"@, Seq::empty());
    if contains_seq(n, "async"@) {
        push_if(v8, without.len() > 0 && without != "-"@, trim_matches_char(without, '-'))
    } else {
        v8.push(n + "-async"@)
    }
}

pub open spec fn strings_view(v: Seq<String>) -> Seq<Seq<char>> {
    v.map_values(|s: String| s@)
}

fn push_str(v: &mut Vec<String>, x: &[char])
    ensures
        strings_view(final(v)@) == strings_view(old(v)@).push(x@),
{
    v.push(string_of(x));
    assert(strings_view(final(v)@) =~= strings_view(old(v)@).push(x@));
}

pub fn generate_name_variants(normalized: &str) -> (r: Vec<String>)
    ensures
        strings_view(r@) == name_variants(normalized@),
{
    proof {
        reveal_strlit("py");
        reveal_strlit("python-");
        reveal_strlit("async");
    }
    let n = chars_of(normalized);
    let py = chars_of("py");
    let python = chars_of("python-");
    let mut v: Vec<String> = Vec::new();
    push_str(&mut v, n.as_slice());
    assert(strings_view(v@) =~= seq![n@]);
    if !starts_with(n.as_slice(), py.as_slice()) {
        push_str(&mut v, concat(py.as_slice(), n.as_slice()).as_slice());
    }
    if !starts_with(n.as_slice(), python.as_slice()) {
        push_str(&mut v, concat(python.as_slice(), n.as_slice()).as_slice());
    }
    if !ends_with(n.as_slice(), chars_of("-py").as_slice()) {
        push_str(&mut v, concat_str(n.as_slice(), "-py").as_slice());
    }
    if !ends_with(n.as_slice(), chars_of("-client").as_slice()) {
        push_str(&mut v, concat_str(n.as_slice(), "-client").as_slice());
    }
    if !ends_with(n.as_slice(), chars_of("-api").as_slice()) {
        push_str(&mut v, concat_str(n.as_slice(), "-api").as_slice());
    }
    if starts_with(n.as_slice(), py.as_slice()) {
        let stripped = slice_range(n.as_slice(), 2, n.len());
        assert(stripped@ =~= n@.skip(2));
        if stripped.len() > 0 && !chars_eq_str(stripped.as_slice(), "thon") {
            push_str(&mut v, stripped.as_slice());
        }
    }
    if starts_with(n.as_slice(), python.as_slice()) {
        let stripped = slice_range(n.as_slice(), 7, n.len());
        assert(stripped@ =~= n@.skip(7));
        if stripped.len() > 0 {
            push_str(&mut v, stripped.as_slice());
        }
    }
    push_str(&mut v, concat_str(n.as_slice(), ".py").as_slice());
    let asyn = chars_of("async");
    if contains(n.as_slice(), asyn.as_slice()) {
        let empty: Vec<char> = Vec::new();
        let without = replace_str(n.as_slice(), asyn.as_slice(), empty.as_slice());
        assert(empty@ =~= Seq::<char>::empty());
        if without.len() > 0 && !chars_eq_str(without.as_slice(), "-") {
            push_str(&mut v, trim_matches(without.as_slice(), '-').as_slice());
        }
    } else {
        push_str(&mut v, concat_str(n.as_slice(), "-async").as_slice());
    }
    v
}

/// The names tried for a package: the variants of its normalised name.
pub fn lookup_names(package: &str) -> (r: Vec<String>)
    ensures
        strings_view(r@) == name_variants(normalized_package_name(package@)),
{
    let n = normalize_package_name(package);
    generate_name_variants(n.as_str())
}

/// The PyPI JSON address for a name.
pub fn name_url(name: &str) -> (r: String)
    ensures
        r@ == "https://pypi.org/pypi/"@ + name@ + "/json"@,
{
    let a = concat_str(chars_of("https://pypi.org/pypi/").as_slice(), name);
    let b = concat_str(a.as_slice(), "/json");
    string_of(b.as_slice())
}

/// What one name's lookup decides: `Some` ends the search with that answer
/// (found, or rate limited, which counts as found, or a network failure);
/// `None` goes on to the next name (not found, timed out, or unknown).
pub open spec fn lookup_step(outcome: Result<crate::registry::PackageStatusView, RegistryError>) -> Option<
    Result<crate::registry::PackageStatusView, RegistryError>,
> {
    match outcome {
        Ok(crate::registry::PackageStatusView::Exists) => Some(Ok(crate::registry::PackageStatusView::Exists)),
        Ok(_) => None,
        Err(RegistryError::RateLimited) => Some(Ok(crate::registry::PackageStatusView::Exists)),
        Err(RegistryError::Timeout) => None,
        Err(e) => Some(Err(e)),
    }
}

pub open spec fn opt_result_view(o: Option<Result<PackageStatus, RegistryError>>) -> Option<
    Result<crate::registry::PackageStatusView, RegistryError>,
> {
    match o {
        Some(r) => Some(crate::registry::status_result_view(r)),
        None => None,
    }
}

pub fn decide_lookup(outcome: &Result<PackageStatus, RegistryError>) -> (r: Option<
    Result<PackageStatus, RegistryError>,
>)
    ensures
        opt_result_view(r) == lookup_step(crate::registry::status_result_view(*outcome)),
{
    match outcome {
        Ok(PackageStatus::Exists) => Some(Ok(PackageStatus::Exists)),
        Ok(_) => None,
        Err(RegistryError::RateLimited) => Some(Ok(PackageStatus::Exists)),
        Err(RegistryError::Timeout) => None,
        Err(e) => Some(Err(e.duplicate())),
    }
}

} // verus!
