//! Common helpers for reading manifests.
use vstd::prelude::*;

use crate::text::{
    chars_of, chars_equal, concat_str, ends_with, find_any_char, first_in_set, has_prefix,
    has_suffix, remove_char, replace_char, replace_char_with, slice_range, starts_with,
    string_of, to_lowercase, trim, trim_chars, unicode_lowercase,
};

verus! {

/// The characters that end a package name in a requirement.
pub open spec fn requirement_stops() -> Seq<char> {
    seq!['=', '>', '<', '~', '[', ';', ' ']
}

/// The package name of a requirement: the text before the first version,
/// extra, marker or space character, trimmed.
pub open spec fn requirement_name(req: Seq<char>) -> Seq<char> {
    trim(req.take(first_in_set(req, requirement_stops(), 0)))
}

/// Extract package name from a requirement string
/// (`pyswitchbot==0.40.0` → `pyswitchbot`, `package[extra]>=1.0` → `package`).
pub fn extract_package_name(req: &str) -> (r: String)
    ensures
        r@ == requirement_name(req@),
{
    let cs = chars_of(req);
    let stops = vec!['=', '>', '<', '~', '[', ';', ' '];
    assert(stops@ =~= requirement_stops());
    let i = find_any_char(cs.as_slice(), stops.as_slice());
    let head = slice_range(cs.as_slice(), 0, i);
    assert(head@ =~= cs@.take(i as int));
    let t = trim_chars(head.as_slice());
    string_of(t.as_slice())
}

/// Normalize a package name for comparison: lowercase, `-` as `_`.
pub fn normalize_package_name(name: &str) -> (r: String)
    ensures
        r@ == replace_char(unicode_lowercase(name@), '-', seq!['_']),
{
    let cs = chars_of(name);
    let low = to_lowercase(cs.as_slice());
    let r = replace_char_with(low.as_slice(), '-', '_');
    string_of(r.as_slice())
}

pub open spec fn dashes_to_underscores(s: Seq<char>) -> Seq<char> {
    replace_char(s, '-', seq!['_'])
}

pub open spec fn without_separators(s: Seq<char>) -> Seq<char> {
    replace_char(replace_char(s, '-', Seq::empty()), '_', Seq::empty())
}

/// Whether an import name matches a package name (both lowercased), by the
/// usual ways Python import names differ from package names: the same name,
/// `-` for `_`, a `py` or `python-` prefix, a namespace (`jaraco.abode` →
/// `jaraco`), a `-py`, `.py`, `-client` or `-api` suffix, or the same name
/// once separators are dropped.
pub open spec fn names_match(import_name: Seq<char>, package_name: Seq<char>) -> bool {
    let pkg = unicode_lowercase(package_name);
    let imp = unicode_lowercase(import_name);
    let imp_n = dashes_to_underscores(imp);
    ||| pkg == imp
    ||| dashes_to_underscores(pkg) == imp_n
    ||| (has_prefix(pkg, "py"@) && (pkg.skip(2) == imp || dashes_to_underscores(pkg.skip(2)) == imp_n))
    ||| (has_prefix(pkg, "python-"@) && (pkg.skip(7) == imp || dashes_to_underscores(pkg.skip(7))
        == imp_n))
    ||| has_prefix(pkg, imp + "."@)
    ||| has_prefix(pkg, imp + "-"@)
    ||| (has_suffix(pkg, "-py"@) && pkg.take(pkg.len() - 3) == imp)
    ||| (has_suffix(pkg, ".py"@) && unicode_lowercase(pkg.take(pkg.len() - 3)) == imp)
    ||| (has_suffix(pkg, "-client"@) && pkg.take(pkg.len() - 7) == imp)
    ||| (has_suffix(pkg, "-api"@) && pkg.take(pkg.len() - 4) == imp)
    ||| without_separators(pkg) == without_separators(imp)
}

fn strip_suffix_eq(pkg: &[char], suffix: &str, imp: &[char]) -> (r: bool)
    ensures
        r == (has_suffix(pkg@, suffix@) && pkg@.take(pkg@.len() - suffix@.len()) == imp@),
{
    let sfx = chars_of(suffix);
    if ends_with(pkg, sfx.as_slice()) {
        let head = slice_range(pkg, 0, pkg.len() - sfx.len());
        assert(head@ =~= pkg@.take(pkg@.len() - suffix@.len()));
        chars_equal(head.as_slice(), imp)
    } else {
        false
    }
}

fn strip_prefix_matches(pkg: &[char], prefix: &str, imp: &[char], imp_n: &[char]) -> (r: bool)
    ensures
        r == (has_prefix(pkg@, prefix@) && (pkg@.skip(prefix@.len() as int) == imp@
            || dashes_to_underscores(pkg@.skip(prefix@.len() as int)) == imp_n@)),
{
    let pfx = chars_of(prefix);
    if starts_with(pkg, pfx.as_slice()) {
        let rest = slice_range(pkg, pfx.len(), pkg.len());
        assert(rest@ =~= pkg@.skip(prefix@.len() as int));
        if chars_equal(rest.as_slice(), imp) {
            return true;
        }
        let rest_n = replace_char_with(rest.as_slice(), '-', '_');
        chars_equal(rest_n.as_slice(), imp_n)
    } else {
        false
    }
}

/// Check if an import name matches a package name using common Python patterns.
pub fn import_matches_package(import_name: &str, package_name: &str) -> (r: bool)
    ensures
        r == names_match(import_name@, package_name@),
{
    proof {
        reveal_strlit("py");
        reveal_strlit("python-");
        reveal_strlit("-py");
        reveal_strlit(".py");
        reveal_strlit("-client");
        reveal_strlit("-api");
    }
    let pkg = to_lowercase(chars_of(package_name).as_slice());
    let imp = to_lowercase(chars_of(import_name).as_slice());
    if chars_equal(pkg.as_slice(), imp.as_slice()) {
        return true;
    }
    let pkg_n = replace_char_with(pkg.as_slice(), '-', '_');
    let imp_n = replace_char_with(imp.as_slice(), '-', '_');
    if chars_equal(pkg_n.as_slice(), imp_n.as_slice()) {
        return true;
    }
    if strip_prefix_matches(pkg.as_slice(), "py", imp.as_slice(), imp_n.as_slice()) {
        return true;
    }
    if strip_prefix_matches(pkg.as_slice(), "python-", imp.as_slice(), imp_n.as_slice()) {
        return true;
    }
    let dotted = concat_str(imp.as_slice(), ".");
    let dashed = concat_str(imp.as_slice(), "-");
    if starts_with(pkg.as_slice(), dotted.as_slice()) || starts_with(
        pkg.as_slice(),
        dashed.as_slice(),
    ) {
        return true;
    }
    if strip_suffix_eq(pkg.as_slice(), "-py", imp.as_slice()) {
        return true;
    }
    let dot_py = chars_of(".py");
    if ends_with(pkg.as_slice(), dot_py.as_slice()) {
        let head = slice_range(pkg.as_slice(), 0, pkg.len() - 3);
        assert(head@ =~= pkg@.take(pkg@.len() - 3));
        let head_low = to_lowercase(head.as_slice());
        if chars_equal(head_low.as_slice(), imp.as_slice()) {
            return true;
        }
    }
    if strip_suffix_eq(pkg.as_slice(), "-client", imp.as_slice()) {
        return true;
    }
    if strip_suffix_eq(pkg.as_slice(), "-api", imp.as_slice()) {
        return true;
    }
    let pkg_bare = remove_char(remove_char(pkg.as_slice(), '-').as_slice(), '_');
    let imp_bare = remove_char(remove_char(imp.as_slice(), '-').as_slice(), '_');
    chars_equal(pkg_bare.as_slice(), imp_bare.as_slice())
}

/// Every name matches itself.
pub proof fn lemma_names_match_reflexive(name: Seq<char>)
    ensures
        names_match(name, name),
{
}

} // verus!
