//! Regular-expression matching, through the `regex` crate.
//!
//! What a regular expression matches is the `regex` crate's business; the
//! results are named here (as functions of the pattern and the text alone)
//! and the rest of the library is verified for every value they may take.
use vstd::prelude::*;

verus! {

/// Whether `regex::Regex::new` accepts the pattern.
pub uninterp spec fn regex_valid(pattern: Seq<char>) -> bool;

/// What `regex::Regex::is_match` answers for the compiled pattern on the text.
pub uninterp spec fn regex_matches(pattern: Seq<char>, text: Seq<char>) -> bool;

/// The leftmost-first match of the pattern in the text, as
/// `regex::Regex::captures` finds it: the text before the match, and the
/// capture groups (group 0 is the whole match; `None` for a group that did
/// not take part in the match).
pub uninterp spec fn regex_capture_groups(pattern: Seq<char>, text: Seq<char>) -> Option<
    (Seq<char>, Seq<Option<Seq<char>>>),
>;

/// The matches of `regex::Regex::find_iter`, in order, as byte spans
/// (start, end) of the text.
pub uninterp spec fn regex_find_all(pattern: Seq<char>, text: Seq<char>) -> Seq<(usize, usize)>;

/// The view of an optional group's text.
pub open spec fn group_view(g: Option<Vec<char>>) -> Option<Seq<char>> {
    match g {
        Some(v) => Some(v@),
        None => None,
    }
}

/// The view of a capture result: the text before the match and the groups.
pub open spec fn captures_view(c: Option<(Vec<char>, Vec<Option<Vec<char>>>)>) -> Option<
    (Seq<char>, Seq<Option<Seq<char>>>),
> {
    match c {
        Some(pair) => Some((pair.0@, pair.1@.map_values(|g: Option<Vec<char>>| group_view(g)))),
        None => None,
    }
}

/// Calls `regex::Regex::new` and reports whether it succeeded.
#[verifier::external_body]
pub fn regex_compiles(pattern: &str) -> (r: bool)
    ensures
        r == regex_valid(pattern@),
{
    regex::Regex::new(pattern).is_ok()
}

/// Compiles the pattern with `regex::Regex::new` and calls `is_match` on the
/// text; a pattern that does not compile matches nothing.
#[verifier::external_body]
pub fn regex_is_match(pattern: &str, text: &str) -> (r: bool)
    ensures
        r == (regex_valid(pattern@) && regex_matches(pattern@, text@)),
{
    match regex::Regex::new(pattern) {
        Ok(re) => re.is_match(text),
        Err(_) => false,
    }
}

/// Compiles the pattern with `regex::Regex::new` and calls `captures` on the
/// text, handing back the text before the match and each group's text; a
/// pattern that does not compile matches nothing.
#[verifier::external_body]
pub fn regex_captures(pattern: &str, text: &str) -> (r: Option<(Vec<char>, Vec<Option<Vec<char>>>)>)
    ensures
        captures_view(r) == (if regex_valid(pattern@) {
            regex_capture_groups(pattern@, text@)
        } else {
            None
        }),
{
    let re = match regex::Regex::new(pattern) {
        Ok(re) => re,
        Err(_) => return None,
    };
    re.captures(text).map(|c| {
        let before: Vec<char> = text[..c.get_match().start()].chars().collect();
        let groups: Vec<Option<Vec<char>>> =
            c.iter().map(|g| g.map(|m| m.as_str().chars().collect())).collect();
        (before, groups)
    })
}

/// Compiles the pattern with `regex::Regex::new` and walks `find_iter` on the
/// text, handing back each match's byte span; a pattern that does not
/// compile matches nothing.
#[verifier::external_body]
pub fn regex_find_iter(pattern: &str, text: &str) -> (r: Vec<(usize, usize)>)
    ensures
        r@ == (if regex_valid(pattern@) { regex_find_all(pattern@, text@) } else { Seq::empty() }),
{
    match regex::Regex::new(pattern) {
        Ok(re) => re.find_iter(text).map(|m| (m.start(), m.end())).collect(),
        Err(_) => Vec::new(),
    }
}

/// The matches of `regex::Regex::captures_iter`, in order, each as its
/// capture groups (group 0 is the whole match; `None` for a group that did
/// not take part in the match).
pub uninterp spec fn regex_all_captures(pattern: Seq<char>, text: Seq<char>) -> Seq<
    Seq<Option<Seq<char>>>,
>;

/// The view of a list of capture groups.
pub open spec fn groups_view(g: Vec<Option<Vec<char>>>) -> Seq<Option<Seq<char>>> {
    g@.map_values(|x: Option<Vec<char>>| group_view(x))
}

/// Compiles the pattern with `regex::Regex::new` and walks `captures_iter`
/// on the text, handing back each match's groups; a pattern that does not
/// compile matches nothing.
#[verifier::external_body]
pub fn regex_captures_iter(pattern: &str, text: &str) -> (r: Vec<Vec<Option<Vec<char>>>>)
    ensures
        r@.map_values(|g: Vec<Option<Vec<char>>>| groups_view(g)) == (if regex_valid(pattern@) {
            regex_all_captures(pattern@, text@)
        } else {
            Seq::empty()
        }),
{
    match regex::Regex::new(pattern) {
        Ok(re) => re.captures_iter(text).map(
            |c| c.iter().map(|g| g.map(|m| m.as_str().chars().collect())).collect(),
        ).collect(),
        Err(_) => Vec::new(),
    }
}

/// What matching pattern `p` against `line` gives.
pub open spec fn capture_of(p: Seq<char>, line: Seq<char>) -> Option<
    (Seq<char>, Seq<Option<Seq<char>>>),
> {
    if regex_valid(p) {
        regex_capture_groups(p, line)
    } else {
        None
    }
}

/// The text of group `i`, or the empty string if it did not take part.
pub open spec fn group_text(groups: Seq<Option<Seq<char>>>, i: int) -> Seq<char> {
    if 0 <= i < groups.len() && groups[i] is Some {
        groups[i].unwrap()
    } else {
        Seq::empty()
    }
}

/// The text of group `i` of a capture, or the empty string.
pub fn group_chars(groups: &Vec<Option<Vec<char>>>, i: usize) -> (r: Vec<char>)
    ensures
        r@ == group_text(groups@.map_values(|g: Option<Vec<char>>| group_view(g)), i as int),
{
    if i < groups.len() {
        match &groups[i] {
            Some(g) => g.clone(),
            None => Vec::new(),
        }
    } else {
        Vec::new()
    }
}

/// The text of group `i`, or `default` if the group did not take part.
pub open spec fn group_or(groups: Seq<Option<Seq<char>>>, i: int, default: Seq<char>) -> Seq<char> {
    if 0 <= i < groups.len() && groups[i] is Some {
        groups[i].unwrap()
    } else {
        default
    }
}

/// Some pattern of the list compiles and matches the text.
pub open spec fn any_regex_matches(patterns: Seq<Seq<char>>, text: Seq<char>) -> bool {
    exists|i: int|
        0 <= i < patterns.len() && regex_valid(#[trigger] patterns[i]) && regex_matches(
            patterns[i],
            text,
        )
}

/// Whether some pattern of the list matches the text.
pub fn matches_any(patterns: &Vec<&'static str>, text: &str) -> (r: bool)
    ensures
        r == any_regex_matches(patterns@.map_values(|p: &'static str| p@), text@),
{
    let ghost ps = patterns@.map_values(|p: &'static str| p@);
    let mut i: usize = 0;
    while i < patterns.len()
        invariant
            i <= patterns@.len(),
            ps == patterns@.map_values(|p: &'static str| p@),
            forall|j: int| 0 <= j < i ==> !(regex_valid(#[trigger] ps[j]) && regex_matches(ps[j], text@)),
        decreases patterns.len() - i,
    {
        if regex_is_match(patterns[i], text) {
            assert(regex_valid(ps[i as int]) && regex_matches(ps[i as int], text@));
            return true;
        }
        i = i + 1;
    }
    false
}

// ---------------------------------------------------------------------------
// Glob patterns, through the `globset` crate
// ---------------------------------------------------------------------------

/// Whether `globset::Glob::new` accepts the pattern.
pub uninterp spec fn glob_valid(pattern: Seq<char>) -> bool;

/// What the compiled matcher of a glob answers on a path
/// (`globset::Glob::compile_matcher` then `GlobMatcher::is_match`).
pub uninterp spec fn glob_matches(pattern: Seq<char>, path: Seq<char>) -> bool;

/// What a `globset::GlobSet` built from the (valid) patterns answers on a
/// path, or `None` when `GlobSetBuilder::build` fails.
pub uninterp spec fn glob_set_outcome(patterns: Seq<Seq<char>>, path: Seq<char>) -> Option<bool>;

/// The text of the error `regex::Regex::new` gives for a pattern it refuses.
pub uninterp spec fn regex_error_text(pattern: Seq<char>) -> Seq<char>;

/// The text of the error `globset::Glob::new` gives for a pattern it refuses.
pub uninterp spec fn glob_error_text(pattern: Seq<char>) -> Seq<char>;

/// Calls `globset::Glob::new` and reports whether it succeeded.
#[verifier::external_body]
pub fn glob_compiles(pattern: &str) -> (r: bool)
    ensures
        r == glob_valid(pattern@),
{
    globset::Glob::new(pattern).is_ok()
}

/// Compiles the glob with `globset::Glob::new` and asks its matcher whether
/// the path matches; a glob that does not compile matches nothing.
#[verifier::external_body]
pub fn glob_is_match(pattern: &str, path: &str) -> (r: bool)
    ensures
        r == (glob_valid(pattern@) && glob_matches(pattern@, path@)),
{
    match globset::Glob::new(pattern) {
        Ok(g) => g.compile_matcher().is_match(path),
        Err(_) => false,
    }
}

/// Builds a `globset::GlobSet` from the patterns (all of which compile) and
/// asks whether the path matches; `None` when the set cannot be built.
#[verifier::external_body]
pub fn glob_set_is_match(patterns: &Vec<String>, path: &str) -> (r: Option<bool>)
    requires
        forall|i: int| 0 <= i < patterns@.len() ==> glob_valid(#[trigger] patterns@[i]@),
    ensures
        r == glob_set_outcome(patterns@.map_values(|p: String| p@), path@),
{
    let mut builder = globset::GlobSetBuilder::new();
    for p in patterns {
        match globset::Glob::new(p) {
            Ok(g) => { builder.add(g); }
            Err(_) => return None,
        }
    }
    builder.build().ok().map(|set| set.is_match(path))
}

/// The error text of `regex::Regex::new` for the pattern, or `None` when it compiles.
#[verifier::external_body]
pub fn regex_compile_error(pattern: &str) -> (r: Option<String>)
    ensures
        r is None <==> regex_valid(pattern@),
        r matches Some(m) ==> m@ == regex_error_text(pattern@),
{
    regex::Regex::new(pattern).err().map(|e| e.to_string())
}

/// The error text of `globset::Glob::new` for the pattern, or `None` when it compiles.
#[verifier::external_body]
pub fn glob_compile_error(pattern: &str) -> (r: Option<String>)
    ensures
        r is None <==> glob_valid(pattern@),
        r matches Some(m) ==> m@ == glob_error_text(pattern@),
{
    globset::Glob::new(pattern).err().map(|e| e.to_string())
}

} // verus!
