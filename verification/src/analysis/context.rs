//! Analysis context: the facts of the files analyzed so far, for cross-file
//! symbol lookup and language-aware grouping.
//!
//! Facts are kept by absolute path (each path once); a relative path is
//! resolved against the context's base directory. Reading a file is the
//! caller's part: it hands the source to `analyze_source`, or facts it has
//! to `record_facts`.
use vstd::prelude::*;

use crate::analysis::facts::{Declaration, DeclarationKind, FactsView, FileFacts};
use crate::detect::types::str_eq;
use crate::analysis::languages::go::{go_source_facts, go_source_parses, GoAnalyzer};
use crate::analysis::languages::python::{python_source_facts, python_source_parses, PythonAnalyzer};
use crate::analysis::languages::rust_lang::{rust_source_facts, rust_source_parses, RustAnalyzer};
use crate::analysis::languages::c::{c_source_facts, c_source_parses, CAnalyzer};
use crate::analysis::languages::java::{java_source_facts, java_source_parses, JavaAnalyzer};
use crate::analysis::languages::scala::{scala_source_facts, scala_source_parses, ScalaAnalyzer};
use crate::analysis::languages::swift::{swift_source_facts, swift_source_parses, SwiftAnalyzer};
use crate::analysis::languages::typescript::{
    typescript_source_facts, typescript_source_parses, TypeScriptAnalyzer,
};
use crate::analysis::languages::{analyzer_language, language_of_extension};
use crate::paths::{
    opt_string_view, path_extension, path_extension_of, path_is_absolute, path_is_absolute_of, path_join, path_join_of,
    path_strip_prefix, path_strip_prefix_of,
};
use crate::sorting::{
    lemma_permutation_map, lemma_triple_le_total, lemma_triple_le_transitive, sort_by_key,
    sorted_by_key, triple_le, triple_le_exec, KeyOrder,
};
use crate::text::{chars_of, string_of};

verus! {

broadcast use vstd::seq_lib::group_to_multiset_ensures;

/// The path a file has in the context: as given when absolute, else below
/// the base directory.
pub open spec fn absolute_path_of(base: Seq<char>, path: Seq<char>) -> Seq<char> {
    if path_is_absolute_of(path) {
        path
    } else {
        path_join_of(base, path)
    }
}

/// The path a file's facts carry: below the base directory when it is
/// there, else the absolute path.
pub open spec fn relative_path_of(base: Seq<char>, abs: Seq<char>) -> Seq<char> {
    match path_strip_prefix_of(abs, base) {
        Some(rel) => rel,
        None => abs,
    }
}

/// The facts recorded for a path, if any.
pub open spec fn lookup(entries: Seq<(String, FileFacts)>, key: Seq<char>) -> Option<FileFacts>
    decreases entries.len(),
{
    if entries.len() == 0 {
        None
    } else if entries.last().0@ == key {
        Some(entries.last().1)
    } else {
        lookup(entries.drop_last(), key)
    }
}

/// The absolute path recorded for a relative one, if any.
pub open spec fn lookup_path(entries: Seq<(String, String)>, key: Seq<char>) -> Option<Seq<char>>
    decreases entries.len(),
{
    if entries.len() == 0 {
        None
    } else if entries.last().0@ == key {
        Some(entries.last().1@)
    } else {
        lookup_path(entries.drop_last(), key)
    }
}

pub open spec fn keys_distinct<V>(entries: Seq<(String, V)>) -> bool {
    forall|i: int, j: int|
        0 <= i < j < entries.len() ==> (#[trigger] entries[i]).0@ != (#[trigger] entries[j]).0@
}

/// The language of the analyzer that reads files with the extension.
pub open spec fn extension_language(ext: Option<Seq<char>>) -> Option<Seq<char>> {
    match ext {
        Some(e) => language_of_extension(e),
        None => None,
    }
}

/// The extensions of the files that an analyzer here reads: all that have
/// a language but C++ and JavaScript.
pub open spec fn analyzed_extension(ext: Option<Seq<char>>) -> bool {
    match extension_language(ext) {
        Some(l) => l != "cpp"@ && l != "javascript"@,
        None => false,
    }
}

/// Whether the analyzer for the extension can read the source.
pub open spec fn source_parses(ext: Option<Seq<char>>, source: &str) -> bool {
    let l = extension_language(ext);
    if l == Some("go"@) {
        go_source_parses(source)
    } else if l == Some("python"@) {
        python_source_parses(source)
    } else if l == Some("rust"@) {
        rust_source_parses(source)
    } else if l == Some("c"@) {
        c_source_parses(source)
    } else if l == Some("java"@) {
        java_source_parses(source)
    } else if l == Some("scala"@) {
        scala_source_parses(source)
    } else if l == Some("swift"@) {
        swift_source_parses(source)
    } else {
        typescript_source_parses(source)
    }
}

/// What the facts of a source are, by the analyzer for the extension.
pub open spec fn source_facts(ext: Option<Seq<char>>, f: FactsView, path: Seq<char>, source: &str) -> bool {
    let l = extension_language(ext);
    if l == Some("go"@) {
        go_source_facts(f, path, source)
    } else if l == Some("python"@) {
        python_source_facts(f, path, source)
    } else if l == Some("rust"@) {
        rust_source_facts(f, path, source)
    } else if l == Some("c"@) {
        c_source_facts(f, path, source)
    } else if l == Some("java"@) {
        java_source_facts(f, path, source)
    } else if l == Some("scala"@) {
        scala_source_facts(f, path, source)
    } else if l == Some("swift"@) {
        swift_source_facts(f, path, source)
    } else {
        typescript_source_facts(f, path, source)
    }
}

/// The context after the facts of a file were recorded: same base; the
/// file's facts under its relative path; the path map records the relative
/// path; everything else as before.
pub open spec fn records(before: AnalysisContext, after: AnalysisContext, path: Seq<char>, facts: FileFacts) -> bool {
    let abs = absolute_path_of(before.base(), path);
    let rel = relative_path_of(before.base(), abs);
    &&& after.base() == before.base()
    &&& lookup(after.entries(), abs) matches Some(f) && f.path@ == rel && f == (FileFacts { path: f.path, ..facts })
    &&& forall|k: Seq<char>| k != abs ==> #[trigger] lookup(after.entries(), k) == lookup(before.entries(), k)
    &&& lookup_path(after.paths(), rel) == Some(abs)
    &&& forall|k: Seq<char>| k != rel ==> #[trigger] lookup_path(after.paths(), k) == lookup_path(before.paths(), k)
}

/// What is recorded for a file is what a lookup of that file finds, except
/// that its facts carry the file's relative path; a lookup of a file that
/// resolves elsewhere finds what it found before.
pub proof fn lemma_lookup_after_record(
    before: AnalysisContext,
    after: AnalysisContext,
    path: Seq<char>,
    facts: FileFacts,
    other: Seq<char>,
)
    requires
        records(before, after, path, facts),
    ensures
        lookup(after.entries(), absolute_path_of(after.base(), path)) matches Some(f) && f.declarations
            == facts.declarations && f.language == facts.language && f.imports == facts.imports
            && f.package == facts.package,
        absolute_path_of(after.base(), other) != absolute_path_of(after.base(), path) ==> lookup(
            after.entries(),
            absolute_path_of(after.base(), other),
        ) == lookup(before.entries(), absolute_path_of(before.base(), other)),
{
}

/// What an analysis of a source does to the context: a file recorded
/// before is left as it is (`Ok(true)`); one that no analyzer here reads is
/// left unrecorded (`Ok(false)`); else its facts, as its analyzer reads
/// them, are recorded (`Ok(true)`), or, where the analyzer fails, nothing
/// changes and the error comes back.
pub open spec fn analysis_outcome(
    before: AnalysisContext,
    after: AnalysisContext,
    path: Seq<char>,
    source: &str,
    r: Result<bool, String>,
) -> bool {
    let abs = absolute_path_of(before.base(), path);
    let ext = path_extension_of(abs);
    if lookup(before.entries(), abs) is Some {
        r == Ok::<bool, String>(true) && after == before
    } else if !analyzed_extension(ext) {
        r == Ok::<bool, String>(false) && after == before
    } else {
        match r {
            Ok(b) => b && exists|f: FileFacts|
                records(before, after, path, f) && source_facts(ext, f@, abs, source),
            Err(_) => after == before && !source_parses(ext, source),
        }
    }
}

/// From a fresh or cleared context on, through any analyses: a file's facts
/// are found (by the lookup that `facts_for_file` makes) exactly when some
/// analysis of a file at the same absolute path answered `Ok(true)`; the
/// base never changes.
pub proof fn lemma_found_after_analyses<'a>(
    cs: Seq<AnalysisContext>,
    paths: Seq<Seq<char>>,
    sources: Seq<&'a str>,
    results: Seq<Result<bool, String>>,
    x: Seq<char>,
)
    requires
        cs.len() == paths.len() + 1,
        sources.len() == paths.len(),
        results.len() == paths.len(),
        cs[0].entries().len() == 0,
        forall|i: int|
            #![trigger paths[i]]
            0 <= i < paths.len() ==> analysis_outcome(cs[i], cs[i + 1], paths[i], sources[i], results[i]),
    ensures
        cs.last().base() == cs[0].base(),
        lookup(cs.last().entries(), absolute_path_of(cs[0].base(), x)) is Some <==> exists|i: int|
            0 <= i < paths.len() && results[i] == Ok::<bool, String>(true) && absolute_path_of(
                cs[0].base(),
                #[trigger] paths[i],
            ) == absolute_path_of(cs[0].base(), x),
    decreases paths.len(),
{
    let b = cs[0].base();
    let k = absolute_path_of(b, x);
    if paths.len() > 0 {
        let n = paths.len() - 1;
        let cs0 = cs.drop_last();
        let p0 = paths.drop_last();
        let s0 = sources.drop_last();
        let r0 = results.drop_last();
        assert forall|i: int| #![trigger p0[i]] 0 <= i < p0.len() implies analysis_outcome(
            cs0[i],
            cs0[i + 1],
            p0[i],
            s0[i],
            r0[i],
        ) by {
            assert(paths[i] == p0[i]);
        }
        lemma_found_after_analyses(cs0, p0, s0, r0, x);
        let before = cs[n];
        let after = cs[n + 1];
        assert(cs0.last() == before);
        assert(analysis_outcome(before, after, paths[n], sources[n], results[n]));
        let a = absolute_path_of(b, paths[n]);
        if results[n] == Ok::<bool, String>(true) && a == k {
            assert(lookup(after.entries(), k) is Some);
        }
        if exists|i: int|
            0 <= i < p0.len() && r0[i] == Ok::<bool, String>(true) && absolute_path_of(
                b,
                #[trigger] p0[i],
            ) == k {
            let i = choose|i: int|
                0 <= i < p0.len() && r0[i] == Ok::<bool, String>(true) && absolute_path_of(
                    b,
                    #[trigger] p0[i],
                ) == k;
            assert(paths[i] == p0[i] && results[i] == r0[i]);
        }
        if exists|i: int|
            0 <= i < paths.len() && results[i] == Ok::<bool, String>(true) && absolute_path_of(
                b,
                #[trigger] paths[i],
            ) == k {
            let i = choose|i: int|
                0 <= i < paths.len() && results[i] == Ok::<bool, String>(true) && absolute_path_of(
                    b,
                    #[trigger] paths[i],
                ) == k;
            if i < n {
                assert(p0[i] == paths[i] && r0[i] == results[i]);
            }
        }
    }
}

/// One step of a context's history: a call that recorded the facts of a
/// file (a successful analysis), or one that left the context as it was (a
/// lookup, an analysis of a recorded file, of an unsupported one, or one
/// that failed).
pub enum ContextStep {
    Recorded(Seq<char>, FileFacts),
    Unchanged,
}

/// Whether the step took the context from one state to the other.
pub open spec fn step_holds(before: AnalysisContext, after: AnalysisContext, s: ContextStep) -> bool {
    match s {
        ContextStep::Recorded(p, f) => records(before, after, p, f),
        ContextStep::Unchanged => after == before,
    }
}

/// The facts that the latest of the steps recording a file at the absolute
/// path recorded, if any step did.
pub open spec fn recorded_for(base: Seq<char>, steps: Seq<ContextStep>, abs: Seq<char>) -> Option<FileFacts>
    decreases steps.len(),
{
    if steps.len() == 0 {
        None
    } else {
        match steps.last() {
            ContextStep::Recorded(p, f) => if absolute_path_of(base, p) == abs {
                Some(f)
            } else {
                recorded_for(base, steps.drop_last(), abs)
            },
            ContextStep::Unchanged => recorded_for(base, steps.drop_last(), abs),
        }
    }
}

/// From a fresh or cleared context on, a lookup of a file (the lookup that
/// `facts_for_file` makes) finds facts exactly when an analysis recorded
/// facts for a file at the same absolute path, and it finds the facts that
/// analysis recorded, carrying the file's path relative to the base; the
/// base never changes.
pub proof fn lemma_facts_since_clear(cs: Seq<AnalysisContext>, steps: Seq<ContextStep>, x: Seq<char>)
    requires
        cs.len() == steps.len() + 1,
        cs[0].entries().len() == 0,
        forall|i: int| #![trigger steps[i]] 0 <= i < steps.len() ==> step_holds(cs[i], cs[i + 1], steps[i]),
    ensures
        cs.last().base() == cs[0].base(),
        ({
            let abs = absolute_path_of(cs[0].base(), x);
            match recorded_for(cs[0].base(), steps, abs) {
                Some(f) => lookup(cs.last().entries(), abs) matches Some(g) && g == (FileFacts {
                    path: g.path,
                    ..f
                }) && g.path@ == relative_path_of(cs[0].base(), abs),
                None => lookup(cs.last().entries(), abs) is None,
            }
        }),
    decreases steps.len(),
{
    if steps.len() > 0 {
        let n = steps.len() as int;
        let cs0 = cs.drop_last();
        let st0 = steps.drop_last();
        assert forall|i: int| #![trigger st0[i]] 0 <= i < st0.len() implies step_holds(
            cs0[i],
            cs0[i + 1],
            st0[i],
        ) by {
            assert(steps[i] == st0[i]);
        }
        lemma_facts_since_clear(cs0, st0, x);
        assert(step_holds(cs[n - 1], cs[n], steps[n - 1]));
        assert(cs0.last() == cs[n - 1]);
    }
}

/// An analysis is a step of the context's history: it leaves the context
/// unchanged, or it answered `Ok(true)` and recorded the facts that the
/// file's analyzer reads off the source.
pub proof fn lemma_analysis_is_a_step(
    before: AnalysisContext,
    after: AnalysisContext,
    path: Seq<char>,
    source: &str,
    r: Result<bool, String>,
)
    requires
        analysis_outcome(before, after, path, source, r),
    ensures
        step_holds(before, after, ContextStep::Unchanged) || exists|f: FileFacts|
            step_holds(before, after, ContextStep::Recorded(path, f)) && r == Ok::<bool, String>(true)
                && source_facts(
                path_extension_of(absolute_path_of(before.base(), path)),
                f@,
                absolute_path_of(before.base(), path),
                source,
            ),
{
}

/// Analysis context for a set of files.
pub struct AnalysisContext {
    /// Base directory for relative path resolution.
    base_dir: String,
    /// Facts by absolute path.
    facts_cache: Vec<(String, FileFacts)>,
    /// Absolute path by relative path.
    path_map: Vec<(String, String)>,
}

/// A symbol match result.
#[derive(Debug, Clone)]
pub struct SymbolMatch<'a> {
    /// The declaration that matched.
    pub declaration: &'a Declaration,
    /// The file containing the declaration.
    pub file: String,
    /// The language of the file.
    pub language: String,
}

/// The content of a symbol match.
pub struct SymbolMatchView {
    pub declaration: Declaration,
    pub file: Seq<char>,
    pub language: Seq<char>,
}

impl<'a> View for SymbolMatch<'a> {
    type V = SymbolMatchView;

    open spec fn view(&self) -> SymbolMatchView {
        SymbolMatchView { declaration: *self.declaration, file: self.file@, language: self.language@ }
    }
}

pub open spec fn match_key(m: SymbolMatch) -> (Seq<char>, int, Seq<char>) {
    (m.file@, m.declaration.span.start_byte as int, Seq::empty())
}

impl<'a> KeyOrder for SymbolMatch<'a> {
    /// By file, then start offset.
    open spec fn key_le(&self, other: &Self) -> bool {
        triple_le(match_key(*self), match_key(*other))
    }

    proof fn lemma_key_le_total(a: &Self, b: &Self) {
        lemma_triple_le_total(match_key(*a), match_key(*b));
    }

    proof fn lemma_key_le_transitive(a: &Self, b: &Self, c: &Self) {
        lemma_triple_le_transitive(match_key(*a), match_key(*b), match_key(*c));
    }

    fn key_le_exec(&self, other: &Self) -> (r: bool) {
        proof {
            reveal_strlit("");
        }
        triple_le_exec(
            self.file.as_str(),
            self.declaration.span.start_byte,
            "",
            other.file.as_str(),
            other.declaration.span.start_byte,
            "",
        )
    }
}

pub open spec fn matches_view<'a>(v: Seq<SymbolMatch<'a>>) -> Seq<SymbolMatchView> {
    v.map_values(|m: SymbolMatch<'a>| m@)
}

/// Whether a declaration answers a symbol query.
pub open spec fn decl_wanted(d: Declaration, name: Seq<char>, kind: Option<DeclarationKind>) -> bool {
    d.name@ == name && match kind {
        Some(k) => d.kind == k,
        None => true,
    }
}

/// The matches of one file's declarations, in declaration order.
pub open spec fn file_matches(
    facts: FileFacts,
    ds: Seq<Declaration>,
    name: Option<Seq<char>>,
    kind: Option<DeclarationKind>,
) -> Seq<SymbolMatchView>
    decreases ds.len(),
{
    if ds.len() == 0 {
        Seq::empty()
    } else {
        let prev = file_matches(facts, ds.drop_last(), name, kind);
        let d = ds.last();
        let wanted = match name {
            Some(n) => decl_wanted(d, n, kind),
            None => kind matches Some(k) && d.kind == k,
        };
        if wanted {
            prev.push(
                SymbolMatchView { declaration: d, file: facts.path@, language: facts.language@ },
            )
        } else {
            prev
        }
    }
}

/// The matches over the recorded files (of the language, when one is
/// given), file after file.
pub open spec fn all_matches(
    entries: Seq<(String, FileFacts)>,
    name: Option<Seq<char>>,
    kind: Option<DeclarationKind>,
    language: Option<Seq<char>>,
) -> Seq<SymbolMatchView>
    decreases entries.len(),
{
    if entries.len() == 0 {
        Seq::empty()
    } else {
        let prev = all_matches(entries.drop_last(), name, kind, language);
        let f = entries.last().1;
        let lang_ok = match language {
            Some(l) => f.language@ == l,
            None => true,
        };
        if lang_ok {
            prev + file_matches(f, f.declarations@, name, kind)
        } else {
            prev
        }
    }
}

/// The recorded facts of a language, in recording order.
pub open spec fn facts_of_language(entries: Seq<(String, FileFacts)>, language: Seq<char>) -> Seq<
    FileFacts,
>
    decreases entries.len(),
{
    if entries.len() == 0 {
        Seq::empty()
    } else {
        let prev = facts_of_language(entries.drop_last(), language);
        if entries.last().1.language@ == language {
            prev.push(entries.last().1)
        } else {
            prev
        }
    }
}

pub open spec fn fact_refs_view(v: Seq<&FileFacts>) -> Seq<FileFacts> {
    v.map_values(|f: &FileFacts| *f)
}

pub open spec fn strings_view(v: Seq<String>) -> Seq<Seq<char>> {
    v.map_values(|s: String| s@)
}

fn copy_string(s: &String) -> (r: String)
    ensures
        r@ == s@,
{
    string_of(chars_of(s.as_str()).as_slice())
}

impl AnalysisContext {
    #[verifier::type_invariant]
    spec fn inv(self) -> bool {
        keys_distinct(self.facts_cache@) && keys_distinct(self.path_map@)
    }

    /// The base directory.
    pub closed spec fn base(&self) -> Seq<char> {
        self.base_dir@
    }

    /// The recorded facts, by absolute path, in recording order.
    pub closed spec fn entries(&self) -> Seq<(String, FileFacts)> {
        self.facts_cache@
    }

    /// The recorded relative paths with their absolute paths.
    pub closed spec fn paths(&self) -> Seq<(String, String)> {
        self.path_map@
    }

    /// Create a new analysis context.
    pub fn new(base_dir: &str) -> (r: AnalysisContext)
        ensures
            r.base() == base_dir@,
            r.entries().len() == 0,
            r.paths().len() == 0,
    {
        AnalysisContext {
            base_dir: string_of(chars_of(base_dir).as_slice()),
            facts_cache: Vec::new(),
            path_map: Vec::new(),
        }
    }

    /// Get the base directory.
    pub fn base_dir(&self) -> (r: &str)
        ensures
            r@ == self.base(),
    {
        self.base_dir.as_str()
    }

    /// The absolute path of a file, given absolute or relative to the base.
    pub fn absolute_path(&self, path: &str) -> (r: String)
        ensures
            r@ == absolute_path_of(self.base(), path@),
    {
        if path_is_absolute(path) {
            string_of(chars_of(path).as_slice())
        } else {
            path_join(self.base_dir.as_str(), path)
        }
    }

    /// The path that facts of the file carry.
    pub fn relative_path(&self, abs_path: &str) -> (r: String)
        ensures
            r@ == relative_path_of(self.base(), abs_path@),
    {
        match path_strip_prefix(abs_path, self.base_dir.as_str()) {
            Some(rel) => rel,
            None => string_of(chars_of(abs_path).as_slice()),
        }
    }

    /// The facts of a file that no analyzer handles: empty, of language
    /// `unknown`, under the file's relative path.
    pub fn unsupported_file_facts(&self, path: &str) -> (r: FileFacts)
        ensures
            r.path@ == relative_path_of(self.base(), absolute_path_of(self.base(), path@)),
            r.language@ == "unknown"@,
            r.package is None,
            r.declarations@.len() == 0,
            r.imports@.len() == 0,
            !r.has_parse_errors,
            r.parse_error is None,
    {
        let abs = self.absolute_path(path);
        let rel = self.relative_path(abs.as_str());
        FileFacts::empty(rel.as_str(), "unknown")
    }

    fn position(entries: &Vec<(String, FileFacts)>, key: &str) -> (r: Option<usize>)
        requires
            keys_distinct(entries@),
        ensures
            match r {
                Some(i) => i < entries@.len() && entries@[i as int].0@ == key@ && lookup(
                    entries@,
                    key@,
                ) == Some(entries@[i as int].1),
                None => lookup(entries@, key@) is None && forall|j: int|
                    0 <= j < entries@.len() ==> (#[trigger] entries@[j]).0@ != key@,
            },
    {
        let mut k = entries.len();
        assert(entries@.take(k as int) =~= entries@);
        while k > 0
            invariant
                k <= entries@.len(),
                keys_distinct(entries@),
                forall|j: int| k <= j < entries@.len() ==> (#[trigger] entries@[j]).0@ != key@,
                lookup(entries@, key@) == lookup(entries@.take(k as int), key@),
            decreases k,
        {
            assert(entries@.take(k as int).drop_last() =~= entries@.take(k - 1));
            assert(entries@.take(k as int).last() == entries@[k - 1]);
            if str_eq(entries[k - 1].0.as_str(), key) {
                return Some(k - 1);
            }
            k = k - 1;
        }
        None
    }

    /// Record the facts of a file (given absolute or relative to the base),
    /// under its relative path; facts recorded before for the same file are
    /// replaced.
    pub fn record_facts(&mut self, path: &str, facts: FileFacts)
        ensures
            records(*old(self), *final(self), path@, facts),
    {
        proof {
            use_type_invariant(&*self);
        }
        let abs = self.absolute_path(path);
        let rel = self.relative_path(abs.as_str());
        let stored = FileFacts { path: copy_string(&rel), ..facts };
        let mut cache = Vec::new();
        std::mem::swap(&mut cache, &mut self.facts_cache);
        let ghost old_cache = cache@;
        match Self::position(&cache, abs.as_str()) {
            Some(i) => {
                cache.set(i, (copy_string(&abs), stored));
                proof {
                    lemma_lookup_set(old_cache, i as int, cache@[i as int]);
                }
            },
            None => {
                cache.push((copy_string(&abs), stored));
                proof {
                    lemma_lookup_push(old_cache, cache@.last());
                }
            },
        }
        self.facts_cache = cache;
        let mut pm = Vec::new();
        std::mem::swap(&mut pm, &mut self.path_map);
        let ghost old_pm = pm@;
        match position_path(&pm, rel.as_str()) {
            Some(i) => {
                pm.set(i, (copy_string(&rel), copy_string(&abs)));
                proof {
                    lemma_lookup_path_set(old_pm, i as int, pm@[i as int]);
                }
            },
            None => {
                pm.push((copy_string(&rel), copy_string(&abs)));
                proof {
                    lemma_lookup_path_push(old_pm, pm@.last());
                }
            },
        }
        self.path_map = pm;
    }

    /// Analyze the source of a file (given absolute or relative to the base)
    /// and record its facts. Facts recorded before for the file are kept as
    /// they are; a file that no analyzer here reads is left unrecorded, and
    /// `Ok(false)` says so (its facts are those of `unsupported_file_facts`).
    /// Go, Python, Rust, C, Java, Scala, Swift and TypeScript files are read
    /// by their analyzers; where one fails, nothing is recorded and its error
    /// is returned.
    pub fn analyze_source(&mut self, path: &str, source: &str) -> (r: Result<bool, String>)
        ensures
            analysis_outcome(*old(self), *final(self), path@, source, r),
    {
        proof {
            use_type_invariant(&*self);
        }
        let abs = self.absolute_path(path);
        if Self::position(&self.facts_cache, abs.as_str()).is_some() {
            return Ok(true);
        }
        let ext = path_extension(abs.as_str());
        let lang = match &ext {
            Some(e) => analyzer_language(e.as_str()),
            None => None,
        };
        let l = match lang {
            Some(l) => l,
            None => return Ok(false),
        };
        if str_eq(l, "cpp") || str_eq(l, "javascript") {
            return Ok(false);
        }
        let a = abs.as_str();
        let analyzed = if str_eq(l, "go") {
            GoAnalyzer::new().extract_facts(a, source)
        } else if str_eq(l, "python") {
            PythonAnalyzer::new().extract_facts(a, source)
        } else if str_eq(l, "rust") {
            RustAnalyzer::new().extract_facts(a, source)
        } else if str_eq(l, "c") {
            CAnalyzer::new().extract_facts(a, source)
        } else if str_eq(l, "java") {
            JavaAnalyzer::new().extract_facts(a, source)
        } else if str_eq(l, "scala") {
            ScalaAnalyzer::new().extract_facts(a, source)
        } else if str_eq(l, "swift") {
            SwiftAnalyzer::new().extract_facts(a, source)
        } else {
            TypeScriptAnalyzer::new().extract_facts(a, source)
        };
        match analyzed {
            Ok(facts) => {
                self.record_facts(path, facts);
                Ok(true)
            },
            Err(e) => Err(e),
        }
    }

    /// Get recorded facts for a file (given absolute or relative to the
    /// base); `None` if it has not been analyzed.
    pub fn facts_for_file(&self, path: &str) -> (r: Option<&FileFacts>)
        ensures
            match r {
                Some(f) => lookup(self.entries(), absolute_path_of(self.base(), path@)) == Some(*f),
                None => lookup(self.entries(), absolute_path_of(self.base(), path@)) is None,
            },
    {
        proof {
            use_type_invariant(self);
        }
        let abs = self.absolute_path(path);
        match Self::position(&self.facts_cache, abs.as_str()) {
            Some(i) => Some(&self.facts_cache[i].1),
            None => None,
        }
    }

    /// Get all recorded facts for a given language.
    pub fn facts_by_language(&self, language: &str) -> (r: Vec<&FileFacts>)
        ensures
            fact_refs_view(r@) == facts_of_language(self.entries(), language@),
    {
        let ghost es = self.facts_cache@;
        let mut r: Vec<&FileFacts> = Vec::new();
        let mut i: usize = 0;
        while i < self.facts_cache.len()
            invariant
                i <= es.len(),
                es == self.facts_cache@,
                fact_refs_view(r@) == facts_of_language(es.take(i as int), language@),
            decreases self.facts_cache.len() - i,
        {
            assert(es.take(i + 1).drop_last() =~= es.take(i as int));
            assert(es.take(i + 1).last() == es[i as int]);
            let f = &self.facts_cache[i].1;
            if str_eq(f.language.as_str(), language) {
                let ghost before = r@;
                r.push(f);
                assert(fact_refs_view(r@) =~= fact_refs_view(before).push(*f));
            }
            i = i + 1;
        }
        assert(es.take(es.len() as int) =~= es);
        r
    }

    fn collect_matches<'a>(
        &'a self,
        name: Option<&str>,
        kind: Option<DeclarationKind>,
        language: Option<&str>,
    ) -> (r: Vec<SymbolMatch<'a>>)
        ensures
            matches_view(r@) == all_matches(
                self.entries(),
                opt_str_view(name),
                kind,
                opt_str_view(language),
            ),
    {
        let ghost es = self.facts_cache@;
        let ghost nv = opt_str_view(name);
        let ghost lv = opt_str_view(language);
        let mut r: Vec<SymbolMatch<'a>> = Vec::new();
        let mut i: usize = 0;
        while i < self.facts_cache.len()
            invariant
                i <= es.len(),
                es == self.facts_cache@,
                nv == opt_str_view(name),
                lv == opt_str_view(language),
                matches_view(r@) == all_matches(es.take(i as int), nv, kind, lv),
            decreases self.facts_cache.len() - i,
        {
            assert(es.take(i + 1).drop_last() =~= es.take(i as int));
            assert(es.take(i + 1).last() == es[i as int]);
            let facts = &self.facts_cache[i].1;
            let lang_ok = match language {
                Some(l) => str_eq(facts.language.as_str(), l),
                None => true,
            };
            if lang_ok {
                let ghost start = matches_view(r@);
                let ghost ds = facts.declarations@;
                let mut j: usize = 0;
                while j < facts.declarations.len()
                    invariant
                        j <= ds.len(),
                        ds == facts.declarations@,
                        nv == opt_str_view(name),
                        matches_view(r@) == start + file_matches(*facts, ds.take(j as int), nv, kind),
                    decreases facts.declarations.len() - j,
                {
                    assert(ds.take(j + 1).drop_last() =~= ds.take(j as int));
                    assert(ds.take(j + 1).last() == ds[j as int]);
                    let d = &facts.declarations[j];
                    let wanted = match name {
                        Some(n) => str_eq(d.name.as_str(), n) && match kind {
                            Some(k) => d.kind == k,
                            None => true,
                        },
                        None => match kind {
                            Some(k) => d.kind == k,
                            None => false,
                        },
                    };
                    if wanted {
                        let ghost before = r@;
                        r.push(
                            SymbolMatch {
                                declaration: d,
                                file: copy_string(&facts.path),
                                language: copy_string(&facts.language),
                            },
                        );
                        assert(matches_view(r@) =~= matches_view(before).push(r@.last()@));
                    }
                    j = j + 1;
                }
                assert(ds.take(ds.len() as int) =~= ds);
            }
            i = i + 1;
        }
        assert(es.take(es.len() as int) =~= es);
        r
    }

    /// Find a symbol by name across all analyzed files, of the kind and in
    /// files of the language when these are given; ordered by file and
    /// position.
    pub fn find_symbol<'a>(
        &'a self,
        name: &str,
        kind: Option<DeclarationKind>,
        language: Option<&str>,
    ) -> (r: Vec<SymbolMatch<'a>>)
        ensures
            sorted_by_key(r@),
            matches_view(r@).to_multiset() == all_matches(
                self.entries(),
                Some(name@),
                kind,
                opt_str_view(language),
            ).to_multiset(),
    {
        let found = self.collect_matches(Some(name), kind, language);
        let ghost unsorted = found@;
        let r = sort_by_key(found);
        proof {
            lemma_permutation_map(r@, unsorted, |m: SymbolMatch<'a>| m@);
        }
        r
    }

    /// Get all declarations of a specific kind across all analyzed files,
    /// ordered by file and position.
    pub fn declarations_by_kind<'a>(&'a self, kind: DeclarationKind) -> (r: Vec<SymbolMatch<'a>>)
        ensures
            sorted_by_key(r@),
            matches_view(r@).to_multiset() == all_matches(
                self.entries(),
                None,
                Some(kind),
                None,
            ).to_multiset(),
    {
        let found = self.collect_matches(None, Some(kind), None);
        let ghost unsorted = found@;
        let r = sort_by_key(found);
        proof {
            lemma_permutation_map(r@, unsorted, |m: SymbolMatch<'a>| m@);
        }
        r
    }

    /// Get all analyzed file paths, sorted.
    pub fn analyzed_files(&self) -> (r: Vec<String>)
        ensures
            sorted_by_key(r@),
            strings_view(r@).to_multiset() == self.entries().map_values(
                |e: (String, FileFacts)| e.1.path@,
            ).to_multiset(),
    {
        let ghost es = self.facts_cache@;
        let mut files: Vec<String> = Vec::new();
        let mut i: usize = 0;
        while i < self.facts_cache.len()
            invariant
                i <= es.len(),
                es == self.facts_cache@,
                strings_view(files@) == es.take(i as int).map_values(
                    |e: (String, FileFacts)| e.1.path@,
                ),
            decreases self.facts_cache.len() - i,
        {
            files.push(copy_string(&self.facts_cache[i].1.path));
            assert(es.take(i + 1).map_values(|e: (String, FileFacts)| e.1.path@) =~= es.take(
                i as int,
            ).map_values(|e: (String, FileFacts)| e.1.path@).push(es[i as int].1.path@));
            assert(strings_view(files@) =~= es.take(i + 1).map_values(
                |e: (String, FileFacts)| e.1.path@,
            ));
            i = i + 1;
        }
        assert(es.take(es.len() as int) =~= es);
        let ghost unsorted = files@;
        let r = sort_by_key(files);
        proof {
            lemma_permutation_map(r@, unsorted, |s: String| s@);
        }
        r
    }

    /// Clear the recorded facts and paths.
    pub fn clear_cache(&mut self)
        ensures
            final(self).base() == old(self).base(),
            final(self).entries().len() == 0,
            final(self).paths().len() == 0,
    {
        proof {
            use_type_invariant(&*self);
        }
        self.facts_cache = Vec::new();
        self.path_map = Vec::new();
    }
}

pub open spec fn opt_str_view(o: Option<&str>) -> Option<Seq<char>> {
    match o {
        Some(s) => Some(s@),
        None => None,
    }
}

fn position_path(entries: &Vec<(String, String)>, key: &str) -> (r: Option<usize>)
    requires
        keys_distinct(entries@),
    ensures
        match r {
            Some(i) => i < entries@.len() && entries@[i as int].0@ == key@,
            None => forall|j: int| 0 <= j < entries@.len() ==> (#[trigger] entries@[j]).0@ != key@,
        },
{
    let mut i: usize = 0;
    while i < entries.len()
        invariant
            i <= entries@.len(),
            forall|j: int| 0 <= j < i ==> (#[trigger] entries@[j]).0@ != key@,
        decreases entries.len() - i,
    {
        if str_eq(entries[i].0.as_str(), key) {
            return Some(i);
        }
        i = i + 1;
    }
    None
}

proof fn lemma_lookup_absent(entries: Seq<(String, FileFacts)>, key: Seq<char>)
    requires
        forall|j: int| 0 <= j < entries.len() ==> (#[trigger] entries[j]).0@ != key,
    ensures
        lookup(entries, key) is None,
    decreases entries.len(),
{
    if entries.len() > 0 {
        lemma_lookup_absent(entries.drop_last(), key);
    }
}

proof fn lemma_lookup_at(entries: Seq<(String, FileFacts)>, i: int)
    requires
        0 <= i < entries.len(),
        keys_distinct(entries),
    ensures
        lookup(entries, entries[i].0@) == Some(entries[i].1),
    decreases entries.len(),
{
    if i < entries.len() - 1 {
        lemma_lookup_at(entries.drop_last(), i);
    }
}

proof fn lemma_lookup_set(entries: Seq<(String, FileFacts)>, i: int, e: (String, FileFacts))
    requires
        0 <= i < entries.len(),
        keys_distinct(entries),
        e.0@ == entries[i].0@,
    ensures
        keys_distinct(entries.update(i, e)),
        lookup(entries.update(i, e), e.0@) == Some(e.1),
        forall|k: Seq<char>|
            k != e.0@ ==> #[trigger] lookup(entries.update(i, e), k) == lookup(entries, k),
    decreases entries.len(),
{
    let u = entries.update(i, e);
    assert forall|a: int, b: int| 0 <= a < b < u.len() implies (#[trigger] u[a]).0@ != (
    #[trigger] u[b]).0@ by {
        assert(entries[a].0@ != entries[b].0@);
    }
    lemma_lookup_at(u, i);
    assert forall|k: Seq<char>| k != e.0@ implies #[trigger] lookup(u, k) == lookup(entries, k) by {
        lemma_lookup_update_other(entries, i, e, k);
    }
}

proof fn lemma_lookup_update_other(
    entries: Seq<(String, FileFacts)>,
    i: int,
    e: (String, FileFacts),
    k: Seq<char>,
)
    requires
        0 <= i < entries.len(),
        e.0@ == entries[i].0@,
        k != e.0@,
    ensures
        lookup(entries.update(i, e), k) == lookup(entries, k),
    decreases entries.len(),
{
    let u = entries.update(i, e);
    if i < entries.len() - 1 {
        assert(u.drop_last() =~= entries.drop_last().update(i, e));
        lemma_lookup_update_other(entries.drop_last(), i, e, k);
    } else {
        assert(u.drop_last() =~= entries.drop_last());
    }
}

proof fn lemma_lookup_push(entries: Seq<(String, FileFacts)>, e: (String, FileFacts))
    requires
        keys_distinct(entries),
        forall|j: int| 0 <= j < entries.len() ==> (#[trigger] entries[j]).0@ != e.0@,
    ensures
        keys_distinct(entries.push(e)),
        lookup(entries.push(e), e.0@) == Some(e.1),
        forall|k: Seq<char>| k != e.0@ ==> #[trigger] lookup(entries.push(e), k) == lookup(entries, k),
{
    let u = entries.push(e);
    assert(u.drop_last() =~= entries);
    assert forall|a: int, b: int| 0 <= a < b < u.len() implies (#[trigger] u[a]).0@ != (
    #[trigger] u[b]).0@ by {
        if b < entries.len() {
            assert(entries[a].0@ != entries[b].0@);
        }
    }
}

proof fn lemma_lookup_path_at(entries: Seq<(String, String)>, i: int)
    requires
        0 <= i < entries.len(),
        keys_distinct(entries),
    ensures
        lookup_path(entries, entries[i].0@) == Some(entries[i].1@),
    decreases entries.len(),
{
    if i < entries.len() - 1 {
        lemma_lookup_path_at(entries.drop_last(), i);
    }
}

proof fn lemma_lookup_path_update_other(
    entries: Seq<(String, String)>,
    i: int,
    e: (String, String),
    k: Seq<char>,
)
    requires
        0 <= i < entries.len(),
        e.0@ == entries[i].0@,
        k != e.0@,
    ensures
        lookup_path(entries.update(i, e), k) == lookup_path(entries, k),
    decreases entries.len(),
{
    let u = entries.update(i, e);
    if i < entries.len() - 1 {
        assert(u.drop_last() =~= entries.drop_last().update(i, e));
        lemma_lookup_path_update_other(entries.drop_last(), i, e, k);
    } else {
        assert(u.drop_last() =~= entries.drop_last());
    }
}

proof fn lemma_lookup_path_set(entries: Seq<(String, String)>, i: int, e: (String, String))
    requires
        0 <= i < entries.len(),
        keys_distinct(entries),
        e.0@ == entries[i].0@,
    ensures
        keys_distinct(entries.update(i, e)),
        lookup_path(entries.update(i, e), e.0@) == Some(e.1@),
        forall|k: Seq<char>|
            k != e.0@ ==> #[trigger] lookup_path(entries.update(i, e), k) == lookup_path(entries, k),
{
    let u = entries.update(i, e);
    assert forall|a: int, b: int| 0 <= a < b < u.len() implies (#[trigger] u[a]).0@ != (
    #[trigger] u[b]).0@ by {
        assert(entries[a].0@ != entries[b].0@);
    }
    lemma_lookup_path_at(u, i);
    assert forall|k: Seq<char>| k != e.0@ implies #[trigger] lookup_path(u, k) == lookup_path(
        entries,
        k,
    ) by {
        lemma_lookup_path_update_other(entries, i, e, k);
    }
}

proof fn lemma_lookup_path_push(entries: Seq<(String, String)>, e: (String, String))
    requires
        keys_distinct(entries),
        forall|j: int| 0 <= j < entries.len() ==> (#[trigger] entries[j]).0@ != e.0@,
    ensures
        keys_distinct(entries.push(e)),
        lookup_path(entries.push(e), e.0@) == Some(e.1@),
        forall|k: Seq<char>|
            k != e.0@ ==> #[trigger] lookup_path(entries.push(e), k) == lookup_path(entries, k),
{
    let u = entries.push(e);
    assert(u.drop_last() =~= entries);
    assert forall|a: int, b: int| 0 <= a < b < u.len() implies (#[trigger] u[a]).0@ != (
    #[trigger] u[b]).0@ by {
        if b < entries.len() {
            assert(entries[a].0@ != entries[b].0@);
        }
    }
}

} // verus!
