//! Detection of functions with low cyclomatic complexity.
//!
//! Cyclomatic complexity starts at 1 and adds 1 for each `if`, loop, `case`,
//! `&&`, `||`, `?:` and `catch` (see [`crate::analysis::facts::ControlFlowInfo`]).
//! The application parses the files; this module decides, from what the
//! parsers found, which requirements are not met.
use vstd::prelude::*;

use crate::analysis::facts::{
    callable, complexity_of, decision_points, Declaration, DeclarationKind, FileFacts,
};
use crate::contract::ComplexityRequirement;
use crate::detect::types::{
    str_eq, violations_view, DetectionResult, Severity, Violation, ViolationRule, ViolationView,
};
use crate::sorting::{lemma_permutation_map, sort_by_key, sorted_by_key};
use crate::text::{
    chars_of, concat, concat_str, debug_form, debug_quoted, i32_to_decimal, int_decimal,
    string_of,
};

verus! {

broadcast use vstd::seq_lib::group_to_multiset_ensures;

/// Complexity information for a function.
#[derive(Debug, Clone)]
pub struct FuncComplexity {
    pub name: String,
    pub complexity: i32,
    pub file: String,
    pub line: usize,
}

/// What became of one file: no analyzer handles its extension, its
/// analysis failed (with the error's text), or its facts.
#[derive(Debug, Clone)]
pub enum FileAnalysis {
    Unsupported,
    Failed(String),
    Analyzed(FileFacts),
}

/// A file (by its path relative to the project root) and its analysis.
#[derive(Debug, Clone)]
pub struct AnalyzedFile {
    pub rel_path: String,
    pub analysis: FileAnalysis,
}

/// Every body's decision-point count is below `i32::MAX`.
pub open spec fn counts_fit(ds: Seq<Declaration>) -> bool {
    forall|i: int|
        0 <= i < ds.len() ==> ((#[trigger] ds[i]).body matches Some(b) ==> decision_points(
            b.control_flow,
        ) < i32::MAX)
}

/// Whether every body's decision-point count is below `i32::MAX`.
pub fn complexity_counts_fit(facts: &FileFacts) -> (r: bool)
    ensures
        r == counts_fit(facts.declarations@),
{
    let mut i: usize = 0;
    while i < facts.declarations.len()
        invariant
            i <= facts.declarations@.len(),
            forall|j: int|
                0 <= j < i ==> ((#[trigger] facts.declarations@[j]).body matches Some(b)
                    ==> decision_points(b.control_flow) < i32::MAX),
        decreases facts.declarations.len() - i,
    {
        match &facts.declarations[i].body {
            Some(b) => {
                let c = &b.control_flow;
                let total: u128 = c.if_count as u128 + c.loop_count as u128 + c.case_count as u128
                    + c.and_count as u128 + c.or_count as u128
                    + c.ternary_count as u128 + c.catch_count as u128;
                if total >= 2147483647 {
                    return false;
                }
            },
            None => {},
        }
        i = i + 1;
    }
    true
}

pub struct FuncView {
    pub name: Seq<char>,
    pub complexity: int,
    pub line: int,
}

/// The functions and methods with a body, with their complexity and line.
pub open spec fn funcs_of(ds: Seq<Declaration>) -> Seq<FuncView>
    decreases ds.len(),
{
    if ds.len() == 0 {
        Seq::empty()
    } else {
        let prev = funcs_of(ds.drop_last());
        let d = ds.last();
        match d.body {
            Some(b) => if callable(d.kind) {
                prev.push(
                    FuncView {
                        name: d.name@,
                        complexity: complexity_of(b.control_flow),
                        line: d.span.start_line as int,
                    },
                )
            } else {
                prev
            },
            None => prev,
        }
    }
}

pub open spec fn func_view(f: FuncComplexity) -> FuncView {
    FuncView { name: f.name@, complexity: f.complexity as int, line: f.line as int }
}

/// Extract complexity information from a file's facts.
pub fn extract_complexities_from_facts(facts: &FileFacts) -> (r: Vec<FuncComplexity>)
    requires
        counts_fit(facts.declarations@),
    ensures
        r@.map_values(|f: FuncComplexity| func_view(f)) == funcs_of(facts.declarations@),
{
    let ghost ds = facts.declarations@;
    let mut r: Vec<FuncComplexity> = Vec::new();
    let mut i: usize = 0;
    while i < facts.declarations.len()
        invariant
            i <= ds.len(),
            ds == facts.declarations@,
            counts_fit(ds),
            r@.map_values(|f: FuncComplexity| func_view(f)) == funcs_of(ds.take(i as int)),
        decreases facts.declarations.len() - i,
    {
        let d = &facts.declarations[i];
        assert(ds.take(i + 1).drop_last() =~= ds.take(i as int));
        assert(ds.take(i + 1).last() == *d);
        if d.kind == DeclarationKind::Function || d.kind == DeclarationKind::Method {
            match &d.body {
                Some(b) => {
                    assert(ds[i as int].body == Some(*b));
                    let ghost before = r@;
                    r.push(
                        FuncComplexity {
                            name: d.name.clone(),
                            complexity: b.control_flow.cyclomatic_complexity(),
                            file: facts.path.clone(),
                            line: d.span.start_line,
                        },
                    );
                    assert(r@.map_values(|f: FuncComplexity| func_view(f)) =~= before.map_values(
                        |f: FuncComplexity| func_view(f),
                    ).push(func_view(r@.last())));
                },
                None => {},
            }
        }
        i = i + 1;
    }
    assert(ds.take(ds.len() as int) =~= ds);
    r
}

// ---------------------------------------------------------------------------
// Which files matter
// ---------------------------------------------------------------------------

pub open spec fn names_file(r: ComplexityRequirement, file: Seq<char>) -> bool {
    r.file matches Some(f) && f@ == file
}

/// Some requirement names the file.
pub open spec fn file_required(reqs: Seq<ComplexityRequirement>, file: Seq<char>) -> bool {
    exists|i: int| 0 <= i < reqs.len() && names_file(#[trigger] reqs[i], file)
}

/// Some requirement names no file (so every file must be looked at).
pub open spec fn full_scan(reqs: Seq<ComplexityRequirement>) -> bool {
    exists|i: int| 0 <= i < reqs.len() && (#[trigger] reqs[i]).file is None
}

/// A file is looked at when some requirement names it or names no file.
pub open spec fn file_needed(reqs: Seq<ComplexityRequirement>, file: Seq<char>) -> bool {
    full_scan(reqs) || file_required(reqs, file)
}

fn requirement_names_file(reqs: &[ComplexityRequirement], file: &str) -> (r: bool)
    ensures
        r == file_required(reqs@, file@),
{
    let mut i: usize = 0;
    while i < reqs.len()
        invariant
            i <= reqs@.len(),
            forall|j: int| 0 <= j < i ==> !names_file(#[trigger] reqs@[j], file@),
        decreases reqs.len() - i,
    {
        match &reqs[i].file {
            Some(f) => {
                if str_eq(f.as_str(), file) {
                    return true;
                }
            },
            None => {},
        }
        i = i + 1;
    }
    false
}

fn needs_full_scan(reqs: &[ComplexityRequirement]) -> (r: bool)
    ensures
        r == full_scan(reqs@),
{
    let mut i: usize = 0;
    while i < reqs.len()
        invariant
            i <= reqs@.len(),
            forall|j: int| 0 <= j < i ==> (#[trigger] reqs@[j]).file is Some,
        decreases reqs.len() - i,
    {
        if reqs[i].file.is_none() {
            return true;
        }
        i = i + 1;
    }
    false
}

/// Whether a file (by its relative path) has to be analyzed for these requirements.
pub fn complexity_file_needed(reqs: &[ComplexityRequirement], rel_path: &str) -> (r: bool)
    ensures
        r == file_needed(reqs@, rel_path@),
{
    needs_full_scan(reqs) || requirement_names_file(reqs, rel_path)
}

// ---------------------------------------------------------------------------
// The requirements
// ---------------------------------------------------------------------------

/// A needed file was analyzed: its facts (files are looked up by relative path).
pub open spec fn analyzed_facts(
    files: Seq<AnalyzedFile>,
    reqs: Seq<ComplexityRequirement>,
    i: int,
) -> Option<FileFacts> {
    if file_needed(reqs, files[i].rel_path@) {
        match files[i].analysis {
            FileAnalysis::Analyzed(f) => Some(f),
            _ => None,
        }
    } else {
        None
    }
}

/// The first function named `symbol` in a list.
pub open spec fn find_func(fs: Seq<FuncView>, symbol: Seq<char>) -> Option<FuncView>
    decreases fs.len(),
{
    if fs.len() == 0 {
        None
    } else if fs[0].name == symbol {
        Some(fs[0])
    } else {
        find_func(fs.drop_first(), symbol)
    }
}

/// The function named `symbol` in the first analyzed file (from `i` on)
/// that `file` selects (any file when `None`): for a named file, only the
/// first analyzed file with that path is searched.
pub open spec fn lookup_from(
    files: Seq<AnalyzedFile>,
    reqs: Seq<ComplexityRequirement>,
    file: Option<Seq<char>>,
    symbol: Seq<char>,
    i: int,
) -> Option<FuncView>
    decreases files.len() - i,
{
    if i < 0 || i >= files.len() {
        None
    } else {
        match analyzed_facts(files, reqs, i) {
            Some(f) => match file {
                Some(name) => if files[i].rel_path@ == name {
                    find_func(funcs_of(f.declarations@), symbol)
                } else {
                    lookup_from(files, reqs, file, symbol, i + 1)
                },
                None => match find_func(funcs_of(f.declarations@), symbol) {
                    Some(x) => Some(x),
                    None => lookup_from(files, reqs, file, symbol, i + 1),
                },
            },
            None => lookup_from(files, reqs, file, symbol, i + 1),
        }
    }
}

/// A required file that no analyzer handles.
pub open spec fn unsupported_file(
    files: Seq<AnalyzedFile>,
    reqs: Seq<ComplexityRequirement>,
    file: Seq<char>,
) -> bool {
    file_required(reqs, file) && exists|i: int|
        0 <= i < files.len() && (#[trigger] files[i]).rel_path@ == file
            && files[i].analysis is Unsupported
}

pub open spec fn opt_text(o: Option<String>) -> Option<Seq<char>> {
    crate::paths::opt_string_view(o)
}

/// The violation a requirement gives, if it is not met.
pub open spec fn requirement_violation(
    files: Seq<AnalyzedFile>,
    reqs: Seq<ComplexityRequirement>,
    r: ComplexityRequirement,
) -> Option<ViolationView> {
    let sym = r.symbol@;
    if r.file is Some && unsupported_file(files, reqs, r.file.unwrap()@) {
        Some(
            ViolationView {
                rule: ViolationRule::LowComplexity,
                message: "cannot verify complexity for "@ + debug_form(sym)
                    + ": no analyzer for file extension"@,
                file: r.file.unwrap()@,
                line: 0,
                severity: Severity::Error,
            },
        )
    } else {
        match lookup_from(files, reqs, opt_text(r.file), sym, 0) {
            None => Some(
                ViolationView {
                    rule: ViolationRule::LowComplexity,
                    message: "symbol "@ + debug_form(sym) + " not found for complexity check"@,
                    file: match r.file {
                        Some(f) => f@,
                        None => "(any file)"@,
                    },
                    line: 0,
                    severity: Severity::Error,
                },
            ),
            Some(f) => if f.complexity < r.min_complexity {
                Some(
                    ViolationView {
                        rule: ViolationRule::LowComplexity,
                        message: "symbol "@ + debug_form(sym) + " has complexity "@ + int_decimal(
                            f.complexity,
                        ) + ", minimum required is "@ + int_decimal(r.min_complexity as int),
                        file: match r.file {
                            Some(f) => f@,
                            None => "(found in codebase)"@,
                        },
                        line: f.line,
                        severity: Severity::Error,
                    },
                )
            } else {
                None
            },
        }
    }
}

/// The violations of the requirements, in requirement order.
pub open spec fn requirement_violations(
    files: Seq<AnalyzedFile>,
    reqs: Seq<ComplexityRequirement>,
    rs: Seq<ComplexityRequirement>,
) -> Seq<ViolationView>
    decreases rs.len(),
{
    if rs.len() == 0 {
        Seq::empty()
    } else {
        let prev = requirement_violations(files, reqs, rs.drop_last());
        match requirement_violation(files, reqs, rs.last()) {
            Some(v) => prev.push(v),
            None => prev,
        }
    }
}

/// The files whose analysis failed, as violations, in file order.
pub open spec fn failure_violations(
    files: Seq<AnalyzedFile>,
    reqs: Seq<ComplexityRequirement>,
) -> Seq<ViolationView>
    decreases files.len(),
{
    if files.len() == 0 {
        Seq::empty()
    } else {
        let prev = failure_violations(files.drop_last(), reqs);
        let f = files.last();
        if file_needed(reqs, f.rel_path@) {
            match f.analysis {
                FileAnalysis::Failed(e) => prev.push(
                    ViolationView {
                        rule: ViolationRule::LowComplexity,
                        message: "failed to parse file for complexity analysis: "@ + e@,
                        file: f.rel_path@,
                        line: 0,
                        severity: Severity::Error,
                    },
                ),
                _ => prev,
            }
        } else {
            prev
        }
    }
}

/// The number of needed files that were analyzed.
pub open spec fn analyzed_count(files: Seq<AnalyzedFile>, reqs: Seq<ComplexityRequirement>) -> nat
    decreases files.len(),
{
    if files.len() == 0 {
        0
    } else {
        analyzed_count(files.drop_last(), reqs) + if file_needed(reqs, files.last().rel_path@)
            && files.last().analysis is Analyzed {
            1nat
        } else {
            0nat
        }
    }
}

/// Every analyzed file's counts fit.
pub open spec fn all_counts_fit(files: Seq<AnalyzedFile>) -> bool {
    forall|i: int|
        0 <= i < files.len() ==> ((#[trigger] files[i]).analysis matches FileAnalysis::Analyzed(f)
            ==> counts_fit(f.declarations@))
}

fn find_func_exec(fs: &Vec<FuncComplexity>, symbol: &str) -> (r: Option<(i32, usize)>)
    ensures
        match r {
            Some(p) => find_func(fs@.map_values(|f: FuncComplexity| func_view(f)), symbol@)
                matches Some(x) && x.complexity == p.0 && x.line == p.1,
            None => find_func(fs@.map_values(|f: FuncComplexity| func_view(f)), symbol@) is None,
        },
{
    let ghost v = fs@.map_values(|f: FuncComplexity| func_view(f));
    let mut i: usize = 0;
    assert(v.skip(0) =~= v);
    while i < fs.len()
        invariant
            i <= fs@.len(),
            v == fs@.map_values(|f: FuncComplexity| func_view(f)),
            find_func(v, symbol@) == find_func(v.skip(i as int), symbol@),
        decreases fs.len() - i,
    {
        assert(v.skip(i as int)[0] == func_view(fs@[i as int]));
        if str_eq(fs[i].name.as_str(), symbol) {
            return Some((fs[i].complexity, fs[i].line));
        }
        assert(v.skip(i as int).drop_first() =~= v.skip(i + 1));
        i = i + 1;
    }
    assert(v.skip(i as int) =~= Seq::<FuncView>::empty());
    None
}

fn lookup_exec(
    files: &[AnalyzedFile],
    reqs: &[ComplexityRequirement],
    file: &Option<String>,
    symbol: &str,
) -> (r: Option<(i32, usize)>)
    requires
        all_counts_fit(files@),
    ensures
        match r {
            Some(p) => lookup_from(files@, reqs@, opt_text(*file), symbol@, 0) matches Some(x)
                && x.complexity == p.0 && x.line == p.1,
            None => lookup_from(files@, reqs@, opt_text(*file), symbol@, 0) is None,
        },
{
    let mut i: usize = 0;
    while i < files.len()
        invariant
            i <= files@.len(),
            all_counts_fit(files@),
            lookup_from(files@, reqs@, opt_text(*file), symbol@, 0) == lookup_from(
                files@,
                reqs@,
                opt_text(*file),
                symbol@,
                i as int,
            ),
        decreases files.len() - i,
    {
        let f = &files[i];
        if complexity_file_needed(reqs, f.rel_path.as_str()) {
            match &f.analysis {
                FileAnalysis::Analyzed(facts) => {
                    assert(files@[i as int].analysis == FileAnalysis::Analyzed(*facts));
                    let funcs = extract_complexities_from_facts(facts);
                    match file {
                        Some(name) => {
                            if str_eq(f.rel_path.as_str(), name.as_str()) {
                                return find_func_exec(&funcs, symbol);
                            }
                        },
                        None => {
                            match find_func_exec(&funcs, symbol) {
                                Some(p) => {
                                    return Some(p);
                                },
                                None => {},
                            }
                        },
                    }
                },
                _ => {},
            }
        }
        i = i + 1;
    }
    None
}

fn is_unsupported(files: &[AnalyzedFile], reqs: &[ComplexityRequirement], file: &str) -> (r: bool)
    ensures
        r == unsupported_file(files@, reqs@, file@),
{
    if !requirement_names_file(reqs, file) {
        return false;
    }
    let mut i: usize = 0;
    while i < files.len()
        invariant
            i <= files@.len(),
            file_required(reqs@, file@),
            forall|j: int|
                0 <= j < i ==> !((#[trigger] files@[j]).rel_path@ == file@
                    && files@[j].analysis is Unsupported),
        decreases files.len() - i,
    {
        match &files[i].analysis {
            FileAnalysis::Unsupported => {
                if str_eq(files[i].rel_path.as_str(), file) {
                    assert(files@[i as int].analysis is Unsupported);
                    return true;
                }
            },
            _ => {},
        }
        i = i + 1;
    }
    false
}

fn quoted_message(before: &str, symbol: &str, after: &str) -> (r: Vec<char>)
    ensures
        r@ == before@ + debug_form(symbol@) + after@,
{
    let q = debug_quoted(chars_of(symbol).as_slice());
    let a = concat(chars_of(before).as_slice(), q.as_slice());
    concat_str(a.as_slice(), after)
}

fn requirement_violation_exec(
    files: &[AnalyzedFile],
    reqs: &[ComplexityRequirement],
    r: &ComplexityRequirement,
) -> (v: Option<Violation>)
    requires
        all_counts_fit(files@),
    ensures
        match v {
            Some(x) => requirement_violation(files@, reqs@, *r) == Some(x@),
            None => requirement_violation(files@, reqs@, *r) is None,
        },
{
    let sym = r.symbol.as_str();
    match &r.file {
        Some(file) => {
            if is_unsupported(files, reqs, file.as_str()) {
                let m = quoted_message(
                    "cannot verify complexity for ",
                    sym,
                    ": no analyzer for file extension",
                );
                return Some(
                    Violation {
                        rule: ViolationRule::LowComplexity,
                        message: string_of(m.as_slice()),
                        file: file.clone(),
                        line: 0,
                        severity: Severity::Error,
                    },
                );
            }
        },
        None => {},
    }
    match lookup_exec(files, reqs, &r.file, sym) {
        None => {
            let m = quoted_message("symbol ", sym, " not found for complexity check");
            let file = match &r.file {
                Some(f) => f.clone(),
                None => String::from_str("(any file)"),
            };
            Some(
                Violation {
                    rule: ViolationRule::LowComplexity,
                    message: string_of(m.as_slice()),
                    file,
                    line: 0,
                    severity: Severity::Error,
                },
            )
        },
        Some((actual, line)) => {
            if actual < r.min_complexity {
                let a = quoted_message("symbol ", sym, " has complexity ");
                let b = concat(a.as_slice(), i32_to_decimal(actual).as_slice());
                let c = concat_str(b.as_slice(), ", minimum required is ");
                let d = concat(c.as_slice(), i32_to_decimal(r.min_complexity).as_slice());
                let file = match &r.file {
                    Some(f) => f.clone(),
                    None => String::from_str("(found in codebase)"),
                };
                Some(
                    Violation {
                        rule: ViolationRule::LowComplexity,
                        message: string_of(d.as_slice()),
                        file,
                        line,
                        severity: Severity::Error,
                    },
                )
            } else {
                None
            }
        },
    }
}

/// What a check of the complexity requirements gives: nothing without
/// requirements; else first the needed files whose analysis failed, then the
/// unmet requirements, ordered by file, line and message.
pub open spec fn low_complexity_hold(
    files: Seq<AnalyzedFile>,
    requirements: Seq<ComplexityRequirement>,
    r: DetectionResult,
) -> bool {
    &&& requirements.len() == 0 ==> r.violations@.len() == 0 && r.scanned == 0
    &&& requirements.len() > 0 ==> ({
        let failures = failure_violations(files, requirements);
        let unmet = violations_view(r.violations@).skip(failures.len() as int);
        &&& violations_view(r.violations@).take(failures.len() as int) == failures
        &&& r.violations@.len() >= failures.len()
        &&& sorted_by_key(r.violations@.skip(failures.len() as int))
        &&& unmet.to_multiset() == requirement_violations(
            files,
            requirements,
            requirements,
        ).to_multiset()
        &&& r.scanned == analyzed_count(files, requirements)
    })
    &&& r.suppressed@.len() == 0
    &&& r.new_violations@.len() == 0
    &&& r.baseline_ref is None
}

/// Check that functions meet minimum complexity requirements.
///
/// `files` are the project's files in path order, each with what its
/// analysis gave; a file that no requirement needs is passed over whatever
/// its analysis. The result holds first the files whose analysis failed (in
/// file order), then the unmet requirements, ordered by file, line and
/// message.
pub fn detect_low_complexity(files: &[AnalyzedFile], requirements: &[ComplexityRequirement]) -> (r:
    DetectionResult)
    requires
        all_counts_fit(files@),
    ensures
        low_complexity_hold(files@, requirements@, r),
{
    let mut result = DetectionResult::new();
    if requirements.len() == 0 {
        return result;
    }
    let ghost fs = files@;
    let ghost rs = requirements@;
    let mut i: usize = 0;
    while i < files.len()
        invariant
            i <= fs.len(),
            fs == files@,
            rs == requirements@,
            violations_view(result.violations@) == failure_violations(fs.take(i as int), rs),
            result.scanned == analyzed_count(fs.take(i as int), rs),
            result.scanned <= i,
            result.suppressed@.len() == 0,
            result.new_violations@.len() == 0,
            result.baseline_ref is None,
        decreases files.len() - i,
    {
        let f = &files[i];
        assert(fs.take(i + 1).drop_last() =~= fs.take(i as int));
        assert(fs.take(i + 1).last() == *f);
        if complexity_file_needed(requirements, f.rel_path.as_str()) {
            match &f.analysis {
                FileAnalysis::Failed(e) => {
                    let m = concat_str(
                        chars_of("failed to parse file for complexity analysis: ").as_slice(),
                        e.as_str(),
                    );
                    let ghost before = result.violations@;
                    result.add_violation(
                        Violation {
                            rule: ViolationRule::LowComplexity,
                            message: string_of(m.as_slice()),
                            file: f.rel_path.clone(),
                            line: 0,
                            severity: Severity::Error,
                        },
                    );
                    assert(violations_view(result.violations@) =~= violations_view(before).push(
                        result.violations@.last()@,
                    ));
                },
                FileAnalysis::Analyzed(_) => {
                    result.scanned = result.scanned + 1;
                },
                FileAnalysis::Unsupported => {},
            }
        }
        i = i + 1;
    }
    assert(fs.take(fs.len() as int) =~= fs);
    let ghost failures = violations_view(result.violations@);
    let mut unmet: Vec<Violation> = Vec::new();
    let mut k: usize = 0;
    while k < requirements.len()
        invariant
            k <= rs.len(),
            fs == files@,
            rs == requirements@,
            all_counts_fit(fs),
            violations_view(unmet@) == requirement_violations(fs, rs, rs.take(k as int)),
        decreases requirements.len() - k,
    {
        assert(rs.take(k + 1).drop_last() =~= rs.take(k as int));
        assert(rs.take(k + 1).last() == rs[k as int]);
        let ghost before = unmet@;
        match requirement_violation_exec(files, requirements, &requirements[k]) {
            Some(v) => {
                unmet.push(v);
                assert(violations_view(unmet@) =~= violations_view(before).push(unmet@.last()@));
            },
            None => {},
        }
        k = k + 1;
    }
    assert(rs.take(rs.len() as int) =~= rs);
    let ghost unsorted = unmet@;
    let mut sorted = sort_by_key(unmet);
    proof {
        lemma_permutation_map(sorted@, unsorted, |v: Violation| v@);
    }
    let ghost head = result.violations@;
    let ghost tail = sorted@;
    result.violations.append(&mut sorted);
    proof {
        assert(result.violations@ == head + tail);
        assert(result.violations@.skip(head.len() as int) =~= tail);
        assert(violations_view(result.violations@).take(head.len() as int) =~= violations_view(head));
        assert(violations_view(result.violations@).skip(head.len() as int) =~= violations_view(tail));
    }
    result
}

/// A list of functions that holds one named `symbol` has a first such
/// function, and it has that name.
pub proof fn lemma_find_func_finds(fs: Seq<FuncView>, symbol: Seq<char>, j: int)
    requires
        0 <= j < fs.len(),
        fs[j].name == symbol,
    ensures
        find_func(fs, symbol) matches Some(x) && x.name == symbol,
    decreases fs.len(),
{
    if fs[0].name != symbol {
        lemma_find_func_finds(fs.drop_first(), symbol, j - 1);
    }
}

/// Every function or method with a body is among the functions of the
/// declarations, under its name.
pub proof fn lemma_callable_in_funcs(ds: Seq<Declaration>, j: int)
    requires
        0 <= j < ds.len(),
        callable(ds[j].kind),
        ds[j].body is Some,
    ensures
        exists|k: int| 0 <= k < funcs_of(ds).len() && (#[trigger] funcs_of(ds)[k]).name == ds[j].name@,
    decreases ds.len(),
{
    let n = ds.len() - 1;
    if j < n {
        lemma_callable_in_funcs(ds.drop_last(), j);
        assert(ds.drop_last()[j] == ds[j]);
        let k = choose|k: int|
            0 <= k < funcs_of(ds.drop_last()).len() && (#[trigger] funcs_of(ds.drop_last())[k]).name
                == ds[j].name@;
        assert(funcs_of(ds)[k] == funcs_of(ds.drop_last())[k]);
    } else {
        assert(funcs_of(ds)[funcs_of(ds).len() - 1].name == ds[j].name@);
    }
}

/// For a requirement that names no file, the symbol is looked for in every
/// analyzed file that the requirements need, from `i` on: where any such
/// file declares a function or method with a body under the symbol's name,
/// the lookup finds a function of that name.
pub proof fn lemma_lookup_any_file_finds(
    files: Seq<AnalyzedFile>,
    reqs: Seq<ComplexityRequirement>,
    symbol: Seq<char>,
    i: int,
    k: int,
    j: int,
)
    requires
        0 <= i <= k < files.len(),
        analyzed_facts(files, reqs, k) matches Some(f) && 0 <= j < f.declarations@.len()
            && f.declarations@[j].name@ == symbol && callable(f.declarations@[j].kind)
            && f.declarations@[j].body is Some,
    ensures
        lookup_from(files, reqs, None, symbol, i) matches Some(x) && x.name == symbol,
    decreases k - i,
{
    match analyzed_facts(files, reqs, i) {
        Some(fi) => {
            if find_func(funcs_of(fi.declarations@), symbol) is Some {
                lemma_find_func_name(funcs_of(fi.declarations@), symbol);
            } else if i == k {
                let ds = analyzed_facts(files, reqs, k)->0.declarations@;
                lemma_callable_in_funcs(ds, j);
                let q = choose|q: int| 0 <= q < funcs_of(ds).len() && (#[trigger] funcs_of(ds)[q]).name == symbol;
                lemma_find_func_finds(funcs_of(ds), symbol, q);
            } else {
                lemma_lookup_any_file_finds(files, reqs, symbol, i + 1, k, j);
            }
        },
        None => {
            if i == k {
            } else {
                lemma_lookup_any_file_finds(files, reqs, symbol, i + 1, k, j);
            }
        },
    }
}

/// What `find_func` finds carries the name looked for.
pub proof fn lemma_find_func_name(fs: Seq<FuncView>, symbol: Seq<char>)
    ensures
        find_func(fs, symbol) matches Some(x) ==> x.name == symbol,
    decreases fs.len(),
{
    if fs.len() > 0 && fs[0].name != symbol {
        lemma_find_func_name(fs.drop_first(), symbol);
    }
}

} // verus!
