//! Detection of missing required symbols and tests.
//!
//! The application parses the files; this module decides, from the
//! declarations the parsers found, which required symbols and tests are
//! missing.
use vstd::prelude::*;

use crate::analysis::facts::{DeclarationKind, FileFacts, Declaration};
use crate::contract::{symbol_kind_name, RequiredSymbol, RequiredTest, SymbolKind};
use crate::detect::complexity::{AnalyzedFile, FileAnalysis};
use crate::detect::types::{
    str_eq, violations_view, DetectionResult, Severity, Violation, ViolationRule, ViolationView,
};
use crate::paths::{path_file_name, path_file_name_of};
use crate::sorting::{lemma_permutation_map, sort_by_key, sorted_by_key};
use crate::text::{chars_of, concat, concat_str, debug_form, debug_quoted, ends_with_str, has_prefix, has_suffix, starts_with_str, string_of};

verus! {

broadcast use vstd::seq_lib::group_to_multiset_ensures;

/// Information about a found symbol.
#[derive(Debug, Clone)]
pub struct SymbolInfo {
    pub name: String,
    pub kind: SymbolKind,
    pub file: String,
    pub line: usize,
}

/// The contract's symbol kind for a declaration kind: struct, enum,
/// interface and trait declarations are types.
pub open spec fn symbol_kind_of(kind: DeclarationKind) -> SymbolKind {
    match kind {
        DeclarationKind::Function => SymbolKind::Function,
        DeclarationKind::Method => SymbolKind::Method,
        DeclarationKind::Const => SymbolKind::Const,
        _ => SymbolKind::Type,
    }
}

/// Convert from analysis DeclarationKind to contract SymbolKind.
pub fn declaration_kind_to_symbol_kind(kind: DeclarationKind) -> (r: SymbolKind)
    ensures
        r == symbol_kind_of(kind),
{
    match kind {
        DeclarationKind::Function => SymbolKind::Function,
        DeclarationKind::Method => SymbolKind::Method,
        DeclarationKind::Type | DeclarationKind::Struct | DeclarationKind::Enum
        | DeclarationKind::Interface | DeclarationKind::Trait => SymbolKind::Type,
        DeclarationKind::Const => SymbolKind::Const,
    }
}

/// Extract symbols from a file's facts, one per declaration, in order.
pub fn extract_symbols_from_facts(facts: &FileFacts) -> (r: Vec<SymbolInfo>)
    ensures
        r@.len() == facts.declarations@.len(),
        forall|i: int|
            0 <= i < r@.len() ==> (#[trigger] r@[i]).name@ == facts.declarations@[i].name@
                && r@[i].kind == symbol_kind_of(facts.declarations@[i].kind) && r@[i].file@
                == facts.path@ && r@[i].line == facts.declarations@[i].span.start_line,
{
    let mut r: Vec<SymbolInfo> = Vec::new();
    let mut i: usize = 0;
    while i < facts.declarations.len()
        invariant
            i <= facts.declarations@.len(),
            r@.len() == i,
            forall|j: int|
                0 <= j < i ==> (#[trigger] r@[j]).name@ == facts.declarations@[j].name@
                    && r@[j].kind == symbol_kind_of(facts.declarations@[j].kind) && r@[j].file@
                    == facts.path@ && r@[j].line == facts.declarations@[j].span.start_line,
        decreases facts.declarations.len() - i,
    {
        let d = &facts.declarations[i];
        r.push(
            SymbolInfo {
                name: d.name.clone(),
                kind: declaration_kind_to_symbol_kind(d.kind),
                file: facts.path.clone(),
                line: d.span.start_line,
            },
        );
        i = i + 1;
    }
    r
}

// ---------------------------------------------------------------------------
// Symbols
// ---------------------------------------------------------------------------

/// Some required symbol lives in the file.
pub open spec fn symbol_file_required(syms: Seq<RequiredSymbol>, file: Seq<char>) -> bool {
    exists|i: int| 0 <= i < syms.len() && (#[trigger] syms[i]).file@ == file
}

/// The facts of the first analyzed file with this path, among those some
/// required symbol lives in.
pub open spec fn symbol_facts_from(
    files: Seq<AnalyzedFile>,
    syms: Seq<RequiredSymbol>,
    file: Seq<char>,
    i: int,
) -> Option<FileFacts>
    decreases files.len() - i,
{
    if i < 0 || i >= files.len() {
        None
    } else if files[i].rel_path@ == file && symbol_file_required(syms, file)
        && files[i].analysis is Analyzed {
        match files[i].analysis {
            FileAnalysis::Analyzed(f) => Some(f),
            _ => None,
        }
    } else {
        symbol_facts_from(files, syms, file, i + 1)
    }
}

/// Some declaration has the name and (mapped) kind.
pub open spec fn declares(ds: Seq<Declaration>, name: Seq<char>, kind: SymbolKind) -> bool {
    exists|i: int|
        0 <= i < ds.len() && (#[trigger] ds[i]).name@ == name && symbol_kind_of(ds[i].kind) == kind
}

/// A required symbol's file is needed and no analyzer handles it.
pub open spec fn symbol_file_unsupported(
    files: Seq<AnalyzedFile>,
    syms: Seq<RequiredSymbol>,
    file: Seq<char>,
) -> bool {
    symbol_file_required(syms, file) && exists|i: int|
        0 <= i < files.len() && (#[trigger] files[i]).rel_path@ == file
            && files[i].analysis is Unsupported
}

/// The violation a required symbol gives, if it is missing.
pub open spec fn symbol_violation(
    files: Seq<AnalyzedFile>,
    syms: Seq<RequiredSymbol>,
    s: RequiredSymbol,
) -> Option<ViolationView> {
    if symbol_file_unsupported(files, syms, s.file@) {
        Some(
            ViolationView {
                rule: ViolationRule::MissingSymbol,
                message: "cannot verify "@ + symbol_kind_name(s.kind) + " "@ + debug_form(s.name@)
                    + ": no analyzer for file extension"@,
                file: s.file@,
                line: 0,
                severity: Severity::Critical,
            },
        )
    } else if (symbol_facts_from(files, syms, s.file@, 0) matches Some(f) && declares(
        f.declarations@,
        s.name@,
        s.kind,
    )) {
        None
    } else {
        Some(
            ViolationView {
                rule: ViolationRule::MissingSymbol,
                message: "required "@ + symbol_kind_name(s.kind) + " "@ + debug_form(s.name@)
                    + " not found"@,
                file: s.file@,
                line: 0,
                severity: Severity::Critical,
            },
        )
    }
}

pub open spec fn symbol_violations(
    files: Seq<AnalyzedFile>,
    syms: Seq<RequiredSymbol>,
    rs: Seq<RequiredSymbol>,
) -> Seq<ViolationView>
    decreases rs.len(),
{
    if rs.len() == 0 {
        Seq::empty()
    } else {
        let prev = symbol_violations(files, syms, rs.drop_last());
        match symbol_violation(files, syms, rs.last()) {
            Some(v) => prev.push(v),
            None => prev,
        }
    }
}

/// Needed files whose analysis failed, as violations, in file order.
pub open spec fn symbol_failures(files: Seq<AnalyzedFile>, syms: Seq<RequiredSymbol>) -> Seq<
    ViolationView,
>
    decreases files.len(),
{
    if files.len() == 0 {
        Seq::empty()
    } else {
        let prev = symbol_failures(files.drop_last(), syms);
        let f = files.last();
        if symbol_file_required(syms, f.rel_path@) {
            match f.analysis {
                FileAnalysis::Failed(e) => prev.push(
                    ViolationView {
                        rule: ViolationRule::MissingSymbol,
                        message: "failed to parse file for symbol extraction: "@ + e@,
                        file: f.rel_path@,
                        line: 0,
                        severity: Severity::Error,
                    },
                ),
                _ => prev,
            }
        } else {
            prev
        }
    }
}

pub open spec fn symbol_scanned(files: Seq<AnalyzedFile>, syms: Seq<RequiredSymbol>) -> nat
    decreases files.len(),
{
    if files.len() == 0 {
        0
    } else {
        symbol_scanned(files.drop_last(), syms) + if symbol_file_required(
            syms,
            files.last().rel_path@,
        ) && files.last().analysis is Analyzed {
            1nat
        } else {
            0nat
        }
    }
}

fn symbol_file_is_required(syms: &[RequiredSymbol], file: &str) -> (r: bool)
    ensures
        r == symbol_file_required(syms@, file@),
{
    let mut i: usize = 0;
    while i < syms.len()
        invariant
            i <= syms@.len(),
            forall|j: int| 0 <= j < i ==> (#[trigger] syms@[j]).file@ != file@,
        decreases syms.len() - i,
    {
        if str_eq(syms[i].file.as_str(), file) {
            return true;
        }
        i = i + 1;
    }
    false
}

fn symbol_file_is_unsupported(files: &[AnalyzedFile], syms: &[RequiredSymbol], file: &str) -> (r:
    bool)
    ensures
        r == symbol_file_unsupported(files@, syms@, file@),
{
    if !symbol_file_is_required(syms, file) {
        return false;
    }
    let mut i: usize = 0;
    while i < files.len()
        invariant
            i <= files@.len(),
            symbol_file_required(syms@, file@),
            forall|j: int|
                0 <= j < i ==> !((#[trigger] files@[j]).rel_path@ == file@
                    && files@[j].analysis is Unsupported),
        decreases files.len() - i,
    {
        match &files[i].analysis {
            FileAnalysis::Unsupported => {
                if str_eq(files[i].rel_path.as_str(), file) {
                    assert(files@[i as int].analysis is Unsupported);
                    return true;
                }
            },
            _ => {},
        }
        i = i + 1;
    }
    false
}

fn declares_exec(facts: &FileFacts, name: &str, kind: SymbolKind) -> (r: bool)
    ensures
        r == declares(facts.declarations@, name@, kind),
{
    let syms = extract_symbols_from_facts(facts);
    let mut i: usize = 0;
    while i < syms.len()
        invariant
            i <= syms@.len(),
            syms@.len() == facts.declarations@.len(),
            forall|j: int|
                0 <= j < syms@.len() ==> (#[trigger] syms@[j]).name@ == facts.declarations@[j].name@
                    && syms@[j].kind == symbol_kind_of(facts.declarations@[j].kind),
            forall|j: int|
                0 <= j < i ==> !((#[trigger] facts.declarations@[j]).name@ == name@ && symbol_kind_of(
                    facts.declarations@[j].kind,
                ) == kind),
        decreases syms.len() - i,
    {
        if str_eq(syms[i].name.as_str(), name) && syms[i].kind == kind {
            assert(syms@[i as int].name@ == facts.declarations@[i as int].name@);
            return true;
        }
        assert(syms@[i as int].name@ == facts.declarations@[i as int].name@);
        i = i + 1;
    }
    false
}

fn symbol_facts<'a>(files: &'a [AnalyzedFile], syms: &[RequiredSymbol], file: &str) -> (r: Option<&'a FileFacts>)
    ensures
        match r {
            Some(f) => symbol_facts_from(files@, syms@, file@, 0) == Some(*f),
            None => symbol_facts_from(files@, syms@, file@, 0) is None,
        },
{
    let required = symbol_file_is_required(syms, file);
    let mut i: usize = 0;
    while i < files.len()
        invariant
            i <= files@.len(),
            required == symbol_file_required(syms@, file@),
            symbol_facts_from(files@, syms@, file@, 0) == symbol_facts_from(files@, syms@, file@, i as int),
        decreases files.len() - i,
    {
        if required && str_eq(files[i].rel_path.as_str(), file) {
            match &files[i].analysis {
                FileAnalysis::Analyzed(f) => {
                    return Some(f);
                },
                _ => {},
            }
        }
        i = i + 1;
    }
    None
}

fn kind_name_message(before: &str, kind: SymbolKind, name: &str, after: &str) -> (r: String)
    ensures
        r@ == before@ + symbol_kind_name(kind) + " "@ + debug_form(name@) + after@,
{
    let a = concat_str(chars_of(before).as_slice(), kind.as_str());
    let b = concat_str(a.as_slice(), " ");
    let c = concat(b.as_slice(), debug_quoted(chars_of(name).as_slice()).as_slice());
    let d = concat_str(c.as_slice(), after);
    string_of(d.as_slice())
}

fn symbol_violation_exec(files: &[AnalyzedFile], syms: &[RequiredSymbol], s: &RequiredSymbol) -> (v:
    Option<Violation>)
    ensures
        match v {
            Some(x) => symbol_violation(files@, syms@, *s) == Some(x@),
            None => symbol_violation(files@, syms@, *s) is None,
        },
{
    if symbol_file_is_unsupported(files, syms, s.file.as_str()) {
        return Some(
            Violation {
                rule: ViolationRule::MissingSymbol,
                message: kind_name_message(
                    "cannot verify ",
                    s.kind,
                    s.name.as_str(),
                    ": no analyzer for file extension",
                ),
                file: s.file.clone(),
                line: 0,
                severity: Severity::Critical,
            },
        );
    }
    let found = match symbol_facts(files, syms, s.file.as_str()) {
        Some(f) => declares_exec(f, s.name.as_str(), s.kind),
        None => false,
    };
    if found {
        None
    } else {
        Some(
            Violation {
                rule: ViolationRule::MissingSymbol,
                message: kind_name_message("required ", s.kind, s.name.as_str(), " not found"),
                file: s.file.clone(),
                line: 0,
                severity: Severity::Critical,
            },
        )
    }
}

/// What a check of the required symbols gives: nothing without symbols;
/// else first the needed files whose analysis failed, then the missing
/// symbols, ordered by file, line and message.
pub open spec fn missing_symbols_hold(
    files: Seq<AnalyzedFile>,
    symbols: Seq<RequiredSymbol>,
    r: DetectionResult,
) -> bool {
    &&& symbols.len() == 0 ==> r.violations@.len() == 0 && r.scanned == 0
    &&& symbols.len() > 0 ==> ({
        let failures = symbol_failures(files, symbols);
        &&& r.violations@.len() >= failures.len()
        &&& violations_view(r.violations@).take(failures.len() as int) == failures
        &&& sorted_by_key(r.violations@.skip(failures.len() as int))
        &&& violations_view(r.violations@).skip(failures.len() as int).to_multiset()
            == symbol_violations(files, symbols, symbols).to_multiset()
        &&& r.scanned == symbol_scanned(files, symbols)
    })
    &&& r.suppressed@.len() == 0
    &&& r.new_violations@.len() == 0
    &&& r.baseline_ref is None
}

/// Check that all required symbols exist in the codebase.
///
/// `files` are the project's files in path order, each with what its
/// analysis gave; only files that some required symbol lives in are looked
/// at. The result holds first the needed files whose analysis failed, then
/// the missing symbols, ordered by file, line and message.
pub fn detect_missing_symbols(files: &[AnalyzedFile], symbols: &[RequiredSymbol]) -> (r:
    DetectionResult)
    ensures
        missing_symbols_hold(files@, symbols@, r),
{
    let mut result = DetectionResult::new();
    if symbols.len() == 0 {
        return result;
    }
    let ghost fs = files@;
    let ghost ss = symbols@;
    let mut i: usize = 0;
    while i < files.len()
        invariant
            i <= fs.len(),
            fs == files@,
            ss == symbols@,
            violations_view(result.violations@) == symbol_failures(fs.take(i as int), ss),
            result.scanned == symbol_scanned(fs.take(i as int), ss),
            result.scanned <= i,
            result.suppressed@.len() == 0,
            result.new_violations@.len() == 0,
            result.baseline_ref is None,
        decreases files.len() - i,
    {
        let f = &files[i];
        assert(fs.take(i + 1).drop_last() =~= fs.take(i as int));
        assert(fs.take(i + 1).last() == *f);
        if symbol_file_is_required(symbols, f.rel_path.as_str()) {
            match &f.analysis {
                FileAnalysis::Failed(e) => {
                    let m = concat_str(
                        chars_of("failed to parse file for symbol extraction: ").as_slice(),
                        e.as_str(),
                    );
                    let ghost before = result.violations@;
                    result.add_violation(
                        Violation {
                            rule: ViolationRule::MissingSymbol,
                            message: string_of(m.as_slice()),
                            file: f.rel_path.clone(),
                            line: 0,
                            severity: Severity::Error,
                        },
                    );
                    assert(violations_view(result.violations@) =~= violations_view(before).push(
                        result.violations@.last()@,
                    ));
                },
                FileAnalysis::Analyzed(_) => {
                    result.scanned = result.scanned + 1;
                },
                FileAnalysis::Unsupported => {},
            }
        }
        i = i + 1;
    }
    assert(fs.take(fs.len() as int) =~= fs);
    let mut missing: Vec<Violation> = Vec::new();
    let mut k: usize = 0;
    while k < symbols.len()
        invariant
            k <= ss.len(),
            fs == files@,
            ss == symbols@,
            violations_view(missing@) == symbol_violations(fs, ss, ss.take(k as int)),
        decreases symbols.len() - k,
    {
        assert(ss.take(k + 1).drop_last() =~= ss.take(k as int));
        assert(ss.take(k + 1).last() == ss[k as int]);
        let ghost before = missing@;
        match symbol_violation_exec(files, symbols, &symbols[k]) {
            Some(v) => {
                missing.push(v);
                assert(violations_view(missing@) =~= violations_view(before).push(missing@.last()@));
            },
            None => {},
        }
        k = k + 1;
    }
    assert(ss.take(ss.len() as int) =~= ss);
    let ghost unsorted = missing@;
    let mut sorted = sort_by_key(missing);
    proof {
        lemma_permutation_map(sorted@, unsorted, |v: Violation| v@);
    }
    let ghost head = result.violations@;
    let ghost tail = sorted@;
    result.violations.append(&mut sorted);
    proof {
        assert(result.violations@.skip(head.len() as int) =~= tail);
        assert(violations_view(result.violations@).take(head.len() as int) =~= violations_view(head));
        assert(violations_view(result.violations@).skip(head.len() as int) =~= violations_view(tail));
    }
    result
}

// ---------------------------------------------------------------------------
// Tests
// ---------------------------------------------------------------------------

/// A Go test file: its name ends with `_test.go`.
pub open spec fn is_go_test_file(rel_path: Seq<char>) -> bool {
    path_file_name_of(rel_path) matches Some(n) && has_suffix(n, "_test.go"@)
}

/// The test functions of a file: functions whose name starts with `Test`.
pub open spec fn declares_test(ds: Seq<Declaration>, name: Seq<char>) -> bool {
    exists|i: int|
        0 <= i < ds.len() && (#[trigger] ds[i]).kind == DeclarationKind::Function && has_prefix(
            ds[i].name@,
            "Test"@,
        ) && ds[i].name@ == name
}

/// The facts of the first analyzed Go test file (from `i` on) that `file`
/// selects (any when `None`) and that declares the test.
pub open spec fn test_found_from(
    files: Seq<AnalyzedFile>,
    file: Option<Seq<char>>,
    name: Seq<char>,
    i: int,
) -> bool
    decreases files.len() - i,
{
    if i < 0 || i >= files.len() {
        false
    } else {
        let f = files[i];
        let here = is_go_test_file(f.rel_path@) && (f.analysis matches FileAnalysis::Analyzed(x)
            && declares_test(x.declarations@, name));
        match file {
            Some(p) => if is_go_test_file(f.rel_path@) && f.analysis is Analyzed && f.rel_path@
                == p {
                here
            } else {
                test_found_from(files, file, name, i + 1)
            },
            None => here || test_found_from(files, file, name, i + 1),
        }
    }
}

pub open spec fn test_violation(files: Seq<AnalyzedFile>, t: RequiredTest) -> Option<ViolationView> {
    if test_found_from(files, crate::paths::opt_string_view(t.file), t.name@, 0) {
        None
    } else {
        Some(
            ViolationView {
                rule: ViolationRule::MissingTest,
                message: "required test "@ + debug_form(t.name@) + " not found"@,
                file: match t.file {
                    Some(f) => f@,
                    None => "(any test file)"@,
                },
                line: 0,
                severity: Severity::Warning,
            },
        )
    }
}

pub open spec fn test_violations(files: Seq<AnalyzedFile>, ts: Seq<RequiredTest>) -> Seq<
    ViolationView,
>
    decreases ts.len(),
{
    if ts.len() == 0 {
        Seq::empty()
    } else {
        let prev = test_violations(files, ts.drop_last());
        match test_violation(files, ts.last()) {
            Some(v) => prev.push(v),
            None => prev,
        }
    }
}

/// Whether a file is a Go test file (`*_test.go`).
pub fn go_test_file(rel_path: &str) -> (r: bool)
    ensures
        r == is_go_test_file(rel_path@),
{
    match path_file_name(rel_path) {
        Some(n) => ends_with_str(chars_of(n.as_str()).as_slice(), "_test.go"),
        None => false,
    }
}

fn declares_test_exec(facts: &FileFacts, name: &str) -> (r: bool)
    ensures
        r == declares_test(facts.declarations@, name@),
{
    let mut i: usize = 0;
    while i < facts.declarations.len()
        invariant
            i <= facts.declarations@.len(),
            forall|j: int|
                0 <= j < i ==> !((#[trigger] facts.declarations@[j]).kind == DeclarationKind::Function
                    && has_prefix(facts.declarations@[j].name@, "Test"@)
                    && facts.declarations@[j].name@ == name@),
        decreases facts.declarations.len() - i,
    {
        let d = &facts.declarations[i];
        if d.kind == DeclarationKind::Function && starts_with_str(
            chars_of(d.name.as_str()).as_slice(),
            "Test",
        ) && str_eq(d.name.as_str(), name) {
            return true;
        }
        i = i + 1;
    }
    false
}

fn test_found(files: &[AnalyzedFile], file: &Option<String>, name: &str) -> (r: bool)
    ensures
        r == test_found_from(files@, crate::paths::opt_string_view(*file), name@, 0),
{
    let ghost fv = crate::paths::opt_string_view(*file);
    let mut i: usize = 0;
    while i < files.len()
        invariant
            i <= files@.len(),
            fv == crate::paths::opt_string_view(*file),
            test_found_from(files@, fv, name@, 0) == test_found_from(files@, fv, name@, i as int),
        decreases files.len() - i,
    {
        let f = &files[i];
        let is_test = go_test_file(f.rel_path.as_str());
        let here = is_test && match &f.analysis {
            FileAnalysis::Analyzed(x) => declares_test_exec(x, name),
            _ => false,
        };
        match file {
            Some(p) => {
                let analyzed = match &f.analysis {
                    FileAnalysis::Analyzed(_) => true,
                    _ => false,
                };
                if is_test && analyzed && str_eq(f.rel_path.as_str(), p.as_str()) {
                    return here;
                }
            },
            None => {
                if here {
                    return true;
                }
            },
        }
        i = i + 1;
    }
    false
}

/// What a check of the required tests gives: the missing tests, ordered by
/// file, line and message.
pub open spec fn missing_tests_hold(files: Seq<AnalyzedFile>, tests: Seq<RequiredTest>, r: DetectionResult) -> bool {
    &&& sorted_by_key(r.violations@)
    &&& violations_view(r.violations@).to_multiset() == test_violations(files, tests).to_multiset()
    &&& r.scanned == 0
    &&& r.suppressed@.len() == 0
    &&& r.new_violations@.len() == 0
    &&& r.baseline_ref is None
}

/// Check that all required tests exist.
///
/// `files` are the project's files in path order, each with what its
/// analysis gave; only Go test files (`*_test.go`) that were analyzed are
/// searched, for functions whose names start with `Test`. The missing tests
/// are ordered by file, line and message.
pub fn detect_missing_tests(files: &[AnalyzedFile], tests: &[RequiredTest]) -> (r: DetectionResult)
    ensures
        missing_tests_hold(files@, tests@, r),
{
    let mut result = DetectionResult::new();
    if tests.len() == 0 {
        assert(test_violations(files@, tests@) =~= Seq::<ViolationView>::empty());
        assert(violations_view(result.violations@) =~= Seq::<ViolationView>::empty());
        return result;
    }
    let ghost ts = tests@;
    let mut missing: Vec<Violation> = Vec::new();
    let mut k: usize = 0;
    while k < tests.len()
        invariant
            k <= ts.len(),
            ts == tests@,
            violations_view(missing@) == test_violations(files@, ts.take(k as int)),
        decreases tests.len() - k,
    {
        let t = &tests[k];
        assert(ts.take(k + 1).drop_last() =~= ts.take(k as int));
        assert(ts.take(k + 1).last() == *t);
        if !test_found(files, &t.file, t.name.as_str()) {
            let q = debug_quoted(chars_of(t.name.as_str()).as_slice());
            let a = concat(chars_of("required test ").as_slice(), q.as_slice());
            let m = concat_str(a.as_slice(), " not found");
            let file = match &t.file {
                Some(f) => f.clone(),
                None => String::from_str("(any test file)"),
            };
            let ghost before = missing@;
            missing.push(
                Violation {
                    rule: ViolationRule::MissingTest,
                    message: string_of(m.as_slice()),
                    file,
                    line: 0,
                    severity: Severity::Warning,
                },
            );
            assert(violations_view(missing@) =~= violations_view(before).push(missing@.last()@));
        }
        k = k + 1;
    }
    assert(ts.take(ts.len() as int) =~= ts);
    let ghost unsorted = missing@;
    let sorted = sort_by_key(missing);
    proof {
        lemma_permutation_map(sorted@, unsorted, |v: Violation| v@);
    }
    result.violations = sorted;
    result
}

} // verus!
