//! Stub/hollow function detection over the facts that the parsers extract.
use vstd::prelude::*;

use crate::analysis::facts::FileFacts;
use crate::analysis::stubs::{
    findings_of, findings_view, hollow_description, HollowBodyKind, StubDetector,
    StubDetectorConfig, StubFinding, StubFindingView,
};
use crate::detect::types::{
    violations_view, DetectionResult, Severity, Violation, ViolationRule, ViolationView,
};
use crate::paths::{path_file_name, path_file_name_of};
use crate::analysis::stubs::{names_view, StubDetectorConfigView};
use crate::sorting::{filter_map, lemma_filter_map_permutation};
use crate::text::{
    chars_of, concat, concat_str, contains_seq, contains_str, debug_form, debug_quoted,
    ends_with_str, find_from, first_occurrence_from, has_prefix, has_suffix, occurs_at,
    slice_range, starts_with_str, string_of, to_lowercase, unicode_lowercase,
};

verus! {

/// Test files, test doubles and test helpers are not checked for stubs.
pub open spec fn skip_stub_detection(file_path: Seq<char>, function_name: Seq<char>) -> bool {
    let path = unicode_lowercase(file_path);
    let func = unicode_lowercase(function_name);
    ||| contains_seq(path, "/testing/"@) || contains_seq(path, "/testdata/"@) || contains_seq(
        path,
        "/test/"@,
    ) || contains_seq(path, "/tests/"@) || contains_seq(path, "/__tests__/"@)
    ||| has_suffix(path, "_test.go"@) || has_suffix(path, "_test.py"@) || has_suffix(
        path,
        ".test.js"@,
    ) || has_suffix(path, ".test.ts"@) || has_suffix(path, ".spec.js"@) || has_suffix(
        path,
        ".spec.ts"@,
    )
    ||| (path_file_name_of(file_path) matches Some(n) && {
        let f = unicode_lowercase(n);
        has_prefix(f, "fake_"@) || has_prefix(f, "mock_"@) || contains_seq(f, "fake"@)
            || contains_seq(f, "mock"@)
    })
    ||| has_prefix(func, "fake"@) || has_prefix(func, "mock"@) || has_prefix(func, "stub"@)
        || has_prefix(func, "noop"@) || has_prefix(func, "dummy"@) || has_prefix(func, "test"@)
        || contains_seq(func, "unimplemented"@)
}

/// Check if stub detection should be skipped for a file/function.
pub fn should_skip_stub_detection(file_path: &str, function_name: &str) -> (r: bool)
    ensures
        r == skip_stub_detection(file_path@, function_name@),
{
    let pv = to_lowercase(chars_of(file_path).as_slice());
    let fv = to_lowercase(chars_of(function_name).as_slice());
    let p = pv.as_slice();
    let f = fv.as_slice();
    if contains_str(p, "/testing/") || contains_str(p, "/testdata/") || contains_str(p, "/test/")
        || contains_str(p, "/tests/") || contains_str(p, "/__tests__/") {
        return true;
    }
    if ends_with_str(p, "_test.go") || ends_with_str(p, "_test.py") || ends_with_str(p, ".test.js")
        || ends_with_str(p, ".test.ts") || ends_with_str(p, ".spec.js") || ends_with_str(
        p,
        ".spec.ts",
    ) {
        return true;
    }
    match path_file_name(file_path) {
        Some(name) => {
            let lv = to_lowercase(chars_of(name.as_str()).as_slice());
            let l = lv.as_slice();
            if starts_with_str(l, "fake_") || starts_with_str(l, "mock_") || contains_str(l, "fake")
                || contains_str(l, "mock") {
                return true;
            }
        },
        None => {},
    }
    starts_with_str(f, "fake") || starts_with_str(f, "mock") || starts_with_str(f, "stub")
        || starts_with_str(f, "noop") || starts_with_str(f, "dummy") || starts_with_str(f, "test")
        || contains_str(f, "unimplemented")
}

pub open spec fn noop_methods() -> Seq<Seq<char>> {
    seq![
        "canonicalize"@, "destroy"@, "preparefor"@, "enablemetrics"@, "setallocated"@,
        "setavailable"@, "incrementallocations"@, "incrementallocationerrors"@,
    ]
}

/// An empty function that is a legitimate no-op for interface compliance
/// (optional hooks such as Kubernetes strategy and metrics methods).
pub open spec fn legitimate_noop(
    function_name: Seq<char>,
    file_path: Seq<char>,
    kind: HollowBodyKind,
) -> bool {
    let func = unicode_lowercase(function_name);
    let path = unicode_lowercase(file_path);
    kind is Empty && ((exists|i: int|
        0 <= i < noop_methods().len() && contains_seq(func, #[trigger] noop_methods()[i])) || (
    contains_seq(path, "/registry/"@) && (has_suffix(func, "rest.destroy"@) || contains_seq(
        func,
        "strategy."@,
    ) || contains_seq(func, "preparefor"@))))
}

/// Check if a function is a legitimate no-op for interface compliance.
pub fn is_legitimate_noop(function_name: &str, file_path: &str, body_kind: &HollowBodyKind) -> (r:
    bool)
    ensures
        r == legitimate_noop(function_name@, file_path@, *body_kind),
{
    match body_kind {
        HollowBodyKind::Empty => {},
        _ => {
            return false;
        },
    }
    let fv = to_lowercase(chars_of(function_name).as_slice());
    let pv = to_lowercase(chars_of(file_path).as_slice());
    let f = fv.as_slice();
    let methods = vec![
        "canonicalize", "destroy", "preparefor", "enablemetrics", "setallocated", "setavailable",
        "incrementallocations", "incrementallocationerrors",
    ];
    let ghost ms = methods@.map_values(|m: &'static str| m@);
    assert(ms =~= noop_methods());
    let mut i: usize = 0;
    while i < methods.len()
        invariant
            i <= methods@.len(),
            ms == methods@.map_values(|m: &'static str| m@),
            ms == noop_methods(),
            f@ == fv@,
            fv@ == unicode_lowercase(function_name@),
            *body_kind is Empty,
            forall|j: int| 0 <= j < i ==> !contains_seq(fv@, #[trigger] ms[j]),
        decreases methods.len() - i,
    {
        assert(ms[i as int] == methods@[i as int]@);
        if contains_str(f, methods[i]) {
            assert(contains_seq(fv@, ms[i as int]));
            return true;
        }
        i = i + 1;
    }
    contains_str(pv.as_slice(), "/registry/") && (ends_with_str(f, "rest.destroy") || contains_str(
        f,
        "strategy.",
    ) || contains_str(f, "preparefor"))
}

/// Configuration for stub detection in contracts.
#[derive(Debug, Clone)]
pub struct StubDetectionConfig {
    /// Enable detection of empty function bodies.
    pub detect_empty: bool,
    /// Enable detection of panic-only bodies.
    pub detect_panic: bool,
    /// Enable detection of nil-return-only bodies.
    pub detect_nil_return: bool,
    /// Enable detection of TODO-comment-only bodies.
    pub detect_todo_comment: bool,
    /// Function names to skip.
    pub skip_functions: Vec<String>,
}

impl Default for StubDetectionConfig {
    fn default() -> (r: StubDetectionConfig)
        ensures
            !r.detect_empty && !r.detect_panic && !r.detect_nil_return && !r.detect_todo_comment,
            r.skip_functions@.len() == 0,
    {
        StubDetectionConfig {
            detect_empty: false,
            detect_panic: false,
            detect_nil_return: false,
            detect_todo_comment: false,
            skip_functions: Vec::new(),
        }
    }
}

impl StubDetectionConfig {
    /// All detections enabled except nil-return; `main` and `init` skipped.
    pub fn default_enabled() -> (r: StubDetectionConfig)
        ensures
            r.detect_empty && r.detect_panic && !r.detect_nil_return && r.detect_todo_comment,
            r.skip_functions@.len() == 2,
            r.skip_functions@[0]@ == "main"@,
            r.skip_functions@[1]@ == "init"@,
    {
        let mut skip: Vec<String> = Vec::new();
        skip.push(String::from_str("main"));
        skip.push(String::from_str("init"));
        StubDetectionConfig {
            detect_empty: true,
            detect_panic: true,
            detect_nil_return: false,
            detect_todo_comment: true,
            skip_functions: skip,
        }
    }
}

/// Empty and panic-only stubs are errors; TODO-only and nil-return-only
/// stubs are warnings.
pub open spec fn stub_severity(k: HollowBodyKind) -> Severity {
    match k {
        HollowBodyKind::Empty => Severity::Error,
        HollowBodyKind::PanicOnly => Severity::Error,
        HollowBodyKind::TodoCommentOnly => Severity::Warning,
        HollowBodyKind::NilReturnOnly => Severity::Warning,
    }
}

pub open spec fn stub_violation(f: StubFindingView, file: Seq<char>) -> ViolationView {
    ViolationView {
        rule: ViolationRule::StubFunction,
        message: "stub function "@ + debug_form(f.qualified_name) + ": "@ + hollow_description(
            f.kind,
        ),
        file,
        line: f.span.start_line as int,
        severity: stub_severity(f.kind),
    }
}

/// Convert a StubFinding to a Violation.
pub fn stub_finding_to_violation(finding: &StubFinding, file_path: &str) -> (r: Violation)
    ensures
        r@ == stub_violation(finding@, file_path@),
{
    let severity = match finding.kind {
        HollowBodyKind::Empty => Severity::Error,
        HollowBodyKind::PanicOnly => Severity::Error,
        HollowBodyKind::TodoCommentOnly => Severity::Warning,
        HollowBodyKind::NilReturnOnly => Severity::Warning,
    };
    let q = debug_quoted(chars_of(finding.qualified_name.as_str()).as_slice());
    let a = concat(chars_of("stub function ").as_slice(), q.as_slice());
    let b = concat_str(a.as_slice(), ": ");
    let c = concat_str(b.as_slice(), finding.kind.description());
    Violation {
        rule: ViolationRule::StubFunction,
        message: string_of(c.as_slice()),
        file: string_of(chars_of(file_path).as_slice()),
        line: finding.span.start_line,
        severity,
    }
}

/// The function name used for the skip checks: the text after the last
/// `::` of the qualified name (all of it when there is none).
pub open spec fn after_last_sep(s: Seq<char>) -> Seq<char>
    decreases s.len(),
{
    match find_seq_any(s) {
        Some(i) => after_last_sep(s.skip(i + 2)),
        None => s,
    }
}

/// The first `::` in the text.
pub open spec fn find_seq_any(s: Seq<char>) -> Option<int> {
    match first_occurrence_from(s, "::"@, 0) {
        Some(i) => if 0 <= i && i + 2 <= s.len() {
            Some(i)
        } else {
            None
        },
        None => None,
    }
}

pub fn last_path_segment(s: &str) -> (r: String)
    ensures
        r@ == after_last_sep(s@),
{
    let sep = chars_of("::");
    proof {
        reveal_strlit("::");
    }
    let mut cur = chars_of(s);
    loop
        invariant
            sep@ == "::"@,
            sep@.len() == 2,
            after_last_sep(cur@) == after_last_sep(s@),
        decreases cur@.len(),
    {
        match find_from(cur.as_slice(), sep.as_slice(), 0) {
            Some(i) => {
                assert(occurs_at(cur@, sep@, i as int));
                assert(i + sep@.len() <= cur@.len());
                assert(find_seq_any(cur@) == Some(i as int));
                let n = cur.len();
                let next = slice_range(cur.as_slice(), i + 2, n);
                assert(next@ =~= cur@.skip(i + 2));
                cur = next;
            },
            None => {
                assert(find_seq_any(cur@) is None);
                return string_of(cur.as_slice());
            },
        }
    }
}

/// A file and, when an analyzer handled it, its facts.
#[derive(Debug, Clone)]
pub struct StubInput {
    pub path: String,
    pub facts: Option<FileFacts>,
}

/// The violation a finding gives, unless the function is test code or a
/// legitimate no-op.
pub open spec fn kept_violation(f: StubFindingView, path: Seq<char>) -> Option<ViolationView> {
    let name = after_last_sep(f.qualified_name);
    if skip_stub_detection(path, name) || legitimate_noop(name, path, f.kind) {
        None
    } else {
        Some(stub_violation(f, path))
    }
}

/// The violations of one file's findings.
pub open spec fn kept_violations(fs: Seq<StubFindingView>, path: Seq<char>) -> Seq<ViolationView> {
    filter_map(fs, |f: StubFindingView| kept_violation(f, path))
}

/// The detector configuration that a contract configuration gives: its
/// flags and skip list, no complexity threshold and no skipped receivers;
/// without one, the detector's defaults.
pub open spec fn detector_config(config: Option<StubDetectionConfig>) -> StubDetectorConfigView {
    match config {
        Some(cfg) => StubDetectorConfigView {
            detect_empty: cfg.detect_empty,
            detect_panic: cfg.detect_panic,
            detect_nil_return: cfg.detect_nil_return,
            detect_todo_comment: cfg.detect_todo_comment,
            min_complexity: 0,
            skip_functions: names_view(cfg.skip_functions@),
            skip_receivers: Seq::empty(),
        },
        None => StubDetectorConfigView {
            detect_empty: true,
            detect_panic: true,
            detect_nil_return: false,
            detect_todo_comment: true,
            min_complexity: 0,
            skip_functions: seq!["main"@, "init"@],
            skip_receivers: Seq::empty(),
        },
    }
}

/// The violations of all files that an analyzer handled, file after file.
pub open spec fn all_stub_violations(c: StubDetectorConfigView, files: Seq<StubInput>) -> Seq<
    ViolationView,
>
    decreases files.len(),
{
    if files.len() == 0 {
        Seq::empty()
    } else {
        let prev = all_stub_violations(c, files.drop_last());
        let f = files.last();
        match f.facts {
            Some(facts) => prev + kept_violations(
                findings_of(c, facts.path@, facts.declarations@),
                f.path@,
            ),
            None => prev,
        }
    }
}

/// How many files an analyzer handled.
pub open spec fn analyzed_count(files: Seq<StubInput>) -> int
    decreases files.len(),
{
    if files.len() == 0 {
        0
    } else {
        analyzed_count(files.drop_last()) + if files.last().facts is Some {
            1int
        } else {
            0
        }
    }
}

proof fn lemma_analyzed_count_bound(files: Seq<StubInput>)
    ensures
        0 <= analyzed_count(files) <= files.len(),
    decreases files.len(),
{
    if files.len() > 0 {
        lemma_analyzed_count_bound(files.drop_last());
    }
}

fn copy_names(v: &Vec<String>) -> (r: Vec<String>)
    ensures
        names_view(r@) == names_view(v@),
{
    let mut r: Vec<String> = Vec::new();
    let mut i: usize = 0;
    while i < v.len()
        invariant
            i <= v@.len(),
            names_view(r@) == names_view(v@.take(i as int)),
        decreases v.len() - i,
    {
        r.push(string_of(chars_of(v[i].as_str()).as_slice()));
        assert(names_view(v@.take(i + 1)) =~= names_view(v@.take(i as int)).push(v@[i as int]@));
        i = i + 1;
    }
    assert(v@.take(v@.len() as int) =~= v@);
    r
}

/// What a check for stub functions gives: the stubs of every file that an
/// analyzer handled, in some order.
pub open spec fn stub_functions_hold(
    files: Seq<StubInput>,
    config: Option<StubDetectionConfig>,
    r: DetectionResult,
) -> bool {
    &&& violations_view(r.violations@).to_multiset() == all_stub_violations(
        detector_config(config),
        files,
    ).to_multiset()
    &&& r.scanned == analyzed_count(files)
    &&& r.suppressed@.len() == 0
    &&& r.new_violations@.len() == 0
    &&& r.baseline_ref is None
}

/// Detect stub/hollow functions in the analyzed files, with the detector
/// configured from the contract (or its defaults).
pub fn detect_stub_functions(files: &[StubInput], config: Option<&StubDetectionConfig>) -> (r:
    DetectionResult)
    ensures
        stub_functions_hold(
            files@,
            match config {
                Some(c) => Some(*c),
                None => None,
            },
            r,
        ),
{
    let ghost cfg_opt = match config {
        Some(c) => Some(*c),
        None => None,
    };
    let dcfg = match config {
        Some(cfg) => StubDetectorConfig {
            detect_empty: cfg.detect_empty,
            detect_panic: cfg.detect_panic,
            detect_nil_return: cfg.detect_nil_return,
            detect_todo_comment: cfg.detect_todo_comment,
            min_complexity: 0,
            skip_functions: copy_names(&cfg.skip_functions),
            skip_receivers: Vec::new(),
        },
        None => StubDetectorConfig::default(),
    };
    proof {
        reveal_strlit("main");
        reveal_strlit("init");
        assert(dcfg@.skip_receivers =~= Seq::<Seq<char>>::empty());
        if config is None {
            assert(dcfg@.skip_functions =~= seq!["main"@, "init"@]);
        }
    }
    let ghost c = detector_config(cfg_opt);
    assert(dcfg@ == c);
    let detector = StubDetector::with_config(dcfg);
    let mut result = DetectionResult::new();
    let ghost mut expected: Seq<ViolationView> = Seq::empty();
    assert(violations_view(result.violations@) =~= expected);
    let mut i: usize = 0;
    while i < files.len()
        invariant
            i <= files@.len(),
            detector.config()@ == c,
            expected == all_stub_violations(c, files@.take(i as int)),
            violations_view(result.violations@).to_multiset() == expected.to_multiset(),
            result.scanned == analyzed_count(files@.take(i as int)),
            result.suppressed@.len() == 0,
            result.new_violations@.len() == 0,
            result.baseline_ref is None,
        decreases files.len() - i,
    {
        let input = &files[i];
        assert(files@.take(i + 1).drop_last() =~= files@.take(i as int));
        assert(files@.take(i + 1).last() == files@[i as int]);
        proof {
            lemma_analyzed_count_bound(files@.take(i as int));
        }
        match &input.facts {
            Some(facts) => {
                result.scanned = result.scanned + 1;
                let findings = detector.detect(facts);
                let ghost path = input.path@;
                let ghost fv = findings_view(findings@);
                let ghost wanted = kept_violations(findings_of(c, facts.path@, facts.declarations@), path);
                proof {
                    lemma_filter_map_permutation(
                        fv,
                        findings_of(c, facts.path@, facts.declarations@),
                        |f: StubFindingView| kept_violation(f, path),
                    );
                }
                let ghost start = violations_view(result.violations@);
                let ghost sc = result.scanned;
                let mut j: usize = 0;
                while j < findings.len()
                    invariant
                        j <= findings@.len(),
                        fv == findings_view(findings@),
                        path == input.path@,
                        violations_view(result.violations@) == start + kept_violations(
                            fv.take(j as int),
                            path,
                        ),
                        result.scanned == sc,
                        result.suppressed@.len() == 0,
                        result.new_violations@.len() == 0,
                        result.baseline_ref is None,
                    decreases findings.len() - j,
                {
                    let finding = &findings[j];
                    assert(fv.take(j + 1).drop_last() =~= fv.take(j as int));
                    assert(fv.take(j + 1).last() == finding@);
                    let name = last_path_segment(finding.qualified_name.as_str());
                    let skip = should_skip_stub_detection(input.path.as_str(), name.as_str())
                        || is_legitimate_noop(name.as_str(), input.path.as_str(), &finding.kind);
                    if !skip {
                        let ghost before = result.violations@;
                        result.add_violation(stub_finding_to_violation(finding, input.path.as_str()));
                        assert(violations_view(result.violations@) =~= violations_view(before).push(
                            stub_violation(finding@, path),
                        ));
                    }
                    j = j + 1;
                }
                assert(fv.take(fv.len() as int) =~= fv);
                proof {
                    vstd::seq_lib::lemma_multiset_commutative(start, kept_violations(fv, path));
                    vstd::seq_lib::lemma_multiset_commutative(expected, wanted);
                    expected = expected + wanted;
                }
            },
            None => {},
        }
        i = i + 1;
    }
    assert(files@.take(files@.len() as int) =~= files@);
    result
}

} // verus!
