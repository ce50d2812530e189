//! What the reports say of each rule and violation: SARIF rule metadata,
//! levels, and file locations relative to the scanned path.
use vstd::prelude::*;

use crate::detect::types::{
    rule_name, str_eq, violations_view, Severity, Violation, ViolationRule, ViolationView,
};
use crate::paths::{
    opt_string_view, path_file_name, path_file_name_of, path_strip_prefix, path_strip_prefix_of,
    paths_equal, paths_equal_of,
};
use crate::text::{chars_of, concat_str, replace_char, replace_char_with, string_of};

verus! {

/// Rule metadata for SARIF output.
pub struct RuleInfo {
    pub name: &'static str,
    pub short_description: &'static str,
    pub full_description: &'static str,
    pub help_uri: &'static str,
    pub default_level: &'static str,
}

pub struct RuleInfoView {
    pub name: Seq<char>,
    pub short_description: Seq<char>,
    pub full_description: Seq<char>,
    pub help_uri: Seq<char>,
    pub default_level: Seq<char>,
}

impl View for RuleInfo {
    type V = RuleInfoView;

    open spec fn view(&self) -> RuleInfoView {
        RuleInfoView {
            name: self.name@,
            short_description: self.short_description@,
            full_description: self.full_description@,
            help_uri: self.help_uri@,
            default_level: self.default_level@,
        }
    }
}

/// The metadata of each rule a report can name; an unknown rule gets a
/// generic entry.
pub open spec fn rule_info(rule_id: Seq<char>) -> RuleInfoView {
    if rule_id == "forbidden_pattern"@ {
        RuleInfoView {
            name: "ForbiddenPattern"@,
            short_description: "Detects forbidden patterns like TODO, FIXME, panic(\"not implemented\")"@,
            full_description: "Identifies code patterns that indicate incomplete or placeholder implementations, such as TODO comments, FIXME markers, and panic statements."@,
            help_uri: "#forbidden-patterns"@,
            default_level: "error"@,
        }
    } else if rule_id == "mock_data"@ {
        RuleInfoView {
            name: "MockData"@,
            short_description: "Detects mock/placeholder data like example.com, fake IDs"@,
            full_description: "Identifies hardcoded placeholder values that should be replaced with real data or configuration, such as example.com domains, fake UUIDs, and test credentials."@,
            help_uri: "#mock-data"@,
            default_level: "warning"@,
        }
    } else if rule_id == "missing_file"@ {
        RuleInfoView {
            name: "MissingFile"@,
            short_description: "Detects missing required files"@,
            full_description: "Verifies that all files specified as required in the contract exist in the project."@,
            help_uri: "#required-files"@,
            default_level: "error"@,
        }
    } else if rule_id == "missing_symbol"@ {
        RuleInfoView {
            name: "MissingSymbol"@,
            short_description: "Detects missing required symbols (functions, types)"@,
            full_description: "Verifies that all symbols (functions, types, constants) specified as required in the contract are defined in the code."@,
            help_uri: "#required-symbols"@,
            default_level: "error"@,
        }
    } else if rule_id == "low_complexity"@ {
        RuleInfoView {
            name: "LowComplexity"@,
            short_description: "Detects stub implementations with suspiciously low complexity"@,
            full_description: "Identifies functions that have cyclomatic complexity below the expected threshold, suggesting they may be stub or placeholder implementations."@,
            help_uri: "#complexity"@,
            default_level: "error"@,
        }
    } else if rule_id == "missing_test"@ {
        RuleInfoView {
            name: "MissingTest"@,
            short_description: "Detects missing required test functions"@,
            full_description: "Verifies that all test functions specified as required in the contract exist."@,
            help_uri: "#required-tests"@,
            default_level: "warning"@,
        }
    } else if rule_id == "hallucinated_dependency"@ {
        RuleInfoView {
            name: "HallucinatedDependency"@,
            short_description: "Detects imports of packages that don't exist in public registries"@,
            full_description: "Identifies code that imports packages which cannot be found in their respective package registries (PyPI, npm, crates.io, Go proxy), suggesting the code may be AI-generated with hallucinated dependencies."@,
            help_uri: "#hallucinated-dependencies"@,
            default_level: "error"@,
        }
    } else if rule_id == "filler_phrase"@ {
        RuleInfoView {
            name: "FillerPhrase"@,
            short_description: "Detects filler phrases that add no meaning"@,
            full_description: "Identifies redundant phrases, hedging language, and filler words that dilute the clarity of prose."@,
            help_uri: "#prose-fillers"@,
            default_level: "warning"@,
        }
    } else if rule_id == "weasel_word"@ {
        RuleInfoView {
            name: "WeaselWord"@,
            short_description: "Detects weasel words and vague language"@,
            full_description: "Identifies anonymous authority claims, passive voice constructions, and other language patterns that reduce precision."@,
            help_uri: "#prose-weasels"@,
            default_level: "warning"@,
        }
    } else if rule_id == "low_density"@ {
        RuleInfoView {
            name: "LowDensity"@,
            short_description: "Detects sections with low information density"@,
            full_description: "Identifies text sections that have a low ratio of content words to total words, suggesting padding or filler content."@,
            help_uri: "#prose-density"@,
            default_level: "warning"@,
        }
    } else if rule_id == "prose_repetitive_opener"@ {
        RuleInfoView {
            name: "RepetitiveOpener"@,
            short_description: "Detects repetitive sentence openers"@,
            full_description: "Identifies when multiple sentences start with the same pattern, suggesting formulaic or AI-generated prose."@,
            help_uri: "#prose-structure"@,
            default_level: "warning"@,
        }
    } else if rule_id == "prose_middle_sag"@ {
        RuleInfoView {
            name: "MiddleSag"@,
            short_description: "Detects middle sections with lower quality than intro/conclusion"@,
            full_description: "Identifies when the middle of a document has significantly lower information density than the introduction and conclusion."@,
            help_uri: "#prose-structure"@,
            default_level: "error"@,
        }
    } else if rule_id == "prose_weak_transition"@ {
        RuleInfoView {
            name: "WeakTransition"@,
            short_description: "Detects weak sentence transitions"@,
            full_description: "Identifies sentences that start with weak transitional phrases like 'And', 'But', 'So' at the beginning."@,
            help_uri: "#prose-structure"@,
            default_level: "note"@,
        }
    } else {
        RuleInfoView {
            name: "Unknown"@,
            short_description: "Unknown rule type"@,
            full_description: "An unknown violation was detected."@,
            help_uri: ""@,
            default_level: "warning"@,
        }
    }
}

/// Rule metadata for a rule id.
pub fn get_rule_info(rule_id: &str) -> (r: RuleInfo)
    ensures
        r@ == rule_info(rule_id@),
{
    if str_eq(rule_id, "forbidden_pattern") {
        RuleInfo {
            name: "ForbiddenPattern",
            short_description: "Detects forbidden patterns like TODO, FIXME, panic(\"not implemented\")",
            full_description: "Identifies code patterns that indicate incomplete or placeholder implementations, such as TODO comments, FIXME markers, and panic statements.",
            help_uri: "#forbidden-patterns",
            default_level: "error",
        }
    } else if str_eq(rule_id, "mock_data") {
        RuleInfo {
            name: "MockData",
            short_description: "Detects mock/placeholder data like example.com, fake IDs",
            full_description: "Identifies hardcoded placeholder values that should be replaced with real data or configuration, such as example.com domains, fake UUIDs, and test credentials.",
            help_uri: "#mock-data",
            default_level: "warning",
        }
    } else if str_eq(rule_id, "missing_file") {
        RuleInfo {
            name: "MissingFile",
            short_description: "Detects missing required files",
            full_description: "Verifies that all files specified as required in the contract exist in the project.",
            help_uri: "#required-files",
            default_level: "error",
        }
    } else if str_eq(rule_id, "missing_symbol") {
        RuleInfo {
            name: "MissingSymbol",
            short_description: "Detects missing required symbols (functions, types)",
            full_description: "Verifies that all symbols (functions, types, constants) specified as required in the contract are defined in the code.",
            help_uri: "#required-symbols",
            default_level: "error",
        }
    } else if str_eq(rule_id, "low_complexity") {
        RuleInfo {
            name: "LowComplexity",
            short_description: "Detects stub implementations with suspiciously low complexity",
            full_description: "Identifies functions that have cyclomatic complexity below the expected threshold, suggesting they may be stub or placeholder implementations.",
            help_uri: "#complexity",
            default_level: "error",
        }
    } else if str_eq(rule_id, "missing_test") {
        RuleInfo {
            name: "MissingTest",
            short_description: "Detects missing required test functions",
            full_description: "Verifies that all test functions specified as required in the contract exist.",
            help_uri: "#required-tests",
            default_level: "warning",
        }
    } else if str_eq(rule_id, "hallucinated_dependency") {
        RuleInfo {
            name: "HallucinatedDependency",
            short_description: "Detects imports of packages that don't exist in public registries",
            full_description: "Identifies code that imports packages which cannot be found in their respective package registries (PyPI, npm, crates.io, Go proxy), suggesting the code may be AI-generated with hallucinated dependencies.",
            help_uri: "#hallucinated-dependencies",
            default_level: "error",
        }
    } else if str_eq(rule_id, "filler_phrase") {
        RuleInfo {
            name: "FillerPhrase",
            short_description: "Detects filler phrases that add no meaning",
            full_description: "Identifies redundant phrases, hedging language, and filler words that dilute the clarity of prose.",
            help_uri: "#prose-fillers",
            default_level: "warning",
        }
    } else if str_eq(rule_id, "weasel_word") {
        RuleInfo {
            name: "WeaselWord",
            short_description: "Detects weasel words and vague language",
            full_description: "Identifies anonymous authority claims, passive voice constructions, and other language patterns that reduce precision.",
            help_uri: "#prose-weasels",
            default_level: "warning",
        }
    } else if str_eq(rule_id, "low_density") {
        RuleInfo {
            name: "LowDensity",
            short_description: "Detects sections with low information density",
            full_description: "Identifies text sections that have a low ratio of content words to total words, suggesting padding or filler content.",
            help_uri: "#prose-density",
            default_level: "warning",
        }
    } else if str_eq(rule_id, "prose_repetitive_opener") {
        RuleInfo {
            name: "RepetitiveOpener",
            short_description: "Detects repetitive sentence openers",
            full_description: "Identifies when multiple sentences start with the same pattern, suggesting formulaic or AI-generated prose.",
            help_uri: "#prose-structure",
            default_level: "warning",
        }
    } else if str_eq(rule_id, "prose_middle_sag") {
        RuleInfo {
            name: "MiddleSag",
            short_description: "Detects middle sections with lower quality than intro/conclusion",
            full_description: "Identifies when the middle of a document has significantly lower information density than the introduction and conclusion.",
            help_uri: "#prose-structure",
            default_level: "error",
        }
    } else if str_eq(rule_id, "prose_weak_transition") {
        RuleInfo {
            name: "WeakTransition",
            short_description: "Detects weak sentence transitions",
            full_description: "Identifies sentences that start with weak transitional phrases like 'And', 'But', 'So' at the beginning.",
            help_uri: "#prose-structure",
            default_level: "note",
        }
    } else {
        RuleInfo {
            name: "Unknown",
            short_description: "Unknown rule type",
            full_description: "An unknown violation was detected.",
            help_uri: "",
            default_level: "warning",
        }
    }
}

/// The SARIF level of a severity.
pub open spec fn severity_level(s: Severity) -> Seq<char> {
    match s {
        Severity::Critical => "error"@,
        Severity::Error => "error"@,
        Severity::Warning => "warning"@,
        Severity::Info => "note"@,
    }
}

/// The SARIF level of a severity: blockers and errors are errors,
/// informational findings are notes.
pub fn map_severity_to_level(severity: &Severity) -> (r: &'static str)
    ensures
        r@ == severity_level(*severity),
{
    match severity {
        Severity::Critical => "error",
        Severity::Error => "error",
        Severity::Warning => "warning",
        Severity::Info => "note",
    }
}

/// A file's path as a report shows it: as given when there is no base; the
/// file name when the file is the base; else the path below the base with
/// `/` separators, or the path as given when it is not below the base.
pub open spec fn relative_path(file_path: Seq<char>, base_path: Seq<char>) -> Seq<char> {
    if base_path.len() == 0 {
        file_path
    } else if paths_equal_of(file_path, base_path) {
        match path_file_name_of(file_path) {
            Some(n) => n,
            None => file_path,
        }
    } else {
        match path_strip_prefix_of(file_path, base_path) {
            Some(rest) => replace_char(rest, '\\', seq!['/']),
            None => file_path,
        }
    }
}

pub fn make_relative_path(file_path: &str, base_path: &str) -> (r: String)
    ensures
        r@ == relative_path(file_path@, base_path@),
{
    if chars_of(base_path).len() == 0 {
        return string_of(chars_of(file_path).as_slice());
    }
    if paths_equal(file_path, base_path) {
        return match path_file_name(file_path) {
            Some(n) => n,
            None => string_of(chars_of(file_path).as_slice()),
        };
    }
    match path_strip_prefix(file_path, base_path) {
        Some(rest) => {
            let v = replace_char_with(chars_of(rest.as_str()).as_slice(), '\\', '/');
            string_of(v.as_slice())
        },
        None => string_of(chars_of(file_path).as_slice()),
    }
}

/// A rule entry of a SARIF report.
pub struct SarifRuleEntry {
    pub id: String,
    pub name: String,
    pub short_description: String,
    pub full_description: String,
    pub help_uri: String,
    pub level: String,
}

/// The help link of a rule: the project page, with the rule's anchor when
/// it has one.
pub open spec fn help_link(anchor: Seq<char>) -> Seq<char> {
    "https://github.com/zen-systems/hollowcheck"@ + anchor
}

/// The SARIF rule entry of a rule.
pub fn sarif_rule(rule: ViolationRule) -> (r: SarifRuleEntry)
    ensures
        r.id@ == rule_name(rule),
        r.name@ == rule_info(rule_name(rule)).name,
        r.short_description@ == rule_info(rule_name(rule)).short_description,
        r.full_description@ == rule_info(rule_name(rule)).full_description,
        r.help_uri@ == help_link(rule_info(rule_name(rule)).help_uri),
        r.level@ == rule_info(rule_name(rule)).default_level,
{
    let id = rule.as_str();
    let info = get_rule_info(id);
    let link = concat_str(chars_of("https://github.com/zen-systems/hollowcheck").as_slice(), info.help_uri);
    SarifRuleEntry {
        id: string_of(chars_of(id).as_slice()),
        name: string_of(chars_of(info.name).as_slice()),
        short_description: string_of(chars_of(info.short_description).as_slice()),
        full_description: string_of(chars_of(info.full_description).as_slice()),
        help_uri: string_of(link.as_slice()),
        level: string_of(chars_of(info.default_level).as_slice()),
    }
}

/// The rules of the violations, each once, in the order they first appear.
pub open spec fn distinct_rules(vs: Seq<ViolationView>) -> Seq<ViolationRule>
    decreases vs.len(),
{
    if vs.len() == 0 {
        Seq::empty()
    } else {
        let prev = distinct_rules(vs.drop_last());
        if prev.contains(vs.last().rule) {
            prev
        } else {
            prev.push(vs.last().rule)
        }
    }
}

/// The rules that the violations break, each once.
pub fn rules_of(violations: &Vec<Violation>) -> (r: Vec<ViolationRule>)
    ensures
        r@ == distinct_rules(violations_view(violations@)),
        r@.no_duplicates(),
        forall|x: ViolationRule|
            r@.contains(x) <==> exists|i: int|
                0 <= i < violations@.len() && (#[trigger] violations@[i]).rule == x,
{
    let ghost vv = violations_view(violations@);
    let mut r: Vec<ViolationRule> = Vec::new();
    let mut i: usize = 0;
    while i < violations.len()
        invariant
            i <= violations@.len(),
            vv == violations_view(violations@),
            r@ == distinct_rules(vv.take(i as int)),
            r@.no_duplicates(),
            forall|x: ViolationRule|
                r@.contains(x) <==> exists|j: int|
                    0 <= j < i && (#[trigger] violations@[j]).rule == x,
        decreases violations.len() - i,
    {
        assert(vv.take(i + 1).drop_last() =~= vv.take(i as int));
        assert(vv.take(i + 1).last() == violations@[i as int]@);
        let rule = violations[i].rule;
        let ghost old_r = r@;
        let mut k: usize = 0;
        let mut seen = false;
        while k < r.len()
            invariant
                k <= r@.len(),
                r@ == old_r,
                seen <==> exists|j: int| 0 <= j < k && r@[j] == rule,
            decreases r.len() - k,
        {
            if r[k] == rule {
                seen = true;
            }
            k = k + 1;
        }
        if !seen {
            r.push(rule);
        }
        proof {
            assert(seen <==> old_r.contains(rule));
            assert forall|x: ViolationRule| r@.contains(x) <==> (old_r.contains(x) || x == rule) by {
                if !seen {
                    assert(r@ == old_r.push(rule));
                    if old_r.contains(x) {
                        let j = choose|j: int| 0 <= j < old_r.len() && old_r[j] == x;
                        assert(r@[j] == x);
                    }
                    if x == rule {
                        assert(r@[old_r.len() as int] == x);
                    }
                    if r@.contains(x) {
                        let j = choose|j: int| 0 <= j < r@.len() && r@[j] == x;
                        if j < old_r.len() {
                            assert(old_r[j] == x);
                        }
                    }
                }
            }
            assert forall|x: ViolationRule|
                r@.contains(x) <==> exists|j: int|
                    0 <= j < i + 1 && (#[trigger] violations@[j]).rule == x by {
                if exists|j: int| 0 <= j < i + 1 && (#[trigger] violations@[j]).rule == x {
                    let j = choose|j: int| 0 <= j < i + 1 && (#[trigger] violations@[j]).rule == x;
                    if j < i {
                        assert(exists|j2: int| 0 <= j2 < i && (#[trigger] violations@[j2]).rule == x);
                    }
                }
                if old_r.contains(x) {
                    assert(exists|j2: int| 0 <= j2 < i && (#[trigger] violations@[j2]).rule == x);
                    let j2 = choose|j2: int| 0 <= j2 < i && (#[trigger] violations@[j2]).rule == x;
                    assert(0 <= j2 < i + 1 && violations@[j2].rule == x);
                }
                if x == rule {
                    assert(violations@[i as int].rule == x);
                }
            }
        }
        i = i + 1;
    }
    assert(vv.take(vv.len() as int) =~= vv);
    r
}

/// A result entry of a SARIF report.
pub struct SarifResultEntry {
    pub rule_id: String,
    pub level: &'static str,
    pub message: String,
    pub uri: String,
    pub start_line: usize,
}

/// The SARIF result of a violation: its rule, level, message, location
/// relative to the base, and line (1 when the violation has none).
pub fn sarif_result(v: &Violation, base_path: &str) -> (r: SarifResultEntry)
    ensures
        r.rule_id@ == rule_name(v.rule),
        r.level@ == severity_level(v.severity),
        r.message@ == v.message@,
        r.uri@ == relative_path(v.file@, base_path@),
        r.start_line == if v.line > 0 {
            v.line
        } else {
            1
        },
{
    SarifResultEntry {
        rule_id: string_of(chars_of(v.rule.as_str()).as_slice()),
        level: map_severity_to_level(&v.severity),
        message: string_of(chars_of(v.message.as_str()).as_slice()),
        uri: make_relative_path(v.file.as_str(), base_path),
        start_line: if v.line > 0 {
            v.line
        } else {
            1
        },
    }
}

} // verus!
