//! Detection of mock data signatures in code.
use vstd::prelude::*;

use crate::contract::{test_file_severity_of, MockSignature, MockSignaturesConfig};
use crate::detect::symbols::{go_test_file, is_go_test_file};
use crate::detect::todos::files_view;
use crate::registry::pypi::strings_view;
use crate::detect::types::{
    str_eq, violations_view, DetectionResult, Severity, Violation, ViolationRule, ViolationView,
};
use crate::matching::{regex_compile_error, regex_error_text, regex_is_match, regex_matches, regex_valid};
use crate::paths::{path_file_name, path_file_name_of};
use crate::text::{
    chars_of, concat, concat_str, contains_seq, contains_str, debug_form, debug_quoted,
    find_any_char, first_in_set, has_prefix, is_numeric, is_uppercase, lines_of, slice_range,
    starts_with_str, str_lines, string_of, to_lowercase, trim, trim_chars, unicode_lowercase,
    unicode_numeric, unicode_upper_char,
};

verus! {

/// A file whose name starts with `lorem` (any case): a utility that is
/// meant to hold placeholder text.
pub open spec fn known_utility_file(path: Seq<char>) -> bool {
    match path_file_name_of(path) {
        Some(n) => has_prefix(unicode_lowercase(n), "lorem"@),
        None => has_prefix(unicode_lowercase(Seq::empty()), "lorem"@),
    }
}

/// Check if a file is a known utility that legitimately contains mock-like patterns.
pub fn is_known_utility_file(file_path: &str) -> (r: bool)
    ensures
        r == known_utility_file(file_path@),
{
    let name = match path_file_name(file_path) {
        Some(n) => n,
        None => String::new(),
    };
    let low = to_lowercase(chars_of(name.as_str()).as_slice());
    starts_with_str(low.as_slice(), "lorem")
}

/// Check if a file path is a test file (ends with `_test.go`).
pub fn is_test_file(file_path: &str) -> (r: bool)
    ensures
        r == is_go_test_file(file_path@),
{
    go_test_file(file_path)
}

pub open spec fn config_keywords() -> Seq<Seq<char>> {
    seq![
        "range"@, "limit"@, "max"@, "min"@, "bound"@, "field_range"@, "precision"@, "scale"@,
        "constraint"@, "schema"@, "oracle"@, "decimal"@, "numeric"@, "integer"@, "float"@,
        "double"@, "bigint"@, "constant"@, "config"@,
    ]
}

pub open spec fn mentions_any(s: Seq<char>, words: Seq<Seq<char>>) -> bool {
    exists|i: int| 0 <= i < words.len() && contains_seq(s, #[trigger] words[i])
}

fn mentions_any_exec(s: &[char], words: &Vec<&'static str>) -> (r: bool)
    ensures
        r == mentions_any(s@, words@.map_values(|w: &'static str| w@)),
{
    let ghost ws = words@.map_values(|w: &'static str| w@);
    let mut i: usize = 0;
    while i < words.len()
        invariant
            i <= words@.len(),
            ws == words@.map_values(|w: &'static str| w@),
            forall|j: int| 0 <= j < i ==> !contains_seq(s@, #[trigger] ws[j]),
        decreases words.len() - i,
    {
        if contains_str(s, words[i]) {
            assert(contains_seq(s@, ws[i as int]));
            return true;
        }
        i = i + 1;
    }
    false
}

fn config_keyword_list() -> (r: Vec<&'static str>)
    ensures
        r@.map_values(|w: &'static str| w@) == config_keywords(),
{
    let v = vec![
        "range", "limit", "max", "min", "bound", "field_range", "precision", "scale",
        "constraint", "schema", "oracle", "decimal", "numeric", "integer", "float", "double",
        "bigint", "constant", "config",
    ];
    assert(v@.map_values(|w: &'static str| w@) =~= config_keywords());
    v
}

pub open spec fn pattern_hit(p: Seq<char>, line: Seq<char>) -> bool {
    regex_valid(p) && regex_matches(p, line)
}

pub open spec fn multiplier_pattern() -> Seq<char> {
    r"[*/]\s*10+\b"@
}

pub open spec fn charset_pattern() -> Seq<char> {
    r#"["'][0-9a-zA-Z!@#$%^&*()_+=\-]{15,}["']"#@
}

pub open spec fn comparison_pattern() -> Seq<char> {
    r"[<>]=?\s*-?\d{4,}"@
}

pub open spec fn range_tuple_pattern() -> Seq<char> {
    r"\(\s*-?\d+\s*,\s*-?\d+\s*\)"@
}

pub open spec fn long_number_tuple_pattern() -> Seq<char> {
    r"\(\s*-?\d{10,}"@
}

/// A line that names a range, config, field, schema or constraint.
pub open spec fn config_line(l: Seq<char>) -> bool {
    let low = unicode_lowercase(l);
    contains_seq(low, "range"@) || contains_seq(low, "config"@) || contains_seq(low, "field"@)
        || contains_seq(low, "schema"@) || contains_seq(low, "constraint"@)
}

/// A line near a dictionary-like line (from five lines before to two after)
/// names a range, config, field, schema or constraint.
pub open spec fn context_mentions_config(lines: Seq<Seq<char>>, line_idx: int) -> bool {
    let start = if line_idx >= 5 {
        line_idx - 5
    } else {
        0
    };
    let end = if line_idx + 3 < lines.len() {
        line_idx + 3
    } else {
        lines.len() as int
    };
    exists|i: int| start <= i < end && #[trigger] config_line(lines[i])
}

/// The name a line assigns to (the text before the first `=`, `:` or space).
pub open spec fn assigned_name(line: Seq<char>) -> Seq<char> {
    let t = trim(line);
    trim(t.take(first_in_set(t, seq!['=', ':', ' '], 0)))
}

/// A name in constant style: every character uppercase, `_` or numeric.
pub open spec fn constant_style(name: Seq<char>) -> bool {
    forall|i: int|
        0 <= i < name.len() ==> unicode_upper_char(#[trigger] name[i]) || name[i] == '_'
            || unicode_numeric(name[i])
}

/// The line looks like legitimate configuration, constants, documentation
/// or comments rather than mock or placeholder data.
pub open spec fn legitimate_context(line: Seq<char>, lines: Seq<Seq<char>>, line_idx: int) -> bool {
    let low = unicode_lowercase(line);
    let t = trim(line);
    let name = assigned_name(line);
    ||| mentions_any(low, config_keywords())
    ||| contains_seq(line, "MIN"@) || contains_seq(line, "MAX"@) || contains_seq(line, "LIMIT"@)
    ||| ((contains_seq(line, "* 1"@) || contains_seq(line, "/ 1"@) || contains_seq(line, "% 1"@))
        && pattern_hit(multiplier_pattern(), line))
    ||| (contains_seq(low, " as "@) && (contains_seq(low, "signed"@) || contains_seq(low, "unsigned"@)
        || contains_seq(low, "integer"@) || contains_seq(low, "decimal"@)))
    ||| contains_seq(low, "time"@) || contains_seq(low, "second"@) || contains_seq(low, "micro"@)
        || contains_seq(low, "milli"@) || contains_seq(low, "duration"@)
    ||| pattern_hit(charset_pattern(), line)
    ||| contains_seq(low, "char"@) || contains_seq(low, "alphabet"@) || contains_seq(low, "digit"@)
        || contains_seq(low, "hexdig"@) || contains_seq(low, "base64"@) || contains_seq(low, "base32"@)
    ||| pattern_hit(comparison_pattern(), line)
    ||| contains_seq(line, "0.000"@) || contains_seq(line, "1e-"@) || contains_seq(line, "1E-"@)
    ||| pattern_hit(range_tuple_pattern(), line)
    ||| contains_seq(low, "autofield"@) || contains_seq(low, "integerfield"@) || contains_seq(
        low,
        "smallint"@,
    ) || contains_seq(low, "bigint"@)
    ||| pattern_hit(long_number_tuple_pattern(), line)
    ||| (contains_seq(line, ":"@) && (contains_seq(line, "{"@) || contains_seq(line, "}"@))
        && context_mentions_config(lines, line_idx))
    ||| (name.len() > 0 && constant_style(name))
    ||| mentions_any(unicode_lowercase(name), config_keywords())
    ||| has_prefix(t, "//"@) || has_prefix(t, "#"@) || has_prefix(t, "*"@) || has_prefix(t, "/*"@)
    ||| contains_seq(line, "``"@) || contains_seq(line, ".. "@) || contains_seq(line, ":ref:"@)
        || contains_seq(line, ">>>"@) || (contains_seq(line, "..."@) && contains_seq(line, "e.g."@))
    ||| contains_seq(low, "e.g."@) || contains_seq(low, "i.e."@) || contains_seq(low, "for example"@)
        || contains_seq(low, "such as"@)
    ||| (contains_seq(low, "default"@) && contains_seq(low, "site"@))
}

fn context_mentions_config_exec(lines: &Vec<String>, line_idx: usize) -> (r: bool)
    requires
        line_idx <= usize::MAX - 3,
    ensures
        r == context_mentions_config(strings_view(lines@), line_idx as int),
{
    let start: usize = if line_idx >= 5 {
        line_idx - 5
    } else {
        0
    };
    let end: usize = if line_idx + 3 < lines.len() {
        line_idx + 3
    } else {
        lines.len()
    };
    if start >= end {
        return false;
    }
    let mut i = start;
    while i < end
        invariant
            start <= i <= end <= lines@.len(),
            start == (if line_idx >= 5 {
                line_idx - 5
            } else {
                0
            }),
            end == (if line_idx + 3 < lines@.len() {
                line_idx + 3
            } else {
                lines@.len() as int
            }),
            forall|j: int| start <= j < i ==> !#[trigger] config_line(strings_view(lines@)[j]),
        decreases end - i,
    {
        let l = to_lowercase(chars_of(lines[i].as_str()).as_slice());
        let ls = l.as_slice();
        assert(strings_view(lines@)[i as int] == lines@[i as int]@);
        if contains_str(ls, "range") || contains_str(ls, "config") || contains_str(ls, "field")
            || contains_str(ls, "schema") || contains_str(ls, "constraint") {
            assert(config_line(strings_view(lines@)[i as int]));
            return true;
        }
        i = i + 1;
    }
    false
}

fn constant_style_exec(name: &[char]) -> (r: bool)
    ensures
        r == constant_style(name@),
{
    let mut i: usize = 0;
    while i < name.len()
        invariant
            i <= name@.len(),
            forall|j: int|
                0 <= j < i ==> unicode_upper_char(#[trigger] name@[j]) || name@[j] == '_'
                    || unicode_numeric(name@[j]),
        decreases name.len() - i,
    {
        let c = name[i];
        if !(is_uppercase(c) || c == '_' || is_numeric(c)) {
            return false;
        }
        i = i + 1;
    }
    true
}

/// Check if the line context suggests legitimate configuration data rather
/// than mock/placeholder data.
pub fn is_legitimate_context(line: &str, surrounding_lines: &Vec<String>, line_idx: usize) -> (r: bool)
    requires
        line_idx <= usize::MAX - 3,
    ensures
        r == legitimate_context(line@, strings_view(surrounding_lines@), line_idx as int),
{
    let cs = chars_of(line);
    let l = cs.as_slice();
    let lowv = to_lowercase(l);
    let low = lowv.as_slice();
    let keywords = config_keyword_list();
    if mentions_any_exec(low, &keywords) {
        return true;
    }
    if contains_str(l, "MIN") || contains_str(l, "MAX") || contains_str(l, "LIMIT") {
        return true;
    }
    if contains_str(l, "* 1") || contains_str(l, "/ 1") || contains_str(l, "% 1") {
        if regex_is_match(r"[*/]\s*10+\b", line) {
            return true;
        }
    }
    if contains_str(low, " as ") && (contains_str(low, "signed") || contains_str(low, "unsigned")
        || contains_str(low, "integer") || contains_str(low, "decimal")) {
        return true;
    }
    if contains_str(low, "time") || contains_str(low, "second") || contains_str(low, "micro")
        || contains_str(low, "milli") || contains_str(low, "duration") {
        return true;
    }
    if regex_is_match(r#"["'][0-9a-zA-Z!@#$%^&*()_+=\-]{15,}["']"#, line) {
        return true;
    }
    if contains_str(low, "char") || contains_str(low, "alphabet") || contains_str(low, "digit")
        || contains_str(low, "hexdig") || contains_str(low, "base64") || contains_str(low, "base32") {
        return true;
    }
    if regex_is_match(r"[<>]=?\s*-?\d{4,}", line) {
        return true;
    }
    if contains_str(l, "0.000") || contains_str(l, "1e-") || contains_str(l, "1E-") {
        return true;
    }
    if regex_is_match(r"\(\s*-?\d+\s*,\s*-?\d+\s*\)", line) {
        return true;
    }
    if contains_str(low, "autofield") || contains_str(low, "integerfield") || contains_str(
        low,
        "smallint",
    ) || contains_str(low, "bigint") {
        return true;
    }
    if regex_is_match(r"\(\s*-?\d{10,}", line) {
        return true;
    }
    if contains_str(l, ":") && (contains_str(l, "{") || contains_str(l, "}")) {
        if context_mentions_config_exec(surrounding_lines, line_idx) {
            return true;
        }
    }
    let t = trim_chars(l);
    let stops = vec!['=', ':', ' '];
    assert(stops@ =~= seq!['=', ':', ' ']);
    let cut = find_any_char(t.as_slice(), stops.as_slice());
    let head = slice_range(t.as_slice(), 0, cut);
    assert(head@ =~= t@.take(cut as int));
    let name = trim_chars(head.as_slice());
    if name.len() > 0 && constant_style_exec(name.as_slice()) {
        return true;
    }
    let name_low = to_lowercase(name.as_slice());
    if mentions_any_exec(name_low.as_slice(), &keywords) {
        return true;
    }
    let ts = t.as_slice();
    if starts_with_str(ts, "//") || starts_with_str(ts, "#") || starts_with_str(ts, "*")
        || starts_with_str(ts, "/*") {
        return true;
    }
    if contains_str(l, "``") || contains_str(l, ".. ") || contains_str(l, ":ref:") || contains_str(
        l,
        ">>>",
    ) || (contains_str(l, "...") && contains_str(l, "e.g.")) {
        return true;
    }
    if contains_str(low, "e.g.") || contains_str(low, "i.e.") || contains_str(low, "for example")
        || contains_str(low, "such as") {
        return true;
    }
    if contains_str(low, "default") && contains_str(low, "site") {
        return true;
    }
    false
}

// ---------------------------------------------------------------------------
// Scanning
// ---------------------------------------------------------------------------

pub open spec fn mock_message(s: MockSignature) -> Seq<char> {
    match s.description {
        Some(d) => "mock data signature "@ + debug_form(s.pattern@) + " found: "@ + d@,
        None => "mock data signature "@ + debug_form(s.pattern@) + " found"@,
    }
}

/// The violations of one line: one per signature that matches it, in order.
pub open spec fn line_mock_violations(
    file: Seq<char>,
    line: Seq<char>,
    line_number: int,
    sigs: Seq<MockSignature>,
    severity: Severity,
) -> Seq<ViolationView>
    decreases sigs.len(),
{
    if sigs.len() == 0 {
        Seq::empty()
    } else {
        let prev = line_mock_violations(file, line, line_number, sigs.drop_last(), severity);
        if pattern_hit(sigs.last().pattern@, line) {
            prev.push(
                ViolationView {
                    rule: ViolationRule::MockData,
                    message: mock_message(sigs.last()),
                    file,
                    line: line_number,
                    severity,
                },
            )
        } else {
            prev
        }
    }
}

pub open spec fn mock_violations_upto(
    file: Seq<char>,
    lines: Seq<Seq<char>>,
    sigs: Seq<MockSignature>,
    severity: Severity,
    n: int,
) -> Seq<ViolationView>
    decreases n,
{
    if n <= 0 {
        Seq::empty()
    } else {
        let prev = mock_violations_upto(file, lines, sigs, severity, n - 1);
        if legitimate_context(lines[n - 1], lines, n - 1) {
            prev
        } else {
            prev + line_mock_violations(file, lines[n - 1], n, sigs, severity)
        }
    }
}

fn mock_message_exec(s: &MockSignature) -> (r: String)
    ensures
        r@ == mock_message(*s),
{
    let q = debug_quoted(chars_of(s.pattern.as_str()).as_slice());
    let a = concat(chars_of("mock data signature ").as_slice(), q.as_slice());
    let b = match &s.description {
        Some(d) => concat_str(concat_str(a.as_slice(), " found: ").as_slice(), d.as_str()),
        None => concat_str(a.as_slice(), " found"),
    };
    string_of(b.as_slice())
}

/// The lines of a text as strings (as `str::lines` yields them).
pub fn line_strings(content: &str) -> (r: Vec<String>)
    ensures
        r@.len() == str_lines(content@).len(),
        forall|i: int| 0 <= i < r@.len() ==> (#[trigger] r@[i])@ == str_lines(content@)[i],
{
    let lines = lines_of(chars_of(content).as_slice());
    let mut r: Vec<String> = Vec::new();
    let mut i: usize = 0;
    while i < lines.len()
        invariant
            i <= lines@.len(),
            lines@.len() == str_lines(content@).len(),
            forall|j: int| 0 <= j < lines@.len() ==> #[trigger] lines@[j]@ == str_lines(content@)[j],
            r@.len() == i,
            forall|j: int| 0 <= j < i ==> (#[trigger] r@[j])@ == str_lines(content@)[j],
        decreases lines.len() - i,
    {
        r.push(string_of(lines[i].as_slice()));
        i = i + 1;
    }
    r
}

/// Scan a file's lines for mock data signatures (which all compile).
pub fn scan_lines_for_mocks(
    file_path: &str,
    lines: &Vec<String>,
    signatures: &[MockSignature],
    severity: Severity,
) -> (r: Vec<Violation>)
    requires
        lines@.len() <= usize::MAX - 3,
    ensures
        violations_view(r@) == mock_violations_upto(
            file_path@,
            strings_view(lines@),
            signatures@,
            severity,
            lines@.len() as int,
        ),
{
    let mut out: Vec<Violation> = Vec::new();
    let mut k: usize = 0;
    while k < lines.len()
        invariant
            k <= lines@.len(),
            lines@.len() <= usize::MAX - 3,
            violations_view(out@) == mock_violations_upto(file_path@, strings_view(lines@), signatures@, severity, k as int),
        decreases lines.len() - k,
    {
        let line = lines[k].as_str();
        if !is_legitimate_context(line, lines, k) {
            let ghost start = violations_view(out@);
            let mut i: usize = 0;
            while i < signatures.len()
                invariant
                    i <= signatures@.len(),
                    k < lines@.len(),
                    lines@.len() <= usize::MAX - 3,
                    line@ == strings_view(lines@)[k as int],
                    violations_view(out@) == start + line_mock_violations(
                        file_path@,
                        line@,
                        k + 1,
                        signatures@.take(i as int),
                        severity,
                    ),
                decreases signatures.len() - i,
            {
                let s = &signatures[i];
                assert(signatures@.take(i + 1).drop_last() =~= signatures@.take(i as int));
                assert(signatures@.take(i + 1).last() == *s);
                if regex_is_match(s.pattern.as_str(), line) {
                    let ghost before = out@;
                    out.push(
                        Violation {
                            rule: ViolationRule::MockData,
                            message: mock_message_exec(s),
                            file: string_of(chars_of(file_path).as_slice()),
                            line: k + 1,
                            severity,
                        },
                    );
                    assert(violations_view(out@) =~= violations_view(before).push(out@.last()@));
                }
                i = i + 1;
            }
            assert(signatures@.take(signatures@.len() as int) =~= signatures@);
        }
        k = k + 1;
    }
    out
}

/// The severity for a file's findings: test files take the configured test
/// severity (`info`, `warning` or `error`; anything else is a warning).
pub open spec fn mock_severity(is_test: bool, test_severity: Option<Seq<char>>) -> Severity {
    if is_test {
        match test_severity {
            Some(s) => if s == "info"@ {
                Severity::Info
            } else if s == "warning"@ {
                Severity::Warning
            } else if s == "error"@ {
                Severity::Error
            } else {
                Severity::Warning
            },
            None => Severity::Warning,
        }
    } else {
        Severity::Warning
    }
}

/// The mock-data violations of one file's content.
pub open spec fn mock_file_violations(
    path: Seq<char>,
    content: Seq<char>,
    sigs: Seq<MockSignature>,
    severity: Severity,
) -> Seq<ViolationView> {
    mock_violations_upto(path, str_lines(content), sigs, severity, str_lines(content).len() as int)
}

/// The mock-data violations of the files, in order: known utility files and
/// test files, when configured to be skipped (or with an empty test-file
/// severity), are passed over.
pub open spec fn all_mock_violations(
    files: Seq<(Seq<char>, Seq<char>)>,
    cfg: MockSignaturesConfig,
) -> Seq<ViolationView>
    decreases files.len(),
{
    if files.len() == 0 {
        Seq::empty()
    } else {
        let prev = all_mock_violations(files.drop_last(), cfg);
        let path = files.last().0;
        let content = files.last().1;
        let is_test = is_go_test_file(path);
        if known_utility_file(path) || (is_test && test_file_severity_of(cfg) is None) {
            prev
        } else {
            prev + mock_file_violations(
                path,
                content,
                cfg.patterns@,
                mock_severity(is_test, test_file_severity_of(cfg)),
            )
        }
    }
}

pub open spec fn first_bad_signature(sigs: Seq<MockSignature>, i: int) -> Option<int>
    decreases sigs.len() - i,
{
    if i < 0 || i >= sigs.len() {
        None
    } else if !regex_valid(sigs[i].pattern@) {
        Some(i)
    } else {
        first_bad_signature(sigs, i + 1)
    }
}

fn severity_for(is_test: bool, test_severity: Option<&str>) -> (r: Severity)
    ensures
        r == mock_severity(
            is_test,
            match test_severity {
                Some(s) => Some(s@),
                None => None,
            },
        ),
{
    if is_test {
        match test_severity {
            Some(s) => if str_eq(s, "info") {
                Severity::Info
            } else if str_eq(s, "warning") {
                Severity::Warning
            } else if str_eq(s, "error") {
                Severity::Error
            } else {
                Severity::Warning
            },
            None => Severity::Warning,
        }
    } else {
        Severity::Warning
    }
}

/// Scan files (each a path and its content) for the configured mock data
/// signatures; with no configuration or no signatures nothing is scanned.
/// Every signature must compile, else the first that does not is reported.
pub fn detect_mock_data(files: &Vec<(String, String)>, cfg: Option<&MockSignaturesConfig>) -> (r:
    Result<DetectionResult, String>)
    requires
        forall|i: int|
            0 <= i < files@.len() ==> str_lines((#[trigger] files@[i]).1@).len() <= usize::MAX - 3,
    ensures
        match cfg {
            Some(c) => if c.patterns@.len() == 0 {
                r matches Ok(res) && res.violations@.len() == 0 && res.scanned == 0
            } else {
                match first_bad_signature(c.patterns@, 0) {
                    Some(k) => r matches Err(e) && e@ == "compiling mock signature "@ + debug_form(
                        c.patterns@[k].pattern@,
                    ) + ": "@ + regex_error_text(c.patterns@[k].pattern@),
                    None => r matches Ok(res) && violations_view(res.violations@)
                        == all_mock_violations(files_view(files@), *c) && res.scanned
                        == files@.len(),
                }
            },
            None => r matches Ok(res) && res.violations@.len() == 0 && res.scanned == 0,
        },
        r matches Ok(res) ==> res.suppressed@.len() == 0 && res.new_violations@.len() == 0,
{
    let mut result = DetectionResult::new();
    let config = match cfg {
        Some(c) => c,
        None => {
            return Ok(result);
        },
    };
    if config.patterns.len() == 0 {
        return Ok(result);
    }
    let mut i: usize = 0;
    while i < config.patterns.len()
        invariant
            cfg == Some(config),
            i <= config.patterns@.len(),
            first_bad_signature(config.patterns@, 0) == first_bad_signature(config.patterns@, i as int),
        decreases config.patterns.len() - i,
    {
        let p = config.patterns[i].pattern.as_str();
        match regex_compile_error(p) {
            Some(e) => {
                assert(first_bad_signature(config.patterns@, i as int) == Some(i as int));
                assert(p@ == config.patterns@[i as int].pattern@);
                let q = debug_quoted(chars_of(p).as_slice());
                let a = concat(chars_of("compiling mock signature ").as_slice(), q.as_slice());
                let a2 = concat_str(a.as_slice(), ": ");
                let b = concat_str(a2.as_slice(), e.as_str());
                let msg = string_of(b.as_slice());
                assert(msg@ == "compiling mock signature "@ + debug_form(p@) + ": "@ + regex_error_text(p@));
                return Err(msg);
            },
            None => {},
        }
        i = i + 1;
    }
    let test_severity = config.get_test_file_severity();
    let ghost fv = files_view(files@);
    let mut k: usize = 0;
    while k < files.len()
        invariant
            cfg == Some(config),
            k <= files@.len(),
            fv == files_view(files@),
            first_bad_signature(config.patterns@, 0) is None,
            match test_severity {
                Some(s) => test_file_severity_of(*config) == Some(s@),
                None => test_file_severity_of(*config) is None,
            },
            forall|i: int|
                0 <= i < files@.len() ==> str_lines((#[trigger] files@[i]).1@).len() <= usize::MAX - 3,
            violations_view(result.violations@) == all_mock_violations(fv.take(k as int), *config),
            result.scanned == k,
            result.suppressed@.len() == 0,
            result.new_violations@.len() == 0,
        decreases files.len() - k,
    {
        let path = files[k].0.as_str();
        assert(fv.take(k + 1).drop_last() =~= fv.take(k as int));
        assert(fv.take(k + 1).last() == fv[k as int]);
        let is_test = is_test_file(path);
        if is_known_utility_file(path) || (is_test && test_severity.is_none()) {
            result.scanned = result.scanned + 1;
        } else {
            let severity = severity_for(is_test, test_severity);
            let lines = line_strings(files[k].1.as_str());
            assert(strings_view(lines@) =~= str_lines(files@[k as int].1@));
            let mut found = scan_lines_for_mocks(path, &lines, config.patterns.as_slice(), severity);
            let ghost found_v = found@;
            let ghost before = result.violations@;
            result.violations.append(&mut found);
            assert(violations_view(result.violations@) =~= violations_view(before) + violations_view(found_v));
            result.scanned = result.scanned + 1;
        }
        k = k + 1;
    }
    assert(fv.take(fv.len() as int) =~= fv);
    Ok(result)
}

} // verus!
