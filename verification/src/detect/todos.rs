//! Context-aware TODO detection.
//!
//! Distinguishes between meaningful TODOs (with specific context) and
//! hollow TODOs (generic placeholders without useful information).
//!
//! Good TODOs (not flagged):
//! - `// TODO: Use io_uring for zero-copy when kernel >= 5.19`
//! - `// TODO(jsmith): Optimize query performance per #1234`
//!
//! Hollow TODOs (flagged as warnings):
//! - `// TODO: Implement this function`
//! - `// TODO`
//! - `// FIXME: fix this`
use vstd::prelude::*;

use crate::detect::types::{
    DetectionResult, Severity, Violation, ViolationRule, ViolationView, violations_view,
};
use crate::matching::{
    any_regex_matches, capture_of, captures_view, group_chars, group_or, group_text, group_view,
    matches_any, regex_captures, regex_is_match, regex_matches, regex_valid,
};
use crate::text::{
    chars_of, concat, concat_str, contains, contains_seq, debug_form, debug_quoted, has_prefix,
    lines_of, starts_with, str_lines, string_of, to_uppercase, trim, trim_chars,
    unicode_uppercase,
};

verus! {

/// The patterns of generic placeholder TODO texts (matched against the
/// trimmed text after the marker).
pub open spec fn hollow_patterns() -> Seq<Seq<char>> {
    seq![
        r"(?i)^$"@,
        r"(?i)^\s*$"@,
        r"(?i)^\s*implement\s+(this|here|later|the)(\s+(function|method|code|logic|feature))?\s*$"@,
        r"(?i)^\s*implement\s*$"@,
        r"(?i)^\s*finish\s+(this|here|later|the)(\s+(function|method|code|logic|feature|implementation))?\s*$"@,
        r"(?i)^\s*finish\s+(implementation|later)\s*$"@,
        r"(?i)^\s*finish\s*$"@,
        r"(?i)^\s*complete\s+(this|here|later|the)(\s+(function|method|code|logic|feature|implementation))?\s*$"@,
        r"(?i)^\s*complete\s+(implementation|later)\s*$"@,
        r"(?i)^\s*complete\s*$"@,
        r"(?i)^\s*add\s+(this|here|later|the)(\s+(function|method|code|logic|feature|implementation))?\s*$"@,
        r"(?i)^\s*add\s+(code|implementation|logic)\s*$"@,
        r"(?i)^\s*add\s*$"@,
        r"(?i)^\s*fix\s+(this|here|it|later|the)(\s+(bug|issue|error|problem))?\s*$"@,
        r"(?i)^\s*fix\s+(bug|issue|error|problem|it|later)\s*$"@,
        r"(?i)^\s*fix\s*$"@,
        r"(?i)^\s*do\s+(this|something|later)\s*$"@,
        r"(?i)^\s*do\s*$"@,
        r"(?i)^\s*handle\s+(this|here|it|the)(\s+(error|case|exception))?\s*$"@,
        r"(?i)^\s*handle\s+(error|case|exception)\s*$"@,
        r"(?i)^\s*handle\s*$"@,
        r"(?i)^\s*write\s+(this|here|the)(\s+(code|implementation|function|method))?\s*$"@,
        r"(?i)^\s*write\s+(code|implementation)\s*$"@,
        r"(?i)^\s*write\s*$"@,
        r"(?i)^\s*fill\s*(this\s*)?in\s*(later|here)?\s*$"@,
        r"(?i)^\s*placeholder\s*$"@,
        r"(?i)^\s*stub\s*$"@,
        r"(?i)^\s*tbd\s*$"@,
        r"(?i)^\s*wip\s*$"@,
        r"(?i)^\s*not\s+implemented\s*(yet)?\s*$"@,
        r"(?i)^\s*needs?\s+(implementation|work|to\s+be\s+done)\s*$"@,
        r"(?i)^\s*change\s+(this|me|later)\s*$"@,
        r"(?i)^\s*update\s+(this|here|later)\s*$"@,
        r"(?i)^\s*refactor\s+(this|here|later)\s*$"@,
        r"(?i)^\s*cleanup\s+(this|here|later)\s*$"@,
        r"(?i)^\s*clean\s+up\s+(this|here|later)\s*$"@,
        r"(?i)^\s*remove\s+(this|me|later)\s*$"@,
        r"(?i)^\s*delete\s+(this|me|later)\s*$"@,
    ]
}

pub fn hollow_pattern_list() -> (r: Vec<&'static str>)
    ensures
        r@.map_values(|p: &'static str| p@) == hollow_patterns(),
{
    let mut v: Vec<&'static str> = Vec::new();
    v.push(r"(?i)^$");
    v.push(r"(?i)^\s*$");
    v.push(r"(?i)^\s*implement\s+(this|here|later|the)(\s+(function|method|code|logic|feature))?\s*$");
    v.push(r"(?i)^\s*implement\s*$");
    v.push(r"(?i)^\s*finish\s+(this|here|later|the)(\s+(function|method|code|logic|feature|implementation))?\s*$");
    v.push(r"(?i)^\s*finish\s+(implementation|later)\s*$");
    v.push(r"(?i)^\s*finish\s*$");
    v.push(r"(?i)^\s*complete\s+(this|here|later|the)(\s+(function|method|code|logic|feature|implementation))?\s*$");
    v.push(r"(?i)^\s*complete\s+(implementation|later)\s*$");
    v.push(r"(?i)^\s*complete\s*$");
    v.push(r"(?i)^\s*add\s+(this|here|later|the)(\s+(function|method|code|logic|feature|implementation))?\s*$");
    v.push(r"(?i)^\s*add\s+(code|implementation|logic)\s*$");
    v.push(r"(?i)^\s*add\s*$");
    v.push(r"(?i)^\s*fix\s+(this|here|it|later|the)(\s+(bug|issue|error|problem))?\s*$");
    v.push(r"(?i)^\s*fix\s+(bug|issue|error|problem|it|later)\s*$");
    v.push(r"(?i)^\s*fix\s*$");
    v.push(r"(?i)^\s*do\s+(this|something|later)\s*$");
    v.push(r"(?i)^\s*do\s*$");
    v.push(r"(?i)^\s*handle\s+(this|here|it|the)(\s+(error|case|exception))?\s*$");
    v.push(r"(?i)^\s*handle\s+(error|case|exception)\s*$");
    v.push(r"(?i)^\s*handle\s*$");
    v.push(r"(?i)^\s*write\s+(this|here|the)(\s+(code|implementation|function|method))?\s*$");
    v.push(r"(?i)^\s*write\s+(code|implementation)\s*$");
    v.push(r"(?i)^\s*write\s*$");
    v.push(r"(?i)^\s*fill\s*(this\s*)?in\s*(later|here)?\s*$");
    v.push(r"(?i)^\s*placeholder\s*$");
    v.push(r"(?i)^\s*stub\s*$");
    v.push(r"(?i)^\s*tbd\s*$");
    v.push(r"(?i)^\s*wip\s*$");
    v.push(r"(?i)^\s*not\s+implemented\s*(yet)?\s*$");
    v.push(r"(?i)^\s*needs?\s+(implementation|work|to\s+be\s+done)\s*$");
    v.push(r"(?i)^\s*change\s+(this|me|later)\s*$");
    v.push(r"(?i)^\s*update\s+(this|here|later)\s*$");
    v.push(r"(?i)^\s*refactor\s+(this|here|later)\s*$");
    v.push(r"(?i)^\s*cleanup\s+(this|here|later)\s*$");
    v.push(r"(?i)^\s*clean\s+up\s+(this|here|later)\s*$");
    v.push(r"(?i)^\s*remove\s+(this|me|later)\s*$");
    v.push(r"(?i)^\s*delete\s+(this|me|later)\s*$");
    assert(v@.map_values(|p: &'static str| p@) =~= hollow_patterns());
    v
}

/// A TODO text is hollow: empty once trimmed, or a generic placeholder.
pub open spec fn hollow_todo(content: Seq<char>) -> bool {
    trim(content).len() == 0 || any_regex_matches(hollow_patterns(), trim(content))
}

/// Check if a TODO has meaningful context; true if it is hollow.
pub fn is_hollow_todo(content: &str) -> (r: bool)
    ensures
        r == hollow_todo(content@),
{
    let t = trim_chars(chars_of(content).as_slice());
    if t.len() == 0 {
        return true;
    }
    let patterns = hollow_pattern_list();
    matches_any(&patterns, string_of(t.as_slice()).as_str())
}

/// The pattern of a TODO marker and the text after it.
pub open spec fn todo_pattern() -> Seq<char> {
    r"(?i)\b(TODO|FIXME|XXX|HACK)\b\s*:?\s*(.*)"@
}

/// A string assignment that holds a marker, e.g. `let msg = "TODO: ..."`.
pub open spec fn string_assignment_pattern() -> Seq<char> {
    r#"(?i)=\s*["'].*(?:TODO|FIXME|XXX|HACK).*["']"#@
}

/// A call with a string argument that holds a marker, e.g. `println!("TODO")`.
pub open spec fn string_argument_pattern() -> Seq<char> {
    r#"(?i)\(\s*["'].*(?:TODO|FIXME|XXX|HACK).*["']\s*\)"#@
}

/// A line is likely a string literal rather than a comment: it starts with a
/// quote and mentions TODO, or it assigns or passes a string that holds a marker.
pub open spec fn likely_string_content(line: Seq<char>) -> bool {
    let t = trim(line);
    ||| ((has_prefix(t, "\""@) || has_prefix(t, "'"@)) && contains_seq(unicode_uppercase(t), "TODO"@))
    ||| (regex_valid(string_assignment_pattern()) && regex_matches(string_assignment_pattern(), t))
    ||| (regex_valid(string_argument_pattern()) && regex_matches(string_argument_pattern(), t))
}

/// Simple check if a line is likely a string literal (not a comment).
pub fn is_likely_string_content(line: &str) -> (r: bool)
    ensures
        r == likely_string_content(line@),
{
    let t = trim_chars(chars_of(line).as_slice());
    if starts_with(t.as_slice(), chars_of("\"").as_slice()) || starts_with(
        t.as_slice(),
        chars_of("'").as_slice(),
    ) {
        let up = to_uppercase(t.as_slice());
        if contains(up.as_slice(), chars_of("TODO").as_slice()) {
            return true;
        }
    }
    let ts = string_of(t.as_slice());
    if regex_is_match(r#"(?i)=\s*["'].*(?:TODO|FIXME|XXX|HACK).*["']"#, ts.as_str()) {
        return true;
    }
    if regex_is_match(r#"(?i)\(\s*["'].*(?:TODO|FIXME|XXX|HACK).*["']\s*\)"#, ts.as_str()) {
        return true;
    }
    false
}

/// The message for a hollow TODO: the marker in uppercase, then either
/// "marker without context" or the trimmed text, quoted.
pub open spec fn hollow_todo_message(marker: Seq<char>, content: Seq<char>) -> Seq<char> {
    if trim(content).len() == 0 {
        unicode_uppercase(marker) + " marker without context"@
    } else {
        unicode_uppercase(marker) + " with hollow context: "@ + debug_form(trim(content))
    }
}

/// The violation a line gives, if it holds a hollow TODO.
pub open spec fn line_todo_violation(file: Seq<char>, line: Seq<char>, line_number: int) -> Option<
    ViolationView,
> {
    if likely_string_content(line) {
        None
    } else {
        match capture_of(todo_pattern(), line) {
            Some(c) => {
                let marker = group_or(c.1, 1, "TODO"@);
                let content = group_text(c.1, 2);
                if hollow_todo(content) {
                    Some(
                        ViolationView {
                            rule: ViolationRule::HollowTodo,
                            message: hollow_todo_message(marker, content),
                            file: file,
                            line: line_number,
                            severity: Severity::Warning,
                        },
                    )
                } else {
                    None
                }
            },
            None => None,
        }
    }
}

/// The hollow-TODO violations of the first `n` lines.
pub open spec fn todo_violations_upto(file: Seq<char>, lines: Seq<Seq<char>>, n: int) -> Seq<
    ViolationView,
>
    decreases n,
{
    if n <= 0 {
        Seq::empty()
    } else {
        let prev = todo_violations_upto(file, lines, n - 1);
        match line_todo_violation(file, lines[n - 1], n) {
            Some(v) => prev.push(v),
            None => prev,
        }
    }
}

/// The hollow-TODO violations of a file's content, in line order.
pub open spec fn todo_violations(file: Seq<char>, content: Seq<char>) -> Seq<ViolationView> {
    todo_violations_upto(file, str_lines(content), str_lines(content).len() as int)
}

fn todo_violation_for_line(file_path: &str, line: &str, line_number: usize) -> (r: Option<Violation>)
    ensures
        match r {
            Some(v) => line_todo_violation(file_path@, line@, line_number as int) == Some(v@),
            None => line_todo_violation(file_path@, line@, line_number as int) is None,
        },
{
    if is_likely_string_content(line) {
        return None;
    }
    match regex_captures(r"(?i)\b(TODO|FIXME|XXX|HACK)\b\s*:?\s*(.*)", line) {
        Some(c) => {
            let ghost gv = c.1@.map_values(|g: Option<Vec<char>>| group_view(g));
            let marker = if 1 < c.1.len() {
                match &c.1[1] {
                    Some(g) => g.clone(),
                    None => chars_of("TODO"),
                }
            } else {
                chars_of("TODO")
            };
            assert(marker@ == group_or(gv, 1, "TODO"@));
            let content = group_chars(&c.1, 2);
            let cs = string_of(content.as_slice());
            if is_hollow_todo(cs.as_str()) {
                let up = to_uppercase(marker.as_slice());
                let t = trim_chars(content.as_slice());
                let msg = if t.len() == 0 {
                    concat_str(up.as_slice(), " marker without context")
                } else {
                    let q = debug_quoted(t.as_slice());
                    let a = concat_str(up.as_slice(), " with hollow context: ");
                    concat(a.as_slice(), q.as_slice())
                };
                Some(
                    Violation {
                        rule: ViolationRule::HollowTodo,
                        message: string_of(msg.as_slice()),
                        file: string_of(chars_of(file_path).as_slice()),
                        line: line_number,
                        severity: Severity::Warning,
                    },
                )
            } else {
                None
            }
        },
        None => None,
    }
}

/// Scan a file's content for hollow TODOs.
pub fn scan_content_for_hollow_todos(file_path: &str, content: &str) -> (r: Vec<Violation>)
    ensures
        violations_view(r@) == todo_violations(file_path@, content@),
{
    let lines = lines_of(chars_of(content).as_slice());
    let ghost ls = str_lines(content@);
    let mut out: Vec<Violation> = Vec::new();
    let mut k: usize = 0;
    while k < lines.len()
        invariant
            k <= lines@.len(),
            lines@.len() == ls.len(),
            ls == str_lines(content@),
            forall|j: int| 0 <= j < lines@.len() ==> #[trigger] lines@[j]@ == ls[j],
            violations_view(out@) == todo_violations_upto(file_path@, ls, k as int),
        decreases lines.len() - k,
    {
        let line = string_of(lines[k].as_slice());
        let ghost before = out@;
        match todo_violation_for_line(file_path, line.as_str(), k + 1) {
            Some(v) => {
                out.push(v);
                assert(violations_view(out@) =~= violations_view(before).push(out@.last()@));
            },
            None => {},
        }
        k = k + 1;
    }
    out
}

/// The hollow-TODO violations of all files, in order.
pub open spec fn all_todo_violations(files: Seq<(Seq<char>, Seq<char>)>) -> Seq<ViolationView>
    decreases files.len(),
{
    if files.len() == 0 {
        Seq::empty()
    } else {
        all_todo_violations(files.drop_last()) + todo_violations(files.last().0, files.last().1)
    }
}

pub open spec fn files_view(files: Seq<(String, String)>) -> Seq<(Seq<char>, Seq<char>)> {
    files.map_values(|f: (String, String)| (f.0@, f.1@))
}

/// Detect hollow TODOs in the given files (each a path and its content).
pub fn detect_hollow_todos(files: &Vec<(String, String)>) -> (r: DetectionResult)
    ensures
        violations_view(r.violations@) == all_todo_violations(files_view(files@)),
        r.scanned == files@.len(),
        r.suppressed@.len() == 0,
        r.new_violations@.len() == 0,
        r.baseline_ref is None,
{
    let ghost fv = files_view(files@);
    let mut result = DetectionResult::new();
    let mut i: usize = 0;
    while i < files.len()
        invariant
            i <= files@.len(),
            fv == files_view(files@),
            violations_view(result.violations@) == all_todo_violations(fv.take(i as int)),
            result.scanned == i,
            result.suppressed@.len() == 0,
            result.new_violations@.len() == 0,
            result.baseline_ref is None,
        decreases files.len() - i,
    {
        let mut found = scan_content_for_hollow_todos(files[i].0.as_str(), files[i].1.as_str());
        let ghost found_v = found@;
        let ghost before = result.violations@;
        result.violations.append(&mut found);
        assert(fv.take(i + 1).drop_last() =~= fv.take(i as int));
        assert(fv.take(i + 1).last() == fv[i as int]);
        assert(violations_view(result.violations@) =~= violations_view(before) + violations_view(
            found_v,
        ));
        result.scanned = result.scanned + 1;
        i = i + 1;
    }
    assert(fv.take(fv.len() as int) =~= fv);
    result
}

} // verus!
