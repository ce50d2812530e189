//! Inline suppression of violations via comments.
//!
//! Supports suppression comments like:
//! - `// hollowcheck:ignore <rule> - <reason>`
//! - `// hollowcheck:ignore-next-line <rule> - <reason>`
//! - `// hollowcheck:ignore-file <rule> - <reason>`
use vstd::prelude::*;

use crate::detect::types::{
    lemma_rule_name_roundtrip, rule_from_name, rule_name, str_eq, Violation, ViolationRule,
};
use crate::matching::{
    capture_of, captures_view, group_chars, group_text, group_view, regex_capture_groups,
    regex_captures, regex_valid,
};
use crate::paths::{extension_or_empty, extension_or_empty_of};
use crate::text::{
    chars_eq_str, chars_of, has_prefix, lines_of, starts_with, str_lines, string_of,
    strip_all_prefix, trim, trim_chars, trim_start_matches,
};

verus! {

/// How a suppression applies.
#[derive(Debug, Clone, Copy, PartialEq, Eq, Structural)]
pub enum SuppressionType {
    /// Applies to the same line
    Line,
    /// Applies to the next line
    NextLine,
    /// Applies to the entire file
    File,
}

/// An inline suppression directive.
#[derive(Debug, Clone)]
pub struct Suppression {
    /// Rule to suppress (e.g., "forbidden_pattern") or "*" for all
    pub rule: String,
    /// Human-readable reason
    pub reason: String,
    /// File containing the suppression
    pub file: String,
    /// Line number (0 for file-level)
    pub line: usize,
    /// How the suppression applies
    pub suppression_type: SuppressionType,
}

/// The mathematical content of a suppression.
pub struct SuppressionView {
    pub rule: Seq<char>,
    pub reason: Seq<char>,
    pub file: Seq<char>,
    pub line: int,
    pub suppression_type: SuppressionType,
}

impl View for Suppression {
    type V = SuppressionView;

    open spec fn view(&self) -> SuppressionView {
        SuppressionView {
            rule: self.rule@,
            reason: self.reason@,
            file: self.file@,
            line: self.line as int,
            suppression_type: self.suppression_type,
        }
    }
}

impl Suppression {
    /// A copy of this suppression with the same field values.
    pub fn duplicate(&self) -> (r: Suppression)
        ensures
            r@ == self@,
    {
        Suppression {
            rule: self.rule.clone(),
            reason: self.reason.clone(),
            file: self.file.clone(),
            line: self.line,
            suppression_type: self.suppression_type,
        }
    }
}

/// A violation that was suppressed.
#[derive(Debug, Clone)]
pub struct SuppressedViolation {
    pub violation: Violation,
    pub suppression: Suppression,
}

// ---------------------------------------------------------------------------
// Recognising directives
// ---------------------------------------------------------------------------

/// The suppression comment patterns, tried in this order: `//`, `#`, `/* */`
/// and `<!-- -->` comments.
pub open spec fn suppression_pattern(i: int) -> Seq<char> {
    if i == 0 {
        r"//\s*hollowcheck:(ignore(?:-file|-next-line)?)\s+(\S+)\s*(?:-\s*(.*))?"@
    } else if i == 1 {
        r"#\s*hollowcheck:(ignore(?:-file|-next-line)?)\s+(\S+)\s*(?:-\s*(.*))?"@
    } else if i == 2 {
        r"/\*\s*hollowcheck:(ignore(?:-file|-next-line)?)\s+(\S+)\s*(?:-\s*(.*?))?\s*\*/"@
    } else {
        r"<!--\s*hollowcheck:(ignore(?:-file|-next-line)?)\s+(\S+)\s*(?:-\s*(.*?))?\s*-->"@
    }
}

pub fn suppression_pattern_str(i: usize) -> (r: &'static str)
    requires
        i < 4,
    ensures
        r@ == suppression_pattern(i as int),
{
    if i == 0 {
        r"//\s*hollowcheck:(ignore(?:-file|-next-line)?)\s+(\S+)\s*(?:-\s*(.*))?"
    } else if i == 1 {
        r"#\s*hollowcheck:(ignore(?:-file|-next-line)?)\s+(\S+)\s*(?:-\s*(.*))?"
    } else if i == 2 {
        r"/\*\s*hollowcheck:(ignore(?:-file|-next-line)?)\s+(\S+)\s*(?:-\s*(.*?))?\s*\*/"
    } else {
        r"<!--\s*hollowcheck:(ignore(?:-file|-next-line)?)\s+(\S+)\s*(?:-\s*(.*?))?\s*-->"
    }
}

/// The results of the four suppression patterns on a line.
pub open spec fn line_captures(line: Seq<char>) -> Seq<Option<(Seq<char>, Seq<Option<Seq<char>>>)>> {
    seq![
        capture_of(suppression_pattern(0), line),
        capture_of(suppression_pattern(1), line),
        capture_of(suppression_pattern(2), line),
        capture_of(suppression_pattern(3), line),
    ]
}

/// The text before a directive holds nothing but comment markers and blanks.
pub open spec fn only_markers(before: Seq<char>) -> bool {
    trim(
        strip_all_prefix(
            strip_all_prefix(
                strip_all_prefix(strip_all_prefix(trim(before), "/"@), "#"@),
                "/*"@,
            ),
            "<!--"@,
        ),
    ).len() == 0
}

/// How a matched directive applies, or `None` when it is not taken:
/// file-level directives count only in the header (or the first ten lines),
/// and a bare `ignore` alone on its line applies to the next line.
pub open spec fn directive_type(
    directive: Seq<char>,
    before: Seq<char>,
    in_header: bool,
    line_number: int,
) -> Option<SuppressionType> {
    if directive == "ignore-file"@ {
        if !in_header && line_number > 10 {
            None
        } else {
            Some(SuppressionType::File)
        }
    } else if directive == "ignore-next-line"@ {
        Some(SuppressionType::NextLine)
    } else if directive == "ignore"@ {
        if only_markers(before) {
            Some(SuppressionType::NextLine)
        } else {
            Some(SuppressionType::Line)
        }
    } else {
        None
    }
}

/// The suppression that the first taken match from index `k` on gives.
pub open spec fn suppression_from(
    caps: Seq<Option<(Seq<char>, Seq<Option<Seq<char>>>)>>,
    k: int,
    file: Seq<char>,
    line_number: int,
    in_header: bool,
) -> Option<SuppressionView>
    decreases caps.len() - k,
{
    if k < 0 || k >= caps.len() {
        None
    } else {
        match caps[k] {
            Some(c) => match directive_type(group_text(c.1, 1), c.0, in_header, line_number) {
                Some(t) => Some(
                    SuppressionView {
                        rule: group_text(c.1, 2),
                        reason: trim(group_text(c.1, 3)),
                        file: file,
                        line: if t is File {
                            0
                        } else {
                            line_number
                        },
                        suppression_type: t,
                    },
                ),
                None => suppression_from(caps, k + 1, file, line_number, in_header),
            },
            None => suppression_from(caps, k + 1, file, line_number, in_header),
        }
    }
}

pub open spec fn opt_suppression_view(o: Option<Suppression>) -> Option<SuppressionView> {
    match o {
        Some(s) => Some(s@),
        None => None,
    }
}

/// Whether the text before a directive holds only comment markers.
fn only_markers_exec(before: &[char]) -> (r: bool)
    ensures
        r == only_markers(before@),
{
    let t = trim_chars(before);
    let slash = chars_of("/");
    let hash = chars_of("#");
    let open_block = chars_of("/*");
    let open_html = chars_of("<!--");
    let a = trim_start_matches(t.as_slice(), slash.as_slice());
    let b = trim_start_matches(a.as_slice(), hash.as_slice());
    let c = trim_start_matches(b.as_slice(), open_block.as_slice());
    let d = trim_start_matches(c.as_slice(), open_html.as_slice());
    let e = trim_chars(d.as_slice());
    e.len() == 0
}

fn directive_type_exec(
    directive: &[char],
    before: &[char],
    in_header: bool,
    line_number: usize,
) -> (r: Option<SuppressionType>)
    ensures
        r == directive_type(directive@, before@, in_header, line_number as int),
{
    if chars_eq_str(directive, "ignore-file") {
        if !in_header && line_number > 10 {
            None
        } else {
            Some(SuppressionType::File)
        }
    } else if chars_eq_str(directive, "ignore-next-line") {
        Some(SuppressionType::NextLine)
    } else if chars_eq_str(directive, "ignore") {
        if only_markers_exec(before) {
            Some(SuppressionType::NextLine)
        } else {
            Some(SuppressionType::Line)
        }
    } else {
        None
    }
}

/// The suppression a line gives, from what the suppression patterns matched
/// on it (in pattern order), its number, and whether the file's header
/// (comments and blank lines) still runs through it.
pub fn suppression_for_line(
    caps: &Vec<Option<(Vec<char>, Vec<Option<Vec<char>>>)>>,
    file_path: &str,
    line_number: usize,
    in_header: bool,
) -> (r: Option<Suppression>)
    ensures
        opt_suppression_view(r) == suppression_from(
            caps@.map_values(|c: Option<(Vec<char>, Vec<Option<Vec<char>>>)>| captures_view(c)),
            0,
            file_path@,
            line_number as int,
            in_header,
        ),
{
    let ghost cv = caps@.map_values(
        |c: Option<(Vec<char>, Vec<Option<Vec<char>>>)>| captures_view(c),
    );
    let mut k: usize = 0;
    while k < caps.len()
        invariant
            k <= caps@.len(),
            cv == caps@.map_values(
                |c: Option<(Vec<char>, Vec<Option<Vec<char>>>)>| captures_view(c),
            ),
            suppression_from(cv, 0, file_path@, line_number as int, in_header) == suppression_from(
                cv,
                k as int,
                file_path@,
                line_number as int,
                in_header,
            ),
        decreases caps.len() - k,
    {
        match &caps[k] {
            Some(c) => {
                let ghost gv = c.1@.map_values(|g: Option<Vec<char>>| group_view(g));
                assert(cv[k as int] == Some((c.0@, gv)));
                let directive = group_chars(&c.1, 1);
                let t = directive_type_exec(directive.as_slice(), c.0.as_slice(), in_header, line_number);
                match t {
                    Some(t) => {
                        let rule = group_chars(&c.1, 2);
                        let reason = group_chars(&c.1, 3);
                        let reason_trimmed = trim_chars(reason.as_slice());
                        let line = match t {
                            SuppressionType::File => 0,
                            _ => line_number,
                        };
                        let s = Suppression {
                            rule: string_of(rule.as_slice()),
                            reason: string_of(reason_trimmed.as_slice()),
                            file: string_of(chars_of(file_path).as_slice()),
                            line: line,
                            suppression_type: t,
                        };
                        return Some(s);
                    },
                    None => {},
                }
            },
            None => {
                assert(cv[k as int] is None);
            },
        }
        k = k + 1;
    }
    None
}

// ---------------------------------------------------------------------------
// Comment lines
// ---------------------------------------------------------------------------

/// Comment prefixes for a file extension.
pub open spec fn comment_prefixes(ext: Seq<char>) -> Seq<Seq<char>> {
    if ext == "go"@ || ext == "js"@ || ext == "ts"@ || ext == "tsx"@ || ext == "jsx"@ || ext
        == "c"@ || ext == "cpp"@ || ext == "h"@ || ext == "hpp"@ || ext == "java"@ || ext
        == "kt"@ || ext == "rs"@ {
        seq!["//"@, "/*"@]
    } else if ext == "py"@ || ext == "rb"@ || ext == "sh"@ || ext == "bash"@ || ext == "yaml"@
        || ext == "yml"@ {
        seq!["#"@]
    } else if ext == "md"@ || ext == "html"@ || ext == "xml"@ {
        seq!["<!--"@]
    } else {
        seq!["//"@, "#"@, "/*"@, "<!--"@]
    }
}

/// A (trimmed) line is empty or starts with a comment prefix of the file's type.
pub open spec fn comment_or_empty(line: Seq<char>, file_path: Seq<char>) -> bool {
    line.len() == 0 || exists|i: int|
        0 <= i < comment_prefixes(extension_or_empty(file_path)).len() && has_prefix(
            line,
            #[trigger] comment_prefixes(extension_or_empty(file_path))[i],
        )
}

fn comment_prefixes_for(ext: &str) -> (r: Vec<Vec<char>>)
    ensures
        r@.len() == comment_prefixes(ext@).len(),
        forall|i: int| 0 <= i < r@.len() ==> #[trigger] r@[i]@ == comment_prefixes(ext@)[i],
{
    let mut r: Vec<Vec<char>> = Vec::new();
    if str_eq(ext, "go") || str_eq(ext, "js") || str_eq(ext, "ts") || str_eq(ext, "tsx")
        || str_eq(ext, "jsx") || str_eq(ext, "c") || str_eq(ext, "cpp") || str_eq(ext, "h")
        || str_eq(ext, "hpp") || str_eq(ext, "java") || str_eq(ext, "kt") || str_eq(ext, "rs") {
        r.push(chars_of("//"));
        r.push(chars_of("/*"));
    } else if str_eq(ext, "py") || str_eq(ext, "rb") || str_eq(ext, "sh") || str_eq(ext, "bash")
        || str_eq(ext, "yaml") || str_eq(ext, "yml") {
        r.push(chars_of("#"));
    } else if str_eq(ext, "md") || str_eq(ext, "html") || str_eq(ext, "xml") {
        r.push(chars_of("<!--"));
    } else {
        r.push(chars_of("//"));
        r.push(chars_of("#"));
        r.push(chars_of("/*"));
        r.push(chars_of("<!--"));
    }
    r
}

/// Check if a line is a comment or empty for the given file type.
pub fn is_comment_or_empty(line: &[char], file_path: &str) -> (r: bool)
    ensures
        r == comment_or_empty(line@, file_path@),
{
    if line.len() == 0 {
        return true;
    }
    let ext = extension_or_empty_of(file_path);
    let prefixes = comment_prefixes_for(ext.as_str());
    let ghost ps = comment_prefixes(extension_or_empty(file_path@));
    let mut i: usize = 0;
    while i < prefixes.len()
        invariant
            i <= prefixes@.len(),
            ps == comment_prefixes(ext@),
            ext@ == extension_or_empty(file_path@),
            prefixes@.len() == ps.len(),
            forall|k: int| 0 <= k < prefixes@.len() ==> #[trigger] prefixes@[k]@ == ps[k],
            forall|k: int| 0 <= k < i ==> !has_prefix(line@, #[trigger] ps[k]),
        decreases prefixes.len() - i,
    {
        if starts_with(line, prefixes[i].as_slice()) {
            assert(has_prefix(line@, ps[i as int]));
            return true;
        }
        i = i + 1;
    }
    false
}

// ---------------------------------------------------------------------------
// Parsing a file
// ---------------------------------------------------------------------------

/// Lines `0..=k` are all comments or blank: the file's header runs through line `k`.
pub open spec fn header_through(lines: Seq<Seq<char>>, k: int, file: Seq<char>) -> bool {
    forall|j: int| 0 <= j <= k ==> comment_or_empty(trim(#[trigger] lines[j]), file)
}

/// The suppressions of the first `n` lines.
pub open spec fn suppressions_upto(file: Seq<char>, lines: Seq<Seq<char>>, n: int) -> Seq<
    SuppressionView,
>
    decreases n,
{
    if n <= 0 {
        Seq::empty()
    } else {
        let prev = suppressions_upto(file, lines, n - 1);
        match suppression_from(
            line_captures(lines[n - 1]),
            0,
            file,
            n,
            header_through(lines, n - 1, file),
        ) {
            Some(v) => prev.push(v),
            None => prev,
        }
    }
}

/// The suppressions a file's content declares, in line order: at most one
/// per line, from the first pattern whose directive is taken.
pub open spec fn parsed_suppressions(file: Seq<char>, content: Seq<char>) -> Seq<SuppressionView> {
    suppressions_upto(file, str_lines(content), str_lines(content).len() as int)
}

/// Parse suppression directives from file content.
pub fn parse_suppressions(file_path: &str, content: &str) -> (r: Vec<Suppression>)
    ensures
        r@.map_values(|s: Suppression| s@) == parsed_suppressions(file_path@, content@),
{
    let cs = chars_of(content);
    let lines = lines_of(cs.as_slice());
    let ghost ls = str_lines(content@);
    let mut out: Vec<Suppression> = Vec::new();
    let mut in_header = true;
    let mut k: usize = 0;
    while k < lines.len()
        invariant
            k <= lines@.len(),
            lines@.len() == ls.len(),
            ls == str_lines(content@),
            forall|j: int| 0 <= j < lines@.len() ==> #[trigger] lines@[j]@ == ls[j],
            in_header == header_through(ls, k - 1, file_path@),
            out@.map_values(|s: Suppression| s@) == suppressions_upto(file_path@, ls, k as int),
        decreases lines.len() - k,
    {
        let line = &lines[k];
        let trimmed = trim_chars(line.as_slice());
        if in_header && !is_comment_or_empty(trimmed.as_slice(), file_path) {
            in_header = false;
        }
        assert(in_header == header_through(ls, k as int, file_path@)) by {
            if in_header {
                assert forall|j: int| 0 <= j <= k implies comment_or_empty(
                    trim(#[trigger] ls[j]),
                    file_path@,
                ) by {
                    if j < k {
                        assert(header_through(ls, k - 1, file_path@));
                    }
                }
            }
        }
        let line_str = string_of(line.as_slice());
        let mut caps: Vec<Option<(Vec<char>, Vec<Option<Vec<char>>>)>> = Vec::new();
        let mut i: usize = 0;
        while i < 4
            invariant
                i <= 4,
                caps@.len() == i,
                line_str@ == ls[k as int],
                forall|j: int|
                    0 <= j < i ==> captures_view(#[trigger] caps@[j]) == line_captures(
                        ls[k as int],
                    )[j],
            decreases 4 - i,
        {
            let c = regex_captures(suppression_pattern_str(i), line_str.as_str());
            caps.push(c);
            i = i + 1;
        }
        let ghost cv = caps@.map_values(
            |c: Option<(Vec<char>, Vec<Option<Vec<char>>>)>| captures_view(c),
        );
        assert(cv =~= line_captures(ls[k as int]));
        let found = suppression_for_line(&caps, file_path, k + 1, in_header);
        let ghost before = out@;
        match found {
            Some(s) => {
                out.push(s);
                assert(out@.map_values(|s: Suppression| s@) =~= before.map_values(
                    |s: Suppression| s@,
                ).push(s@));
            },
            None => {},
        }
        k = k + 1;
    }
    out
}

// ---------------------------------------------------------------------------
// Applying suppressions
// ---------------------------------------------------------------------------

/// A suppression applies to a violation: same file, a matching rule (or
/// `*`), and the right line for its type.
pub open spec fn suppression_applies(v: Violation, s: SuppressionView) -> bool {
    &&& v.file@ == s.file
    &&& (s.rule == "*"@ || rule_from_name(s.rule) == Some(v.rule))
    &&& match s.suppression_type {
        SuppressionType::File => true,
        SuppressionType::Line => v.line == s.line,
        SuppressionType::NextLine => v.line == s.line + 1,
    }
}

/// Check if a violation matches a suppression.
pub fn matches_suppression(violation: &Violation, suppression: &Suppression) -> (r: bool)
    ensures
        r == suppression_applies(*violation, suppression@),
{
    if !str_eq(violation.file.as_str(), suppression.file.as_str()) {
        return false;
    }
    if !str_eq(suppression.rule.as_str(), "*") {
        match ViolationRule::parse(suppression.rule.as_str()) {
            Some(rule) => {
                if violation.rule != rule {
                    return false;
                }
            },
            None => {
                proof {
                    lemma_rule_name_roundtrip(violation.rule);
                }
                if !str_eq(suppression.rule.as_str(), violation.rule.as_str()) {
                    return false;
                }
            },
        }
    }
    match suppression.suppression_type {
        SuppressionType::File => true,
        SuppressionType::Line => violation.line == suppression.line,
        SuppressionType::NextLine => violation.line > 0 && violation.line - 1 == suppression.line,
    }
}

/// Index of the first suppression from `i` on that applies to `v`.
pub open spec fn first_applying(v: Violation, sups: Seq<SuppressionView>, i: int) -> Option<int>
    decreases sups.len() - i,
{
    if i < 0 || i >= sups.len() {
        None
    } else if suppression_applies(v, sups[i]) {
        Some(i)
    } else {
        first_applying(v, sups, i + 1)
    }
}

/// The violations that no suppression applies to, in order.
pub open spec fn active_after(vs: Seq<Violation>, sups: Seq<SuppressionView>) -> Seq<Violation>
    decreases vs.len(),
{
    if vs.len() == 0 {
        Seq::empty()
    } else {
        let prev = active_after(vs.drop_last(), sups);
        if first_applying(vs.last(), sups, 0) is None {
            prev.push(vs.last())
        } else {
            prev
        }
    }
}

/// Each suppressed violation with the first suppression that applies to it, in order.
pub open spec fn suppressed_by(vs: Seq<Violation>, sups: Seq<SuppressionView>) -> Seq<
    (Violation, SuppressionView),
>
    decreases vs.len(),
{
    if vs.len() == 0 {
        Seq::empty()
    } else {
        let prev = suppressed_by(vs.drop_last(), sups);
        match first_applying(vs.last(), sups, 0) {
            Some(i) => prev.push((vs.last(), sups[i])),
            None => prev,
        }
    }
}

pub open spec fn suppressed_view(s: SuppressedViolation) -> (Violation, SuppressionView) {
    (s.violation, s.suppression@)
}

proof fn lemma_first_applying_bound(v: Violation, sups: Seq<SuppressionView>, i: int)
    requires
        0 <= i,
    ensures
        first_applying(v, sups, i) matches Some(j) ==> i <= j < sups.len() && suppression_applies(
            v,
            sups[j],
        ),
        first_applying(v, sups, i) is None ==> forall|j: int|
            i <= j < sups.len() ==> !suppression_applies(v, #[trigger] sups[j]),
    decreases sups.len() - i,
{
    if 0 <= i < sups.len() && !suppression_applies(v, sups[i]) {
        lemma_first_applying_bound(v, sups, i + 1);
    }
}

/// Separate violations into active and suppressed based on suppressions.
pub fn filter_suppressed(violations: Vec<Violation>, suppressions: &[Suppression]) -> (r: (
    Vec<Violation>,
    Vec<SuppressedViolation>,
))
    ensures
        r.0@ == active_after(violations@, suppressions@.map_values(|s: Suppression| s@)),
        r.1@.map_values(|s: SuppressedViolation| suppressed_view(s)) == suppressed_by(
            violations@,
            suppressions@.map_values(|s: Suppression| s@),
        ),
{
    let ghost sv = suppressions@.map_values(|s: Suppression| s@);
    let mut active: Vec<Violation> = Vec::new();
    let mut suppressed: Vec<SuppressedViolation> = Vec::new();
    let mut i: usize = 0;
    while i < violations.len()
        invariant
            i <= violations@.len(),
            sv == suppressions@.map_values(|s: Suppression| s@),
            active@ == active_after(violations@.take(i as int), sv),
            suppressed@.map_values(|s: SuppressedViolation| suppressed_view(s)) == suppressed_by(
                violations@.take(i as int),
                sv,
            ),
        decreases violations.len() - i,
    {
        let violation = &violations[i];
        let ghost pre = violations@.take(i + 1);
        assert(pre.drop_last() =~= violations@.take(i as int));
        assert(pre.last() == *violation);
        let mut j: usize = 0;
        while j < suppressions.len() && !matches_suppression(violation, &suppressions[j])
            invariant
                j <= suppressions@.len(),
                sv == suppressions@.map_values(|s: Suppression| s@),
                first_applying(*violation, sv, 0) == first_applying(*violation, sv, j as int),
            decreases suppressions.len() - j,
        {
            j = j + 1;
        }
        let found = j < suppressions.len();
        let ghost before_s = suppressed@;
        if found {
            assert(first_applying(*violation, sv, 0) == Some(j as int));
            let sup = suppressions[j].duplicate();
            suppressed.push(SuppressedViolation { violation: violation.duplicate(), suppression: sup });
            assert(suppressed@.map_values(|s: SuppressedViolation| suppressed_view(s))
                =~= before_s.map_values(|s: SuppressedViolation| suppressed_view(s)).push(
                (*violation, sv[j as int]),
            ));
        } else {
            assert(first_applying(*violation, sv, j as int) is None);
            active.push(violation.duplicate());
        }
        i = i + 1;
    }
    assert(violations@.take(violations@.len() as int) =~= violations@);
    (active, suppressed)
}

/// Every violation ends up on exactly one side: the active ones and the
/// suppressed ones together are as many as the violations.
pub proof fn lemma_filter_partitions(vs: Seq<Violation>, sups: Seq<SuppressionView>)
    ensures
        active_after(vs, sups).len() + suppressed_by(vs, sups).len() == vs.len(),
        forall|i: int|
            0 <= i < active_after(vs, sups).len() ==> first_applying(
                #[trigger] active_after(vs, sups)[i],
                sups,
                0,
            ) is None,
        forall|i: int|
            0 <= i < suppressed_by(vs, sups).len() ==> suppression_applies(
                (#[trigger] suppressed_by(vs, sups)[i]).0,
                suppressed_by(vs, sups)[i].1,
            ),
    decreases vs.len(),
{
    if vs.len() > 0 {
        lemma_filter_partitions(vs.drop_last(), sups);
        lemma_first_applying_bound(vs.last(), sups, 0);
        let a = active_after(vs, sups);
        let pa = active_after(vs.drop_last(), sups);
        let s = suppressed_by(vs, sups);
        let ps = suppressed_by(vs.drop_last(), sups);
        assert forall|i: int| 0 <= i < a.len() implies first_applying(#[trigger] a[i], sups, 0) is None by {
            if i < pa.len() {
                assert(a[i] == pa[i]);
            }
        }
        assert forall|i: int| 0 <= i < s.len() implies suppression_applies(
            (#[trigger] s[i]).0,
            s[i].1,
        ) by {
            if i < ps.len() {
                assert(s[i] == ps[i]);
            }
        }
    }
}

/// A same-line suppression covers exactly its own line: for a violation in
/// the suppression's file whose rule it names (or `*`), it applies if and
/// only if the violation stands on the suppression's line.
pub proof fn lemma_line_suppression_covers_its_line(v: Violation, s: SuppressionView)
    requires
        s.suppression_type == SuppressionType::Line,
        v.file@ == s.file,
        s.rule == "*"@ || rule_from_name(s.rule) == Some(v.rule),
    ensures
        suppression_applies(v, s) <==> v.line == s.line,
        v.line == s.line ==> active_after(seq![v], seq![s]) == Seq::<Violation>::empty()
            && suppressed_by(seq![v], seq![s]) == seq![(v, s)],
        v.line != s.line ==> active_after(seq![v], seq![s]) == seq![v] && suppressed_by(
            seq![v],
            seq![s],
        ) == Seq::<(Violation, SuppressionView)>::empty(),
{
    let vs = seq![v];
    let sups = seq![s];
    assert(vs.drop_last() =~= Seq::<Violation>::empty());
    assert(vs.last() == v);
    assert(first_applying(v, sups, 1) is None);
    assert(active_after(vs.drop_last(), sups) =~= Seq::<Violation>::empty());
    assert(suppressed_by(vs.drop_last(), sups) =~= Seq::<(Violation, SuppressionView)>::empty());
    assert(sups[0] == s);
    if v.line == s.line {
        assert(first_applying(v, sups, 0) == Some(0int));
        assert(active_after(vs, sups) =~= Seq::<Violation>::empty());
        assert(suppressed_by(vs, sups) =~= seq![(v, s)]);
    } else {
        assert(first_applying(v, sups, 0) is None);
        assert(active_after(vs, sups) =~= seq![v]);
        assert(suppressed_by(vs, sups) =~= Seq::<(Violation, SuppressionView)>::empty());
    }
}

/// No violation stays active on the line of a same-line suppression in its
/// file that names its rule (or `*`), whatever other violations and
/// suppressions there are.
pub proof fn lemma_active_not_on_suppressed_line(vs: Seq<Violation>, sups: Seq<SuppressionView>)
    ensures
        forall|i: int, j: int|
            0 <= i < active_after(vs, sups).len() && 0 <= j < sups.len() && sups[j].suppression_type
                == SuppressionType::Line && (#[trigger] active_after(vs, sups)[i]).file@
                == (#[trigger] sups[j]).file && (sups[j].rule == "*"@ || rule_from_name(
                sups[j].rule,
            ) == Some(active_after(vs, sups)[i].rule)) ==> active_after(vs, sups)[i].line
                != sups[j].line,
{
    lemma_filter_partitions(vs, sups);
    let a = active_after(vs, sups);
    assert forall|i: int, j: int|
        0 <= i < a.len() && 0 <= j < sups.len() && sups[j].suppression_type
            == SuppressionType::Line && (#[trigger] a[i]).file@ == (#[trigger] sups[j]).file && (
        sups[j].rule == "*"@ || rule_from_name(sups[j].rule) == Some(a[i].rule)) implies a[i].line
        != sups[j].line by {
        assert(first_applying(a[i], sups, 0) is None);
        lemma_first_applying_bound(a[i], sups, 0);
        assert(!suppression_applies(a[i], sups[j]));
    }
}

} // verus!
