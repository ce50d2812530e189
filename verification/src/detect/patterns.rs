//! Detection of forbidden patterns in code.
use vstd::prelude::*;

use crate::contract::ForbiddenPattern;
use crate::detect::types::{
    violations_view, DetectionResult, Severity, Violation, ViolationRule, ViolationView,
};
use crate::detect::todos::{files_view};
use crate::matching::{regex_compile_error, regex_error_text, regex_find_all, regex_find_iter, regex_valid};
use crate::text::{
    chars_of, concat, concat_str, contains_seq, contains_str, debug_form, debug_quoted, ends_with_str,
    has_prefix, has_suffix, is_alphanumeric, lines_of, starts_with_str, str_lines, string_of,
    strip_all_prefix, to_lowercase, to_uppercase, trim, trim_chars, trim_start_matches,
    unicode_alphanumeric, unicode_lowercase, unicode_uppercase, contains,
};

verus! {

// ---------------------------------------------------------------------------
// String literals
// ---------------------------------------------------------------------------

/// Where a scan of a line stands: inside a string (and which quote opened
/// it), and whether the last character was an escaping backslash.
pub struct QuoteState {
    pub in_string: bool,
    pub quote: Option<char>,
    pub escaped: bool,
}

pub open spec fn is_quote(c: char) -> bool {
    c == '"' || c == '\'' || c == '`'
}

pub open spec fn quote_step(st: QuoteState, ch: char) -> QuoteState {
    if st.escaped {
        QuoteState { escaped: false, ..st }
    } else if ch == '\\' && st.in_string {
        QuoteState { escaped: true, ..st }
    } else if is_quote(ch) {
        if !st.in_string {
            QuoteState { in_string: true, quote: Some(ch), escaped: false }
        } else if st.quote == Some(ch) {
            QuoteState { in_string: false, quote: None, escaped: false }
        } else {
            st
        }
    } else {
        st
    }
}

pub open spec fn quote_state(s: Seq<char>) -> QuoteState
    decreases s.len(),
{
    if s.len() == 0 {
        QuoteState { in_string: false, quote: None, escaped: false }
    } else {
        quote_step(quote_state(s.drop_last()), s.last())
    }
}

/// Position `pos` of the line is inside a double-, single- or back-quoted
/// string (backslash escapes the next character inside a string).
pub open spec fn inside_string(line: Seq<char>, pos: int) -> bool {
    quote_state(line.take(if pos < line.len() { pos } else { line.len() as int })).in_string
}

/// Check if a position in a line falls within a string literal.
pub fn is_inside_string_literal(line: &str, pos: usize) -> (r: bool)
    ensures
        r == inside_string(line@, pos as int),
{
    let chars = chars_of(line);
    let mut in_string = false;
    let mut string_char: Option<char> = None;
    let mut escaped = false;
    let mut i: usize = 0;
    while i < chars.len()
        invariant
            i <= chars@.len(),
            chars@ == line@,
            i <= pos,
            quote_state(chars@.take(i as int)) == (QuoteState {
                in_string,
                quote: string_char,
                escaped,
            }),
        decreases chars.len() - i,
    {
        if i >= pos {
            return in_string;
        }
        let ch = chars[i];
        assert(chars@.take(i + 1).drop_last() =~= chars@.take(i as int));
        if escaped {
            escaped = false;
        } else if ch == '\\' && in_string {
            escaped = true;
        } else if ch == '"' || ch == '\'' || ch == '`' {
            if !in_string {
                in_string = true;
                string_char = Some(ch);
            } else if string_char == Some(ch) {
                in_string = false;
                string_char = None;
            }
        }
        i = i + 1;
    }
    assert(chars@.take(chars@.len() as int) =~= chars@);
    in_string
}

// ---------------------------------------------------------------------------
// Context of TODO-like matches
// ---------------------------------------------------------------------------

pub open spec fn word_char(c: char) -> bool {
    unicode_alphanumeric(c) || c == '_'
}

/// A line that defines a pattern or constant referring to TODO markers.
pub open spec fn pattern_definition(line: Seq<char>) -> bool {
    let t = trim(line);
    let upper = unicode_uppercase(t);
    ||| ((has_prefix(t, "const "@) || has_prefix(t, "static "@)) && contains_seq(upper, "PATTERN"@))
    ||| contains_seq(t, "_PATTERN"@)
    ||| contains_seq(t, "_PATTERNS"@)
    ||| contains_seq(t, ".is_match("@)
    ||| contains_seq(t, ".captures("@)
    ||| contains_seq(t, "ForbiddenPattern {"@)
    ||| contains_seq(t, "ForbiddenPattern{"@)
    ||| (contains_seq(t, "pattern:"@) && (contains_seq(t, "r\""@) || contains_seq(t, "r#\""@)))
}

/// Check if a line is defining a pattern/constant that references TODO.
pub fn is_pattern_definition(line: &str) -> (r: bool)
    ensures
        r == pattern_definition(line@),
{
    let t = trim_chars(chars_of(line).as_slice());
    let ts = t.as_slice();
    let upper = to_uppercase(ts);
    ((starts_with_str(ts, "const ") || starts_with_str(ts, "static ")) && contains_str(
        upper.as_slice(),
        "PATTERN",
    )) || contains_str(ts, "_PATTERN") || contains_str(ts, "_PATTERNS") || contains_str(
        ts,
        ".is_match(",
    ) || contains_str(ts, ".captures(") || contains_str(ts, "ForbiddenPattern {") || contains_str(
        ts,
        "ForbiddenPattern{",
    ) || (contains_str(ts, "pattern:") && (contains_str(ts, "r\"") || contains_str(ts, "r#\"")))
}

/// A comment (already uppercased, without its slashes) that describes TODO
/// handling rather than being a TODO.
pub open spec fn meta_comment(c: Seq<char>) -> bool {
    ||| contains_seq(c, "TODO MARKER"@)
    ||| contains_seq(c, "TODO PATTERN"@)
    ||| contains_seq(c, "TODO DETECTION"@)
    ||| contains_seq(c, "TODO COMMENT"@)
    ||| contains_seq(c, "IF TODO"@)
    ||| contains_seq(c, "FOR TODO"@)
    ||| contains_seq(c, "CHECK FOR TODO"@)
    ||| contains_seq(c, "SKIP IF TODO"@)
    ||| contains_seq(c, "FLAG TODO"@)
    ||| contains_seq(c, "MATCH TODO"@)
    ||| contains_seq(c, "CONTAINS TODO"@)
    ||| contains_seq(c, "HOLLOW TODO"@)
    ||| contains_seq(c, "FIXME MARKER"@)
    ||| has_prefix(c, "TODO-LIKE"@)
    ||| has_prefix(c, "GOOD TODO"@)
    ||| has_prefix(c, "BAD TODO"@)
    ||| has_prefix(c, "MEANINGFUL TODO"@)
    ||| has_prefix(c, "SKIP TODO"@)
    ||| has_prefix(c, "E.G."@)
    ||| contains_seq(c, "\"TODO"@)
    ||| contains_seq(c, "'TODO"@)
}

fn is_meta_comment(c: &[char]) -> (r: bool)
    ensures
        r == meta_comment(c@),
{
    contains_str(c, "TODO MARKER") || contains_str(c, "TODO PATTERN") || contains_str(
        c,
        "TODO DETECTION",
    ) || contains_str(c, "TODO COMMENT") || contains_str(c, "IF TODO") || contains_str(
        c,
        "FOR TODO",
    ) || contains_str(c, "CHECK FOR TODO") || contains_str(c, "SKIP IF TODO") || contains_str(
        c,
        "FLAG TODO",
    ) || contains_str(c, "MATCH TODO") || contains_str(c, "CONTAINS TODO") || contains_str(
        c,
        "HOLLOW TODO",
    ) || contains_str(c, "FIXME MARKER") || starts_with_str(c, "TODO-LIKE") || starts_with_str(
        c,
        "GOOD TODO",
    ) || starts_with_str(c, "BAD TODO") || starts_with_str(c, "MEANINGFUL TODO")
        || starts_with_str(c, "SKIP TODO") || starts_with_str(c, "E.G.") || contains_str(
        c,
        "\"TODO",
    ) || contains_str(c, "'TODO")
}

/// The match at `start..end` (counted as character indices) of a TODO-like
/// pattern is not a real TODO: it is part of an identifier, or the line is
/// a doc comment, a pattern definition, configuration, a test assertion or a
/// comment about TODO handling, or the file is one that detects TODOs.
pub open spec fn skip_todo_match(line: Seq<char>, file_path: Seq<char>, start: int, end: int) -> bool {
    let t = trim(line);
    let upper = unicode_uppercase(t);
    let path = unicode_lowercase(file_path);
    ||| (start > 0 && start - 1 < line.len() && word_char(line[start - 1]))
    ||| (end < line.len() && word_char(line[end]))
    ||| has_prefix(t, "///"@)
    ||| has_prefix(t, "//!"@)
    ||| ((contains_seq(upper, "REGEX"@) || contains_seq(upper, "PATTERN"@)) && (contains_seq(t, "Regex::new"@)
        || contains_seq(t, "r\""@) || contains_seq(t, "r#\""@)))
    ||| (contains_seq(t, "static ref"@) && (contains_seq(t, "Regex"@) || contains_seq(upper, "PATTERN"@)))
    ||| pattern_definition(t)
    ||| has_prefix(t, "pattern:"@)
    ||| has_prefix(t, "- pattern:"@)
    ||| has_prefix(t, "description:"@)
    ||| (has_suffix(path, "todos.rs"@) || has_suffix(path, "todo.rs"@) || has_suffix(path, "patterns.rs"@)
        || has_suffix(path, "stubs.rs"@))
    ||| (contains_seq(t, "assert"@) && (contains_seq(upper, "TODO"@) || contains_seq(upper, "FIXME"@)))
    ||| (has_prefix(t, "//"@) && meta_comment(trim(strip_all_prefix(upper, "/"@))))
}

/// Determine if a TODO-like pattern match should be skipped based on context.
pub fn should_skip_todo_pattern(line: &str, file_path: &str, start: usize, end: usize) -> (r: bool)
    ensures
        r == skip_todo_match(line@, file_path@, start as int, end as int),
{
    let chars = chars_of(line);
    if start > 0 && start - 1 < chars.len() {
        let prev = chars[start - 1];
        if is_alphanumeric(prev) || prev == '_' {
            return true;
        }
    }
    if end < chars.len() {
        let next = chars[end];
        if is_alphanumeric(next) || next == '_' {
            return true;
        }
    }
    let t = trim_chars(chars.as_slice());
    let ts = t.as_slice();
    let upper = to_uppercase(ts);
    let us = upper.as_slice();
    if starts_with_str(ts, "///") || starts_with_str(ts, "//!") {
        return true;
    }
    if contains_str(us, "REGEX") || contains_str(us, "PATTERN") {
        if contains_str(ts, "Regex::new") || contains_str(ts, "r\"") || contains_str(ts, "r#\"") {
            return true;
        }
    }
    if contains_str(ts, "static ref") && (contains_str(ts, "Regex") || contains_str(us, "PATTERN")) {
        return true;
    }
    if is_pattern_definition(string_of(ts).as_str()) {
        proof {
            crate::text::lemma_trim_idempotent(line@);
        }
        return true;
    }
    proof {
        crate::text::lemma_trim_idempotent(line@);
    }
    if starts_with_str(ts, "pattern:") || starts_with_str(ts, "- pattern:") {
        return true;
    }
    if starts_with_str(ts, "description:") {
        return true;
    }
    let path = to_lowercase(chars_of(file_path).as_slice());
    let ps = path.as_slice();
    if ends_with_str(ps, "todos.rs") || ends_with_str(ps, "todo.rs") || ends_with_str(
        ps,
        "patterns.rs",
    ) || ends_with_str(ps, "stubs.rs") {
        return true;
    }
    if contains_str(ts, "assert") && (contains_str(us, "TODO") || contains_str(us, "FIXME")) {
        return true;
    }
    if starts_with_str(ts, "//") {
        let stripped = trim_start_matches(us, chars_of("/").as_slice());
        let c = trim_chars(stripped.as_slice());
        if is_meta_comment(c.as_slice()) {
            return true;
        }
    }
    false
}

// ---------------------------------------------------------------------------
// Scanning
// ---------------------------------------------------------------------------

/// A forbidden pattern ready for scanning.
pub struct CompiledPattern {
    pub pattern: String,
    pub description: Option<String>,
    /// Whether this pattern matches TODO-like markers that need context filtering
    pub is_todo_like: bool,
}

pub struct CompiledPatternView {
    pub pattern: Seq<char>,
    pub description: Option<Seq<char>>,
    pub is_todo_like: bool,
}

impl View for CompiledPattern {
    type V = CompiledPatternView;

    open spec fn view(&self) -> CompiledPatternView {
        CompiledPatternView {
            pattern: self.pattern@,
            description: crate::paths::opt_string_view(self.description),
            is_todo_like: self.is_todo_like,
        }
    }
}

/// The pattern mentions a TODO-like marker (in any case).
pub open spec fn todo_like(pattern: Seq<char>) -> bool {
    let u = unicode_uppercase(pattern);
    contains_seq(u, "TODO"@) || contains_seq(u, "FIXME"@) || contains_seq(u, "XXX"@)
        || contains_seq(u, "HACK"@)
}

/// The message for a forbidden pattern found.
pub open spec fn forbidden_message(p: CompiledPatternView) -> Seq<char> {
    match p.description {
        Some(d) => "forbidden pattern "@ + debug_form(p.pattern) + " found: "@ + d,
        None => "forbidden pattern "@ + debug_form(p.pattern) + " found"@,
    }
}

/// A match at the byte span `(start, end)` of a line counts: it is not in a
/// string, and, for a TODO-like pattern, not skipped by its context.
pub open spec fn match_counts(
    line: Seq<char>,
    file: Seq<char>,
    p: CompiledPatternView,
    span: (usize, usize),
) -> bool {
    !inside_string(line, span.0 as int) && !(p.is_todo_like && skip_todo_match(
        line,
        file,
        span.0 as int,
        span.1 as int,
    ))
}

/// The violations that the matches `spans` of pattern `p` on a line give.
pub open spec fn span_violations(
    file: Seq<char>,
    line: Seq<char>,
    line_number: int,
    p: CompiledPatternView,
    spans: Seq<(usize, usize)>,
) -> Seq<ViolationView>
    decreases spans.len(),
{
    if spans.len() == 0 {
        Seq::empty()
    } else {
        let prev = span_violations(file, line, line_number, p, spans.drop_last());
        if match_counts(line, file, p, spans.last()) {
            prev.push(
                ViolationView {
                    rule: ViolationRule::ForbiddenPattern,
                    message: forbidden_message(p),
                    file: file,
                    line: line_number,
                    severity: Severity::Warning,
                },
            )
        } else {
            prev
        }
    }
}

pub open spec fn pattern_spans(p: Seq<char>, line: Seq<char>) -> Seq<(usize, usize)> {
    if regex_valid(p) {
        regex_find_all(p, line)
    } else {
        Seq::empty()
    }
}

/// The violations of a line: for each pattern in order, its counted matches in order.
pub open spec fn line_pattern_violations(
    file: Seq<char>,
    line: Seq<char>,
    line_number: int,
    ps: Seq<CompiledPatternView>,
) -> Seq<ViolationView>
    decreases ps.len(),
{
    if ps.len() == 0 {
        Seq::empty()
    } else {
        line_pattern_violations(file, line, line_number, ps.drop_last()) + span_violations(
            file,
            line,
            line_number,
            ps.last(),
            pattern_spans(ps.last().pattern, line),
        )
    }
}

pub open spec fn pattern_violations_upto(
    file: Seq<char>,
    lines: Seq<Seq<char>>,
    ps: Seq<CompiledPatternView>,
    n: int,
) -> Seq<ViolationView>
    decreases n,
{
    if n <= 0 {
        Seq::empty()
    } else {
        pattern_violations_upto(file, lines, ps, n - 1) + line_pattern_violations(
            file,
            lines[n - 1],
            n,
            ps,
        )
    }
}

/// The forbidden-pattern violations of a file's content, in line order.
pub open spec fn file_pattern_violations(
    file: Seq<char>,
    content: Seq<char>,
    ps: Seq<CompiledPatternView>,
) -> Seq<ViolationView> {
    pattern_violations_upto(file, str_lines(content), ps, str_lines(content).len() as int)
}

pub open spec fn compiled_view(ps: Seq<CompiledPattern>) -> Seq<CompiledPatternView> {
    ps.map_values(|p: CompiledPattern| p@)
}

fn forbidden_message_for(p: &CompiledPattern) -> (r: String)
    ensures
        r@ == forbidden_message(p@),
{
    let q = debug_quoted(chars_of(p.pattern.as_str()).as_slice());
    let a = concat(chars_of("forbidden pattern ").as_slice(), q.as_slice());
    let b = match &p.description {
        Some(d) => {
            let x = concat_str(a.as_slice(), " found: ");
            concat_str(x.as_slice(), d.as_str())
        },
        None => concat_str(a.as_slice(), " found"),
    };
    string_of(b.as_slice())
}

fn scan_line(
    file_path: &str,
    line: &str,
    line_number: usize,
    patterns: &Vec<CompiledPattern>,
    out: &mut Vec<Violation>,
)
    ensures
        violations_view(final(out)@) == violations_view(old(out)@) + line_pattern_violations(
            file_path@,
            line@,
            line_number as int,
            compiled_view(patterns@),
        ),
{
    let ghost cv = compiled_view(patterns@);
    let ghost start = violations_view(out@);
    let mut i: usize = 0;
    while i < patterns.len()
        invariant
            i <= patterns@.len(),
            cv == compiled_view(patterns@),
            violations_view(out@) == start + line_pattern_violations(
                file_path@,
                line@,
                line_number as int,
                cv.take(i as int),
            ),
        decreases patterns.len() - i,
    {
        let p = &patterns[i];
        let spans = regex_find_iter(p.pattern.as_str(), line);
        let ghost mid = violations_view(out@);
        let mut k: usize = 0;
        while k < spans.len()
            invariant
                k <= spans@.len(),
                i < patterns@.len(),
                *p == patterns@[i as int],
                spans@ == pattern_spans(p.pattern@, line@),
                violations_view(out@) == mid + span_violations(
                    file_path@,
                    line@,
                    line_number as int,
                    p@,
                    spans@.take(k as int),
                ),
            decreases spans.len() - k,
        {
            let (s, e) = spans[k];
            assert(spans@.take(k + 1).drop_last() =~= spans@.take(k as int));
            assert(spans@.take(k + 1).last() == (s, e));
            let counts = !is_inside_string_literal(line, s) && !(p.is_todo_like
                && should_skip_todo_pattern(line, file_path, s, e));
            if counts {
                let ghost before = out@;
                out.push(
                    Violation {
                        rule: ViolationRule::ForbiddenPattern,
                        message: forbidden_message_for(p),
                        file: string_of(chars_of(file_path).as_slice()),
                        line: line_number,
                        severity: ViolationRule::ForbiddenPattern.default_severity(),
                    },
                );
                assert(violations_view(out@) =~= violations_view(before).push(out@.last()@));
            }
            k = k + 1;
        }
        assert(spans@.take(spans@.len() as int) =~= spans@);
        assert(cv.take(i + 1).drop_last() =~= cv.take(i as int));
        assert(cv.take(i + 1).last() == p@);
        i = i + 1;
    }
    assert(cv.take(cv.len() as int) =~= cv);
}

/// Scan a file's content for forbidden patterns.
pub fn scan_content_for_patterns(file_path: &str, content: &str, patterns: &Vec<CompiledPattern>) -> (r: Vec<Violation>)
    ensures
        violations_view(r@) == file_pattern_violations(file_path@, content@, compiled_view(patterns@)),
{
    let lines = lines_of(chars_of(content).as_slice());
    let ghost ls = str_lines(content@);
    let mut out: Vec<Violation> = Vec::new();
    let mut k: usize = 0;
    while k < lines.len()
        invariant
            k <= lines@.len(),
            lines@.len() == ls.len(),
            ls == str_lines(content@),
            forall|j: int| 0 <= j < lines@.len() ==> #[trigger] lines@[j]@ == ls[j],
            violations_view(out@) == pattern_violations_upto(file_path@, ls, compiled_view(patterns@), k as int),
        decreases lines.len() - k,
    {
        let line = string_of(lines[k].as_slice());
        scan_line(file_path, line.as_str(), k + 1, patterns, &mut out);
        k = k + 1;
    }
    out
}

/// Whether a pattern mentions a TODO-like marker.
pub fn is_todo_like_pattern(pattern: &str) -> (r: bool)
    ensures
        r == todo_like(pattern@),
{
    let u = to_uppercase(chars_of(pattern).as_slice());
    let us = u.as_slice();
    contains_str(us, "TODO") || contains_str(us, "FIXME") || contains_str(us, "XXX")
        || contains_str(us, "HACK")
}

pub open spec fn compile_of(p: ForbiddenPattern) -> CompiledPatternView {
    CompiledPatternView {
        pattern: p.pattern@,
        description: crate::paths::opt_string_view(p.description),
        is_todo_like: todo_like(p.pattern@),
    }
}

/// The forbidden-pattern violations of all files, in order.
pub open spec fn all_pattern_violations(
    files: Seq<(Seq<char>, Seq<char>)>,
    ps: Seq<CompiledPatternView>,
) -> Seq<ViolationView>
    decreases files.len(),
{
    if files.len() == 0 {
        Seq::empty()
    } else {
        all_pattern_violations(files.drop_last(), ps) + file_pattern_violations(
            files.last().0,
            files.last().1,
            ps,
        )
    }
}

pub open spec fn first_invalid(ps: Seq<ForbiddenPattern>, i: int) -> Option<int>
    decreases ps.len() - i,
{
    if i < 0 || i >= ps.len() {
        None
    } else if !regex_valid(ps[i].pattern@) {
        Some(i)
    } else {
        first_invalid(ps, i + 1)
    }
}

/// Scan files (each a path and its content) for forbidden patterns; every
/// pattern must compile, else the first that does not is reported.
pub fn detect_forbidden_patterns(files: &Vec<(String, String)>, patterns: &[ForbiddenPattern]) -> (r: Result<DetectionResult, String>)
    ensures
        patterns@.len() == 0 ==> (r matches Ok(res) && res.violations@.len() == 0 && res.scanned == 0),
        patterns@.len() > 0 ==> (r is Err <==> first_invalid(patterns@, 0) is Some),
        r matches Err(e) ==> ({
            let p = patterns@[first_invalid(patterns@, 0).unwrap()].pattern@;
            e@ == "compiling pattern "@ + debug_form(p) + ": "@ + regex_error_text(p)
        }),
        r matches Ok(res) ==> (patterns@.len() > 0 ==> (violations_view(res.violations@) == all_pattern_violations(
            files_view(files@),
            patterns@.map_values(|p: ForbiddenPattern| compile_of(p)),
        ) && res.scanned == files@.len())),
        r matches Ok(res) ==> res.suppressed@.len() == 0 && res.new_violations@.len() == 0,
{
    let mut result = DetectionResult::new();
    if patterns.len() == 0 {
        return Ok(result);
    }
    let ghost want = patterns@.map_values(|p: ForbiddenPattern| compile_of(p));
    let mut compiled: Vec<CompiledPattern> = Vec::new();
    let mut i: usize = 0;
    while i < patterns.len()
        invariant
            i <= patterns@.len(),
            want == patterns@.map_values(|p: ForbiddenPattern| compile_of(p)),
            compiled_view(compiled@) == want.take(i as int),
            first_invalid(patterns@, 0) == first_invalid(patterns@, i as int),
        decreases patterns.len() - i,
    {
        let p = &patterns[i];
        match regex_compile_error(p.pattern.as_str()) {
            Some(e) => {
                let q = debug_quoted(chars_of(p.pattern.as_str()).as_slice());
                let a = concat(chars_of("compiling pattern ").as_slice(), q.as_slice());
                let b = concat_str(a.as_slice(), ": ");
                let c = concat_str(b.as_slice(), e.as_str());
                return Err(string_of(c.as_slice()));
            },
            None => {},
        }
        let desc = match &p.description {
            Some(d) => Some(d.clone()),
            None => None,
        };
        let ghost before = compiled@;
        compiled.push(
            CompiledPattern {
                pattern: p.pattern.clone(),
                description: desc,
                is_todo_like: is_todo_like_pattern(p.pattern.as_str()),
            },
        );
        assert(compiled_view(compiled@) =~= compiled_view(before).push(compile_of(*p)));
        assert(want.take(i + 1) =~= want.take(i as int).push(compile_of(*p)));
        i = i + 1;
    }
    assert(want.take(want.len() as int) =~= want);
    let ghost fv = files_view(files@);
    let mut k: usize = 0;
    while k < files.len()
        invariant
            k <= files@.len(),
            fv == files_view(files@),
            compiled_view(compiled@) == want,
            violations_view(result.violations@) == all_pattern_violations(fv.take(k as int), want),
            result.scanned == k,
            result.suppressed@.len() == 0,
            result.new_violations@.len() == 0,
        decreases files.len() - k,
    {
        let mut found = scan_content_for_patterns(files[k].0.as_str(), files[k].1.as_str(), &compiled);
        let ghost found_v = found@;
        let ghost before = result.violations@;
        result.violations.append(&mut found);
        assert(fv.take(k + 1).drop_last() =~= fv.take(k as int));
        assert(fv.take(k + 1).last() == fv[k as int]);
        assert(violations_view(result.violations@) =~= violations_view(before) + violations_view(found_v));
        result.scanned = result.scanned + 1;
        k = k + 1;
    }
    assert(fv.take(fv.len() as int) =~= fv);
    Ok(result)
}

/// Every match of a pattern that is not TODO-like is reported, unless it
/// lies inside a string literal: with no match inside a string, the
/// violations of the matches are one per match, each a warning that the
/// pattern was found on that line; the TODO-context skip plays no part.
pub proof fn lemma_plain_pattern_matches_reported(
    file: Seq<char>,
    line: Seq<char>,
    line_number: int,
    p: CompiledPatternView,
    spans: Seq<(usize, usize)>,
)
    requires
        !p.is_todo_like,
        forall|k: int| 0 <= k < spans.len() ==> !inside_string(line, (#[trigger] spans[k]).0 as int),
    ensures
        span_violations(file, line, line_number, p, spans).len() == spans.len(),
        forall|k: int|
            0 <= k < spans.len() ==> #[trigger] span_violations(file, line, line_number, p, spans)[k]
                == (ViolationView {
                rule: ViolationRule::ForbiddenPattern,
                message: forbidden_message(p),
                file: file,
                line: line_number,
                severity: Severity::Warning,
            }),
    decreases spans.len(),
{
    if spans.len() > 0 {
        let d = spans.drop_last();
        assert forall|k: int| 0 <= k < d.len() implies !inside_string(line, (#[trigger] d[k]).0 as int) by {
            assert(d[k] == spans[k]);
        }
        lemma_plain_pattern_matches_reported(file, line, line_number, p, d);
        assert(!inside_string(line, spans[spans.len() - 1].0 as int));
    }
}

/// A match inside a string literal is never reported, whatever the pattern.
pub proof fn lemma_string_matches_not_reported(
    file: Seq<char>,
    line: Seq<char>,
    line_number: int,
    p: CompiledPatternView,
    spans: Seq<(usize, usize)>,
)
    requires
        forall|k: int| 0 <= k < spans.len() ==> inside_string(line, (#[trigger] spans[k]).0 as int),
    ensures
        span_violations(file, line, line_number, p, spans).len() == 0,
    decreases spans.len(),
{
    if spans.len() > 0 {
        let d = spans.drop_last();
        assert forall|k: int| 0 <= k < d.len() implies inside_string(line, (#[trigger] d[k]).0 as int) by {
            assert(d[k] == spans[k]);
        }
        lemma_string_matches_not_reported(file, line, line_number, p, d);
        assert(inside_string(line, spans[spans.len() - 1].0 as int));
    }
}

} // verus!
