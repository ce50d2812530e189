//! Detection of god objects, god files, and god functions.
//!
//! Identifies components that have grown too large or complex:
//! - God files: too many lines or functions
//! - God functions: too many lines or excessive complexity
//! - God classes: too many methods
use vstd::prelude::*;

use crate::detect::types::{
    violations_view, DetectionResult, Severity, Violation, ViolationRule, ViolationView,
};
use crate::parser::languages::language_parser;
use crate::parser::treesitter::{symbols_outcome, TreeSitterParser};
use crate::parser::{default_registrations, for_extension, registered, ParserLanguage, Symbol, SymbolWithComplexity};
use crate::paths::{path_extension, path_extension_of};
use crate::text::{
    chars_eq_str, chars_of, concat, concat_str, decimal, find_char_from, find_from, find_seq,
    first_char_from, first_occurrence_from, has_prefix, int_decimal, i32_to_decimal, lines_of,
    slice_range, starts_with, str_lines, string_of, usize_to_decimal,
};

verus! {

/// Configuration for god object detection.
#[derive(Debug, Clone, Copy, PartialEq, Eq, Structural)]
pub struct GodObjectConfig {
    /// Maximum lines per file before flagging (default: 1000, strict: 500)
    pub max_file_lines: usize,
    /// Maximum lines per function before flagging (default: 100, strict: 50)
    pub max_function_lines: usize,
    /// Maximum cyclomatic complexity per function (default: 20, strict: 15)
    pub max_function_complexity: usize,
    /// Maximum functions per file (default: 30, strict: 20)
    pub max_functions_per_file: usize,
    /// Maximum methods per class (default: 20, strict: 15)
    pub max_class_methods: usize,
}

impl Default for GodObjectConfig {
    fn default() -> (r: GodObjectConfig)
        ensures
            r == (GodObjectConfig {
                max_file_lines: 1000,
                max_function_lines: 100,
                max_function_complexity: 20,
                max_functions_per_file: 30,
                max_class_methods: 20,
            }),
    {
        GodObjectConfig {
            max_file_lines: 1000,
            max_function_lines: 100,
            max_function_complexity: 20,
            max_functions_per_file: 30,
            max_class_methods: 20,
        }
    }
}

impl GodObjectConfig {
    /// Strict thresholds, aimed at AI-generated code.
    pub fn strict() -> (r: GodObjectConfig)
        ensures
            r == (GodObjectConfig {
                max_file_lines: 500,
                max_function_lines: 50,
                max_function_complexity: 15,
                max_functions_per_file: 20,
                max_class_methods: 15,
            }),
    {
        GodObjectConfig {
            max_file_lines: 500,
            max_function_lines: 50,
            max_function_complexity: 15,
            max_functions_per_file: 20,
            max_class_methods: 15,
        }
    }

    /// Relaxed thresholds for large, mature codebases.
    pub fn relaxed() -> (r: GodObjectConfig)
        ensures
            r == (GodObjectConfig {
                max_file_lines: 2000,
                max_function_lines: 200,
                max_function_complexity: 30,
                max_functions_per_file: 50,
                max_class_methods: 30,
            }),
    {
        GodObjectConfig {
            max_file_lines: 2000,
            max_function_lines: 200,
            max_function_complexity: 30,
            max_functions_per_file: 50,
            max_class_methods: 30,
        }
    }
}

// ---------------------------------------------------------------------------
// Classes of methods
// ---------------------------------------------------------------------------

/// The class part of a method name like `Class.method`, `Class::method` or
/// `Class->method` (the first separator kind found wins, in that order).
pub open spec fn class_of(name: Seq<char>) -> Option<Seq<char>> {
    if first_char_from(name, '.', 0) < name.len() {
        Some(name.take(first_char_from(name, '.', 0)))
    } else if find_seq(name, "::"@) is Some {
        Some(name.take(find_seq(name, "::"@).unwrap()))
    } else if find_seq(name, "->"@) is Some {
        Some(name.take(find_seq(name, "->"@).unwrap()))
    } else {
        None
    }
}

/// Extract the class name from a method name.
pub fn extract_class_from_method(method_name: &str) -> (r: Option<String>)
    ensures
        crate::paths::opt_string_view(r) == class_of(method_name@),
{
    let cs = chars_of(method_name);
    let dot = find_char_from(cs.as_slice(), '.', 0);
    if dot < cs.len() {
        let head = slice_range(cs.as_slice(), 0, dot);
        assert(head@ =~= cs@.take(dot as int));
        return Some(string_of(head.as_slice()));
    }
    match find_from(cs.as_slice(), chars_of("::").as_slice(), 0) {
        Some(pos) => {
            let head = slice_range(cs.as_slice(), 0, pos);
            assert(head@ =~= cs@.take(pos as int));
            return Some(string_of(head.as_slice()));
        },
        None => {},
    }
    match find_from(cs.as_slice(), chars_of("->").as_slice(), 0) {
        Some(pos) => {
            let head = slice_range(cs.as_slice(), 0, pos);
            assert(head@ =~= cs@.take(pos as int));
            Some(string_of(head.as_slice()))
        },
        None => None,
    }
}

pub open spec fn is_kind(s: SymbolWithComplexity, k: Seq<char>) -> bool {
    s.symbol.kind@ == k
}

/// The class of a method symbol, if it has one.
pub open spec fn method_class(s: SymbolWithComplexity) -> Option<Seq<char>> {
    if is_kind(s, "method"@) {
        class_of(s.symbol.name@)
    } else {
        None
    }
}

/// The classes of the methods, in order of first appearance.
pub open spec fn class_list(syms: Seq<SymbolWithComplexity>) -> Seq<Seq<char>>
    decreases syms.len(),
{
    if syms.len() == 0 {
        Seq::empty()
    } else {
        let prev = class_list(syms.drop_last());
        match method_class(syms.last()) {
            Some(c) => if prev.contains(c) {
                prev
            } else {
                prev.push(c)
            },
            None => prev,
        }
    }
}

/// The number of methods of a class.
pub open spec fn method_count(syms: Seq<SymbolWithComplexity>, class: Seq<char>) -> nat
    decreases syms.len(),
{
    if syms.len() == 0 {
        0
    } else {
        method_count(syms.drop_last(), class) + if method_class(syms.last()) == Some(class) {
            1nat
        } else {
            0nat
        }
    }
}

/// The line of the first method whose name starts with the class name (1 if none).
pub open spec fn first_method_line(syms: Seq<SymbolWithComplexity>, class: Seq<char>) -> int
    decreases syms.len(),
{
    if syms.len() == 0 {
        1
    } else if is_kind(syms[0], "method"@) && has_prefix(syms[0].symbol.name@, class) {
        syms[0].symbol.line as int
    } else {
        first_method_line(syms.drop_first(), class)
    }
}

/// The number of function symbols.
pub open spec fn function_count(syms: Seq<SymbolWithComplexity>) -> nat
    decreases syms.len(),
{
    if syms.len() == 0 {
        0
    } else {
        function_count(syms.drop_last()) + if is_kind(syms.last(), "function"@) {
            1nat
        } else {
            0nat
        }
    }
}

// ---------------------------------------------------------------------------
// Function length
// ---------------------------------------------------------------------------

/// The smallest symbol line after `start`, if any.
pub open spec fn next_line_after(lines: Seq<usize>, start: int) -> Option<int>
    decreases lines.len(),
{
    if lines.len() == 0 {
        None
    } else {
        let rest = next_line_after(lines.drop_last(), start);
        let l = lines.last() as int;
        if l > start {
            match rest {
                Some(m) => Some(if l < m {
                    l
                } else {
                    m
                }),
                None => Some(l),
            }
        } else {
            rest
        }
    }
}

/// A function runs from its line to the line before the next symbol (or to
/// the end of the file): that many lines, counting its first.
pub open spec fn estimated_lines(line_count: int, start: int, lines: Seq<usize>) -> int {
    let end = match next_line_after(lines, start) {
        Some(l) => l - 1,
        None => line_count,
    };
    (if end > start {
        end - start
    } else {
        0
    }) + 1
}

/// The next symbol line after `start` is the smallest of the symbol lines
/// greater than `start`; there is none exactly when no symbol line is
/// greater than `start`.
pub proof fn lemma_next_line_is_smallest_later(lines: Seq<usize>, start: int)
    ensures
        next_line_after(lines, start) is None <==> forall|j: int|
            0 <= j < lines.len() ==> #[trigger] lines[j] <= start,
        next_line_after(lines, start) matches Some(m) ==> m > start && (exists|j: int|
            0 <= j < lines.len() && #[trigger] lines[j] == m) && forall|j: int|
            0 <= j < lines.len() && #[trigger] lines[j] > start ==> m <= lines[j],
    decreases lines.len(),
{
    if lines.len() > 0 {
        let d = lines.drop_last();
        lemma_next_line_is_smallest_later(d, start);
        assert forall|j: int| 0 <= j < d.len() implies d[j] == lines[j] by {}
        let n = lines.len() - 1;
        match next_line_after(d, start) {
            Some(m) => {
                let j0 = choose|j: int| 0 <= j < d.len() && #[trigger] d[j] == m;
                assert(lines[j0] == m);
            },
            None => {},
        }
        if next_line_after(lines, start) is None {
            assert forall|j: int| 0 <= j < lines.len() implies #[trigger] lines[j] <= start by {
                if j < n {
                    assert(d[j] == lines[j]);
                }
            }
        }
        if next_line_after(lines, start) is Some {
            let m = next_line_after(lines, start)->0;
            if lines[n] == m {
            } else {
                let j0 = choose|j: int| 0 <= j < d.len() && #[trigger] d[j] == m;
                assert(lines[j0] == m);
            }
            assert forall|j: int| 0 <= j < lines.len() && #[trigger] lines[j] > start implies m
                <= lines[j] by {
                if j < n {
                    assert(d[j] == lines[j]);
                }
            }
        }
    }
}

/// A function is estimated to run up to the line before the first symbol
/// that starts after it: given the smallest symbol line `next` after the
/// function's start, the estimate counts the lines from the start to the
/// line before `next`.
pub proof fn lemma_estimate_ends_before_next_symbol(
    line_count: int,
    start: int,
    lines: Seq<usize>,
    next: int,
)
    requires
        next > start,
        exists|j: int| 0 <= j < lines.len() && #[trigger] lines[j] == next,
        forall|j: int| 0 <= j < lines.len() && #[trigger] lines[j] > start ==> next <= lines[j],
    ensures
        estimated_lines(line_count, start, lines) == (if next - 1 > start {
            next - 1 - start
        } else {
            0
        }) + 1,
{
    lemma_next_line_is_smallest_later(lines, start);
    let j0 = choose|j: int| 0 <= j < lines.len() && #[trigger] lines[j] == next;
    assert(lines[j0] > start);
    let m = next_line_after(lines, start)->0;
    let j1 = choose|j: int| 0 <= j < lines.len() && #[trigger] lines[j] == m;
    assert(m <= next);
    assert(next <= lines[j1]);
}

/// Without a later symbol, a function is estimated to run to the end of the
/// file.
pub proof fn lemma_estimate_runs_to_end(line_count: int, start: int, lines: Seq<usize>)
    requires
        forall|j: int| 0 <= j < lines.len() ==> #[trigger] lines[j] <= start,
    ensures
        estimated_lines(line_count, start, lines) == (if line_count > start {
            line_count - start
        } else {
            0
        }) + 1,
{
    lemma_next_line_is_smallest_later(lines, start);
}

/// Estimate the number of lines in a function from the next symbol's line.
pub fn estimate_function_lines_fast(line_count: usize, func_start: usize, symbols: &[Symbol]) -> (r:
    usize)
    requires
        line_count < usize::MAX,
    ensures
        r == estimated_lines(
            line_count as int,
            func_start as int,
            symbols@.map_values(|s: Symbol| s.line),
        ),
{
    let ghost ls = symbols@.map_values(|s: Symbol| s.line);
    let mut next: Option<usize> = None;
    let mut i: usize = 0;
    while i < symbols.len()
        invariant
            i <= symbols@.len(),
            ls == symbols@.map_values(|s: Symbol| s.line),
            match next {
                Some(n) => next_line_after(ls.take(i as int), func_start as int) == Some(n as int)
                    && n > func_start,
                None => next_line_after(ls.take(i as int), func_start as int) is None,
            },
        decreases symbols.len() - i,
    {
        let l = symbols[i].line;
        assert(ls.take(i + 1).drop_last() =~= ls.take(i as int));
        assert(ls.take(i + 1).last() == l);
        if l > func_start {
            next = match next {
                Some(m) => Some(
                    if l < m {
                        l
                    } else {
                        m
                    },
                ),
                None => Some(l),
            };
        }
        i = i + 1;
    }
    assert(ls.take(ls.len() as int) =~= ls);
    let func_end = match next {
        Some(l) => l - 1,
        None => line_count,
    };
    let span = if func_end > func_start {
        func_end - func_start
    } else {
        0
    };
    span + 1
}

// ---------------------------------------------------------------------------
// One file
// ---------------------------------------------------------------------------

/// Symbols are looked at only when the file is long enough to hold a long
/// function or too many functions.
pub open spec fn parse_needed(line_count: int, config: GodObjectConfig) -> bool {
    !(line_count <= config.max_function_lines && line_count < config.max_functions_per_file)
}

/// Whether a file of this many lines has to be parsed for its symbols.
pub fn god_check_needs_symbols(line_count: usize, config: &GodObjectConfig) -> (r: bool)
    ensures
        r == parse_needed(line_count as int, *config),
{
    !(line_count <= config.max_function_lines && line_count < config.max_functions_per_file)
}

pub open spec fn god(rule: ViolationRule, file: Seq<char>, line: int, message: Seq<char>) -> ViolationView {
    ViolationView { rule, message, file, line, severity: Severity::Warning }
}

/// The violations of the classes (from `k` on in `classes`) with too many methods.
pub open spec fn class_violations(
    file: Seq<char>,
    syms: Seq<SymbolWithComplexity>,
    classes: Seq<Seq<char>>,
    config: GodObjectConfig,
) -> Seq<ViolationView>
    decreases classes.len(),
{
    if classes.len() == 0 {
        Seq::empty()
    } else {
        let prev = class_violations(file, syms, classes.drop_last(), config);
        let c = classes.last();
        let n = method_count(syms, c);
        if n > config.max_class_methods {
            prev.push(
                god(
                    ViolationRule::GodClass,
                    file,
                    first_method_line(syms, c),
                    "class '"@ + c + "' has "@ + decimal(n) + " methods, exceeds maximum of "@
                        + decimal(config.max_class_methods as nat),
                ),
            )
        } else {
            prev
        }
    }
}

pub open spec fn symbol_lines(syms: Seq<SymbolWithComplexity>) -> Seq<usize> {
    syms.map_values(|s: SymbolWithComplexity| s.symbol.line)
}

/// The violations of one function or method symbol: too long, and (when
/// longer than ten lines) too complex.
pub open spec fn function_violations(
    file: Seq<char>,
    line_count: int,
    all: Seq<SymbolWithComplexity>,
    s: SymbolWithComplexity,
    config: GodObjectConfig,
) -> Seq<ViolationView> {
    if is_kind(s, "function"@) || is_kind(s, "method"@) {
        let lines = estimated_lines(line_count, s.symbol.line as int, symbol_lines(all));
        let name = s.symbol.name@;
        let long = if lines > config.max_function_lines {
            seq![
                god(
                    ViolationRule::GodFunction,
                    file,
                    s.symbol.line as int,
                    "function '"@ + name + "' has ~"@ + decimal(lines as nat)
                        + " lines, exceeds maximum of "@ + decimal(config.max_function_lines as nat),
                ),
            ]
        } else {
            Seq::empty()
        };
        let complex = if lines > 10 && s.complexity is Some && s.complexity.unwrap() > (
        config.max_function_complexity as i32) {
            seq![
                god(
                    ViolationRule::GodFunction,
                    file,
                    s.symbol.line as int,
                    "function '"@ + name + "' has complexity "@ + int_decimal(
                        s.complexity.unwrap() as int,
                    ) + ", exceeds maximum of "@ + decimal(config.max_function_complexity as nat),
                ),
            ]
        } else {
            Seq::empty()
        };
        long + complex
    } else {
        Seq::empty()
    }
}

pub open spec fn all_function_violations(
    file: Seq<char>,
    line_count: int,
    all: Seq<SymbolWithComplexity>,
    syms: Seq<SymbolWithComplexity>,
    config: GodObjectConfig,
) -> Seq<ViolationView>
    decreases syms.len(),
{
    if syms.len() == 0 {
        Seq::empty()
    } else {
        all_function_violations(file, line_count, all, syms.drop_last(), config)
            + function_violations(file, line_count, all, syms.last(), config)
    }
}

/// The god-object violations of a file: too many lines; then, when the file
/// is long enough to look at its symbols and they are known, too many
/// functions, classes with too many methods, and functions too long or too
/// complex.
pub open spec fn god_violations(
    file: Seq<char>,
    content: Seq<char>,
    symbols: Option<Seq<SymbolWithComplexity>>,
    config: GodObjectConfig,
) -> Seq<ViolationView> {
    let n = str_lines(content).len() as int;
    let lines_v = if n > config.max_file_lines {
        seq![
            god(
                ViolationRule::GodFile,
                file,
                1,
                "file has "@ + decimal(n as nat) + " lines, exceeds maximum of "@ + decimal(
                    config.max_file_lines as nat,
                ),
            ),
        ]
    } else {
        Seq::empty()
    };
    if !parse_needed(n, config) || symbols is None {
        lines_v
    } else {
        let syms = symbols.unwrap();
        let fc = function_count(syms);
        let count_v = if fc > config.max_functions_per_file {
            seq![
                god(
                    ViolationRule::GodFile,
                    file,
                    1,
                    "file has "@ + decimal(fc) + " functions, exceeds maximum of "@ + decimal(
                        config.max_functions_per_file as nat,
                    ),
                ),
            ]
        } else {
            Seq::empty()
        };
        lines_v + count_v + class_violations(file, syms, class_list(syms), config)
            + all_function_violations(file, n, syms, syms, config)
    }
}

fn is_kind_exec(s: &SymbolWithComplexity, k: &str) -> (r: bool)
    ensures
        r == is_kind(*s, k@),
{
    crate::detect::types::str_eq(s.symbol.kind.as_str(), k)
}

fn message3(a: &str, x: &[char], b: &str, y: &[char], c: &str, z: &[char]) -> (r: String)
    ensures
        r@ == a@ + x@ + b@ + y@ + c@ + z@,
{
    let p = concat(chars_of(a).as_slice(), x);
    let q = concat_str(p.as_slice(), b);
    let s = concat(q.as_slice(), y);
    let t = concat_str(s.as_slice(), c);
    let u = concat(t.as_slice(), z);
    string_of(u.as_slice())
}

fn message2(a: &str, x: &[char], b: &str, y: &[char]) -> (r: String)
    ensures
        r@ == a@ + x@ + b@ + y@,
{
    let p = concat(chars_of(a).as_slice(), x);
    let q = concat_str(p.as_slice(), b);
    let s = concat(q.as_slice(), y);
    string_of(s.as_slice())
}

fn push_god(out: &mut Vec<Violation>, rule: ViolationRule, file: &str, line: usize, message: String)
    ensures
        violations_view(final(out)@) == violations_view(old(out)@).push(
            god(rule, file@, line as int, message@),
        ),
{
    out.push(
        Violation {
            rule,
            message,
            file: string_of(chars_of(file).as_slice()),
            line,
            severity: Severity::Warning,
        },
    );
    assert(violations_view(final(out)@) =~= violations_view(old(out)@).push(
        god(rule, file@, line as int, message@),
    ));
}

fn count_functions(syms: &Vec<SymbolWithComplexity>) -> (r: usize)
    ensures
        r == function_count(syms@),
{
    let mut n: usize = 0;
    let mut i: usize = 0;
    while i < syms.len()
        invariant
            i <= syms@.len(),
            n == function_count(syms@.take(i as int)),
            n <= i,
        decreases syms.len() - i,
    {
        assert(syms@.take(i + 1).drop_last() =~= syms@.take(i as int));
        if is_kind_exec(&syms[i], "function") {
            n = n + 1;
        }
        i = i + 1;
    }
    assert(syms@.take(syms@.len() as int) =~= syms@);
    n
}

fn method_class_exec(s: &SymbolWithComplexity) -> (r: Option<String>)
    ensures
        crate::paths::opt_string_view(r) == method_class(*s),
{
    if is_kind_exec(s, "method") {
        extract_class_from_method(s.symbol.name.as_str())
    } else {
        None
    }
}

/// The classes in order of first appearance, with their method counts.
fn classes_with_counts(syms: &Vec<SymbolWithComplexity>) -> (r: Vec<(String, usize)>)
    ensures
        r@.map_values(|p: (String, usize)| p.0@) == class_list(syms@),
        forall|j: int| 0 <= j < r@.len() ==> (#[trigger] r@[j]).1 == method_count(syms@, r@[j].0@),
{
    let mut r: Vec<(String, usize)> = Vec::new();
    let mut i: usize = 0;
    while i < syms.len()
        invariant
            i <= syms@.len(),
            r@.map_values(|p: (String, usize)| p.0@) == class_list(syms@.take(i as int)),
            forall|a: int, b: int| 0 <= a < b < r@.len() ==> (#[trigger] r@[a]).0@ != (#[trigger] r@[b]).0@,
            forall|j: int|
                0 <= j < r@.len() ==> (#[trigger] r@[j]).1 == method_count(syms@.take(i as int), r@[j].0@),
            forall|j: int| 0 <= j < r@.len() ==> (#[trigger] r@[j]).1 <= i,
        decreases syms.len() - i,
    {
        let ghost pre = syms@.take(i as int);
        let ghost post = syms@.take(i + 1);
        let ghost old_r = r@;
        let ghost names = r@.map_values(|p: (String, usize)| p.0@);
        assert(post.drop_last() =~= pre);
        assert(post.last() == syms@[i as int]);
        let mc = method_class_exec(&syms[i]);
        match mc {
            Some(c) => {
                let mut k: usize = 0;
                while k < r.len() && !crate::detect::types::str_eq(r[k].0.as_str(), c.as_str())
                    invariant
                        k <= r@.len(),
                        forall|j: int| 0 <= j < k ==> (#[trigger] r@[j]).0@ != c@,
                    decreases r.len() - k,
                {
                    k = k + 1;
                }
                if k < r.len() {
                    assert(names[k as int] == c@);
                    assert(names.contains(c@));
                    let name = r[k].0.clone();
                    let count = r[k].1;
                    r.set(k, (name, count + 1));
                    assert(r@.map_values(|p: (String, usize)| p.0@) =~= names);
                    assert forall|j: int| 0 <= j < r@.len() implies (#[trigger] r@[j]).1 == method_count(
                        post,
                        r@[j].0@,
                    ) by {
                        if j != k {
                            assert(old_r[j].0@ != old_r[k as int].0@);
                            assert(r@[j] == old_r[j]);
                        }
                    }
                } else {
                    assert(!names.contains(c@)) by {
                        if names.contains(c@) {
                            let j = choose|j: int| 0 <= j < names.len() && names[j] == c@;
                            assert(r@[j].0@ == c@);
                        }
                    }
                    r.push((c, 1));
                    assert(r@.map_values(|p: (String, usize)| p.0@) =~= names.push(c@));
                    assert forall|j: int| 0 <= j < r@.len() implies (#[trigger] r@[j]).1 == method_count(
                        post,
                        r@[j].0@,
                    ) by {
                        if j < old_r.len() {
                            assert(r@[j] == old_r[j]);
                            assert(names[j] == old_r[j].0@);
                        } else {
                            lemma_method_count_absent(pre, c@);
                        }
                    }
                    assert forall|a: int, b: int| 0 <= a < b < r@.len() implies (#[trigger] r@[a]).0@ != (
                    #[trigger] r@[b]).0@ by {
                        if b == old_r.len() {
                            assert(names[a] == r@[a].0@);
                        } else {
                            assert(r@[a] == old_r[a] && r@[b] == old_r[b]);
                        }
                    }
                }
            },
            None => {},
        }
        i = i + 1;
    }
    assert(syms@.take(syms@.len() as int) =~= syms@);
    r
}

/// A class not (yet) in the list has no methods.
proof fn lemma_method_count_absent(syms: Seq<SymbolWithComplexity>, c: Seq<char>)
    requires
        !class_list(syms).contains(c),
    ensures
        method_count(syms, c) == 0,
    decreases syms.len(),
{
    if syms.len() > 0 {
        let prev = class_list(syms.drop_last());
        assert(!prev.contains(c)) by {
            if prev.contains(c) {
                let j = choose|j: int| 0 <= j < prev.len() && prev[j] == c;
                match method_class(syms.last()) {
                    Some(d) => {
                        if !prev.contains(d) {
                            assert(prev.push(d)[j] == c);
                        }
                    },
                    None => {},
                }
            }
        }
        lemma_method_count_absent(syms.drop_last(), c);
        if method_class(syms.last()) == Some(c) {
            assert(class_list(syms) =~= prev.push(c));
            assert(class_list(syms)[prev.len() as int] == c);
        }
    }
}

fn first_method_line_exec(syms: &Vec<SymbolWithComplexity>, class: &str) -> (r: usize)
    ensures
        r == first_method_line(syms@, class@),
{
    let mut i: usize = 0;
    assert(syms@.skip(0) =~= syms@);
    while i < syms.len()
        invariant
            i <= syms@.len(),
            first_method_line(syms@, class@) == first_method_line(syms@.skip(i as int), class@),
        decreases syms.len() - i,
    {
        assert(syms@.skip(i as int)[0] == syms@[i as int]);
        if is_kind_exec(&syms[i], "method") && starts_with(
            chars_of(syms[i].symbol.name.as_str()).as_slice(),
            chars_of(class).as_slice(),
        ) {
            return syms[i].symbol.line;
        }
        assert(syms@.skip(i as int).drop_first() =~= syms@.skip(i + 1));
        i = i + 1;
    }
    assert(syms@.skip(i as int) =~= Seq::<SymbolWithComplexity>::empty());
    1
}

/// The symbols a parse gave, when it succeeded.
pub open spec fn known_symbols(s: Option<Result<Vec<SymbolWithComplexity>, String>>) -> Option<
    Seq<SymbolWithComplexity>,
> {
    match s {
        Some(Ok(v)) => Some(v@),
        _ => None,
    }
}

/// The error of a file's check: the parse of its symbols failed where the
/// file is long enough to need them.
pub open spec fn god_parse_error(
    content: Seq<char>,
    symbols: Option<Result<Vec<SymbolWithComplexity>, String>>,
    config: GodObjectConfig,
) -> Option<Seq<char>> {
    if parse_needed(str_lines(content).len() as int, config) {
        match symbols {
            Some(Err(e)) => Some(e@),
            _ => None,
        }
    } else {
        None
    }
}

/// Check one file (its path, content and, when a parser handles its
/// extension, what parsing its symbols gave) for god-object issues; fails
/// with the parse's error where the file needs its symbols and they could
/// not be parsed.
pub fn check_file(
    file_str: &str,
    content: &str,
    symbols: &Option<Result<Vec<SymbolWithComplexity>, String>>,
    config: &GodObjectConfig,
) -> (r: Result<Vec<Violation>, String>)
    requires
        str_lines(content@).len() < usize::MAX,
    ensures
        match god_parse_error(content@, *symbols, *config) {
            Some(e) => r matches Err(x) && x@ == e,
            None => r matches Ok(v) && violations_view(v@) == god_violations(
                file_str@,
                content@,
                known_symbols(*symbols),
                *config,
            ),
        },
{
    let lines = lines_of(chars_of(content).as_slice());
    let line_count = lines.len();
    let mut violations: Vec<Violation> = Vec::new();
    if line_count > config.max_file_lines {
        let m = message2(
            "file has ",
            usize_to_decimal(line_count).as_slice(),
            " lines, exceeds maximum of ",
            usize_to_decimal(config.max_file_lines).as_slice(),
        );
        push_god(&mut violations, ViolationRule::GodFile, file_str, 1, m);
    }
    assert(violations_view(violations@) =~= (if line_count > config.max_file_lines {
        seq![
            god(
                ViolationRule::GodFile,
                file_str@,
                1,
                "file has "@ + decimal(line_count as nat) + " lines, exceeds maximum of "@
                    + decimal(config.max_file_lines as nat),
            ),
        ]
    } else {
        Seq::empty()
    }));
    if !god_check_needs_symbols(line_count, config) {
        return Ok(violations);
    }
    let syms = match symbols {
        Some(Ok(s)) => s,
        Some(Err(e)) => {
            return Err(string_of(chars_of(e.as_str()).as_slice()));
        },
        None => {
            return Ok(violations);
        },
    };
    let fc = count_functions(syms);
    if fc > config.max_functions_per_file {
        let m = message2(
            "file has ",
            usize_to_decimal(fc).as_slice(),
            " functions, exceeds maximum of ",
            usize_to_decimal(config.max_functions_per_file).as_slice(),
        );
        push_god(&mut violations, ViolationRule::GodFile, file_str, 1, m);
    }
    let ghost after_counts = violations_view(violations@);
    let classes = classes_with_counts(syms);
    let ghost cl = class_list(syms@);
    let mut k: usize = 0;
    while k < classes.len()
        invariant
            k <= classes@.len(),
            classes@.map_values(|p: (String, usize)| p.0@) == cl,
            cl == class_list(syms@),
            forall|j: int| 0 <= j < classes@.len() ==> (#[trigger] classes@[j]).1 == method_count(syms@, classes@[j].0@),
            violations_view(violations@) == after_counts + class_violations(
                file_str@,
                syms@,
                cl.take(k as int),
                *config,
            ),
        decreases classes.len() - k,
    {
        let (ref c, n) = classes[k];
        assert(cl.take(k + 1).drop_last() =~= cl.take(k as int));
        assert(cl.take(k + 1).last() == c@);
        if n > config.max_class_methods {
            let line = first_method_line_exec(syms, c.as_str());
            let m = message3(
                "class '",
                chars_of(c.as_str()).as_slice(),
                "' has ",
                usize_to_decimal(n).as_slice(),
                " methods, exceeds maximum of ",
                usize_to_decimal(config.max_class_methods).as_slice(),
            );
            let ghost before = violations_view(violations@);
            push_god(&mut violations, ViolationRule::GodClass, file_str, line, m);
        }
        k = k + 1;
    }
    assert(cl.take(cl.len() as int) =~= cl);
    let ghost after_classes = violations_view(violations@);
    let mut plain: Vec<Symbol> = Vec::new();
    let mut j: usize = 0;
    while j < syms.len()
        invariant
            j <= syms@.len(),
            plain@.len() == j,
            forall|q: int| 0 <= q < j ==> (#[trigger] plain@[q]).line == syms@[q].symbol.line,
        decreases syms.len() - j,
    {
        let sym = &syms[j].symbol;
        plain.push(
            Symbol {
                name: sym.name.clone(),
                kind: sym.kind.clone(),
                file: sym.file.clone(),
                line: sym.line,
            },
        );
        j = j + 1;
    }
    assert(plain@.map_values(|s: Symbol| s.line) =~= symbol_lines(syms@));
    let mut i: usize = 0;
    while i < syms.len()
        invariant
            i <= syms@.len(),
            line_count == str_lines(content@).len(),
            line_count < usize::MAX,
            plain@.map_values(|s: Symbol| s.line) == symbol_lines(syms@),
            violations_view(violations@) == after_classes + all_function_violations(
                file_str@,
                line_count as int,
                syms@,
                syms@.take(i as int),
                *config,
            ),
        decreases syms.len() - i,
    {
        let s = &syms[i];
        assert(syms@.take(i + 1).drop_last() =~= syms@.take(i as int));
        assert(syms@.take(i + 1).last() == *s);
        let ghost before = violations_view(violations@);
        if is_kind_exec(s, "function") || is_kind_exec(s, "method") {
            let func_lines = estimate_function_lines_fast(line_count, s.symbol.line, plain.as_slice());
            let name = chars_of(s.symbol.name.as_str());
            if func_lines > config.max_function_lines {
                let m = message3(
                    "function '",
                    name.as_slice(),
                    "' has ~",
                    usize_to_decimal(func_lines).as_slice(),
                    " lines, exceeds maximum of ",
                    usize_to_decimal(config.max_function_lines).as_slice(),
                );
                push_god(&mut violations, ViolationRule::GodFunction, file_str, s.symbol.line, m);
            }
            let ghost mid = violations_view(violations@);
            if func_lines > 10 {
                match s.complexity {
                    Some(cx) => {
                        if cx > config.max_function_complexity as i32 {
                            let m = message3(
                                "function '",
                                name.as_slice(),
                                "' has complexity ",
                                i32_to_decimal(cx).as_slice(),
                                ", exceeds maximum of ",
                                usize_to_decimal(config.max_function_complexity).as_slice(),
                            );
                            push_god(
                                &mut violations,
                                ViolationRule::GodFunction,
                                file_str,
                                s.symbol.line,
                                m,
                            );
                        }
                    },
                    None => {},
                }
            }
            assert(violations_view(violations@) =~= before + function_violations(
                file_str@,
                line_count as int,
                syms@,
                *s,
                *config,
            ));
        }
        i = i + 1;
    }
    assert(syms@.take(syms@.len() as int) =~= syms@);
    Ok(violations)
}

/// The language whose parser reads a file for the god-object check: none
/// where the file is too short to need its symbols or no parser is
/// registered for its extension (with the dot).
pub open spec fn god_parser_language(path: Seq<char>, content: Seq<char>, config: GodObjectConfig) -> Option<
    ParserLanguage,
> {
    if !parse_needed(str_lines(content).len() as int, config) {
        None
    } else {
        match path_extension_of(path) {
            Some(e) => registered(default_registrations(), "."@ + e),
            None => None,
        }
    }
}

/// Parse a file's symbols with their complexity for the god-object check:
/// nothing where the file is too short to need them or no parser handles
/// its extension; else what that language's parser gives for the content.
pub fn god_symbols(path: &str, content: &str, config: &GodObjectConfig) -> (r: Option<
    Result<Vec<SymbolWithComplexity>, String>,
>)
    ensures
        match god_parser_language(path@, content@, *config) {
            None => r is None,
            Some(language) => r matches Some(res) && exists|p: TreeSitterParser|
                #![trigger symbols_outcome(p, content, res)]
                p.language == language && symbols_outcome(p, content, res),
        },
{
    let lines = lines_of(chars_of(content).as_slice());
    if !god_check_needs_symbols(lines.len(), config) {
        return None;
    }
    let e = match path_extension(path) {
        Some(e) => e,
        None => return None,
    };
    let ext = string_of(concat_str(chars_of(".").as_slice(), e.as_str()).as_slice());
    proof {
        reveal_strlit(".");
    }
    let language = match for_extension(ext.as_str()) {
        Some(l) => l,
        None => return None,
    };
    let parser = language_parser(language);
    let res = parser.parse_symbols_with_complexity(content);
    assert(symbols_outcome(parser, content, res));
    Some(res)
}

/// One file to check: its path, content and what parsing its symbols gave
/// (`None` when no parser handles its extension or the file is too short
/// to need them).
#[derive(Debug, Clone)]
pub struct GodFileInput {
    pub path: String,
    pub content: String,
    pub symbols: Option<Result<Vec<SymbolWithComplexity>, String>>,
}

pub open spec fn input_symbols(f: GodFileInput) -> Option<Seq<SymbolWithComplexity>> {
    known_symbols(f.symbols)
}

/// The error of the first file whose check fails, if any.
pub open spec fn first_god_error(fs: Seq<GodFileInput>, config: GodObjectConfig) -> Option<Seq<char>>
    decreases fs.len(),
{
    if fs.len() == 0 {
        None
    } else {
        match first_god_error(fs.drop_last(), config) {
            Some(e) => Some(e),
            None => god_parse_error(fs.last().content@, fs.last().symbols, config),
        }
    }
}

pub open spec fn all_god_violations(fs: Seq<GodFileInput>, config: GodObjectConfig) -> Seq<
    ViolationView,
>
    decreases fs.len(),
{
    if fs.len() == 0 {
        Seq::empty()
    } else {
        all_god_violations(fs.drop_last(), config) + god_violations(
            fs.last().path@,
            fs.last().content@,
            input_symbols(fs.last()),
            config,
        )
    }
}

/// Detect god objects in the given files; fails with the error of the first
/// file whose symbols were needed and could not be parsed.
pub fn detect_god_objects(files: &[GodFileInput], config: &GodObjectConfig) -> (r: Result<
    DetectionResult,
    String,
>)
    requires
        forall|i: int| 0 <= i < files@.len() ==> str_lines((#[trigger] files@[i]).content@).len() < usize::MAX,
    ensures
        match first_god_error(files@, *config) {
            Some(e) => r matches Err(x) && x@ == e,
            None => r matches Ok(res) && violations_view(res.violations@) == all_god_violations(
                files@,
                *config,
            ) && res.scanned == files@.len() && res.suppressed@.len() == 0
                && res.new_violations@.len() == 0 && res.baseline_ref is None,
        },
{
    let mut result = DetectionResult::new();
    let mut i: usize = 0;
    while i < files.len()
        invariant
            i <= files@.len(),
            forall|i: int| 0 <= i < files@.len() ==> str_lines((#[trigger] files@[i]).content@).len() < usize::MAX,
            violations_view(result.violations@) == all_god_violations(files@.take(i as int), *config),
            result.scanned == i,
            result.suppressed@.len() == 0,
            result.new_violations@.len() == 0,
            result.baseline_ref is None,
            first_god_error(files@.take(i as int), *config) is None,
        decreases files.len() - i,
    {
        let f = &files[i];
        assert(files@.take(i + 1).drop_last() =~= files@.take(i as int));
        assert(files@.take(i + 1).last() == *f);
        let mut found = match check_file(f.path.as_str(), f.content.as_str(), &f.symbols, config) {
            Ok(v) => v,
            Err(e) => {
                proof {
                    lemma_first_error_prefix(files@, *config, i + 1);
                }
                return Err(e);
            },
        };
        let ghost found_v = found@;
        let ghost before = result.violations@;
        result.violations.append(&mut found);
        assert(files@.take(i + 1).drop_last() =~= files@.take(i as int));
        assert(files@.take(i + 1).last() == *f);
        assert(violations_view(result.violations@) =~= violations_view(before) + violations_view(found_v));
        result.scanned = result.scanned + 1;
        i = i + 1;
    }
    assert(files@.take(files@.len() as int) =~= files@);
    Ok(result)
}

/// An error in a prefix of the files is the first error of all of them.
proof fn lemma_first_error_prefix(fs: Seq<GodFileInput>, config: GodObjectConfig, k: int)
    requires
        0 <= k <= fs.len(),
        first_god_error(fs.take(k), config) is Some,
    ensures
        first_god_error(fs, config) == first_god_error(fs.take(k), config),
    decreases fs.len(),
{
    if k < fs.len() {
        assert(fs.drop_last().take(k) =~= fs.take(k));
        lemma_first_error_prefix(fs.drop_last(), config, k);
    } else {
        assert(fs.take(k) =~= fs);
    }
}

} // verus!
