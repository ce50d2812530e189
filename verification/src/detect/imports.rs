//! Import extraction from source files.
//!
//! Extracts package imports with regular expressions, line by line (Go:
//! over the whole file). Supports Python, JavaScript/TypeScript, Go and Rust.
//! Each package is reported once per file, at its first import; standard
//! library modules are not reported.
use vstd::prelude::*;

use crate::detect::stdlib::{is_stdlib, stdlib_module, StdlibLanguage};
use crate::detect::types::str_eq;
use crate::matching::{
    capture_of, captures_view, group_view, groups_view, regex_all_captures, regex_captures,
    regex_captures_iter, regex_valid,
};
use crate::paths::{extension_or_empty, extension_or_empty_of};
use crate::registry::{registry_for_extension, RegistryType};
use crate::text::{
    chars_of, concat, concat_str, contains_seq, contains_str, find_char_from, first_char_from,
    has_prefix, lemma_first_char_from, lemma_split_from_nonempty, lines_of, slice_range,
    split_by_char, split_char, starts_with_str, str_lines, string_of, trim, trim_chars,
};

verus! {

/// Information about an imported dependency.
#[derive(Debug, Clone, PartialEq, Eq, Hash)]
pub struct ImportedDependency {
    /// The package/module name
    pub name: String,
    /// Which registry this dependency belongs to
    pub registry: RegistryType,
    /// Source file where the import was found
    pub file: String,
    /// Line number where the import was found
    pub line: usize,
}

pub struct ImportView {
    pub name: Seq<char>,
    pub registry: RegistryType,
    pub file: Seq<char>,
    pub line: int,
}

impl View for ImportedDependency {
    type V = ImportView;

    open spec fn view(&self) -> ImportView {
        ImportView {
            name: self.name@,
            registry: self.registry,
            file: self.file@,
            line: self.line as int,
        }
    }
}

pub open spec fn imports_view(v: Seq<ImportedDependency>) -> Seq<ImportView> {
    v.map_values(|d: ImportedDependency| d@)
}

/// Some import of the list has this name.
pub open spec fn has_name(found: Seq<ImportView>, name: Seq<char>) -> bool {
    exists|i: int| 0 <= i < found.len() && (#[trigger] found[i]).name == name
}

/// The list with the import added, unless a package of that name is on it.
pub open spec fn add_import(
    found: Seq<ImportView>,
    name: Seq<char>,
    registry: RegistryType,
    file: Seq<char>,
    line: int,
) -> Seq<ImportView> {
    if has_name(found, name) {
        found
    } else {
        found.push(ImportView { name, registry, file, line })
    }
}

/// Group `i` of a match, if it took part.
pub open spec fn group_at(groups: Seq<Option<Seq<char>>>, i: int) -> Option<Seq<char>> {
    if 0 <= i < groups.len() {
        groups[i]
    } else {
        None
    }
}

/// Every match of the pattern in the text, as its groups.
pub open spec fn all_matches(pattern: Seq<char>, text: Seq<char>) -> Seq<Seq<Option<Seq<char>>>> {
    if regex_valid(pattern) {
        regex_all_captures(pattern, text)
    } else {
        Seq::empty()
    }
}

fn push_new(
    out: &mut Vec<ImportedDependency>,
    name: Vec<char>,
    registry: RegistryType,
    file: &str,
    line: usize,
)
    ensures
        imports_view(final(out)@) == add_import(
            imports_view(old(out)@),
            name@,
            registry,
            file@,
            line as int,
        ),
{
    let ghost found = imports_view(out@);
    let name_str = string_of(name.as_slice());
    let mut i: usize = 0;
    while i < out.len()
        invariant
            i <= out@.len(),
            found == imports_view(out@),
            name_str@ == name@,
            forall|j: int| 0 <= j < i ==> (#[trigger] found[j]).name != name@,
        decreases out.len() - i,
    {
        if str_eq(out[i].name.as_str(), name_str.as_str()) {
            assert(found[i as int].name == name@);
            return ;
        }
        i = i + 1;
    }
    let d = ImportedDependency {
        name: name_str,
        registry,
        file: string_of(chars_of(file).as_slice()),
        line,
    };
    out.push(d);
    assert(imports_view(out@) =~= found.push(d@));
}

fn group_opt(groups: &Vec<Option<Vec<char>>>, i: usize) -> (r: Option<Vec<char>>)
    ensures
        group_view(r) == group_at(groups_view(*groups), i as int),
{
    if i < groups.len() {
        match &groups[i] {
            Some(g) => Some(g.clone()),
            None => None,
        }
    } else {
        None
    }
}

// ---------------------------------------------------------------------------
// Python
// ---------------------------------------------------------------------------

pub open spec fn py_import_re() -> Seq<char> {
    "^\\s*import\\s+([a-zA-Z_][a-zA-Z0-9_]*)"@
}

pub open spec fn py_from_re() -> Seq<char> {
    "^\\s*from\\s+([a-zA-Z_][a-zA-Z0-9_]*)\\s+import\\b"@
}

/// A Python module worth checking: not standard, not private (leading
/// underscore), not relative.
pub open spec fn valid_python_import(name: Seq<char>) -> bool {
    !stdlib_module(StdlibLanguage::Python, name) && !has_prefix(name, "_"@) && !has_prefix(
        name,
        "."@,
    )
}

/// Check if a Python module name is a valid external import to check.
pub fn is_valid_python_import(name: &str) -> (r: bool)
    ensures
        r == valid_python_import(name@),
{
    if is_stdlib(StdlibLanguage::Python, name) {
        return false;
    }
    let cs = chars_of(name);
    if starts_with_str(cs.as_slice(), "_") {
        return false;
    }
    if starts_with_str(cs.as_slice(), ".") {
        return false;
    }
    true
}

/// Where a Python scan stands after some lines: inside a docstring or not,
/// the quote character of the last docstring, and the imports found.
pub struct PyScan {
    pub in_docstring: bool,
    pub quote: char,
    pub found: Seq<ImportView>,
}

pub open spec fn docstring_end(q: char) -> Seq<char> {
    if q == '"' {
        "\"\"\""@
    } else {
        "'''"@
    }
}

/// The import a `import x` / `from x import y` match adds.
pub open spec fn python_add(
    found: Seq<ImportView>,
    cap: Option<(Seq<char>, Seq<Option<Seq<char>>>)>,
    line: int,
    file: Seq<char>,
) -> Seq<ImportView> {
    match cap {
        Some(c) => match group_at(c.1, 1) {
            Some(name) => if valid_python_import(name) {
                add_import(found, name, RegistryType::PyPI, file, line)
            } else {
                found
            },
            None => found,
        },
        None => found,
    }
}

/// One line of a Python file (`idx` counts from 0).
pub open spec fn python_step(st: PyScan, line: Seq<char>, idx: int, file: Seq<char>) -> PyScan {
    let t = trim(line);
    if st.in_docstring {
        PyScan { in_docstring: !contains_seq(t, docstring_end(st.quote)), ..st }
    } else if has_prefix(t, "\"\"\""@) || has_prefix(t, "'''"@) {
        let q = if has_prefix(t, "\""@) {
            '"'
        } else {
            '\''
        };
        PyScan { in_docstring: !contains_seq(t.skip(3), docstring_end(q)), quote: q, found: st.found }
    } else if t.len() == 0 || has_prefix(t, "#"@) {
        st
    } else {
        let a = python_add(st.found, capture_of(py_import_re(), line), idx + 1, file);
        PyScan { found: python_add(a, capture_of(py_from_re(), line), idx + 1, file), ..st }
    }
}

pub open spec fn python_scan(lines: Seq<Seq<char>>, file: Seq<char>) -> PyScan
    decreases lines.len(),
{
    if lines.len() == 0 {
        PyScan { in_docstring: false, quote: '"', found: Seq::empty() }
    } else {
        python_step(
            python_scan(lines.drop_last(), file),
            lines.last(),
            lines.len() - 1,
            file,
        )
    }
}

fn add_python_capture(
    out: &mut Vec<ImportedDependency>,
    pattern: &str,
    line: &[char],
    line_no: usize,
    file: &str,
)
    ensures
        imports_view(final(out)@) == python_add(
            imports_view(old(out)@),
            capture_of(pattern@, line@),
            line_no as int,
            file@,
        ),
{
    let text = string_of(line);
    let cap = regex_captures(pattern, text.as_str());
    match cap {
        Some(c) => {
            let g = group_opt(&c.1, 1);
            match g {
                Some(name) => {
                    let name_str = string_of(name.as_slice());
                    if is_valid_python_import(name_str.as_str()) {
                        push_new(out, name, RegistryType::PyPI, file, line_no);
                    }
                },
                None => {},
            }
        },
        None => {},
    }
}

/// Extract imports from Python source code.
pub fn extract_python_imports(content: &str, file: &str) -> (r: Vec<ImportedDependency>)
    ensures
        imports_view(r@) == python_scan(str_lines(content@), file@).found,
{
    let ghost all = str_lines(content@);
    let lines = lines_of(chars_of(content).as_slice());
    let mut out: Vec<ImportedDependency> = Vec::new();
    let mut in_docstring = false;
    let mut quote = '"';
    assert(imports_view(out@) =~= Seq::<ImportView>::empty());
    let mut i: usize = 0;
    while i < lines.len()
        invariant
            i <= lines@.len(),
            lines@.len() == all.len(),
            all == str_lines(content@),
            forall|k: int| 0 <= k < lines@.len() ==> #[trigger] lines@[k]@ == all[k],
            ({
                let st = python_scan(all.take(i as int), file@);
                &&& st.in_docstring == in_docstring
                &&& st.quote == quote
                &&& st.found == imports_view(out@)
            }),
        decreases lines.len() - i,
    {
        assert(all.take(i + 1).drop_last() =~= all.take(i as int));
        assert(all.take(i + 1).last() == lines@[i as int]@);
        proof {
            reveal_strlit("\"\"\"");
            reveal_strlit("'''");
        }
        let line = &lines[i];
        let t = trim_chars(line.as_slice());
        if in_docstring {
            let end = if quote == '"' {
                "\"\"\""
            } else {
                "'''"
            };
            if contains_str(t.as_slice(), end) {
                in_docstring = false;
            }
        } else if starts_with_str(t.as_slice(), "\"\"\"") || starts_with_str(t.as_slice(), "'''") {
            quote = if starts_with_str(t.as_slice(), "\"") {
                '"'
            } else {
                '\''
            };
            let n = t.len();
            let rest = slice_range(t.as_slice(), 3, n);
            assert(rest@ =~= t@.skip(3));
            let end = if quote == '"' {
                "\"\"\""
            } else {
                "'''"
            };
            in_docstring = !contains_str(rest.as_slice(), end);
        } else if t.len() == 0 || starts_with_str(t.as_slice(), "#") {
        } else {
            add_python_capture(
                &mut out,
                "^\\s*import\\s+([a-zA-Z_][a-zA-Z0-9_]*)",
                line.as_slice(),
                i + 1,
                file,
            );
            add_python_capture(
                &mut out,
                "^\\s*from\\s+([a-zA-Z_][a-zA-Z0-9_]*)\\s+import\\b",
                line.as_slice(),
                i + 1,
                file,
            );
        }
        i = i + 1;
    }
    assert(all.take(all.len() as int) =~= all);
    out
}

// ---------------------------------------------------------------------------
// JavaScript / TypeScript
// ---------------------------------------------------------------------------

pub open spec fn js_import_re() -> Seq<char> {
    "(?m)^(?:import\\s+(?:[\\w{},\\s*]+\\s+from\\s+)?['\"]([^'\"./][^'\"]*?)['\"]|import\\s*\\(['\"]([^'\"./][^'\"]*?)['\"]\\))"@
}

pub open spec fn js_require_re() -> Seq<char> {
    "require\\s*\\(\\s*['\"]([^'\"./][^'\"]*?)['\"]\\s*\\)"@
}

/// The package an npm import path names: `@org/pkg` for a scoped package,
/// the first path segment otherwise.
pub open spec fn npm_package_name(import_path: Seq<char>) -> Seq<char> {
    let parts = split_char(import_path, '/');
    if has_prefix(import_path, "@"@) {
        if parts.len() >= 2 {
            parts[0] + "/"@ + parts[1]
        } else {
            import_path
        }
    } else {
        parts[0]
    }
}

/// Extract the package name from an npm import path.
/// For scoped packages (@org/pkg/...), returns @org/pkg.
/// For regular packages (pkg/...), returns pkg.
pub fn extract_npm_package_name(import_path: &str) -> (r: String)
    ensures
        r@ == npm_package_name(import_path@),
{
    let cs = chars_of(import_path);
    let parts = split_by_char(cs.as_slice(), '/');
    proof {
        lemma_split_from_nonempty(import_path@, '/', 0);
    }
    if starts_with_str(cs.as_slice(), "@") {
        if parts.len() >= 2 {
            let a = concat_str(parts[0].as_slice(), "/");
            let b = concat(a.as_slice(), parts[1].as_slice());
            proof {
                reveal_strlit("/");
            }
            assert(b@ =~= parts@[0]@ + "/"@ + parts@[1]@);
            string_of(b.as_slice())
        } else {
            string_of(cs.as_slice())
        }
    } else {
        string_of(parts[0].as_slice())
    }
}

/// The imports a list of matches adds (group 1, or else group 2 when
/// `either`), standard modules left out.
pub open spec fn js_fold(
    found: Seq<ImportView>,
    caps: Seq<Seq<Option<Seq<char>>>>,
    line: int,
    file: Seq<char>,
    either: bool,
) -> Seq<ImportView>
    decreases caps.len(),
{
    if caps.len() == 0 {
        found
    } else {
        let prev = js_fold(found, caps.drop_last(), line, file, either);
        let g = caps.last();
        let m = if group_at(g, 1) is Some || !either {
            group_at(g, 1)
        } else {
            group_at(g, 2)
        };
        match m {
            Some(path) => {
                let pkg = npm_package_name(path);
                if stdlib_module(StdlibLanguage::JavaScript, pkg) {
                    prev
                } else {
                    add_import(prev, pkg, RegistryType::Npm, file, line)
                }
            },
            None => prev,
        }
    }
}

/// One line of a JavaScript file (`idx` counts from 0): ES imports are
/// matched on the trimmed line, `require` calls on the line itself.
pub open spec fn js_step(found: Seq<ImportView>, line: Seq<char>, idx: int, file: Seq<char>) -> Seq<
    ImportView,
> {
    let t = trim(line);
    if has_prefix(t, "//"@) || has_prefix(t, "/*"@) {
        found
    } else {
        let a = js_fold(found, all_matches(js_import_re(), t), idx + 1, file, true);
        js_fold(a, all_matches(js_require_re(), line), idx + 1, file, false)
    }
}

pub open spec fn js_scan(lines: Seq<Seq<char>>, file: Seq<char>) -> Seq<ImportView>
    decreases lines.len(),
{
    if lines.len() == 0 {
        Seq::empty()
    } else {
        js_step(js_scan(lines.drop_last(), file), lines.last(), lines.len() - 1, file)
    }
}

fn add_js_matches(
    out: &mut Vec<ImportedDependency>,
    pattern: &str,
    text: &[char],
    line_no: usize,
    file: &str,
    either: bool,
)
    ensures
        imports_view(final(out)@) == js_fold(
            imports_view(old(out)@),
            all_matches(pattern@, text@),
            line_no as int,
            file@,
            either,
        ),
{
    let t = string_of(text);
    let caps = regex_captures_iter(pattern, t.as_str());
    let ghost cv = caps@.map_values(|g: Vec<Option<Vec<char>>>| groups_view(g));
    let ghost start = imports_view(out@);
    assert(cv == all_matches(pattern@, text@));
    let mut k: usize = 0;
    while k < caps.len()
        invariant
            k <= caps@.len(),
            cv == caps@.map_values(|g: Vec<Option<Vec<char>>>| groups_view(g)),
            imports_view(out@) == js_fold(start, cv.take(k as int), line_no as int, file@, either),
        decreases caps.len() - k,
    {
        assert(cv.take(k + 1).drop_last() =~= cv.take(k as int));
        assert(cv.take(k + 1).last() == groups_view(caps@[k as int]));
        let g1 = group_opt(&caps[k], 1);
        let m = match g1 {
            Some(x) => Some(x),
            None => if either {
                group_opt(&caps[k], 2)
            } else {
                None
            },
        };
        match m {
            Some(path) => {
                let pkg = extract_npm_package_name(string_of(path.as_slice()).as_str());
                if !is_stdlib(StdlibLanguage::JavaScript, pkg.as_str()) {
                    push_new(out, chars_of(pkg.as_str()), RegistryType::Npm, file, line_no);
                }
            },
            None => {},
        }
        k = k + 1;
    }
    assert(cv.take(cv.len() as int) =~= cv);
}

/// Extract imports from JavaScript/TypeScript source code.
pub fn extract_js_imports(content: &str, file: &str) -> (r: Vec<ImportedDependency>)
    ensures
        imports_view(r@) == js_scan(str_lines(content@), file@),
{
    let ghost all = str_lines(content@);
    let lines = lines_of(chars_of(content).as_slice());
    let mut out: Vec<ImportedDependency> = Vec::new();
    assert(imports_view(out@) =~= Seq::<ImportView>::empty());
    let mut i: usize = 0;
    while i < lines.len()
        invariant
            i <= lines@.len(),
            lines@.len() == all.len(),
            all == str_lines(content@),
            forall|k: int| 0 <= k < lines@.len() ==> #[trigger] lines@[k]@ == all[k],
            imports_view(out@) == js_scan(all.take(i as int), file@),
        decreases lines.len() - i,
    {
        assert(all.take(i + 1).drop_last() =~= all.take(i as int));
        assert(all.take(i + 1).last() == lines@[i as int]@);
        let line = &lines[i];
        let t = trim_chars(line.as_slice());
        if !(starts_with_str(t.as_slice(), "//") || starts_with_str(t.as_slice(), "/*")) {
            add_js_matches(
                &mut out,
                "(?m)^(?:import\\s+(?:[\\w{},\\s*]+\\s+from\\s+)?['\"]([^'\"./][^'\"]*?)['\"]|import\\s*\\(['\"]([^'\"./][^'\"]*?)['\"]\\))",
                t.as_slice(),
                i + 1,
                file,
                true,
            );
            add_js_matches(
                &mut out,
                "require\\s*\\(\\s*['\"]([^'\"./][^'\"]*?)['\"]\\s*\\)",
                line.as_slice(),
                i + 1,
                file,
                false,
            );
        }
        i = i + 1;
    }
    assert(all.take(all.len() as int) =~= all);
    out
}

// ---------------------------------------------------------------------------
// Go
// ---------------------------------------------------------------------------

pub open spec fn go_single_re() -> Seq<char> {
    "(?m)^import\\s+\"([^\"]+)\""@
}

pub open spec fn go_block_re() -> Seq<char> {
    "(?s)import\\s*\\((.*?)\\)"@
}

pub open spec fn go_item_re() -> Seq<char> {
    "(?:_\\s+)?\"([^\"]+)\""@
}

/// The module an import path belongs to: its first three segments
/// (`github.com/user/repo`), or the whole path when it has fewer.
pub open spec fn go_module_name(import_path: Seq<char>) -> Seq<char> {
    let parts = split_char(import_path, '/');
    if parts.len() >= 3 {
        parts[0] + "/"@ + parts[1] + "/"@ + parts[2]
    } else {
        import_path
    }
}

/// Extract the module name from a Go import path.
/// github.com/user/repo/pkg -> github.com/user/repo
pub fn extract_go_module_name(import_path: &str) -> (r: String)
    ensures
        r@ == go_module_name(import_path@),
{
    let cs = chars_of(import_path);
    let parts = split_by_char(cs.as_slice(), '/');
    if parts.len() >= 3 {
        let a = concat_str(parts[0].as_slice(), "/");
        let b = concat(a.as_slice(), parts[1].as_slice());
        let c = concat_str(b.as_slice(), "/");
        let d = concat(c.as_slice(), parts[2].as_slice());
        proof {
            reveal_strlit("/");
        }
        assert(d@ =~= parts@[0]@ + "/"@ + parts@[1]@ + "/"@ + parts@[2]@);
        string_of(d.as_slice())
    } else {
        string_of(cs.as_slice())
    }
}

/// The text between the first two double quotes of a line, if it has two.
pub open spec fn go_quoted(line: Seq<char>) -> Option<Seq<char>> {
    let a = first_char_from(line, '"', 0);
    if a < line.len() {
        let b = first_char_from(line, '"', a + 1);
        if b < line.len() {
            Some(line.subrange(a + 1, b))
        } else {
            None
        }
    } else {
        None
    }
}

/// The line (counting from 1) of the last line whose first quoted text is
/// the path; 1 if there is none.
pub open spec fn go_line_for(lines: Seq<Seq<char>>, path: Seq<char>) -> int
    decreases lines.len(),
{
    if lines.len() == 0 {
        1
    } else if go_quoted(lines.last()) == Some(path) {
        lines.len() as int
    } else {
        go_line_for(lines.drop_last(), path)
    }
}

/// The imports a list of matches adds (group 1 of each), standard packages
/// left out, each at the line that quotes its path.
pub open spec fn go_fold(
    found: Seq<ImportView>,
    caps: Seq<Seq<Option<Seq<char>>>>,
    lines: Seq<Seq<char>>,
    file: Seq<char>,
) -> Seq<ImportView>
    decreases caps.len(),
{
    if caps.len() == 0 {
        found
    } else {
        let prev = go_fold(found, caps.drop_last(), lines, file);
        match group_at(caps.last(), 1) {
            Some(path) => if stdlib_module(StdlibLanguage::Go, path) {
                prev
            } else {
                add_import(prev, go_module_name(path), RegistryType::Go, file, go_line_for(lines, path))
            },
            None => prev,
        }
    }
}

/// The imports of the `import ( ... )` blocks.
pub open spec fn go_blocks(
    found: Seq<ImportView>,
    blocks: Seq<Seq<Option<Seq<char>>>>,
    lines: Seq<Seq<char>>,
    file: Seq<char>,
) -> Seq<ImportView>
    decreases blocks.len(),
{
    if blocks.len() == 0 {
        found
    } else {
        let prev = go_blocks(found, blocks.drop_last(), lines, file);
        match group_at(blocks.last(), 1) {
            Some(block) => go_fold(prev, all_matches(go_item_re(), block), lines, file),
            None => prev,
        }
    }
}

/// The imports of a Go file: single-line imports first, then the blocks.
pub open spec fn go_scan(content: Seq<char>, file: Seq<char>) -> Seq<ImportView> {
    let lines = str_lines(content);
    let singles = go_fold(Seq::empty(), all_matches(go_single_re(), content), lines, file);
    go_blocks(singles, all_matches(go_block_re(), content), lines, file)
}

fn quoted_of(line: &[char]) -> (r: Option<Vec<char>>)
    ensures
        group_view(r) == go_quoted(line@),
{
    let a = find_char_from(line, '"', 0);
    if a < line.len() {
        let b = find_char_from(line, '"', a + 1);
        if b < line.len() {
            Some(slice_range(line, a + 1, b))
        } else {
            None
        }
    } else {
        None
    }
}

/// The first quoted text of each line, with its line number.
fn quoted_lines(lines: &Vec<Vec<char>>) -> (r: Vec<(Vec<char>, usize)>)
    ensures
        forall|path: Seq<char>| #[trigger] line_lookup(r@, path) == go_line_for(lines_view(lines@), path),
{
    let ghost lv = lines_view(lines@);
    let mut r: Vec<(Vec<char>, usize)> = Vec::new();
    let mut i: usize = 0;
    while i < lines.len()
        invariant
            i <= lines@.len(),
            lv == lines_view(lines@),
            forall|path: Seq<char>| #[trigger] line_lookup(r@, path) == go_line_for(lv.take(i as int), path),
        decreases lines.len() - i,
    {
        assert(lv.take(i + 1).drop_last() =~= lv.take(i as int));
        assert(lv.take(i + 1).last() == lines@[i as int]@);
        let ghost before = r@;
        match quoted_of(lines[i].as_slice()) {
            Some(q) => {
                r.push((q, i + 1));
                assert(r@.drop_last() == before);
            },
            None => {},
        }
        assert forall|path: Seq<char>| #[trigger]
            line_lookup(r@, path) == go_line_for(lv.take(i + 1), path) by {
            assert(line_lookup(before, path) == go_line_for(lv.take(i as int), path));
        }
        i = i + 1;
    }
    assert(lv.take(lv.len() as int) =~= lv);
    r
}

pub open spec fn lines_view(v: Seq<Vec<char>>) -> Seq<Seq<char>> {
    v.map_values(|l: Vec<char>| l@)
}

/// The line of the last entry with this path; 1 if there is none.
pub open spec fn line_lookup(entries: Seq<(Vec<char>, usize)>, path: Seq<char>) -> int
    decreases entries.len(),
{
    if entries.len() == 0 {
        1
    } else if entries.last().0@ == path {
        entries.last().1 as int
    } else {
        line_lookup(entries.drop_last(), path)
    }
}

fn find_line(entries: &Vec<(Vec<char>, usize)>, path: &[char]) -> (r: usize)
    ensures
        r as int == line_lookup(entries@, path@),
{
    let mut k = entries.len();
    assert(entries@.take(k as int) =~= entries@);
    while k > 0
        invariant
            k <= entries@.len(),
            line_lookup(entries@.take(k as int), path@) == line_lookup(entries@, path@),
        decreases k,
    {
        assert(entries@.take(k as int).drop_last() =~= entries@.take(k - 1));
        assert(entries@.take(k as int).last() == entries@[k - 1]);
        if chars_equal_slices(entries[k - 1].0.as_slice(), path) {
            return entries[k - 1].1;
        }
        k = k - 1;
    }
    1
}

fn chars_equal_slices(a: &[char], b: &[char]) -> (r: bool)
    ensures
        r == (a@ == b@),
{
    crate::text::chars_equal(a, b)
}

fn add_go_matches(
    out: &mut Vec<ImportedDependency>,
    pattern: &str,
    text: &[char],
    entries: &Vec<(Vec<char>, usize)>,
    file: &str,
    Ghost(lines): Ghost<Seq<Seq<char>>>,
)
    requires
        forall|path: Seq<char>| #[trigger] line_lookup(entries@, path) == go_line_for(lines, path),
    ensures
        imports_view(final(out)@) == go_fold(
            imports_view(old(out)@),
            all_matches(pattern@, text@),
            lines,
            file@,
        ),
{
    let t = string_of(text);
    let caps = regex_captures_iter(pattern, t.as_str());
    let ghost cv = caps@.map_values(|g: Vec<Option<Vec<char>>>| groups_view(g));
    let ghost start = imports_view(out@);
    assert(cv == all_matches(pattern@, text@));
    let mut k: usize = 0;
    while k < caps.len()
        invariant
            k <= caps@.len(),
            cv == caps@.map_values(|g: Vec<Option<Vec<char>>>| groups_view(g)),
            forall|path: Seq<char>| #[trigger] line_lookup(entries@, path) == go_line_for(lines, path),
            imports_view(out@) == go_fold(start, cv.take(k as int), lines, file@),
        decreases caps.len() - k,
    {
        assert(cv.take(k + 1).drop_last() =~= cv.take(k as int));
        assert(cv.take(k + 1).last() == groups_view(caps@[k as int]));
        match group_opt(&caps[k], 1) {
            Some(path) => {
                let ps = string_of(path.as_slice());
                if !is_stdlib(StdlibLanguage::Go, ps.as_str()) {
                    let pkg = extract_go_module_name(ps.as_str());
                    let line = find_line(entries, path.as_slice());
                    assert(line_lookup(entries@, path@) == go_line_for(lines, path@));
                    push_new(out, chars_of(pkg.as_str()), RegistryType::Go, file, line);
                }
            },
            None => {},
        }
        k = k + 1;
    }
    assert(cv.take(cv.len() as int) =~= cv);
}

/// Extract imports from Go source code.
pub fn extract_go_imports(content: &str, file: &str) -> (r: Vec<ImportedDependency>)
    ensures
        imports_view(r@) == go_scan(content@, file@),
{
    let cs = chars_of(content);
    let lines = lines_of(cs.as_slice());
    let ghost lv = lines_view(lines@);
    assert(lv =~= str_lines(content@));
    let entries = quoted_lines(&lines);
    let mut out: Vec<ImportedDependency> = Vec::new();
    assert(imports_view(out@) =~= Seq::<ImportView>::empty());
    add_go_matches(&mut out, "(?m)^import\\s+\"([^\"]+)\"", cs.as_slice(), &entries, file, Ghost(lv));
    let blocks = regex_captures_iter("(?s)import\\s*\\((.*?)\\)", content);
    let ghost bv = blocks@.map_values(|g: Vec<Option<Vec<char>>>| groups_view(g));
    let ghost singles = imports_view(out@);
    assert(bv == all_matches(go_block_re(), content@));
    let mut k: usize = 0;
    while k < blocks.len()
        invariant
            k <= blocks@.len(),
            bv == blocks@.map_values(|g: Vec<Option<Vec<char>>>| groups_view(g)),
            forall|path: Seq<char>| #[trigger] line_lookup(entries@, path) == go_line_for(lv, path),
            imports_view(out@) == go_blocks(singles, bv.take(k as int), lv, file@),
        decreases blocks.len() - k,
    {
        assert(bv.take(k + 1).drop_last() =~= bv.take(k as int));
        assert(bv.take(k + 1).last() == groups_view(blocks@[k as int]));
        match group_opt(&blocks[k], 1) {
            Some(block) => {
                add_go_matches(&mut out, "(?:_\\s+)?\"([^\"]+)\"", block.as_slice(), &entries, file, Ghost(lv));
            },
            None => {},
        }
        k = k + 1;
    }
    assert(bv.take(bv.len() as int) =~= bv);
    out
}

// ---------------------------------------------------------------------------
// Rust
// ---------------------------------------------------------------------------

pub open spec fn rust_use_re() -> Seq<char> {
    "(?m)^use\\s+([a-zA-Z_][a-zA-Z0-9_]*)(?:::|;)"@
}

/// `e[x]tern crate name`: the class `[x]` matches the letter `x` alone.
pub open spec fn rust_crate_re() -> Seq<char> {
    "(?m)^e[x]tern\\s+crate\\s+([a-zA-Z_][a-zA-Z0-9_]*)"@
}

/// The crate a `use` or crate declaration match adds.
pub open spec fn rust_add(
    found: Seq<ImportView>,
    cap: Option<(Seq<char>, Seq<Option<Seq<char>>>)>,
    line: int,
    file: Seq<char>,
) -> Seq<ImportView> {
    match cap {
        Some(c) => match group_at(c.1, 1) {
            Some(name) => if stdlib_module(StdlibLanguage::Rust, name) {
                found
            } else {
                add_import(found, name, RegistryType::Crates, file, line)
            },
            None => found,
        },
        None => found,
    }
}

/// One line of a Rust file (`idx` counts from 0), matched trimmed.
pub open spec fn rust_step(found: Seq<ImportView>, line: Seq<char>, idx: int, file: Seq<char>) -> Seq<
    ImportView,
> {
    let t = trim(line);
    if has_prefix(t, "//"@) || has_prefix(t, "/*"@) {
        found
    } else {
        let a = rust_add(found, capture_of(rust_use_re(), t), idx + 1, file);
        rust_add(a, capture_of(rust_crate_re(), t), idx + 1, file)
    }
}

pub open spec fn rust_scan(lines: Seq<Seq<char>>, file: Seq<char>) -> Seq<ImportView>
    decreases lines.len(),
{
    if lines.len() == 0 {
        Seq::empty()
    } else {
        rust_step(rust_scan(lines.drop_last(), file), lines.last(), lines.len() - 1, file)
    }
}

fn add_rust_capture(
    out: &mut Vec<ImportedDependency>,
    pattern: &str,
    text: &[char],
    line_no: usize,
    file: &str,
)
    ensures
        imports_view(final(out)@) == rust_add(
            imports_view(old(out)@),
            capture_of(pattern@, text@),
            line_no as int,
            file@,
        ),
{
    let t = string_of(text);
    let cap = regex_captures(pattern, t.as_str());
    match cap {
        Some(c) => match group_opt(&c.1, 1) {
            Some(name) => {
                let name_str = string_of(name.as_slice());
                if !is_stdlib(StdlibLanguage::Rust, name_str.as_str()) {
                    push_new(out, name, RegistryType::Crates, file, line_no);
                }
            },
            None => {},
        },
        None => {},
    }
}

/// Extract imports from Rust source code.
pub fn extract_rust_imports(content: &str, file: &str) -> (r: Vec<ImportedDependency>)
    ensures
        imports_view(r@) == rust_scan(str_lines(content@), file@),
{
    let ghost all = str_lines(content@);
    let lines = lines_of(chars_of(content).as_slice());
    let mut out: Vec<ImportedDependency> = Vec::new();
    assert(imports_view(out@) =~= Seq::<ImportView>::empty());
    let mut i: usize = 0;
    while i < lines.len()
        invariant
            i <= lines@.len(),
            lines@.len() == all.len(),
            all == str_lines(content@),
            forall|k: int| 0 <= k < lines@.len() ==> #[trigger] lines@[k]@ == all[k],
            imports_view(out@) == rust_scan(all.take(i as int), file@),
        decreases lines.len() - i,
    {
        assert(all.take(i + 1).drop_last() =~= all.take(i as int));
        assert(all.take(i + 1).last() == lines@[i as int]@);
        let t = trim_chars(lines[i].as_slice());
        if !(starts_with_str(t.as_slice(), "//") || starts_with_str(t.as_slice(), "/*")) {
            add_rust_capture(
                &mut out,
                "(?m)^use\\s+([a-zA-Z_][a-zA-Z0-9_]*)(?:::|;)",
                t.as_slice(),
                i + 1,
                file,
            );
            add_rust_capture(
                &mut out,
                "(?m)^e[x]tern\\s+crate\\s+([a-zA-Z_][a-zA-Z0-9_]*)",
                t.as_slice(),
                i + 1,
                file,
            );
        }
        i = i + 1;
    }
    assert(all.take(all.len() as int) =~= all);
    out
}

// ---------------------------------------------------------------------------
// Any supported file
// ---------------------------------------------------------------------------

/// The imports of a file, by the registry its extension belongs to; none for
/// other files.
pub open spec fn file_imports(path: Seq<char>, content: Seq<char>) -> Seq<ImportView> {
    match registry_for_extension(extension_or_empty(path)) {
        Some(RegistryType::PyPI) => python_scan(str_lines(content), path).found,
        Some(RegistryType::Npm) => js_scan(str_lines(content), path),
        Some(RegistryType::Go) => go_scan(content, path),
        Some(RegistryType::Crates) => rust_scan(str_lines(content), path),
        None => Seq::empty(),
    }
}

/// Extract all imports from a source file, given its path and its text.
pub fn extract_imports(file_path: &str, content: &str) -> (r: Vec<ImportedDependency>)
    ensures
        imports_view(r@) == file_imports(file_path@, content@),
{
    let ext = extension_or_empty_of(file_path);
    match RegistryType::from_extension(ext.as_str()) {
        Some(RegistryType::PyPI) => extract_python_imports(content, file_path),
        Some(RegistryType::Npm) => extract_js_imports(content, file_path),
        Some(RegistryType::Go) => extract_go_imports(content, file_path),
        Some(RegistryType::Crates) => extract_rust_imports(content, file_path),
        None => {
            let r: Vec<ImportedDependency> = Vec::new();
            assert(imports_view(r@) =~= Seq::<ImportView>::empty());
            r
        },
    }
}

// ---------------------------------------------------------------------------
// Each package once
// ---------------------------------------------------------------------------

/// No two imports of the list name the same package.
pub open spec fn names_distinct(found: Seq<ImportView>) -> bool {
    forall|i: int, j: int|
        0 <= i < j < found.len() ==> (#[trigger] found[i]).name != (#[trigger] found[j]).name
}

proof fn lemma_add_import_distinct(
    found: Seq<ImportView>,
    name: Seq<char>,
    registry: RegistryType,
    file: Seq<char>,
    line: int,
)
    requires
        names_distinct(found),
    ensures
        names_distinct(add_import(found, name, registry, file, line)),
{
    if !has_name(found, name) {
        let r = found.push(ImportView { name, registry, file, line });
        assert forall|i: int, j: int| 0 <= i < j < r.len() implies (#[trigger] r[i]).name != (
        #[trigger] r[j]).name by {
            if j == found.len() {
                assert(r[i] == found[i]);
            } else {
                assert(r[i] == found[i] && r[j] == found[j]);
            }
        }
    }
}

proof fn lemma_python_scan_distinct(lines: Seq<Seq<char>>, file: Seq<char>)
    ensures
        names_distinct(python_scan(lines, file).found),
    decreases lines.len(),
{
    if lines.len() > 0 {
        lemma_python_scan_distinct(lines.drop_last(), file);
        let st = python_scan(lines.drop_last(), file);
        let line = lines.last();
        let idx = lines.len() - 1;
        let a = python_add(st.found, capture_of(py_import_re(), line), idx + 1, file);
        match capture_of(py_import_re(), line) {
            Some(c) => match group_at(c.1, 1) {
                Some(n) => lemma_add_import_distinct(st.found, n, RegistryType::PyPI, file, idx + 1),
                None => {},
            },
            None => {},
        }
        match capture_of(py_from_re(), line) {
            Some(c) => match group_at(c.1, 1) {
                Some(n) => lemma_add_import_distinct(a, n, RegistryType::PyPI, file, idx + 1),
                None => {},
            },
            None => {},
        }
    }
}

proof fn lemma_js_fold_distinct(
    found: Seq<ImportView>,
    caps: Seq<Seq<Option<Seq<char>>>>,
    line: int,
    file: Seq<char>,
    either: bool,
)
    requires
        names_distinct(found),
    ensures
        names_distinct(js_fold(found, caps, line, file, either)),
    decreases caps.len(),
{
    if caps.len() > 0 {
        lemma_js_fold_distinct(found, caps.drop_last(), line, file, either);
        let prev = js_fold(found, caps.drop_last(), line, file, either);
        let g = caps.last();
        let m = if group_at(g, 1) is Some || !either {
            group_at(g, 1)
        } else {
            group_at(g, 2)
        };
        match m {
            Some(path) => lemma_add_import_distinct(
                prev,
                npm_package_name(path),
                RegistryType::Npm,
                file,
                line,
            ),
            None => {},
        }
    }
}

proof fn lemma_js_scan_distinct(lines: Seq<Seq<char>>, file: Seq<char>)
    ensures
        names_distinct(js_scan(lines, file)),
    decreases lines.len(),
{
    if lines.len() > 0 {
        lemma_js_scan_distinct(lines.drop_last(), file);
        let prev = js_scan(lines.drop_last(), file);
        let line = lines.last();
        let idx = lines.len() - 1;
        let t = trim(line);
        lemma_js_fold_distinct(prev, all_matches(js_import_re(), t), idx + 1, file, true);
        let a = js_fold(prev, all_matches(js_import_re(), t), idx + 1, file, true);
        lemma_js_fold_distinct(a, all_matches(js_require_re(), line), idx + 1, file, false);
    }
}

proof fn lemma_go_fold_distinct(
    found: Seq<ImportView>,
    caps: Seq<Seq<Option<Seq<char>>>>,
    lines: Seq<Seq<char>>,
    file: Seq<char>,
)
    requires
        names_distinct(found),
    ensures
        names_distinct(go_fold(found, caps, lines, file)),
    decreases caps.len(),
{
    if caps.len() > 0 {
        lemma_go_fold_distinct(found, caps.drop_last(), lines, file);
        let prev = go_fold(found, caps.drop_last(), lines, file);
        match group_at(caps.last(), 1) {
            Some(path) => lemma_add_import_distinct(
                prev,
                go_module_name(path),
                RegistryType::Go,
                file,
                go_line_for(lines, path),
            ),
            None => {},
        }
    }
}

proof fn lemma_go_blocks_distinct(
    found: Seq<ImportView>,
    blocks: Seq<Seq<Option<Seq<char>>>>,
    lines: Seq<Seq<char>>,
    file: Seq<char>,
)
    requires
        names_distinct(found),
    ensures
        names_distinct(go_blocks(found, blocks, lines, file)),
    decreases blocks.len(),
{
    if blocks.len() > 0 {
        lemma_go_blocks_distinct(found, blocks.drop_last(), lines, file);
        let prev = go_blocks(found, blocks.drop_last(), lines, file);
        match group_at(blocks.last(), 1) {
            Some(block) => lemma_go_fold_distinct(prev, all_matches(go_item_re(), block), lines, file),
            None => {},
        }
    }
}

proof fn lemma_rust_scan_distinct(lines: Seq<Seq<char>>, file: Seq<char>)
    ensures
        names_distinct(rust_scan(lines, file)),
    decreases lines.len(),
{
    if lines.len() > 0 {
        lemma_rust_scan_distinct(lines.drop_last(), file);
        let prev = rust_scan(lines.drop_last(), file);
        let t = trim(lines.last());
        let idx = lines.len() - 1;
        match capture_of(rust_use_re(), t) {
            Some(c) => match group_at(c.1, 1) {
                Some(n) => lemma_add_import_distinct(prev, n, RegistryType::Crates, file, idx + 1),
                None => {},
            },
            None => {},
        }
        let a = rust_add(prev, capture_of(rust_use_re(), t), idx + 1, file);
        match capture_of(rust_crate_re(), t) {
            Some(c) => match group_at(c.1, 1) {
                Some(n) => lemma_add_import_distinct(a, n, RegistryType::Crates, file, idx + 1),
                None => {},
            },
            None => {},
        }
    }
}

/// Each package is reported at most once per file.
pub proof fn lemma_file_imports_distinct(path: Seq<char>, content: Seq<char>)
    ensures
        names_distinct(file_imports(path, content)),
{
    lemma_python_scan_distinct(str_lines(content), path);
    lemma_js_scan_distinct(str_lines(content), path);
    lemma_rust_scan_distinct(str_lines(content), path);
    let lines = str_lines(content);
    lemma_go_fold_distinct(Seq::empty(), all_matches(go_single_re(), content), lines, path);
    let singles = go_fold(Seq::empty(), all_matches(go_single_re(), content), lines, path);
    lemma_go_blocks_distinct(singles, all_matches(go_block_re(), content), lines, path);
}

} // verus!
