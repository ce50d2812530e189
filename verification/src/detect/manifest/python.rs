//! Standard Python manifest provider.
//!
//! Reads the packages that standard Python project files declare:
//! requirements*.txt files, pyproject.toml (`[project.dependencies]`,
//! `[tool.poetry.dependencies]`, `dependencies = [...]`) and setup.cfg
//! (`install_requires`). Package names are kept lowercased, each once.
use vstd::prelude::*;

use crate::detect::manifest::utils::{
    extract_package_name, import_matches_package, names_match, requirement_name,
};
use crate::detect::manifest::{ManifestProvider, ManifestStats};
use crate::detect::types::str_eq;
use crate::paths::{opt_string_view, path_file_name, path_file_name_of};
use crate::text::{
    chars_of, contains_char, contains_seq, contains_str, find_char_from, first_char_from,
    has_prefix, lines_of, slice_range, starts_with_str, str_lines, string_of, to_lowercase, trim,
    trim_chars, unicode_lowercase,
};

verus! {

/// The text of a project's Python manifest files.
pub struct PythonSources {
    /// The contents of the requirements*.txt files at the root.
    pub requirements: Vec<String>,
    /// The contents of pyproject.toml, if there is one.
    pub pyproject_toml: Option<String>,
    /// The contents of setup.cfg, if there is one.
    pub setup_cfg: Option<String>,
}

/// Standard Python manifest provider.
pub struct PythonManifest {
    /// Project root directory
    root: String,
    /// All declared packages (lowercased), each once
    packages: Vec<String>,
}

pub open spec fn names_of(v: Seq<String>) -> Seq<Seq<char>> {
    v.map_values(|s: String| s@)
}

/// The list with the name added, unless it is on it already.
pub open spec fn add_package(pkgs: Seq<Seq<char>>, name: Seq<char>) -> Seq<Seq<char>> {
    if pkgs.contains(name) {
        pkgs
    } else {
        pkgs.push(name)
    }
}

/// The package a requirement adds, lowercased, if it names one.
pub open spec fn add_requirement(pkgs: Seq<Seq<char>>, req: Seq<char>) -> Seq<Seq<char>> {
    let name = requirement_name(req);
    if name.len() == 0 {
        pkgs
    } else {
        add_package(pkgs, unicode_lowercase(name))
    }
}

// ---------------------------------------------------------------------------
// requirements*.txt
// ---------------------------------------------------------------------------

/// One line of a requirements file: comments, empty lines and options
/// (`-r`, `-e`, `--index-url`) name no package.
pub open spec fn requirements_step(pkgs: Seq<Seq<char>>, line: Seq<char>) -> Seq<Seq<char>> {
    let t = trim(line);
    if t.len() == 0 || has_prefix(t, "#"@) || has_prefix(t, "-"@) {
        pkgs
    } else {
        add_requirement(pkgs, t)
    }
}

pub open spec fn requirements_scan(pkgs: Seq<Seq<char>>, lines: Seq<Seq<char>>) -> Seq<Seq<char>>
    decreases lines.len(),
{
    if lines.len() == 0 {
        pkgs
    } else {
        requirements_step(requirements_scan(pkgs, lines.drop_last()), lines.last())
    }
}

// ---------------------------------------------------------------------------
// pyproject.toml
// ---------------------------------------------------------------------------

/// How often a character occurs in the text.
pub open spec fn count_char(s: Seq<char>, c: char) -> nat
    decreases s.len(),
{
    if s.len() == 0 {
        0
    } else {
        count_char(s.drop_last(), c) + if s.last() == c {
            1nat
        } else {
            0
        }
    }
}

/// The characters trimmed off a dependency line.
pub open spec fn dependency_quotes() -> Seq<char> {
    seq!['"', ',', '\'']
}

pub open spec fn strip_set_start(s: Seq<char>, set: Seq<char>) -> Seq<char>
    decreases s.len(),
{
    if s.len() > 0 && set.contains(s[0]) {
        strip_set_start(s.skip(1), set)
    } else {
        s
    }
}

pub open spec fn strip_set_end(s: Seq<char>, set: Seq<char>) -> Seq<char>
    decreases s.len(),
{
    if s.len() > 0 && set.contains(s.last()) {
        strip_set_end(s.drop_last(), set)
    } else {
        s
    }
}

/// `str::trim_matches` with a set of characters.
pub open spec fn trim_set(s: Seq<char>, set: Seq<char>) -> Seq<char> {
    strip_set_end(strip_set_start(s, set), set)
}

/// Addition that stops at the largest `usize`.
pub open spec fn sat_add(a: usize, b: nat) -> usize {
    if a + b > usize::MAX {
        usize::MAX
    } else {
        (a + b) as usize
    }
}

/// Subtraction that stops at zero.
pub open spec fn sat_sub(a: usize, b: nat) -> usize {
    if a < b {
        0
    } else {
        (a - b) as usize
    }
}

/// Where a pyproject.toml scan stands: inside a dependency list or table,
/// the depth of open brackets, and the packages found.
pub struct PyprojectScan {
    pub in_deps: bool,
    pub depth: usize,
    pub pkgs: Seq<Seq<char>>,
}

pub open spec fn dependency_header(t: Seq<char>) -> bool {
    has_prefix(t, "[project.dependencies]"@) || has_prefix(t, "[tool.poetry.dependencies]"@)
        || contains_seq(t, "dependencies = ["@)
}

/// One line of pyproject.toml.
pub open spec fn pyproject_step(st: PyprojectScan, line: Seq<char>) -> PyprojectScan {
    let t = trim(line);
    if dependency_header(t) {
        PyprojectScan {
            in_deps: true,
            depth: if t.contains('[') && !t.contains(']') {
                1
            } else {
                st.depth
            },
            pkgs: st.pkgs,
        }
    } else if has_prefix(t, "["@) && !contains_seq(t, "dependencies"@) {
        PyprojectScan { in_deps: false, ..st }
    } else if st.in_deps {
        let d = sat_sub(sat_add(st.depth, count_char(t, '[')), count_char(t, ']'));
        if d == 0 && has_prefix(t, "]"@) {
            PyprojectScan { in_deps: false, depth: d, pkgs: st.pkgs }
        } else {
            let name = requirement_name(trim_set(t, dependency_quotes()));
            let pkgs = if name.len() > 0 && !has_prefix(name, "#"@) && !has_prefix(name, "["@) {
                add_package(st.pkgs, unicode_lowercase(name))
            } else {
                st.pkgs
            };
            PyprojectScan { in_deps: true, depth: d, pkgs }
        }
    } else {
        st
    }
}

pub open spec fn pyproject_scan(st: PyprojectScan, lines: Seq<Seq<char>>) -> PyprojectScan
    decreases lines.len(),
{
    if lines.len() == 0 {
        st
    } else {
        pyproject_step(pyproject_scan(st, lines.drop_last()), lines.last())
    }
}

// ---------------------------------------------------------------------------
// setup.cfg
// ---------------------------------------------------------------------------

/// One line of setup.cfg: `install_requires` starts the list (with a first
/// requirement after `=`, if any); indented lines continue it.
pub open spec fn setup_cfg_step(st: (bool, Seq<Seq<char>>), line: Seq<char>) -> (
    bool,
    Seq<Seq<char>>,
) {
    let t = trim(line);
    let in_list = st.0 && !has_prefix(t, "["@);
    if t == "install_requires ="@ || has_prefix(t, "install_requires="@) {
        let value = trim(t.skip(first_char_from(t, '=', 0) + 1));
        (true, if value.len() > 0 {
            add_requirement(st.1, value)
        } else {
            st.1
        })
    } else if in_list {
        if !has_prefix(line, " "@) && !has_prefix(line, "\t"@) && t.len() > 0 {
            (false, st.1)
        } else {
            (true, add_requirement(st.1, t))
        }
    } else {
        (false, st.1)
    }
}

pub open spec fn setup_cfg_scan(st: (bool, Seq<Seq<char>>), lines: Seq<Seq<char>>) -> (
    bool,
    Seq<Seq<char>>,
)
    decreases lines.len(),
{
    if lines.len() == 0 {
        st
    } else {
        setup_cfg_step(setup_cfg_scan(st, lines.drop_last()), lines.last())
    }
}

// ---------------------------------------------------------------------------
// The whole project
// ---------------------------------------------------------------------------

pub open spec fn requirement_files_scan(pkgs: Seq<Seq<char>>, files: Seq<String>) -> Seq<Seq<char>>
    decreases files.len(),
{
    if files.len() == 0 {
        pkgs
    } else {
        requirements_scan(requirement_files_scan(pkgs, files.drop_last()), str_lines(files.last()@))
    }
}

/// The packages a project declares: its requirements files in order, then
/// pyproject.toml, then setup.cfg.
pub open spec fn declared_packages(sources: PythonSources) -> Seq<Seq<char>> {
    let a = requirement_files_scan(Seq::empty(), sources.requirements@);
    let b = match sources.pyproject_toml {
        Some(c) => pyproject_scan(PyprojectScan { in_deps: false, depth: 0, pkgs: a }, str_lines(c@)).pkgs,
        None => a,
    };
    match sources.setup_cfg {
        Some(c) => setup_cfg_scan((false, b), str_lines(c@)).1,
        None => b,
    }
}

fn insert_package(pkgs: &mut Vec<String>, name: &[char])
    requires
        old(pkgs)@.len() < usize::MAX,
    ensures
        names_of(final(pkgs)@) == add_package(names_of(old(pkgs)@), name@),
        final(pkgs)@.len() <= old(pkgs)@.len() + 1,
{
    let ghost before = names_of(pkgs@);
    let n = string_of(name);
    let mut i: usize = 0;
    while i < pkgs.len()
        invariant
            i <= pkgs@.len(),
            before == names_of(pkgs@),
            n@ == name@,
            forall|j: int| 0 <= j < i ==> before[j] != name@,
        decreases pkgs.len() - i,
    {
        if str_eq(pkgs[i].as_str(), n.as_str()) {
            assert(before[i as int] == name@);
            return ;
        }
        i = i + 1;
    }
    pkgs.push(n);
    assert(names_of(pkgs@) =~= before.push(name@));
}

fn insert_requirement(pkgs: &mut Vec<String>, req: &[char])
    requires
        old(pkgs)@.len() < usize::MAX,
    ensures
        names_of(final(pkgs)@) == add_requirement(names_of(old(pkgs)@), req@),
        final(pkgs)@.len() <= old(pkgs)@.len() + 1,
{
    let name = extract_package_name(string_of(req).as_str());
    let nc = chars_of(name.as_str());
    if nc.len() > 0 {
        let low = to_lowercase(nc.as_slice());
        insert_package(pkgs, low.as_slice());
    }
}

fn count_char_exec(s: &[char], c: char) -> (r: usize)
    ensures
        r == count_char(s@, c),
{
    let mut n: usize = 0;
    let mut i: usize = 0;
    while i < s.len()
        invariant
            i <= s@.len(),
            n == count_char(s@.take(i as int), c),
            n <= i,
        decreases s.len() - i,
    {
        assert(s@.take(i + 1).drop_last() =~= s@.take(i as int));
        if s[i] == c {
            n = n + 1;
        }
        i = i + 1;
    }
    assert(s@.take(s@.len() as int) =~= s@);
    n
}

fn in_set(set: &[char], c: char) -> (r: bool)
    ensures
        r == set@.contains(c),
{
    let mut i: usize = 0;
    while i < set.len()
        invariant
            i <= set@.len(),
            forall|j: int| 0 <= j < i ==> set@[j] != c,
        decreases set.len() - i,
    {
        if set[i] == c {
            assert(set@[i as int] == c);
            return true;
        }
        i = i + 1;
    }
    false
}

fn trim_set_exec(s: &[char], set: &[char]) -> (r: Vec<char>)
    ensures
        r@ == trim_set(s@, set@),
{
    let mut a: usize = 0;
    assert(s@.skip(0) =~= s@);
    while a < s.len() && in_set(set, s[a])
        invariant
            a <= s@.len(),
            strip_set_start(s@.skip(a as int), set@) == strip_set_start(s@, set@),
        decreases s.len() - a,
    {
        assert(s@.skip(a as int).skip(1) =~= s@.skip(a + 1));
        a = a + 1;
    }
    let head = slice_range(s, a, s.len());
    assert(head@ =~= s@.skip(a as int));
    let mut e = head.len();
    assert(head@.take(e as int) =~= head@);
    while e > 0 && in_set(set, head[e - 1])
        invariant
            e <= head@.len(),
            strip_set_end(head@.take(e as int), set@) == strip_set_end(head@, set@),
        decreases e,
    {
        assert(head@.take(e as int).drop_last() =~= head@.take(e - 1));
        e = e - 1;
    }
    let r = slice_range(head.as_slice(), 0, e);
    assert(r@ =~= head@.take(e as int));
    r
}

impl PythonManifest {
    /// The declared packages, lowercased, in the order first declared.
    pub closed spec fn packages_view(&self) -> Seq<Seq<char>> {
        names_of(self.packages@)
    }

    /// The project root.
    pub closed spec fn root_view(&self) -> Seq<char> {
        self.root@
    }

    fn scan_requirements(pkgs: &mut Vec<String>, content: &str)
        requires
            old(pkgs)@.len() + str_lines(content@).len() < usize::MAX,
        ensures
            names_of(final(pkgs)@) == requirements_scan(names_of(old(pkgs)@), str_lines(content@)),
            final(pkgs)@.len() <= old(pkgs)@.len() + str_lines(content@).len(),
    {
        let ghost all = str_lines(content@);
        let ghost start = names_of(pkgs@);
        let ghost n0 = pkgs@.len();
        let lines = lines_of(chars_of(content).as_slice());
        let mut i: usize = 0;
        while i < lines.len()
            invariant
                i <= lines@.len(),
                lines@.len() == all.len(),
                n0 + all.len() < usize::MAX,
                forall|k: int| 0 <= k < lines@.len() ==> #[trigger] lines@[k]@ == all[k],
                names_of(pkgs@) == requirements_scan(start, all.take(i as int)),
                pkgs@.len() <= n0 + i,
            decreases lines.len() - i,
        {
            assert(all.take(i + 1).drop_last() =~= all.take(i as int));
            assert(all.take(i + 1).last() == lines@[i as int]@);
            let t = trim_chars(lines[i].as_slice());
            if !(t.len() == 0 || starts_with_str(t.as_slice(), "#") || starts_with_str(
                t.as_slice(),
                "-",
            )) {
                insert_requirement(pkgs, t.as_slice());
            }
            i = i + 1;
        }
        assert(all.take(all.len() as int) =~= all);
    }

    fn scan_pyproject(pkgs: &mut Vec<String>, content: &str)
        requires
            old(pkgs)@.len() + str_lines(content@).len() < usize::MAX,
        ensures
            names_of(final(pkgs)@) == pyproject_scan(
                PyprojectScan { in_deps: false, depth: 0, pkgs: names_of(old(pkgs)@) },
                str_lines(content@),
            ).pkgs,
            final(pkgs)@.len() <= old(pkgs)@.len() + str_lines(content@).len(),
    {
        let ghost all = str_lines(content@);
        let ghost start = PyprojectScan { in_deps: false, depth: 0, pkgs: names_of(pkgs@) };
        let ghost n0 = pkgs@.len();
        let lines = lines_of(chars_of(content).as_slice());
        let mut in_deps = false;
        let mut depth: usize = 0;
        let mut i: usize = 0;
        while i < lines.len()
            invariant
                i <= lines@.len(),
                lines@.len() == all.len(),
                n0 + all.len() < usize::MAX,
                forall|k: int| 0 <= k < lines@.len() ==> #[trigger] lines@[k]@ == all[k],
                ({
                    let st = pyproject_scan(start, all.take(i as int));
                    &&& st.in_deps == in_deps
                    &&& st.depth == depth
                    &&& st.pkgs == names_of(pkgs@)
                }),
                pkgs@.len() <= n0 + i,
            decreases lines.len() - i,
        {
            assert(all.take(i + 1).drop_last() =~= all.take(i as int));
            assert(all.take(i + 1).last() == lines@[i as int]@);
            let t = trim_chars(lines[i].as_slice());
            let ts = t.as_slice();
            if starts_with_str(ts, "[project.dependencies]") || starts_with_str(
                ts,
                "[tool.poetry.dependencies]",
            ) || contains_str(ts, "dependencies = [") {
                in_deps = true;
                if contains_char(ts, '[') && !contains_char(ts, ']') {
                    depth = 1;
                }
            } else if starts_with_str(ts, "[") && !contains_str(ts, "dependencies") {
                in_deps = false;
            } else if in_deps {
                let opens = count_char_exec(ts, '[');
                let closes = count_char_exec(ts, ']');
                let up = depth.saturating_add(opens);
                depth = up.saturating_sub(closes);
                proof {
                    reveal_strlit("]");
                }
                if depth == 0 && starts_with_str(ts, "]") {
                    in_deps = false;
                } else {
                    let q = vec!['"', ',', '\''];
                    assert(q@ =~= dependency_quotes());
                    let cleaned = trim_set_exec(ts, q.as_slice());
                    let name = extract_package_name(string_of(cleaned.as_slice()).as_str());
                    let nc = chars_of(name.as_str());
                    if nc.len() > 0 && !starts_with_str(nc.as_slice(), "#") && !starts_with_str(
                        nc.as_slice(),
                        "[",
                    ) {
                        let low = to_lowercase(nc.as_slice());
                        insert_package(pkgs, low.as_slice());
                    }
                }
            }
            i = i + 1;
        }
        assert(all.take(all.len() as int) =~= all);
    }

    fn scan_setup_cfg(pkgs: &mut Vec<String>, content: &str)
        requires
            old(pkgs)@.len() + str_lines(content@).len() < usize::MAX,
        ensures
            names_of(final(pkgs)@) == setup_cfg_scan((false, names_of(old(pkgs)@)), str_lines(
                content@,
            )).1,
            final(pkgs)@.len() <= old(pkgs)@.len() + str_lines(content@).len(),
    {
        let ghost all = str_lines(content@);
        let ghost start = (false, names_of(pkgs@));
        let ghost n0 = pkgs@.len();
        let lines = lines_of(chars_of(content).as_slice());
        let mut in_list = false;
        let mut i: usize = 0;
        while i < lines.len()
            invariant
                i <= lines@.len(),
                lines@.len() == all.len(),
                n0 + all.len() < usize::MAX,
                forall|k: int| 0 <= k < lines@.len() ==> #[trigger] lines@[k]@ == all[k],
                ({
                    let st = setup_cfg_scan(start, all.take(i as int));
                    &&& st.0 == in_list
                    &&& st.1 == names_of(pkgs@)
                }),
                pkgs@.len() <= n0 + i,
            decreases lines.len() - i,
        {
            assert(all.take(i + 1).drop_last() =~= all.take(i as int));
            assert(all.take(i + 1).last() == lines@[i as int]@);
            let line = &lines[i];
            let t = trim_chars(line.as_slice());
            let ts = t.as_slice();
            if starts_with_str(ts, "[") {
                in_list = false;
            }
            if str_eq(string_of(ts).as_str(), "install_requires =") || starts_with_str(
                ts,
                "install_requires=",
            ) {
                in_list = true;
                proof {
                    reveal_strlit("install_requires =");
                    reveal_strlit("install_requires=");
                }
                let eq = find_char_from(ts, '=', 0);
                proof {
                    crate::text::lemma_first_char_from(t@, '=', 0);
                    if has_prefix(t@, "install_requires="@) {
                        assert("install_requires="@[16] == '=');
                        assert(t@.subrange(0, 17)[16] == t@[16]);
                        assert(t@[16] == '=');
                    } else {
                        assert("install_requires ="@[17] == '=');
                        assert(t@[17] == '=');
                    }
                }
                assert(eq < t@.len());
                let n = t.len();
                let rest = slice_range(ts, eq + 1, n);
                assert(rest@ =~= t@.skip(eq + 1));
                let value = trim_chars(rest.as_slice());
                if value.len() > 0 {
                    insert_requirement(pkgs, value.as_slice());
                }
            } else if in_list {
                if !starts_with_str(line.as_slice(), " ") && !starts_with_str(line.as_slice(), "\t")
                    && t.len() > 0 {
                    in_list = false;
                } else {
                    insert_requirement(pkgs, ts);
                }
            }
            i = i + 1;
        }
        assert(all.take(all.len() as int) =~= all);
    }

    /// Read the packages the project's manifest files declare.
    pub fn from_root(root: &str, sources: &PythonSources) -> (r: PythonManifest)
        requires
            total_lines(sources) < usize::MAX,
        ensures
            r.root_view() == root@,
            r.packages_view() == declared_packages(*sources),
    {
        let mut pkgs: Vec<String> = Vec::new();
        let ghost files = sources.requirements@;
        let mut i: usize = 0;
        assert(names_of(pkgs@) =~= Seq::<Seq<char>>::empty());
        while i < sources.requirements.len()
            invariant
                i <= files.len(),
                files == sources.requirements@,
                total_lines(sources) < usize::MAX,
                names_of(pkgs@) == requirement_files_scan(Seq::empty(), files.take(i as int)),
                pkgs@.len() <= requirement_lines(files.take(i as int)),
            decreases sources.requirements.len() - i,
        {
            assert(files.take(i + 1).drop_last() =~= files.take(i as int));
            assert(files.take(i + 1).last() == files[i as int]);
            proof {
                lemma_requirement_lines_prefix(files, i as int + 1);
            }
            Self::scan_requirements(&mut pkgs, sources.requirements[i].as_str());
            i = i + 1;
        }
        assert(files.take(files.len() as int) =~= files);
        match &sources.pyproject_toml {
            Some(c) => Self::scan_pyproject(&mut pkgs, c.as_str()),
            None => {},
        }
        match &sources.setup_cfg {
            Some(c) => Self::scan_setup_cfg(&mut pkgs, c.as_str()),
            None => {},
        }
        PythonManifest { root: string_of(chars_of(root).as_slice()), packages: pkgs }
    }
}

/// The number of lines of the requirements files.
pub open spec fn requirement_lines(files: Seq<String>) -> int
    decreases files.len(),
{
    if files.len() == 0 {
        0
    } else {
        requirement_lines(files.drop_last()) + str_lines(files.last()@).len()
    }
}

/// The number of lines of all the manifest files.
pub open spec fn total_lines(sources: &PythonSources) -> int {
    requirement_lines(sources.requirements@) + match &sources.pyproject_toml {
        Some(c) => str_lines(c@).len() as int,
        None => 0,
    } + match &sources.setup_cfg {
        Some(c) => str_lines(c@).len() as int,
        None => 0,
    }
}

proof fn lemma_requirement_lines_prefix(files: Seq<String>, n: int)
    requires
        0 <= n <= files.len(),
    ensures
        requirement_lines(files.take(n)) <= requirement_lines(files),
    decreases files.len(),
{
    if n < files.len() {
        assert(files.drop_last().take(n) =~= files.take(n));
        lemma_requirement_lines_prefix(files.drop_last(), n);
    } else {
        assert(files.take(n) =~= files);
    }
}

/// Whether an import is declared: its lowercased name is a package, or it
/// matches one by the usual naming patterns.
pub open spec fn python_import_valid(pkgs: Seq<Seq<char>>, import_name: Seq<char>) -> bool {
    let low = unicode_lowercase(import_name);
    pkgs.contains(low) || exists|i: int|
        0 <= i < pkgs.len() && names_match(low, #[trigger] pkgs[i])
}

impl ManifestProvider for PythonManifest {
    fn is_valid_import(&self, import_name: &str, file_path: &str) -> (r: bool)
        ensures
            r == python_import_valid(self.packages_view(), import_name@),
    {
        let ghost pv = names_of(self.packages@);
        let low = string_of(to_lowercase(chars_of(import_name).as_slice()).as_slice());
        let mut i: usize = 0;
        while i < self.packages.len()
            invariant
                i <= self.packages@.len(),
                pv == names_of(self.packages@),
                low@ == unicode_lowercase(import_name@),
                forall|j: int| 0 <= j < i ==> pv[j] != low@,
            decreases self.packages.len() - i,
        {
            if str_eq(self.packages[i].as_str(), low.as_str()) {
                assert(pv[i as int] == low@);
                return true;
            }
            i = i + 1;
        }
        let mut k: usize = 0;
        while k < self.packages.len()
            invariant
                k <= self.packages@.len(),
                pv == names_of(self.packages@),
                low@ == unicode_lowercase(import_name@),
                !pv.contains(low@),
                forall|j: int| 0 <= j < k ==> !names_match(low@, #[trigger] pv[j]),
            decreases self.packages.len() - k,
        {
            if import_matches_package(low.as_str(), self.packages[k].as_str()) {
                assert(names_match(low@, pv[k as int]));
                return true;
            }
            k = k + 1;
        }
        false
    }

    fn get_declared_imports(&self, file_path: &str) -> (r: Vec<String>)
        ensures
            names_of(r@) == self.packages_view(),
    {
        let mut r: Vec<String> = Vec::new();
        let mut i: usize = 0;
        while i < self.packages.len()
            invariant
                i <= self.packages@.len(),
                names_of(r@) == names_of(self.packages@).take(i as int),
            decreases self.packages.len() - i,
        {
            let ghost before = r@;
            r.push(string_of(chars_of(self.packages[i].as_str()).as_slice()));
            assert(names_of(r@) =~= names_of(before).push(self.packages@[i as int]@));
            assert(names_of(r@) =~= names_of(self.packages@).take(i + 1));
            i = i + 1;
        }
        assert(names_of(self.packages@).take(self.packages@.len() as int) =~= names_of(
            self.packages@,
        ));
        r
    }

    /// Standard Python projects have no component scoping: the scope is the
    /// project directory's name.
    fn get_scope(&self, file_path: &str) -> (r: Option<String>)
        ensures
            opt_string_view(r) == path_file_name_of(self.root_view()),
    {
        path_file_name(self.root.as_str())
    }

    fn stats(&self) -> (r: ManifestStats)
        ensures
            r.scoped_count == 0,
            r.package_count == self.packages_view().len(),
    {
        ManifestStats { scoped_count: 0, package_count: self.packages.len() }
    }
}

} // verus!
