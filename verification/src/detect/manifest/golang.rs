//! Go module manifest provider.
//!
//! Parses go.mod content to validate Go imports against declared
//! dependencies. Go imports name packages inside modules, while go.mod
//! declares only the modules, so a module also covers its subpackages.
use vstd::prelude::*;

use crate::detect::manifest::{ManifestProvider, ManifestStats};
use crate::strmap::StringMap;
use crate::text::{
    before_pattern, chars_eq_str, chars_of, concat_str, contains_char, contains_seq, find_from,
    find_seq, first_char_from, first_word, has_prefix, lines_of, occurs_at, slice_range,
    split_whitespace, starts_with, str_lines, string_of, text_before, trim, trim_chars, words,
};

verus! {

/// A go.mod require entry: the text before any `//` comment, split into
/// words; the module and its version (or an empty version when there is
/// only a module).
pub open spec fn require_entry(line: Seq<char>) -> Option<(Seq<char>, Seq<char>)> {
    let w = words(before_pattern(trim(line), "//"@));
    if w.len() >= 2 {
        Some((w[0], w[1]))
    } else if w.len() == 1 && w[0].len() > 0 {
        Some((w[0], Seq::empty()))
    } else {
        None
    }
}

/// The two sides of the only `=>` in a line (none when there is no `=>` or
/// more than one).
pub open spec fn arrow_sides(l: Seq<char>) -> Option<(Seq<char>, Seq<char>)> {
    match find_seq(l, "=>"@) {
        Some(i) => if crate::text::first_occurrence_from(l, "=>"@, i + 2) is None {
            Some((l.take(i), l.skip(i + 2)))
        } else {
            None
        },
        None => None,
    }
}

/// A go.mod replace entry `from => to`: exactly one `=>` in the text before
/// any `//` comment, and the first word on each side.
pub open spec fn replace_entry(line: Seq<char>) -> Option<(Seq<char>, Seq<char>)> {
    match arrow_sides(before_pattern(trim(line), "//"@)) {
        Some(sides) => {
            let from = first_word(trim(sides.0));
            let to = first_word(trim(sides.1));
            if from.len() > 0 && to.len() > 0 {
                Some((from, to))
            } else {
                None
            }
        },
        None => None,
    }
}

pub open spec fn opt_pair_view(o: Option<(String, String)>) -> Option<(Seq<char>, Seq<char>)> {
    match o {
        Some(p) => Some((p.0@, p.1@)),
        None => None,
    }
}

fn first_word_of(s: &[char]) -> (r: Vec<char>)
    ensures
        r@ == first_word(s@),
{
    let w = split_whitespace(s);
    if w.len() > 0 {
        w[0].clone()
    } else {
        Vec::new()
    }
}

/// Parse a require line: "google.golang.org/grpc v1.78.0".
pub fn parse_require_line(line: &str) -> (r: Option<(String, String)>)
    ensures
        opt_pair_view(r) == require_entry(line@),
{
    let cs = chars_of(line);
    let t = trim_chars(cs.as_slice());
    let l = text_before(t.as_slice(), chars_of("//").as_slice());
    let parts = split_whitespace(l.as_slice());
    if parts.len() >= 2 {
        Some((string_of(parts[0].as_slice()), string_of(parts[1].as_slice())))
    } else if parts.len() == 1 && parts[0].len() > 0 {
        Some((string_of(parts[0].as_slice()), String::new()))
    } else {
        None
    }
}

fn split_arrow(l: &[char]) -> (r: Option<(Vec<char>, Vec<char>)>)
    ensures
        match r {
            Some(p) => arrow_sides(l@) == Some((p.0@, p.1@)),
            None => arrow_sides(l@) is None,
        },
{
    let arrow = chars_of("=>");
    proof {
        reveal_strlit("=>");
    }
    assert(arrow@.len() == 2);
    let found = find_from(l, arrow.as_slice(), 0);
    match found {
        Some(i) => {
            assert(occurs_at(l@, arrow@, i as int));
            assert(i + arrow@.len() <= l@.len());
            assert(i + 2 <= l.len());
            let after = i + 2;
            match find_from(l, arrow.as_slice(), after) {
                Some(_) => None,
                None => {
                    let left = slice_range(l, 0, i);
                    let right = slice_range(l, after, l.len());
                    assert(left@ =~= l@.take(i as int));
                    assert(right@ =~= l@.skip(i + 2));
                    Some((left, right))
                },
            }
        },
        None => None,
    }
}

/// Parse a replace line: "k8s.io/component-base => ./staging/src/k8s.io/component-base".
pub fn parse_replace_line(line: &str) -> (r: Option<(String, String)>)
    ensures
        opt_pair_view(r) == replace_entry(line@),
{
    let cs = chars_of(line);
    let t = trim_chars(cs.as_slice());
    let l = text_before(t.as_slice(), chars_of("//").as_slice());
    match split_arrow(l.as_slice()) {
        Some((left, right)) => {
            let from = first_word_of(trim_chars(left.as_slice()).as_slice());
            let to = first_word_of(trim_chars(right.as_slice()).as_slice());
            if from.len() > 0 && to.len() > 0 {
                Some((string_of(from.as_slice()), string_of(to.as_slice())))
            } else {
                None
            }
        },
        None => None,
    }
}

/// The parser's state after some lines of go.mod.
pub struct GoModState {
    pub root: Seq<char>,
    pub external: Map<Seq<char>, Seq<char>>,
    pub replaced: Map<Seq<char>, Seq<char>>,
    pub in_require: bool,
    pub in_replace: bool,
}

pub open spec fn insert_opt(
    m: Map<Seq<char>, Seq<char>>,
    e: Option<(Seq<char>, Seq<char>)>,
) -> Map<Seq<char>, Seq<char>> {
    match e {
        Some(p) => m.insert(p.0, p.1),
        None => m,
    }
}

/// What one (untrimmed) line of go.mod does to the state.
pub open spec fn go_mod_step(st: GoModState, raw: Seq<char>) -> GoModState {
    let line = trim(raw);
    if line.len() == 0 || has_prefix(line, "//"@) {
        st
    } else if has_prefix(line, "module "@) {
        GoModState { root: trim(line.skip(7)), ..st }
    } else if line == "require ("@ {
        GoModState { in_require: true, ..st }
    } else if line == "replace ("@ {
        GoModState { in_replace: true, ..st }
    } else if line == ")"@ {
        GoModState { in_require: false, in_replace: false, ..st }
    } else if has_prefix(line, "require "@) && !line.contains('(') {
        GoModState { external: insert_opt(st.external, require_entry(line.skip(8))), ..st }
    } else if has_prefix(line, "replace "@) && !line.contains('(') {
        GoModState { replaced: insert_opt(st.replaced, replace_entry(line.skip(8))), ..st }
    } else if st.in_require {
        GoModState { external: insert_opt(st.external, require_entry(line)), ..st }
    } else if st.in_replace {
        GoModState { replaced: insert_opt(st.replaced, replace_entry(line)), ..st }
    } else {
        st
    }
}

pub open spec fn go_mod_initial() -> GoModState {
    GoModState {
        root: Seq::empty(),
        external: Map::empty(),
        replaced: Map::empty(),
        in_require: false,
        in_replace: false,
    }
}

/// The state after the first `n` lines.
pub open spec fn go_mod_state(lines: Seq<Seq<char>>, n: int) -> GoModState
    decreases n,
{
    if n <= 0 {
        go_mod_initial()
    } else {
        go_mod_step(go_mod_state(lines, n - 1), lines[n - 1])
    }
}

/// The state after all of go.mod's lines.
pub open spec fn go_mod_final(content: Seq<char>) -> GoModState {
    go_mod_state(str_lines(content), str_lines(content).len() as int)
}

/// Go module manifest provider: the root module, the required modules and
/// the replaced modules.
#[derive(Debug)]
pub struct GoManifest {
    /// Root module path (e.g., "k8s.io/kubernetes")
    root_module: String,
    /// External module dependencies: module path → version
    external_modules: StringMap,
    /// Replace directives: module path → local path or replacement module
    replace_directives: StringMap,
}

/// The first path component (before the first `/`) has no dot.
pub open spec fn is_go_stdlib(import_path: Seq<char>) -> bool {
    !import_path.take(first_char_from(import_path, '/', 0)).contains('.')
}

/// The import is the module or a package inside it.
pub open spec fn within_module(import_path: Seq<char>, module: Seq<char>) -> bool {
    import_path == module || has_prefix(import_path, module + "/"@)
}

/// An import is valid: standard library, inside the root module, inside a
/// replaced module, or inside a required module.
pub open spec fn go_import_valid(
    root: Seq<char>,
    external: Map<Seq<char>, Seq<char>>,
    replaced: Map<Seq<char>, Seq<char>>,
    import_path: Seq<char>,
) -> bool {
    ||| is_go_stdlib(import_path)
    ||| within_module(import_path, root)
    ||| exists|k: Seq<char>| #[trigger] replaced.contains_key(k) && within_module(import_path, k)
    ||| exists|k: Seq<char>| #[trigger] external.contains_key(k) && within_module(import_path, k)
}

impl GoManifest {
    pub closed spec fn root_view(&self) -> Seq<char> {
        self.root_module@
    }

    pub closed spec fn external_view(&self) -> Map<Seq<char>, Seq<char>> {
        self.external_modules.view()
    }

    pub closed spec fn replaced_view(&self) -> Map<Seq<char>, Seq<char>> {
        self.replace_directives.view()
    }

    /// Parse go.mod content; it must declare a module.
    pub fn parse_go_mod(content: &str) -> (r: Result<GoManifest, String>)
        ensures
            r is Ok <==> go_mod_final(content@).root.len() > 0,
            r matches Ok(m) ==> m.root_view() == go_mod_final(content@).root
                && m.external_view() == go_mod_final(content@).external && m.replaced_view()
                == go_mod_final(content@).replaced,
            r matches Err(e) ==> e@ == "No module declaration found in go.mod"@,
    {
        let cs = chars_of(content);
        let lines = lines_of(cs.as_slice());
        let ghost ls = str_lines(content@);
        let mut root: Vec<char> = Vec::new();
        let mut external = StringMap::new();
        let mut replaced = StringMap::new();
        let mut in_require = false;
        let mut in_replace = false;
        let mut k: usize = 0;
        while k < lines.len()
            invariant
                k <= lines@.len(),
                lines@.len() == ls.len(),
                ls == str_lines(content@),
                forall|j: int| 0 <= j < lines@.len() ==> #[trigger] lines@[j]@ == ls[j],
                go_mod_state(ls, k as int) == (GoModState {
                    root: root@,
                    external: external.view(),
                    replaced: replaced.view(),
                    in_require,
                    in_replace,
                }),
            decreases lines.len() - k,
        {
            proof {
                reveal_strlit("//");
                reveal_strlit("module ");
                reveal_strlit("require ");
                reveal_strlit("replace ");
            }
            let line = trim_chars(lines[k].as_slice());
            assert(line@ == trim(ls[k as int]));
            if line.len() == 0 || starts_with(line.as_slice(), chars_of("//").as_slice()) {
            } else if starts_with(line.as_slice(), chars_of("module ").as_slice()) {
                let rest = slice_range(line.as_slice(), 7, line.len());
                assert(rest@ =~= line@.skip(7));
                root = trim_chars(rest.as_slice());
            } else if chars_eq_str(line.as_slice(), "require (") {
                in_require = true;
            } else if chars_eq_str(line.as_slice(), "replace (") {
                in_replace = true;
            } else if chars_eq_str(line.as_slice(), ")") {
                in_require = false;
                in_replace = false;
            } else if starts_with(line.as_slice(), chars_of("require ").as_slice())
                && !contains_char(line.as_slice(), '(') {
                let rest = slice_range(line.as_slice(), 8, line.len());
                assert(rest@ =~= line@.skip(8));
                match parse_require_line(string_of(rest.as_slice()).as_str()) {
                    Some((m, v)) => external.insert(m, v),
                    None => {},
                }
            } else if starts_with(line.as_slice(), chars_of("replace ").as_slice())
                && !contains_char(line.as_slice(), '(') {
                let rest = slice_range(line.as_slice(), 8, line.len());
                assert(rest@ =~= line@.skip(8));
                match parse_replace_line(string_of(rest.as_slice()).as_str()) {
                    Some((f, t)) => replaced.insert(f, t),
                    None => {},
                }
            } else if in_require {
                match parse_require_line(string_of(line.as_slice()).as_str()) {
                    Some((m, v)) => external.insert(m, v),
                    None => {},
                }
            } else if in_replace {
                match parse_replace_line(string_of(line.as_slice()).as_str()) {
                    Some((f, t)) => replaced.insert(f, t),
                    None => {},
                }
            }
            k = k + 1;
        }
        if root.len() == 0 {
            return Err(String::from_str("No module declaration found in go.mod"));
        }
        Ok(GoManifest {
            root_module: string_of(root.as_slice()),
            external_modules: external,
            replace_directives: replaced,
        })
    }

    /// Check if an import path is a Go stdlib package (no dot in its first
    /// path component, as in "fmt", "net/http").
    pub fn is_stdlib(import_path: &str) -> (r: bool)
        ensures
            r == is_go_stdlib(import_path@),
    {
        let cs = chars_of(import_path);
        let e = crate::text::find_char_from(cs.as_slice(), '/', 0);
        let first = slice_range(cs.as_slice(), 0, e);
        assert(first@ =~= cs@.take(e as int));
        !contains_char(first.as_slice(), '.')
    }

    /// Get the root module path.
    pub fn root_module(&self) -> (r: &str)
        ensures
            r@ == self.root_view(),
    {
        self.root_module.as_str()
    }

    /// Get the external modules.
    pub fn external_modules(&self) -> (r: &StringMap)
        ensures
            r.view() == self.external_view(),
    {
        &self.external_modules
    }

    /// Get the replace directives.
    pub fn replace_directives(&self) -> (r: &StringMap)
        ensures
            r.view() == self.replaced_view(),
    {
        &self.replace_directives
    }
}

fn within_module_exec(import_path: &str, module: &str) -> (r: bool)
    ensures
        r == within_module(import_path@, module@),
{
    if crate::detect::types::str_eq(import_path, module) {
        return true;
    }
    let m = concat_str(chars_of(module).as_slice(), "/");
    starts_with(chars_of(import_path).as_slice(), m.as_slice())
}

fn any_module_covers(modules: &Vec<String>, import_path: &str) -> (r: bool)
    ensures
        r == exists|i: int| 0 <= i < modules@.len() && within_module(import_path@, #[trigger] modules@[i]@),
{
    let mut i: usize = 0;
    while i < modules.len()
        invariant
            i <= modules@.len(),
            forall|j: int| 0 <= j < i ==> !within_module(import_path@, #[trigger] modules@[j]@),
        decreases modules.len() - i,
    {
        if within_module_exec(import_path, modules[i].as_str()) {
            return true;
        }
        i = i + 1;
    }
    false
}

impl ManifestProvider for GoManifest {
    fn is_valid_import(&self, import_name: &str, file_path: &str) -> (r: bool)
        ensures
            r == go_import_valid(
                self.root_view(),
                self.external_view(),
                self.replaced_view(),
                import_name@,
            ),
    {
        if Self::is_stdlib(import_name) {
            return true;
        }
        if within_module_exec(import_name, self.root_module.as_str()) {
            return true;
        }
        let replaced = self.replace_directives.keys();
        if any_module_covers(&replaced, import_name) {
            return true;
        }
        let external = self.external_modules.keys();
        if any_module_covers(&external, import_name) {
            return true;
        }
        false
    }

    fn get_declared_imports(&self, file_path: &str) -> (r: Vec<String>)
        ensures
            r@.len() == 1 + self.external_view().dom().len() + self.replaced_view().dom().len(),
            r@[0]@ == self.root_view(),
    {
        let mut imports: Vec<String> = Vec::new();
        imports.push(self.root_module.clone());
        let mut e = self.external_modules.keys();
        imports.append(&mut e);
        let mut rp = self.replace_directives.keys();
        imports.append(&mut rp);
        imports
    }

    fn get_scope(&self, file_path: &str) -> (r: Option<String>)
        ensures
            r matches Some(s) && s@ == self.root_view(),
    {
        Some(self.root_module.clone())
    }

    fn stats(&self) -> (r: ManifestStats)
        ensures
            r.scoped_count == 0,
            r.package_count == crate::detect::manifest::homeassistant::capped(
                self.external_view().dom().len() + self.replaced_view().dom().len() + 1int,
            ),
    {
        let a = self.external_modules.len();
        let b = self.replace_directives.len();
        ManifestStats { scoped_count: 0, package_count: a.saturating_add(b).saturating_add(1) }
    }
}

/// Every package inside a required module is a valid import.
pub proof fn lemma_required_subpackages_valid(
    root: Seq<char>,
    external: Map<Seq<char>, Seq<char>>,
    replaced: Map<Seq<char>, Seq<char>>,
    module: Seq<char>,
    rest: Seq<char>,
)
    requires
        external.contains_key(module),
    ensures
        go_import_valid(root, external, replaced, module),
        go_import_valid(root, external, replaced, module + "/"@ + rest),
{
    let p = module + "/"@ + rest;
    assert(p.take((module + "/"@).len() as int) =~= module + "/"@);
    assert(within_module(p, module));
}

/// Every package inside a replaced module, and inside the root module, is a
/// valid import.
pub proof fn lemma_local_subpackages_valid(
    root: Seq<char>,
    external: Map<Seq<char>, Seq<char>>,
    replaced: Map<Seq<char>, Seq<char>>,
    module: Seq<char>,
    rest: Seq<char>,
)
    ensures
        replaced.contains_key(module) ==> go_import_valid(root, external, replaced, module + "/"@ + rest),
        go_import_valid(root, external, replaced, root + "/"@ + rest),
{
    let p = module + "/"@ + rest;
    assert(p.take((module + "/"@).len() as int) =~= module + "/"@);
    let q = root + "/"@ + rest;
    assert(q.take((root + "/"@).len() as int) =~= root + "/"@);
    assert(within_module(q, root));
    if replaced.contains_key(module) {
        assert(within_module(p, module));
    }
}

} // verus!
