//! Home Assistant manifest provider.
//!
//! Home Assistant has component-scoped manifests: each component in
//! `homeassistant/components/<name>/` has a JSON manifest that declares its
//! dependencies in `requirements` and `loggers`. An import is validated
//! against the global requirements and those of the component its file
//! belongs to.
use vstd::prelude::*;

use crate::detect::manifest::utils::{
    extract_package_name, import_matches_package, names_match, requirement_name,
};
use crate::detect::manifest::{ManifestProvider, ManifestStats};
use crate::detect::types::str_eq;
use crate::paths::{opt_string_view, path_parent, path_parent_of, paths_equal, paths_equal_of};
use crate::text::{
    chars_equal, chars_of, concat, concat_str, contains, contains_seq, has_prefix, has_suffix,
    lemma_split_from_nonempty, lines_of, remove_char, replace_char, replace_char_with,
    slice_range, split_by_char, split_char, starts_with, starts_with_str, str_lines, string_of,
    to_lowercase, trim, trim_chars, unicode_lowercase,
};

verus! {

/// Home Assistant component manifest data.
#[derive(Debug, Clone)]
pub struct ComponentData {
    /// Domain name of the component
    pub domain: String,
    /// PyPI package requirements (e.g., "pyswitchbot==0.40.0")
    pub requirements: Vec<String>,
    /// Logger names used by this component (authoritative for import validation)
    pub loggers: Vec<String>,
    /// Other Home Assistant components this depends on
    pub dependencies: Vec<String>,
}

/// Home Assistant manifest provider.
pub struct HomeAssistantManifest {
    /// Project root directory
    root: String,
    /// Component manifests by component directory
    component_manifests: Vec<(String, ComponentData)>,
    /// Global requirements (from requirements*.txt at root)
    global_requirements: Vec<String>,
}

pub open spec fn strings_of(v: Seq<String>) -> Seq<Seq<char>> {
    v.map_values(|s: String| s@)
}

// ---------------------------------------------------------------------------
// Building the manifest
// ---------------------------------------------------------------------------

/// The index of the first component whose directory is the path.
pub open spec fn component_index(dirs: Seq<Seq<char>>, dir: Seq<char>) -> Option<int>
    decreases dirs.len(),
{
    if dirs.len() == 0 {
        None
    } else {
        match component_index(dirs.drop_last(), dir) {
            Some(i) => Some(i),
            None => if paths_equal_of(dirs.last(), dir) {
                Some(dirs.len() - 1)
            } else {
                None
            },
        }
    }
}

/// The component map after one more manifest: it replaces the manifest of
/// an equal directory, else it is added.
pub open spec fn insert_component(
    comps: Seq<(Seq<char>, ComponentData)>,
    dir: Seq<char>,
    data: ComponentData,
) -> Seq<(Seq<char>, ComponentData)> {
    match component_index(comps.map_values(|c: (Seq<char>, ComponentData)| c.0), dir) {
        Some(i) => comps.update(i, (comps[i].0, data)),
        None => comps.push((dir, data)),
    }
}

pub open spec fn components_from(found: Seq<(String, ComponentData)>) -> Seq<(Seq<char>, ComponentData)>
    decreases found.len(),
{
    if found.len() == 0 {
        Seq::empty()
    } else {
        insert_component(components_from(found.drop_last()), found.last().0@, found.last().1)
    }
}

/// The requirement lines of a requirements file: not empty, not a comment,
/// not an option; trimmed.
pub open spec fn requirement_lines_of(lines: Seq<Seq<char>>) -> Seq<Seq<char>>
    decreases lines.len(),
{
    if lines.len() == 0 {
        Seq::empty()
    } else {
        let prev = requirement_lines_of(lines.drop_last());
        let t = trim(lines.last());
        if t.len() > 0 && !has_prefix(t, "#"@) && !has_prefix(t, "-"@) {
            prev.push(t)
        } else {
            prev
        }
    }
}

pub open spec fn global_requirements_of(files: Seq<String>) -> Seq<Seq<char>>
    decreases files.len(),
{
    if files.len() == 0 {
        Seq::empty()
    } else {
        global_requirements_of(files.drop_last()) + requirement_lines_of(str_lines(files.last()@))
    }
}

// ---------------------------------------------------------------------------
// Matching an import against requirements
// ---------------------------------------------------------------------------

/// Known submodules that do not match their parent package names: the
/// package-name prefix that provides them.
pub open spec fn known_submodule_parent(import_lower: Seq<char>) -> Option<Seq<char>> {
    if import_lower == "didl_lite"@ {
        Some("async-upnp-client"@)
    } else if import_lower == "inelsmqtt"@ {
        Some("elkoep-aio-mqtt"@)
    } else {
        None
    }
}

/// An import that is a known submodule of a declared package.
pub open spec fn known_submodule(import_name: Seq<char>, reqs: Seq<Seq<char>>) -> bool {
    match known_submodule_parent(unicode_lowercase(import_name)) {
        Some(parent) => exists|i: int|
            0 <= i < reqs.len() && has_prefix(
                unicode_lowercase(requirement_name(#[trigger] reqs[i])),
                parent,
            ),
        None => false,
    }
}

/// Home Assistant's own packages, which are not on PyPI.
pub open spec fn homeassistant_internal(import_name: Seq<char>) -> bool {
    let l = unicode_lowercase(import_name);
    l == "hass_frontend"@ || l == "homeassistant_frontend"@ || l == "insteon_frontend"@
}

pub open spec fn no_sep(s: Seq<char>) -> Seq<char> {
    replace_char(s, '_', Seq::empty())
}

pub open spec fn dashes(s: Seq<char>) -> Seq<char> {
    replace_char(s, '-', seq!['_'])
}

/// The text without the suffix, when it ends with it.
pub open spec fn strip_suffix(s: Seq<char>, sfx: Seq<char>) -> Option<Seq<char>> {
    if has_suffix(s, sfx) {
        Some(s.take(s.len() - sfx.len()))
    } else {
        None
    }
}

/// The normalized package name without an `_api`, `_sdk` or `_client`
/// suffix (the first that applies).
pub open spec fn without_api_suffix(p: Seq<char>) -> Seq<char> {
    match strip_suffix(p, "_api"@) {
        Some(x) => x,
        None => match strip_suffix(p, "_sdk"@) {
            Some(x) => x,
            None => match strip_suffix(p, "_client"@) {
                Some(x) => x,
                None => p,
            },
        },
    }
}

/// The first word of the package joined to some later word matches the
/// import (with `_`, or without a separator).
pub open spec fn abbreviation_matches(parts: Seq<Seq<char>>, imp_norm: Seq<char>, imp_bare: Seq<
    char,
>) -> bool {
    parts.len() >= 2 && exists|i: int|
        1 <= i < parts.len() && (parts[0] + "_"@ + #[trigger] parts[i] == imp_norm || parts[0]
            + parts[i] == imp_bare)
}

/// Whether an import matches a requirement, by the common patterns or by
/// Home Assistant's looser ones: contained names once separators are gone,
/// abbreviations (`tuya-device-sharing-sdk` → `tuya_sharing`), dropped
/// `py_` prefixes and `_api`/`_sdk`/`_client` suffixes
/// (`py-synologydsm-api` → `synology_dsm`), or the first word
/// (`paho-mqtt` → `paho`).
pub open spec fn requirement_matches(import_name: Seq<char>, req: Seq<char>) -> bool {
    let imp_lower = unicode_lowercase(import_name);
    let imp_norm = dashes(imp_lower);
    let imp_bare = no_sep(imp_norm);
    let pkg_name = requirement_name(req);
    let pkg_lower = unicode_lowercase(pkg_name);
    let pkg_norm = dashes(pkg_lower);
    let pkg_bare = no_sep(pkg_norm);
    let parts = split_char(pkg_norm, '_');
    let pkg_no_suffix = without_api_suffix(pkg_norm);
    let pkg_stripped = if has_prefix(pkg_no_suffix, "py_"@) {
        pkg_no_suffix.skip(3)
    } else {
        pkg_no_suffix
    };
    ||| names_match(import_name, pkg_name)
    ||| contains_seq(pkg_bare, imp_bare) || contains_seq(imp_bare, pkg_bare)
    ||| abbreviation_matches(parts, imp_norm, imp_bare)
    ||| pkg_no_suffix == imp_norm
    ||| pkg_stripped == imp_norm
    ||| no_sep(pkg_stripped) == imp_bare
    ||| parts[0] == imp_norm || parts[0] == imp_lower
}

/// Some requirement of the list matches the import.
pub open spec fn fuzzy_matches(import_name: Seq<char>, reqs: Seq<Seq<char>>) -> bool {
    exists|i: int| 0 <= i < reqs.len() && requirement_matches(import_name, #[trigger] reqs[i])
}

/// A logger validates the import: the same name, or one is a dotted
/// sub-path of the other (both lowercased).
pub open spec fn logger_matches(import_name: Seq<char>, logger: Seq<char>) -> bool {
    let i = unicode_lowercase(import_name);
    let l = unicode_lowercase(logger);
    l == i || has_prefix(l, i + "."@) || has_prefix(i, l + "."@)
}

pub open spec fn loggers_match(import_name: Seq<char>, loggers: Seq<Seq<char>>) -> bool {
    exists|k: int| 0 <= k < loggers.len() && logger_matches(import_name, #[trigger] loggers[k])
}

/// Files of the scaffold templates and of hassfest, which are not checked.
pub open spec fn template_file(path: Seq<char>) -> bool {
    contains_seq(path, "/script/scaffold/templates/"@) || contains_seq(path, "/script/hassfest/"@)
}

// ---------------------------------------------------------------------------
// Finding the component of a file
// ---------------------------------------------------------------------------

/// The component of the directory or of its nearest ancestor that has one.
pub open spec fn component_above(dirs: Seq<Seq<char>>, dir: Seq<char>) -> Option<int>
    decreases dir.len(),
{
    match component_index(dirs, dir) {
        Some(i) => Some(i),
        None => match path_parent_of(dir) {
            Some(p) => if p.len() < dir.len() {
                component_above(dirs, p)
            } else {
                None
            },
            None => None,
        },
    }
}

/// The component a file belongs to: that of its directory or the nearest
/// ancestor that has one.
pub open spec fn component_of_file(dirs: Seq<Seq<char>>, file: Seq<char>) -> Option<int> {
    match path_parent_of(file) {
        Some(p) => component_above(dirs, p),
        None => None,
    }
}

/// Whether a manifest accepts an import in a file.
pub open spec fn ha_import_valid(
    comps: Seq<(Seq<char>, ComponentData)>,
    global: Seq<Seq<char>>,
    import_name: Seq<char>,
    file: Seq<char>,
) -> bool {
    ||| template_file(file)
    ||| homeassistant_internal(import_name)
    ||| fuzzy_matches(import_name, global)
    ||| known_submodule(import_name, global)
    ||| match component_of_file(comps.map_values(|c: (Seq<char>, ComponentData)| c.0), file) {
        Some(i) => {
            let c = comps[i].1;
            ||| (c.loggers@.len() > 0 && loggers_match(import_name, strings_of(c.loggers@)))
            ||| known_submodule(import_name, strings_of(c.requirements@))
            ||| fuzzy_matches(import_name, strings_of(c.requirements@))
        },
        None => false,
    }
}

// ---------------------------------------------------------------------------
// Executable parts
// ---------------------------------------------------------------------------

fn copy_string(s: &String) -> (r: String)
    ensures
        r@ == s@,
{
    string_of(chars_of(s.as_str()).as_slice())
}

fn lower(s: &str) -> (r: Vec<char>)
    ensures
        r@ == unicode_lowercase(s@),
{
    to_lowercase(chars_of(s).as_slice())
}

/// Check if an import is a Home Assistant internal package (not on PyPI).
pub fn is_homeassistant_internal(import_name: &str) -> (r: bool)
    ensures
        r == homeassistant_internal(import_name@),
{
    let l = string_of(lower(import_name).as_slice());
    str_eq(l.as_str(), "hass_frontend") || str_eq(l.as_str(), "homeassistant_frontend") || str_eq(
        l.as_str(),
        "insteon_frontend",
    )
}

/// Check if an import is a known submodule of a declared package.
pub fn is_known_submodule(import_name: &str, requirements: &Vec<String>) -> (r: bool)
    ensures
        r == known_submodule(import_name@, strings_of(requirements@)),
{
    let l = string_of(lower(import_name).as_slice());
    let parent = if str_eq(l.as_str(), "didl_lite") {
        "async-upnp-client"
    } else if str_eq(l.as_str(), "inelsmqtt") {
        "elkoep-aio-mqtt"
    } else {
        return false;
    };
    let ghost rv = strings_of(requirements@);
    let mut i: usize = 0;
    while i < requirements.len()
        invariant
            i <= requirements@.len(),
            rv == strings_of(requirements@),
            known_submodule_parent(unicode_lowercase(import_name@)) == Some(parent@),
            forall|j: int|
                0 <= j < i ==> !has_prefix(
                    unicode_lowercase(requirement_name(#[trigger] rv[j])),
                    parent@,
                ),
        decreases requirements.len() - i,
    {
        let pkg = extract_package_name(requirements[i].as_str());
        let pl = lower(pkg.as_str());
        if starts_with_str(pl.as_slice(), parent) {
            assert(has_prefix(unicode_lowercase(requirement_name(rv[i as int])), parent@));
            return true;
        }
        i = i + 1;
    }
    false
}

fn strip_suffix_exec(s: &[char], sfx: &str) -> (r: Option<Vec<char>>)
    ensures
        match r {
            Some(v) => strip_suffix(s@, sfx@) == Some(v@),
            None => strip_suffix(s@, sfx@) is None,
        },
{
    let x = chars_of(sfx);
    if crate::text::ends_with(s, x.as_slice()) {
        let v = slice_range(s, 0, s.len() - x.len());
        assert(v@ =~= s@.take(s@.len() - sfx@.len()));
        Some(v)
    } else {
        None
    }
}

fn abbreviation_exec(parts: &Vec<Vec<char>>, imp_norm: &[char], imp_bare: &[char]) -> (r: bool)
    ensures
        r == abbreviation_matches(parts@.map_values(|p: Vec<char>| p@), imp_norm@, imp_bare@),
{
    let ghost pv = parts@.map_values(|p: Vec<char>| p@);
    if parts.len() < 2 {
        return false;
    }
    let mut i: usize = 1;
    while i < parts.len()
        invariant
            1 <= i <= parts@.len(),
            parts@.len() >= 2,
            pv == parts@.map_values(|p: Vec<char>| p@),
            forall|j: int|
                1 <= j < i ==> !(pv[0] + "_"@ + #[trigger] pv[j] == imp_norm@ || pv[0] + pv[j]
                    == imp_bare@),
        decreases parts.len() - i,
    {
        let a = concat_str(parts[0].as_slice(), "_");
        let b = concat(a.as_slice(), parts[i].as_slice());
        let c = concat(parts[0].as_slice(), parts[i].as_slice());
        if chars_equal(b.as_slice(), imp_norm) || chars_equal(c.as_slice(), imp_bare) {
            assert(pv[0] + "_"@ + pv[i as int] == imp_norm@ || pv[0] + pv[i as int] == imp_bare@);
            return true;
        }
        i = i + 1;
    }
    false
}

/// Whether an import matches one requirement.
pub fn requirement_matches_exec(import_name: &str, req: &str) -> (r: bool)
    ensures
        r == requirement_matches(import_name@, req@),
{
    proof {
        reveal_strlit("py_");
    }
    let imp_lower = lower(import_name);
    let imp_norm = replace_char_with(imp_lower.as_slice(), '-', '_');
    let imp_bare = remove_char(imp_norm.as_slice(), '_');
    let pkg_name = extract_package_name(req);
    let pkg_lower = lower(pkg_name.as_str());
    let pkg_norm = replace_char_with(pkg_lower.as_slice(), '-', '_');
    let pkg_bare = remove_char(pkg_norm.as_slice(), '_');
    if import_matches_package(import_name, pkg_name.as_str()) {
        return true;
    }
    if contains(pkg_bare.as_slice(), imp_bare.as_slice()) || contains(
        imp_bare.as_slice(),
        pkg_bare.as_slice(),
    ) {
        return true;
    }
    let parts = split_by_char(pkg_norm.as_slice(), '_');
    proof {
        lemma_split_from_nonempty(pkg_norm@, '_', 0);
        assert(parts@.map_values(|p: Vec<char>| p@) =~= split_char(pkg_norm@, '_'));
    }
    if abbreviation_exec(&parts, imp_norm.as_slice(), imp_bare.as_slice()) {
        return true;
    }
    let no_suffix = match strip_suffix_exec(pkg_norm.as_slice(), "_api") {
        Some(x) => x,
        None => match strip_suffix_exec(pkg_norm.as_slice(), "_sdk") {
            Some(x) => x,
            None => match strip_suffix_exec(pkg_norm.as_slice(), "_client") {
                Some(x) => x,
                None => pkg_norm.clone(),
            },
        },
    };
    if chars_equal(no_suffix.as_slice(), imp_norm.as_slice()) {
        return true;
    }
    let stripped = if starts_with_str(no_suffix.as_slice(), "py_") {
        let n = no_suffix.len();
        let v = slice_range(no_suffix.as_slice(), 3, n);
        assert(v@ =~= no_suffix@.skip(3));
        v
    } else {
        no_suffix
    };
    if chars_equal(stripped.as_slice(), imp_norm.as_slice()) {
        return true;
    }
    let stripped_bare = remove_char(stripped.as_slice(), '_');
    if chars_equal(stripped_bare.as_slice(), imp_bare.as_slice()) {
        return true;
    }
    assert(parts@[0]@ == split_char(pkg_norm@, '_')[0]);
    chars_equal(parts[0].as_slice(), imp_norm.as_slice()) || chars_equal(
        parts[0].as_slice(),
        imp_lower.as_slice(),
    )
}

/// Fuzzy match an import against a list of requirements.
pub fn fuzzy_match_requirements(import_name: &str, requirements: &Vec<String>) -> (r: bool)
    ensures
        r == fuzzy_matches(import_name@, strings_of(requirements@)),
{
    let ghost rv = strings_of(requirements@);
    let mut i: usize = 0;
    while i < requirements.len()
        invariant
            i <= requirements@.len(),
            rv == strings_of(requirements@),
            forall|j: int| 0 <= j < i ==> !requirement_matches(import_name@, #[trigger] rv[j]),
        decreases requirements.len() - i,
    {
        if requirement_matches_exec(import_name, requirements[i].as_str()) {
            assert(requirement_matches(import_name@, rv[i as int]));
            return true;
        }
        i = i + 1;
    }
    false
}

/// Check if an import matches any loggers (authoritative check).
pub fn matches_loggers(import_name: &str, loggers: &Vec<String>) -> (r: bool)
    ensures
        r == loggers_match(import_name@, strings_of(loggers@)),
{
    let ghost lv = strings_of(loggers@);
    let imp = lower(import_name);
    let imp_dot = concat_str(imp.as_slice(), ".");
    let mut k: usize = 0;
    while k < loggers.len()
        invariant
            k <= loggers@.len(),
            lv == strings_of(loggers@),
            imp@ == unicode_lowercase(import_name@),
            imp_dot@ == imp@ + "."@,
            forall|j: int| 0 <= j < k ==> !logger_matches(import_name@, #[trigger] lv[j]),
        decreases loggers.len() - k,
    {
        let l = lower(loggers[k].as_str());
        let l_dot = concat_str(l.as_slice(), ".");
        if chars_equal(l.as_slice(), imp.as_slice()) || starts_with(l.as_slice(), imp_dot.as_slice())
            || starts_with(imp.as_slice(), l_dot.as_slice()) {
            assert(logger_matches(import_name@, lv[k as int]));
            return true;
        }
        k = k + 1;
    }
    false
}

/// Check if this file is in a template/scaffold directory that should be skipped.
pub fn is_template_file(file_path: &str) -> (r: bool)
    ensures
        r == template_file(file_path@),
{
    let cs = chars_of(file_path);
    crate::text::contains_str(cs.as_slice(), "/script/scaffold/templates/")
        || crate::text::contains_str(cs.as_slice(), "/script/hassfest/")
}

pub open spec fn dirs_of(comps: Seq<(String, ComponentData)>) -> Seq<Seq<char>> {
    comps.map_values(|c: (String, ComponentData)| c.0@)
}

pub open spec fn comps_view(comps: Seq<(String, ComponentData)>) -> Seq<(Seq<char>, ComponentData)> {
    comps.map_values(|c: (String, ComponentData)| (c.0@, c.1))
}

fn index_of_dir(comps: &Vec<(String, ComponentData)>, dir: &str) -> (r: Option<usize>)
    ensures
        match r {
            Some(i) => component_index(dirs_of(comps@), dir@) == Some(i as int) && i < comps@.len(),
            None => component_index(dirs_of(comps@), dir@) is None,
        },
{
    let ghost ds = dirs_of(comps@);
    let mut i: usize = 0;
    while i < comps.len()
        invariant
            i <= comps@.len(),
            ds == dirs_of(comps@),
            component_index(ds.take(i as int), dir@) is None,
        decreases comps.len() - i,
    {
        assert(ds.take(i + 1).drop_last() =~= ds.take(i as int));
        if paths_equal(comps[i].0.as_str(), dir) {
            proof {
                lemma_component_index_prefix(ds, i as int + 1, dir@);
            }
            return Some(i);
        }
        i = i + 1;
    }
    assert(ds.take(ds.len() as int) =~= ds);
    None
}

proof fn lemma_component_index_bound(ds: Seq<Seq<char>>, dir: Seq<char>)
    ensures
        component_index(ds, dir) matches Some(i) ==> 0 <= i < ds.len(),
    decreases ds.len(),
{
    if ds.len() > 0 {
        lemma_component_index_bound(ds.drop_last(), dir);
    }
}

proof fn lemma_component_above_bound(ds: Seq<Seq<char>>, dir: Seq<char>)
    ensures
        component_above(ds, dir) matches Some(i) ==> 0 <= i < ds.len(),
    decreases dir.len(),
{
    lemma_component_index_bound(ds, dir);
    match path_parent_of(dir) {
        Some(p) => if p.len() < dir.len() {
            lemma_component_above_bound(ds, p);
        },
        None => {},
    }
}

proof fn lemma_component_index_prefix(ds: Seq<Seq<char>>, n: int, dir: Seq<char>)
    requires
        0 <= n <= ds.len(),
        component_index(ds.take(n), dir) is Some,
    ensures
        component_index(ds, dir) == component_index(ds.take(n), dir),
    decreases ds.len(),
{
    if n < ds.len() {
        assert(ds.drop_last().take(n) =~= ds.take(n));
        lemma_component_index_prefix(ds.drop_last(), n, dir);
    } else {
        assert(ds.take(n) =~= ds);
    }
}

impl HomeAssistantManifest {
    /// The component manifests by directory.
    pub closed spec fn components(&self) -> Seq<(Seq<char>, ComponentData)> {
        comps_view(self.component_manifests@)
    }

    /// The component directories.
    pub closed spec fn dirs(&self) -> Seq<Seq<char>> {
        dirs_of(self.component_manifests@)
    }

    /// The global requirement lines.
    pub closed spec fn global(&self) -> Seq<Seq<char>> {
        strings_of(self.global_requirements@)
    }

    /// The project root.
    pub closed spec fn root_view(&self) -> Seq<char> {
        self.root@
    }

    /// Build the manifest from the component manifests found under
    /// `homeassistant/components` (each with its directory) and the
    /// contents of the requirements*.txt files at the root.
    pub fn from_root(
        root: &str,
        components: Vec<(String, ComponentData)>,
        requirement_files: &Vec<String>,
    ) -> (r: HomeAssistantManifest)
        ensures
            r.root_view() == root@,
            r.components() == components_from(components@),
            r.global() == global_requirements_of(requirement_files@),
    {
        let ghost found = components@;
        let mut comps: Vec<(String, ComponentData)> = Vec::new();
        let mut rest = components;
        let mut taken: usize = 0;
        let total = rest.len();
        assert(comps_view(comps@) =~= components_from(found.take(0)));
        while rest.len() > 0
            invariant
                total == found.len(),
                taken + rest@.len() == found.len(),
                rest@ == found.skip(taken as int),
                comps_view(comps@) == components_from(found.take(taken as int)),
            decreases rest.len(),
        {
            let (dir, data) = rest.remove(0);
            assert(found.take(taken + 1).drop_last() =~= found.take(taken as int));
            assert(found.take(taken + 1).last() == found[taken as int]);
            assert(rest@ =~= found.skip(taken + 1));
            let ghost before = comps_view(comps@);
            assert(before.map_values(|c: (Seq<char>, ComponentData)| c.0) =~= dirs_of(comps@));
            match index_of_dir(&comps, dir.as_str()) {
                Some(i) => {
                    let d = copy_string(&comps[i].0);
                    comps.set(i, (d, data));
                    assert(comps_view(comps@) =~= before.update(i as int, (before[i as int].0, data)));
                },
                None => {
                    comps.push((dir, data));
                    assert(comps_view(comps@) =~= before.push((found[taken as int].0@, data)));
                },
            }
            taken = taken + 1;
        }
        assert(found.take(found.len() as int) =~= found);
        let mut global: Vec<String> = Vec::new();
        let mut f: usize = 0;
        while f < requirement_files.len()
            invariant
                f <= requirement_files@.len(),
                strings_of(global@) == global_requirements_of(requirement_files@.take(f as int)),
            decreases requirement_files.len() - f,
        {
            assert(requirement_files@.take(f + 1).drop_last() =~= requirement_files@.take(f as int));
            let ghost start = strings_of(global@);
            let ghost all = str_lines(requirement_files@[f as int]@);
            let lines = lines_of(chars_of(requirement_files[f].as_str()).as_slice());
            let mut i: usize = 0;
            while i < lines.len()
                invariant
                    i <= lines@.len(),
                    lines@.len() == all.len(),
                    forall|k: int| 0 <= k < lines@.len() ==> #[trigger] lines@[k]@ == all[k],
                    strings_of(global@) == start + requirement_lines_of(all.take(i as int)),
                decreases lines.len() - i,
            {
                assert(all.take(i + 1).drop_last() =~= all.take(i as int));
                assert(all.take(i + 1).last() == lines@[i as int]@);
                let t = trim_chars(lines[i].as_slice());
                if t.len() > 0 && !starts_with_str(t.as_slice(), "#") && !starts_with_str(
                    t.as_slice(),
                    "-",
                ) {
                    let ghost b = global@;
                    global.push(string_of(t.as_slice()));
                    assert(strings_of(global@) =~= strings_of(b).push(t@));
                }
                i = i + 1;
            }
            assert(all.take(all.len() as int) =~= all);
            f = f + 1;
        }
        assert(requirement_files@.take(requirement_files@.len() as int) =~= requirement_files@);
        HomeAssistantManifest {
            root: string_of(chars_of(root).as_slice()),
            component_manifests: comps,
            global_requirements: global,
        }
    }

    /// Find which component a file belongs to by walking up the directory tree.
    pub fn find_component(&self, file_path: &str) -> (r: Option<usize>)
        ensures
            match r {
                Some(i) => component_of_file(self.dirs(), file_path@) == Some(i as int) && i
                    < self.components().len(),
                None => component_of_file(self.dirs(), file_path@) is None,
            },
    {
        let ghost ds = dirs_of(self.component_manifests@);
        let mut current = match path_parent(file_path) {
            Some(p) => p,
            None => return None,
        };
        loop
            invariant
                ds == dirs_of(self.component_manifests@),
                component_of_file(ds, file_path@) == component_above(ds, current@),
            decreases current@.len(),
        {
            match index_of_dir(&self.component_manifests, current.as_str()) {
                Some(i) => {
                    return Some(i);
                },
                None => {},
            }
            match path_parent(current.as_str()) {
                Some(p) => {
                    current = p;
                },
                None => {
                    return None;
                },
            }
        }
    }
}

impl ManifestProvider for HomeAssistantManifest {
    fn is_valid_import(&self, import_name: &str, file_path: &str) -> (r: bool)
        ensures
            r == ha_import_valid(self.components(), self.global(), import_name@, file_path@),
    {
        proof {
            assert(self.components().map_values(|c: (Seq<char>, ComponentData)| c.0) =~= dirs_of(
                self.component_manifests@,
            ));
        }
        if is_template_file(file_path) {
            return true;
        }
        if is_homeassistant_internal(import_name) {
            return true;
        }
        if fuzzy_match_requirements(import_name, &self.global_requirements) {
            return true;
        }
        if is_known_submodule(import_name, &self.global_requirements) {
            return true;
        }
        let i = match self.find_component(file_path) {
            Some(i) => i,
            None => return false,
        };
        let component = &self.component_manifests[i].1;
        if component.loggers.len() > 0 && matches_loggers(import_name, &component.loggers) {
            return true;
        }
        if is_known_submodule(import_name, &component.requirements) {
            return true;
        }
        fuzzy_match_requirements(import_name, &component.requirements)
    }

    fn get_declared_imports(&self, file_path: &str) -> (r: Vec<String>)
        ensures
            strings_of(r@) == self.global().map_values(|q: Seq<char>| requirement_name(q))
                + match component_of_file(self.dirs(), file_path@) {
                Some(i) => strings_of(self.components()[i].1.requirements@).map_values(
                    |q: Seq<char>| requirement_name(q),
                ) + strings_of(self.components()[i].1.loggers@),
                None => Seq::empty(),
            },
    {
        let mut imports: Vec<String> = Vec::new();
        let ghost g = strings_of(self.global_requirements@);
        let mut i: usize = 0;
        while i < self.global_requirements.len()
            invariant
                i <= g.len(),
                g == strings_of(self.global_requirements@),
                strings_of(imports@) == g.take(i as int).map_values(
                    |q: Seq<char>| requirement_name(q),
                ),
            decreases self.global_requirements.len() - i,
        {
            let ghost b = imports@;
            imports.push(extract_package_name(self.global_requirements[i].as_str()));
            assert(g[i as int] == self.global_requirements@[i as int]@);
            assert(strings_of(imports@) =~= strings_of(b).push(requirement_name(g[i as int])));
            assert(strings_of(imports@) =~= g.take(i + 1).map_values(
                |q: Seq<char>| requirement_name(q),
            ));
            i = i + 1;
        }
        assert(g.take(g.len() as int) =~= g);
        match self.find_component(file_path) {
            Some(c) => {
                let comp = &self.component_manifests[c].1;
                let ghost head = strings_of(imports@);
                let ghost rq = strings_of(comp.requirements@);
                let mut j: usize = 0;
                while j < comp.requirements.len()
                    invariant
                        j <= rq.len(),
                        rq == strings_of(comp.requirements@),
                        strings_of(imports@) == head + rq.take(j as int).map_values(
                            |q: Seq<char>| requirement_name(q),
                        ),
                    decreases comp.requirements.len() - j,
                {
                    let ghost b = imports@;
                    imports.push(extract_package_name(comp.requirements[j].as_str()));
                    assert(rq[j as int] == comp.requirements@[j as int]@);
                    assert(strings_of(imports@) =~= strings_of(b).push(requirement_name(rq[j as int])));
                    assert(strings_of(imports@) =~= head + rq.take(j + 1).map_values(
                        |q: Seq<char>| requirement_name(q),
                    ));
                    j = j + 1;
                }
                assert(rq.take(rq.len() as int) =~= rq);
                let ghost mid = strings_of(imports@);
                let ghost lg = strings_of(comp.loggers@);
                let mut k: usize = 0;
                while k < comp.loggers.len()
                    invariant
                        k <= lg.len(),
                        lg == strings_of(comp.loggers@),
                        strings_of(imports@) == mid + lg.take(k as int),
                    decreases comp.loggers.len() - k,
                {
                    let ghost b = imports@;
                    imports.push(copy_string(&comp.loggers[k]));
                    assert(lg[k as int] == comp.loggers@[k as int]@);
                    assert(strings_of(imports@) =~= strings_of(b).push(lg[k as int]));
                    assert(strings_of(imports@) =~= mid + lg.take(k + 1));
                    k = k + 1;
                }
                assert(lg.take(lg.len() as int) =~= lg);
            },
            None => {},
        }
        imports
    }

    /// The domain of the component the file belongs to.
    fn get_scope(&self, file_path: &str) -> (r: Option<String>)
        ensures
            match component_of_file(self.dirs(), file_path@) {
                Some(i) => r matches Some(d) && d@ == self.components()[i].1.domain@,
                None => r is None,
            },
    {
        match self.find_component(file_path) {
            Some(i) => Some(copy_string(&self.component_manifests[i].1.domain)),
            None => None,
        }
    }

    fn stats(&self) -> (r: ManifestStats)
        ensures
            r.scoped_count == self.components().len(),
            r.package_count == capped(package_total(self.components()) + self.global().len()),
    {
        let mut total: usize = 0;
        let mut i: usize = 0;
        while i < self.component_manifests.len()
            invariant
                i <= self.component_manifests@.len(),
                total == capped(package_total(comps_view(self.component_manifests@).take(i as int))),
            decreases self.component_manifests.len() - i,
        {
            assert(comps_view(self.component_manifests@).take(i + 1).drop_last() =~= comps_view(
                self.component_manifests@,
            ).take(i as int));
            let c = &self.component_manifests[i].1;
            total = total.saturating_add(c.requirements.len()).saturating_add(c.loggers.len());
            i = i + 1;
        }
        assert(comps_view(self.component_manifests@).take(
            self.component_manifests@.len() as int,
        ) =~= comps_view(self.component_manifests@));
        ManifestStats {
            scoped_count: self.component_manifests.len(),
            package_count: total.saturating_add(self.global_requirements.len()),
        }
    }
}

/// The count, or the largest `usize` when it does not fit.
pub open spec fn capped(n: int) -> int {
    if n > usize::MAX {
        usize::MAX as int
    } else {
        n
    }
}

/// How many requirements and loggers the components declare.
pub open spec fn package_total(comps: Seq<(Seq<char>, ComponentData)>) -> int
    decreases comps.len(),
{
    if comps.len() == 0 {
        0
    } else {
        package_total(comps.drop_last()) + comps.last().1.requirements@.len()
            + comps.last().1.loggers@.len()
    }
}

} // verus!
