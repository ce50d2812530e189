//! Detection of hallucinated dependencies.
//!
//! Imports are first validated against the project's manifest (Home
//! Assistant, standard Python, Go, or none) and the allowlist. Go imports
//! that the manifest does not declare are violations at once (go.mod is
//! authoritative); the other packages are looked up in their registries,
//! and only those that truly exist nowhere are flagged.
//!
//! The lookups are made by the caller: `prepare_dependency_check` says which
//! packages to look up, `dependency_violations` reads the answers.
use vstd::prelude::*;

use crate::contract::DependencyVerificationConfig;
use crate::detect::imports::{extract_imports, file_imports, imports_view, ImportView, ImportedDependency};
use crate::detect::manifest::golang::go_import_valid;
use crate::detect::manifest::homeassistant::{capped, component_of_file, ha_import_valid, package_total};
use crate::paths::path_file_name_of;
use crate::detect::manifest::python::python_import_valid;
use crate::detect::manifest::{
    GoManifest, HomeAssistantManifest, ManifestProvider, ManifestStats, ManifestType, NoManifest,
    PythonManifest,
};
use crate::detect::types::{
    str_eq, violations_view, DetectionResult, Severity, Violation, ViolationRule, ViolationView,
};
use crate::matching::{capture_of, captures_view, group_view, regex_captures};
use crate::registry::client::error_text;
use crate::registry::{
    allowlisted, is_allowlisted, registry_name, PackageStatus, PackageStatusView, RegistryError,
    RegistryType,
};
use crate::text::{chars_of, concat, concat_str, string_of};

verus! {

// ---------------------------------------------------------------------------
// Local packages
// ---------------------------------------------------------------------------

pub open spec fn toml_name_re() -> Seq<char> {
    "(?m)^\\s*name\\s*=\\s*\"([^\"]+)\""@
}

pub open spec fn json_name_re() -> Seq<char> {
    "\"name\"\\s*:\\s*\"([^\"]+)\""@
}

pub open spec fn go_module_re() -> Seq<char> {
    "(?m)^module\\s+(\\S+)"@
}

/// Group 1 of the first match of the pattern, if any.
pub open spec fn first_group(pattern: Seq<char>, text: Seq<char>) -> Option<Seq<char>> {
    match capture_of(pattern, text) {
        Some(c) => if c.1.len() > 1 {
            c.1[1]
        } else {
            None
        },
        None => None,
    }
}

fn first_group_exec(pattern: &str, text: &str) -> (r: Option<String>)
    ensures
        match r {
            Some(s) => first_group(pattern@, text@) == Some(s@),
            None => first_group(pattern@, text@) is None,
        },
{
    match regex_captures(pattern, text) {
        Some(c) => {
            if c.1.len() > 1 {
                match &c.1[1] {
                    Some(g) => Some(string_of(g.as_slice())),
                    None => None,
                }
            } else {
                None
            }
        },
        None => None,
    }
}

/// Parse package name from Cargo.toml
pub fn parse_cargo_package_name(content: &str) -> (r: Option<String>)
    ensures
        match r {
            Some(s) => first_group(toml_name_re(), content@) == Some(s@),
            None => first_group(toml_name_re(), content@) is None,
        },
{
    first_group_exec("(?m)^\\s*name\\s*=\\s*\"([^\"]+)\"", content)
}

/// Parse package name from package.json
pub fn parse_npm_package_name(content: &str) -> (r: Option<String>)
    ensures
        match r {
            Some(s) => first_group(json_name_re(), content@) == Some(s@),
            None => first_group(json_name_re(), content@) is None,
        },
{
    first_group_exec("\"name\"\\s*:\\s*\"([^\"]+)\"", content)
}

/// Parse module name from go.mod
pub fn parse_go_module_name(content: &str) -> (r: Option<String>)
    ensures
        match r {
            Some(s) => first_group(go_module_re(), content@) == Some(s@),
            None => first_group(go_module_re(), content@) is None,
        },
{
    first_group_exec("(?m)^module\\s+(\\S+)", content)
}

/// Parse package name from pyproject.toml
pub fn parse_pyproject_name(content: &str) -> (r: Option<String>)
    ensures
        match r {
            Some(s) => first_group(toml_name_re(), content@) == Some(s@),
            None => first_group(toml_name_re(), content@) is None,
        },
{
    first_group_exec("(?m)^\\s*name\\s*=\\s*\"([^\"]+)\"", content)
}

pub open spec fn opt_name(pattern: Seq<char>, content: Option<Seq<char>>) -> Seq<Seq<char>> {
    match content {
        Some(c) => match first_group(pattern, c) {
            Some(n) => seq![n],
            None => Seq::empty(),
        },
        None => Seq::empty(),
    }
}

pub open spec fn opt_view(o: Option<&str>) -> Option<Seq<char>> {
    match o {
        Some(s) => Some(s@),
        None => None,
    }
}

/// The project's own package names, from the Cargo.toml, package.json,
/// go.mod and pyproject.toml at its root (when there), in that order.
pub open spec fn local_package_names(
    cargo_toml: Option<Seq<char>>,
    package_json: Option<Seq<char>>,
    go_mod: Option<Seq<char>>,
    pyproject_toml: Option<Seq<char>>,
) -> Seq<Seq<char>> {
    opt_name(toml_name_re(), cargo_toml) + opt_name(json_name_re(), package_json) + opt_name(
        go_module_re(),
        go_mod,
    ) + opt_name(toml_name_re(), pyproject_toml)
}

pub open spec fn strings_view(v: Seq<String>) -> Seq<Seq<char>> {
    v.map_values(|s: String| s@)
}

fn push_opt(out: &mut Vec<String>, name: Option<String>)
    ensures
        strings_view(final(out)@) == strings_view(old(out)@) + match name {
            Some(n) => seq![n@],
            None => Seq::empty(),
        },
{
    let ghost before = strings_view(out@);
    match name {
        Some(n) => {
            out.push(n);
            assert(strings_view(out@) =~= before + seq![out@.last()@]);
        },
        None => {
            assert(before + Seq::<Seq<char>>::empty() =~= before);
        },
    }
}

/// Detect local package names from the project's manifest files (the text
/// of each, when it exists). These are allowlisted.
pub fn detect_local_packages(
    cargo_toml: Option<&str>,
    package_json: Option<&str>,
    go_mod: Option<&str>,
    pyproject_toml: Option<&str>,
) -> (r: Vec<String>)
    ensures
        strings_view(r@) == local_package_names(
            opt_view(cargo_toml),
            opt_view(package_json),
            opt_view(go_mod),
            opt_view(pyproject_toml),
        ),
{
    let mut out: Vec<String> = Vec::new();
    assert(strings_view(out@) =~= Seq::<Seq<char>>::empty());
    let a = match cargo_toml {
        Some(c) => parse_cargo_package_name(c),
        None => None,
    };
    push_opt(&mut out, a);
    let b = match package_json {
        Some(c) => parse_npm_package_name(c),
        None => None,
    };
    push_opt(&mut out, b);
    let c = match go_mod {
        Some(c) => parse_go_module_name(c),
        None => None,
    };
    push_opt(&mut out, c);
    let d = match pyproject_toml {
        Some(c) => parse_pyproject_name(c),
        None => None,
    };
    push_opt(&mut out, d);
    assert(strings_view(out@) =~= local_package_names(
        opt_view(cargo_toml),
        opt_view(package_json),
        opt_view(go_mod),
        opt_view(pyproject_toml),
    ));
    out
}

// ---------------------------------------------------------------------------
// The manifest
// ---------------------------------------------------------------------------

/// The manifest of a project, of whichever kind it has.
pub enum AnyManifest {
    HomeAssistant(HomeAssistantManifest),
    Python(PythonManifest),
    Go(GoManifest),
    NoManifest(NoManifest),
}

/// Whether the manifest declares the import for the file.
pub open spec fn manifest_accepts(m: AnyManifest, import_name: Seq<char>, file: Seq<char>) -> bool {
    match m {
        AnyManifest::HomeAssistant(h) => ha_import_valid(h.components(), h.global(), import_name, file),
        AnyManifest::Python(p) => python_import_valid(p.packages_view(), import_name),
        AnyManifest::Go(g) => go_import_valid(
            g.root_view(),
            g.external_view(),
            g.replaced_view(),
            import_name,
        ),
        AnyManifest::NoManifest(_) => false,
    }
}

/// The scope of a file under the manifest: the domain of the Home Assistant
/// component it belongs to, the name of a Python project's directory, the
/// root module of a Go module; none without a manifest.
pub open spec fn manifest_scope(m: AnyManifest, file: Seq<char>) -> Option<Seq<char>> {
    match m {
        AnyManifest::HomeAssistant(h) => match component_of_file(h.dirs(), file) {
            Some(i) => Some(h.components()[i].1.domain@),
            None => None,
        },
        AnyManifest::Python(p) => path_file_name_of(p.root_view()),
        AnyManifest::Go(g) => Some(g.root_view()),
        AnyManifest::NoManifest(_) => None,
    }
}

/// The statistics of the manifest: how many scoped manifests it holds and
/// how many packages it declares (stopping at the largest `usize`).
pub open spec fn manifest_stats(m: AnyManifest) -> (int, int) {
    match m {
        AnyManifest::HomeAssistant(h) => (
            h.components().len() as int,
            capped(package_total(h.components()) + h.global().len()),
        ),
        AnyManifest::Python(p) => (0, p.packages_view().len() as int),
        AnyManifest::Go(g) => (0, capped(g.external_view().dom().len() + g.replaced_view().dom().len() + 1int)),
        AnyManifest::NoManifest(_) => (0, 0),
    }
}

impl AnyManifest {
    pub fn is_valid_import(&self, import_name: &str, file_path: &str) -> (r: bool)
        ensures
            r == manifest_accepts(*self, import_name@, file_path@),
    {
        match self {
            AnyManifest::HomeAssistant(h) => h.is_valid_import(import_name, file_path),
            AnyManifest::Python(p) => p.is_valid_import(import_name, file_path),
            AnyManifest::Go(g) => g.is_valid_import(import_name, file_path),
            AnyManifest::NoManifest(n) => n.is_valid_import(import_name, file_path),
        }
    }

    pub fn get_scope(&self, file_path: &str) -> (r: Option<String>)
        ensures
            crate::paths::opt_string_view(r) == manifest_scope(*self, file_path@),
    {
        match self {
            AnyManifest::HomeAssistant(h) => h.get_scope(file_path),
            AnyManifest::Python(p) => p.get_scope(file_path),
            AnyManifest::Go(g) => g.get_scope(file_path),
            AnyManifest::NoManifest(n) => n.get_scope(file_path),
        }
    }

    pub fn stats(&self) -> (r: ManifestStats)
        ensures
            r.scoped_count == manifest_stats(*self).0,
            r.package_count == manifest_stats(*self).1,
    {
        match self {
            AnyManifest::HomeAssistant(h) => h.stats(),
            AnyManifest::Python(p) => p.stats(),
            AnyManifest::Go(g) => g.stats(),
            AnyManifest::NoManifest(n) => n.stats(),
        }
    }
}

/// The manifest type to load: the requested one, or for `Auto` the detected
/// one.
pub fn resolve_manifest_type(requested: ManifestType, detected: ManifestType) -> (r: ManifestType)
    ensures
        r == if requested == ManifestType::Auto {
            detected
        } else {
            requested
        },
{
    match requested {
        ManifestType::Auto => detected,
        other => other,
    }
}

/// Dependency validator: the project's manifest and the allowlist (extended
/// with the project's own packages).
pub struct DependencyValidator {
    manifest_type: ManifestType,
    manifest: AnyManifest,
    allowlist: Vec<String>,
    fail_on_timeout: bool,
    local_packages: Vec<String>,
}

impl DependencyValidator {
    pub closed spec fn kind(&self) -> ManifestType {
        self.manifest_type
    }

    pub closed spec fn manifest_view(&self) -> AnyManifest {
        self.manifest
    }

    pub closed spec fn allowlist_view(&self) -> Seq<Seq<char>> {
        strings_view(self.allowlist@)
    }

    pub closed spec fn fails_on_timeout(&self) -> bool {
        self.fail_on_timeout
    }

    /// Create a validator from the loaded manifest, the configuration and
    /// the project's own packages.
    pub fn new(
        manifest_type: ManifestType,
        manifest: AnyManifest,
        config: &DependencyVerificationConfig,
        local_packages: Vec<String>,
    ) -> (r: DependencyValidator)
        ensures
            r.kind() == manifest_type,
            r.manifest_view() == manifest,
            r.allowlist_view() == strings_view(config.allowlist@) + strings_view(local_packages@),
            r.fails_on_timeout() == config.fail_on_timeout,
    {
        let mut allowlist: Vec<String> = Vec::new();
        let mut i: usize = 0;
        while i < config.allowlist.len()
            invariant
                i <= config.allowlist@.len(),
                strings_view(allowlist@) == strings_view(config.allowlist@).take(i as int),
            decreases config.allowlist.len() - i,
        {
            let ghost b = allowlist@;
            allowlist.push(string_of(chars_of(config.allowlist[i].as_str()).as_slice()));
            assert(strings_view(allowlist@) =~= strings_view(b).push(config.allowlist@[i as int]@));
            assert(strings_view(config.allowlist@).take(i + 1) =~= strings_view(
                config.allowlist@,
            ).take(i as int).push(config.allowlist@[i as int]@));
            i = i + 1;
        }
        assert(strings_view(config.allowlist@).take(config.allowlist@.len() as int) =~= strings_view(
            config.allowlist@,
        ));
        let ghost head = strings_view(allowlist@);
        let mut j: usize = 0;
        while j < local_packages.len()
            invariant
                j <= local_packages@.len(),
                strings_view(allowlist@) == head + strings_view(local_packages@).take(j as int),
            decreases local_packages.len() - j,
        {
            let ghost b = allowlist@;
            allowlist.push(string_of(chars_of(local_packages[j].as_str()).as_slice()));
            assert(strings_view(allowlist@) =~= strings_view(b).push(local_packages@[j as int]@));
            assert(strings_view(local_packages@).take(j + 1) =~= strings_view(local_packages@).take(
                j as int,
            ).push(local_packages@[j as int]@));
            j = j + 1;
        }
        assert(strings_view(local_packages@).take(local_packages@.len() as int) =~= strings_view(
            local_packages@,
        ));
        DependencyValidator {
            manifest_type,
            manifest,
            allowlist,
            fail_on_timeout: config.fail_on_timeout,
            local_packages,
        }
    }

    /// Get the detected manifest type.
    pub fn manifest_type(&self) -> (r: &ManifestType)
        ensures
            *r == self.kind(),
    {
        &self.manifest_type
    }

    /// Check if an import is valid according to the manifest.
    pub fn is_valid_import(&self, import_name: &str, file_path: &str) -> (r: bool)
        ensures
            r == manifest_accepts(self.manifest_view(), import_name@, file_path@),
    {
        self.manifest.is_valid_import(import_name, file_path)
    }

    /// Get the scope (component/module) a file belongs to.
    pub fn get_scope(&self, file_path: &str) -> (r: Option<String>)
        ensures
            crate::paths::opt_string_view(r) == manifest_scope(self.manifest_view(), file_path@),
    {
        self.manifest.get_scope(file_path)
    }

    /// Validate an import. An allowlisted or declared import is valid; any
    /// other still needs a registry lookup, so no violation is given here
    /// either way.
    pub fn validate_import(&self, import_name: &str, file_path: &str, line: usize) -> (r: Option<
        Violation,
    >)
        ensures
            r is None,
    {
        if self.is_allowlisted(import_name) {
            return None;
        }
        if self.manifest.is_valid_import(import_name, file_path) {
            return None;
        }
        None
    }

    /// Whether the (extended) allowlist covers the package.
    pub fn is_allowlisted(&self, package: &str) -> (r: bool)
        ensures
            r == allowlisted(self.allowlist_view(), package@),
    {
        is_allowlisted(&self.allowlist, package)
    }

    /// Whether a lookup that gives no answer is reported.
    pub fn fail_on_timeout(&self) -> (r: bool)
        ensures
            r == self.fails_on_timeout(),
    {
        self.fail_on_timeout
    }
}

// ---------------------------------------------------------------------------
// Grouping and triage
// ---------------------------------------------------------------------------

/// The imports of one package (by registry and name), where they occur.
pub struct ImportGroup {
    pub registry: RegistryType,
    pub name: String,
    pub locations: Vec<ImportedDependency>,
}

pub struct ImportGroupView {
    pub registry: RegistryType,
    pub name: Seq<char>,
    pub locations: Seq<ImportView>,
}

impl View for ImportGroup {
    type V = ImportGroupView;

    open spec fn view(&self) -> ImportGroupView {
        ImportGroupView {
            registry: self.registry,
            name: self.name@,
            locations: imports_view(self.locations@),
        }
    }
}

pub open spec fn groups_view(v: Seq<ImportGroup>) -> Seq<ImportGroupView> {
    v.map_values(|g: ImportGroup| g@)
}

/// The index of the group of a package.
pub open spec fn group_index(gs: Seq<ImportGroupView>, registry: RegistryType, name: Seq<char>) -> Option<
    int,
>
    decreases gs.len(),
{
    if gs.len() == 0 {
        None
    } else {
        match group_index(gs.drop_last(), registry, name) {
            Some(i) => Some(i),
            None => if gs.last().registry == registry && gs.last().name == name {
                Some(gs.len() - 1)
            } else {
                None
            },
        }
    }
}

/// The imports grouped by package, groups in order of first import, each
/// group's locations in order.
pub open spec fn grouped(imports: Seq<ImportView>) -> Seq<ImportGroupView>
    decreases imports.len(),
{
    if imports.len() == 0 {
        Seq::empty()
    } else {
        let gs = grouped(imports.drop_last());
        let d = imports.last();
        match group_index(gs, d.registry, d.name) {
            Some(i) => gs.update(
                i,
                ImportGroupView { locations: gs[i].locations.push(d), ..gs[i] },
            ),
            None => gs.push(ImportGroupView { registry: d.registry, name: d.name, locations: seq![d] }),
        }
    }
}

proof fn lemma_group_index_bound(gs: Seq<ImportGroupView>, registry: RegistryType, name: Seq<char>)
    ensures
        group_index(gs, registry, name) matches Some(i) ==> 0 <= i < gs.len() && gs[i].registry
            == registry && gs[i].name == name,
    decreases gs.len(),
{
    if gs.len() > 0 {
        lemma_group_index_bound(gs.drop_last(), registry, name);
    }
}

fn find_group(groups: &Vec<ImportGroup>, registry: RegistryType, name: &str) -> (r: Option<usize>)
    ensures
        match r {
            Some(i) => group_index(groups_view(groups@), registry, name@) == Some(i as int) && i
                < groups@.len(),
            None => group_index(groups_view(groups@), registry, name@) is None,
        },
{
    let ghost gv = groups_view(groups@);
    let mut i: usize = 0;
    while i < groups.len()
        invariant
            i <= groups@.len(),
            gv == groups_view(groups@),
            group_index(gv.take(i as int), registry, name@) is None,
        decreases groups.len() - i,
    {
        assert(gv.take(i + 1).drop_last() =~= gv.take(i as int));
        if groups[i].registry == registry && str_eq(groups[i].name.as_str(), name) {
            proof {
                lemma_group_index_prefix(gv, i as int + 1, registry, name@);
            }
            return Some(i);
        }
        i = i + 1;
    }
    assert(gv.take(gv.len() as int) =~= gv);
    None
}

proof fn lemma_group_index_prefix(
    gs: Seq<ImportGroupView>,
    n: int,
    registry: RegistryType,
    name: Seq<char>,
)
    requires
        0 <= n <= gs.len(),
        group_index(gs.take(n), registry, name) is Some,
    ensures
        group_index(gs, registry, name) == group_index(gs.take(n), registry, name),
    decreases gs.len(),
{
    if n < gs.len() {
        assert(gs.drop_last().take(n) =~= gs.take(n));
        lemma_group_index_prefix(gs.drop_last(), n, registry, name);
    } else {
        assert(gs.take(n) =~= gs);
    }
}

fn copy_import(d: &ImportedDependency) -> (r: ImportedDependency)
    ensures
        r@ == d@,
{
    ImportedDependency {
        name: string_of(chars_of(d.name.as_str()).as_slice()),
        registry: d.registry,
        file: string_of(chars_of(d.file.as_str()).as_slice()),
        line: d.line,
    }
}

/// Group the imports by package.
pub fn group_imports(imports: &Vec<ImportedDependency>) -> (r: Vec<ImportGroup>)
    ensures
        groups_view(r@) == grouped(imports_view(imports@)),
{
    let ghost iv = imports_view(imports@);
    let mut groups: Vec<ImportGroup> = Vec::new();
    assert(groups_view(groups@) =~= grouped(iv.take(0)));
    let mut k: usize = 0;
    while k < imports.len()
        invariant
            k <= imports@.len(),
            iv == imports_view(imports@),
            groups_view(groups@) == grouped(iv.take(k as int)),
        decreases imports.len() - k,
    {
        assert(iv.take(k + 1).drop_last() =~= iv.take(k as int));
        assert(iv.take(k + 1).last() == imports@[k as int]@);
        let d = &imports[k];
        let ghost before = groups_view(groups@);
        match find_group(&groups, d.registry, d.name.as_str()) {
            Some(i) => {
                proof {
                    lemma_group_index_bound(before, d.registry, d.name@);
                }
                let mut g = groups.remove(i);
                let ghost gl = g.locations@;
                g.locations.push(copy_import(d));
                assert(imports_view(g.locations@) =~= imports_view(gl).push(d@));
                groups.insert(i, g);
                assert(groups_view(groups@) =~= before.update(
                    i as int,
                    ImportGroupView { locations: before[i as int].locations.push(d@), ..before[i as int] },
                ));
            },
            None => {
                let mut locs: Vec<ImportedDependency> = Vec::new();
                locs.push(copy_import(d));
                assert(imports_view(locs@) =~= seq![d@]);
                groups.push(
                    ImportGroup {
                        registry: d.registry,
                        name: string_of(chars_of(d.name.as_str()).as_slice()),
                        locations: locs,
                    },
                );
                assert(groups_view(groups@) =~= before.push(
                    ImportGroupView { registry: d.registry, name: d.name@, locations: seq![d@] },
                ));
            },
        }
        k = k + 1;
    }
    assert(iv.take(iv.len() as int) =~= iv);
    groups
}

/// The violations for a Go package that the manifest does not declare,
/// one per location.
pub open spec fn go_violations(name: Seq<char>, locs: Seq<ImportView>) -> Seq<ViolationView> {
    locs.map_values(
        |l: ImportView|
            ViolationView {
                rule: ViolationRule::HallucinatedDependency,
                message: "Go import \""@ + name + "\" not found in go.mod"@,
                file: l.file,
                line: l.line,
                severity: Severity::Critical,
            },
    )
}

/// A group that neither the allowlist nor the manifest (for its first
/// location's file) covers.
pub open spec fn unexplained(allow: Seq<Seq<char>>, m: AnyManifest, g: ImportGroupView) -> bool {
    !allowlisted(allow, g.name) && !(g.locations.len() > 0 && manifest_accepts(
        m,
        g.name,
        g.locations[0].file,
    ))
}

/// The Go violations of the groups, in order.
pub open spec fn triage_violations(allow: Seq<Seq<char>>, m: AnyManifest, gs: Seq<ImportGroupView>) -> Seq<
    ViolationView,
>
    decreases gs.len(),
{
    if gs.len() == 0 {
        Seq::empty()
    } else {
        let prev = triage_violations(allow, m, gs.drop_last());
        let g = gs.last();
        if unexplained(allow, m, g) && g.registry == RegistryType::Go {
            prev + go_violations(g.name, g.locations)
        } else {
            prev
        }
    }
}

/// The groups left for registry lookups, in order.
pub open spec fn groups_to_check(allow: Seq<Seq<char>>, m: AnyManifest, gs: Seq<ImportGroupView>) -> Seq<
    ImportGroupView,
>
    decreases gs.len(),
{
    if gs.len() == 0 {
        Seq::empty()
    } else {
        let prev = groups_to_check(allow, m, gs.drop_last());
        let g = gs.last();
        if unexplained(allow, m, g) && g.registry != RegistryType::Go {
            prev.push(g)
        } else {
            prev
        }
    }
}

fn add_go_violations(result: &mut DetectionResult, g: &ImportGroup)
    ensures
        violations_view(final(result).violations@) == violations_view(old(result).violations@)
            + go_violations(g.name@, imports_view(g.locations@)),
        final(result).scanned == old(result).scanned,
        final(result).suppressed@ == old(result).suppressed@,
        final(result).new_violations@ == old(result).new_violations@,
        final(result).baseline_ref == old(result).baseline_ref,
{
    let ghost start = violations_view(result.violations@);
    let ghost lv = imports_view(g.locations@);
    let a = concat_str(chars_of("Go import \"").as_slice(), g.name.as_str());
    let msg = concat_str(a.as_slice(), "\" not found in go.mod");
    let mut i: usize = 0;
    while i < g.locations.len()
        invariant
            i <= g.locations@.len(),
            lv == imports_view(g.locations@),
            msg@ == "Go import \""@ + g.name@ + "\" not found in go.mod"@,
            violations_view(result.violations@) == start + go_violations(g.name@, lv.take(i as int)),
            result.scanned == old(result).scanned,
            result.suppressed@ == old(result).suppressed@,
            result.new_violations@ == old(result).new_violations@,
            result.baseline_ref == old(result).baseline_ref,
        decreases g.locations.len() - i,
    {
        let ghost before = result.violations@;
        let loc = &g.locations[i];
        result.add_violation(
            Violation {
                rule: ViolationRule::HallucinatedDependency,
                message: string_of(msg.as_slice()),
                file: string_of(chars_of(loc.file.as_str()).as_slice()),
                line: loc.line,
                severity: Severity::Critical,
            },
        );
        assert(go_violations(g.name@, lv.take(i + 1)) =~= go_violations(g.name@, lv.take(i as int)).push(
            result.violations@.last()@,
        ));
        assert(violations_view(result.violations@) =~= violations_view(before).push(
            result.violations@.last()@,
        ));
        i = i + 1;
    }
    assert(lv.take(lv.len() as int) =~= lv);
}

/// What remains to be asked of the registries after a first pass over the
/// files: the result so far (files scanned and Go violations) and the
/// packages to look up.
pub struct DependencyCheck {
    pub result: DetectionResult,
    pub to_check: Vec<ImportGroup>,
}

/// The imports of the files, one after the other.
pub open spec fn all_file_imports(files: Seq<(String, String)>) -> Seq<ImportView>
    decreases files.len(),
{
    if files.len() == 0 {
        Seq::empty()
    } else {
        all_file_imports(files.drop_last()) + file_imports(files.last().0@, files.last().1@)
    }
}

/// The first pass of the dependency check over the files (path and text of
/// each that could be read) and the number of files given: collect the
/// imports, group them by package, drop the allowlisted and declared ones,
/// flag undeclared Go modules, and leave the rest for registry lookups.
pub fn prepare_dependency_check(
    validator: &DependencyValidator,
    files: &Vec<(String, String)>,
    file_count: usize,
) -> (r: DependencyCheck)
    ensures
        r.result.scanned == file_count,
        r.result.suppressed@.len() == 0,
        r.result.new_violations@.len() == 0,
        r.result.baseline_ref is None,
        violations_view(r.result.violations@) == triage_violations(
            validator.allowlist_view(),
            validator.manifest_view(),
            grouped(all_file_imports(files@)),
        ),
        groups_view(r.to_check@) == groups_to_check(
            validator.allowlist_view(),
            validator.manifest_view(),
            grouped(all_file_imports(files@)),
        ),
{
    let mut all: Vec<ImportedDependency> = Vec::new();
    let mut i: usize = 0;
    assert(imports_view(all@) =~= all_file_imports(files@.take(0)));
    while i < files.len()
        invariant
            i <= files@.len(),
            imports_view(all@) == all_file_imports(files@.take(i as int)),
        decreases files.len() - i,
    {
        assert(files@.take(i + 1).drop_last() =~= files@.take(i as int));
        assert(files@.take(i + 1).last() == files@[i as int]);
        let mut found = extract_imports(files[i].0.as_str(), files[i].1.as_str());
        let ghost a = all@;
        let ghost b = found@;
        all.append(&mut found);
        assert(imports_view(all@) =~= imports_view(a) + imports_view(b));
        i = i + 1;
    }
    assert(files@.take(files@.len() as int) =~= files@);
    let groups = group_imports(&all);
    let ghost gv = groups_view(groups@);
    let ghost allow = validator.allowlist_view();
    let ghost m = validator.manifest_view();
    let mut result = DetectionResult::new();
    result.scanned = file_count;
    let mut to_check: Vec<ImportGroup> = Vec::new();
    assert(violations_view(result.violations@) =~= Seq::<ViolationView>::empty());
    assert(groups_view(to_check@) =~= Seq::<ImportGroupView>::empty());
    let mut rest = groups;
    let mut k: usize = 0;
    let total = rest.len();
    while rest.len() > 0
        invariant
            total == gv.len(),
            k + rest@.len() == gv.len(),
            groups_view(rest@) == gv.skip(k as int),
            allow == validator.allowlist_view(),
            m == validator.manifest_view(),
            violations_view(result.violations@) == triage_violations(allow, m, gv.take(k as int)),
            groups_view(to_check@) == groups_to_check(allow, m, gv.take(k as int)),
            result.scanned == file_count,
            result.suppressed@.len() == 0,
            result.new_violations@.len() == 0,
            result.baseline_ref is None,
        decreases rest.len(),
    {
        let ghost rb = rest@;
        let g = rest.remove(0);
        assert(groups_view(rb)[0] == g@);
        assert(gv[k as int] == g@);
        assert(rest@ =~= rb.skip(1));
        assert(groups_view(rb.skip(1)) =~= groups_view(rb).skip(1));
        assert(groups_view(rest@) =~= gv.skip(k + 1));
        assert(gv.take(k + 1).drop_last() =~= gv.take(k as int));
        assert(gv.take(k + 1).last() == g@);
        let covered = validator.is_allowlisted(g.name.as_str()) || (g.locations.len() > 0
            && validator.is_valid_import(g.name.as_str(), g.locations[0].file.as_str()));
        if !covered {
            if g.registry == RegistryType::Go {
                add_go_violations(&mut result, &g);
            } else {
                let ghost b = to_check@;
                to_check.push(g);
                assert(groups_view(to_check@) =~= groups_view(b).push(to_check@.last()@));
            }
        }
        k = k + 1;
    }
    assert(gv.take(gv.len() as int) =~= gv);
    DependencyCheck { result, to_check }
}

// ---------------------------------------------------------------------------
// Registry answers
// ---------------------------------------------------------------------------

pub open spec fn answer_view(a: Result<PackageStatus, RegistryError>) -> Result<
    PackageStatusView,
    RegistryError,
> {
    match a {
        Ok(s) => Ok(s@),
        Err(e) => Err(e),
    }
}

/// One violation per location with the message and severity.
pub open spec fn located(locs: Seq<ImportView>, message: Seq<char>, severity: Severity) -> Seq<
    ViolationView,
> {
    locs.map_values(
        |l: ImportView|
            ViolationView {
                rule: ViolationRule::HallucinatedDependency,
                message,
                file: l.file,
                line: l.line,
                severity,
            },
    )
}

/// The violations a registry answer gives for a package: every location
/// of a package that does not exist is critical; when lookups that give no
/// answer are reported, those are warnings; a package that exists gives
/// none.
pub open spec fn answer_violations(
    g: ImportGroupView,
    answer: Result<PackageStatusView, RegistryError>,
    fail_on_timeout: bool,
) -> Seq<ViolationView> {
    let quoted = "\""@ + g.name + "\""@;
    match answer {
        Ok(PackageStatusView::NotFound) => located(
            g.locations,
            "package "@ + quoted + " not found in "@ + registry_name(g.registry),
            Severity::Critical,
        ),
        Ok(PackageStatusView::Exists) => Seq::empty(),
        Ok(PackageStatusView::Unknown(reason)) => if fail_on_timeout {
            located(
                g.locations,
                "could not verify "@ + quoted + " in "@ + registry_name(g.registry) + ": "@
                    + reason,
                Severity::Warning,
            )
        } else {
            Seq::empty()
        },
        Err(e) => if fail_on_timeout {
            located(
                g.locations,
                "registry error checking "@ + quoted + ": "@ + error_text(e),
                Severity::Warning,
            )
        } else {
            Seq::empty()
        },
    }
}

/// The violations of all answers, in order; allowlisted packages give none.
pub open spec fn all_answer_violations(
    allow: Seq<Seq<char>>,
    answers: Seq<(ImportGroupView, Result<PackageStatusView, RegistryError>)>,
    fail_on_timeout: bool,
) -> Seq<ViolationView>
    decreases answers.len(),
{
    if answers.len() == 0 {
        Seq::empty()
    } else {
        let prev = all_answer_violations(allow, answers.drop_last(), fail_on_timeout);
        let a = answers.last();
        if allowlisted(allow, a.0.name) {
            prev
        } else {
            prev + answer_violations(a.0, a.1, fail_on_timeout)
        }
    }
}

pub open spec fn answers_view(v: Seq<(ImportGroup, Result<PackageStatus, RegistryError>)>) -> Seq<
    (ImportGroupView, Result<PackageStatusView, RegistryError>),
> {
    v.map_values(
        |a: (ImportGroup, Result<PackageStatus, RegistryError>)| (a.0@, answer_view(a.1)),
    )
}

fn add_located(
    result: &mut DetectionResult,
    locations: &Vec<ImportedDependency>,
    message: &[char],
    severity: Severity,
)
    ensures
        violations_view(final(result).violations@) == violations_view(old(result).violations@)
            + located(imports_view(locations@), message@, severity),
        final(result).scanned == old(result).scanned,
        final(result).suppressed@ == old(result).suppressed@,
        final(result).new_violations@ == old(result).new_violations@,
        final(result).baseline_ref == old(result).baseline_ref,
{
    let ghost start = violations_view(result.violations@);
    let ghost lv = imports_view(locations@);
    let mut i: usize = 0;
    while i < locations.len()
        invariant
            i <= locations@.len(),
            lv == imports_view(locations@),
            violations_view(result.violations@) == start + located(lv.take(i as int), message@, severity),
            result.scanned == old(result).scanned,
            result.suppressed@ == old(result).suppressed@,
            result.new_violations@ == old(result).new_violations@,
            result.baseline_ref == old(result).baseline_ref,
        decreases locations.len() - i,
    {
        let ghost before = result.violations@;
        let loc = &locations[i];
        result.add_violation(
            Violation {
                rule: ViolationRule::HallucinatedDependency,
                message: string_of(message),
                file: string_of(chars_of(loc.file.as_str()).as_slice()),
                line: loc.line,
                severity,
            },
        );
        assert(located(lv.take(i + 1), message@, severity) =~= located(
            lv.take(i as int),
            message@,
            severity,
        ).push(result.violations@.last()@));
        assert(violations_view(result.violations@) =~= violations_view(before).push(
            result.violations@.last()@,
        ));
        i = i + 1;
    }
    assert(lv.take(lv.len() as int) =~= lv);
}

/// Add the violations that the registries' answers give to the result of
/// the first pass.
pub fn dependency_violations(
    validator: &DependencyValidator,
    result: DetectionResult,
    answers: &Vec<(ImportGroup, Result<PackageStatus, RegistryError>)>,
) -> (r: DetectionResult)
    ensures
        violations_view(r.violations@) == violations_view(result.violations@) + all_answer_violations(
            validator.allowlist_view(),
            answers_view(answers@),
            validator.fails_on_timeout(),
        ),
        r.scanned == result.scanned,
        r.suppressed@ == result.suppressed@,
        r.new_violations@ == result.new_violations@,
        r.baseline_ref == result.baseline_ref,
{
    let mut out = result;
    let ghost start = violations_view(out.violations@);
    let ghost av = answers_view(answers@);
    let fail = validator.fail_on_timeout();
    let mut i: usize = 0;
    assert(start + all_answer_violations(validator.allowlist_view(), av.take(0), fail) =~= start);
    while i < answers.len()
        invariant
            i <= answers@.len(),
            av == answers_view(answers@),
            fail == validator.fails_on_timeout(),
            violations_view(out.violations@) == start + all_answer_violations(
                validator.allowlist_view(),
                av.take(i as int),
                fail,
            ),
            out.scanned == result.scanned,
            out.suppressed@ == result.suppressed@,
            out.new_violations@ == result.new_violations@,
            out.baseline_ref == result.baseline_ref,
        decreases answers.len() - i,
    {
        assert(av.take(i + 1).drop_last() =~= av.take(i as int));
        assert(av.take(i + 1).last() == av[i as int]);
        let g = &answers[i].0;
        let ghost prev = violations_view(out.violations@);
        if !validator.is_allowlisted(g.name.as_str()) {
            let q1 = concat_str(chars_of("\"").as_slice(), g.name.as_str());
            let quoted = concat_str(q1.as_slice(), "\"");
            let reg = g.registry.as_str();
            match &answers[i].1 {
                Ok(PackageStatus::NotFound) => {
                    let a = concat(chars_of("package ").as_slice(), quoted.as_slice());
                    let b = concat_str(a.as_slice(), " not found in ");
                    let m = concat_str(b.as_slice(), reg);
                    add_located(&mut out, &g.locations, m.as_slice(), Severity::Critical);
                    assert(violations_view(out.violations@) =~= prev + answer_violations(
                        g@,
                        answer_view(answers@[i as int].1),
                        fail,
                    ));
                },
                Ok(PackageStatus::Exists) => {
                    assert(prev + Seq::<ViolationView>::empty() =~= prev);
                },
                Ok(PackageStatus::Unknown(reason)) => {
                    if fail {
                        let a = concat(chars_of("could not verify ").as_slice(), quoted.as_slice());
                        let b = concat_str(a.as_slice(), " in ");
                        let c = concat_str(b.as_slice(), reg);
                        let d = concat_str(c.as_slice(), ": ");
                        let m = concat_str(d.as_slice(), reason.as_str());
                        add_located(&mut out, &g.locations, m.as_slice(), Severity::Warning);
                        assert(violations_view(out.violations@) =~= prev + answer_violations(
                            g@,
                            answer_view(answers@[i as int].1),
                            fail,
                        ));
                    } else {
                        assert(prev + Seq::<ViolationView>::empty() =~= prev);
                    }
                },
                Err(e) => {
                    if fail {
                        let a = concat(chars_of("registry error checking ").as_slice(), quoted.as_slice());
                        let b = concat_str(a.as_slice(), ": ");
                        let text = e.message();
                        let m = concat_str(b.as_slice(), text.as_str());
                        add_located(&mut out, &g.locations, m.as_slice(), Severity::Warning);
                        assert(violations_view(out.violations@) =~= prev + answer_violations(
                            g@,
                            answer_view(answers@[i as int].1),
                            fail,
                        ));
                    } else {
                        assert(prev + Seq::<ViolationView>::empty() =~= prev);
                    }
                },
            }
        }
        i = i + 1;
    }
    assert(av.take(av.len() as int) =~= av);
    out
}

/// A package that the registry says exists gives no violation, whatever
/// the other answers are: the violations of a run of answers are those of
/// the answers that are not `Exists`, and a package found missing gives one
/// critical violation at each place it is imported.
pub proof fn lemma_existing_packages_are_not_reported(
    allow: Seq<Seq<char>>,
    answers: Seq<(ImportGroupView, Result<PackageStatusView, RegistryError>)>,
    fail_on_timeout: bool,
    k: int,
)
    requires
        0 <= k < answers.len(),
    ensures
        answers[k].1 == Ok::<PackageStatusView, RegistryError>(PackageStatusView::Exists)
            ==> all_answer_violations(allow, answers, fail_on_timeout) == all_answer_violations(
            allow,
            answers.remove(k),
            fail_on_timeout,
        ),
        answer_violations(
            answers[k].0,
            Ok::<PackageStatusView, RegistryError>(PackageStatusView::Exists),
            fail_on_timeout,
        ).len() == 0,
        answer_violations(
            answers[k].0,
            Ok::<PackageStatusView, RegistryError>(PackageStatusView::NotFound),
            fail_on_timeout,
        ).len() == answers[k].0.locations.len(),
        forall|j: int|
            0 <= j < answers[k].0.locations.len() ==> (#[trigger] answer_violations(
                answers[k].0,
                Ok::<PackageStatusView, RegistryError>(PackageStatusView::NotFound),
                fail_on_timeout,
            )[j]).severity == Severity::Critical,
    decreases answers.len(),
{
    let e = Ok::<PackageStatusView, RegistryError>(PackageStatusView::Exists);
    assert(answer_violations(answers[k].0, e, fail_on_timeout) =~= Seq::<ViolationView>::empty());
    if answers[k].1 == e {
        let n = answers.len() - 1;
        if k == n {
            assert(answers.remove(k) =~= answers.drop_last());
            assert(all_answer_violations(allow, answers.drop_last(), fail_on_timeout)
                + Seq::<ViolationView>::empty() =~= all_answer_violations(
                allow,
                answers.drop_last(),
                fail_on_timeout,
            ));
        } else {
            lemma_existing_packages_are_not_reported(allow, answers.drop_last(), fail_on_timeout, k);
            assert(answers.drop_last()[k] == answers[k]);
            assert(answers.remove(k).drop_last() =~= answers.drop_last().remove(k));
            assert(answers.remove(k).last() == answers.last());
        }
    }
}

} // verus!
