//! Manifest validation: whether an import is declared by the project.
//!
//! Different project types (Home Assistant, standard Python, Go) implement
//! [`ManifestProvider`]; [`NoManifest`] declares nothing, so every import is
//! left to the package registries.
pub mod golang;
pub mod homeassistant;
pub mod none;
pub mod python;
pub mod utils;

use vstd::prelude::*;

pub use golang::GoManifest;
pub use homeassistant::HomeAssistantManifest;
pub use none::NoManifest;
pub use python::PythonManifest;

verus! {

/// Manifest type for dependency validation.
#[derive(Debug, Clone, Copy, PartialEq, Eq, Structural)]
pub enum ManifestType {
    /// Home Assistant project with a JSON manifest per component
    HomeAssistant,
    /// Standard Python project (pyproject.toml, requirements.txt, etc.)
    PythonStandard,
    /// Go project with go.mod
    Go,
    /// Auto-detect based on directory structure
    Auto,
    /// No manifest validation, pure PyPI phantom detection
    NoManifest,
}

impl Default for ManifestType {
    fn default() -> (r: ManifestType)
        ensures
            r == ManifestType::Auto,
    {
        ManifestType::Auto
    }
}

/// Statistics about a loaded manifest.
#[derive(Debug, Clone, Copy, PartialEq, Eq, Structural)]
pub struct ManifestStats {
    /// Number of scoped manifests (e.g., component manifests)
    pub scoped_count: usize,
    /// Total number of declared packages
    pub package_count: usize,
}

impl Default for ManifestStats {
    fn default() -> (r: ManifestStats)
        ensures
            r.scoped_count == 0 && r.package_count == 0,
    {
        ManifestStats { scoped_count: 0, package_count: 0 }
    }
}

/// Project-specific logic for deciding whether an import is declared for a
/// given file.
pub trait ManifestProvider {
    /// Returns true if this import is declared/valid for the given file.
    fn is_valid_import(&self, import_name: &str, file_path: &str) -> bool;

    /// All imports that are declared as valid for the given file.
    fn get_declared_imports(&self, file_path: &str) -> Vec<String>;

    /// The scope/component/module this file belongs to.
    fn get_scope(&self, file_path: &str) -> Option<String>;

    /// Statistics about the manifest.
    fn stats(&self) -> ManifestStats;
}

/// Which marker files and directories a project directory has.
#[derive(Debug, Clone, Copy, PartialEq, Eq, Structural)]
pub struct ProjectMarkers {
    /// `homeassistant/components` exists
    pub home_assistant_components: bool,
    pub pyproject_toml: bool,
    pub requirements_txt: bool,
    pub setup_py: bool,
    pub setup_cfg: bool,
    pub go_mod: bool,
}

/// The manifest type a directory's markers point to: Home Assistant first,
/// then Python, then Go, else none.
pub open spec fn manifest_type_for(m: ProjectMarkers) -> ManifestType {
    if m.home_assistant_components {
        ManifestType::HomeAssistant
    } else if m.pyproject_toml || m.requirements_txt || m.setup_py || m.setup_cfg {
        ManifestType::PythonStandard
    } else if m.go_mod {
        ManifestType::Go
    } else {
        ManifestType::NoManifest
    }
}

/// Auto-detect the manifest type from a directory's markers.
pub fn detect_manifest_type(markers: &ProjectMarkers) -> (r: ManifestType)
    ensures
        r == manifest_type_for(*markers),
{
    if markers.home_assistant_components {
        return ManifestType::HomeAssistant;
    }
    let has_python = markers.pyproject_toml || markers.requirements_txt || markers.setup_py
        || markers.setup_cfg;
    if has_python {
        return ManifestType::PythonStandard;
    }
    if markers.go_mod {
        return ManifestType::Go;
    }
    ManifestType::NoManifest
}

} // verus!
