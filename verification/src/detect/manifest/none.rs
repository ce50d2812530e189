//! No-manifest provider for pure phantom detection: every import is left to
//! the package registries.
use vstd::prelude::*;

use crate::detect::manifest::{ManifestProvider, ManifestStats};

verus! {

/// No-manifest provider.
#[derive(Debug, Clone, Copy, PartialEq, Eq, Structural)]
pub struct NoManifest;

impl NoManifest {
    /// Create a new NoManifest provider.
    pub fn new() -> (r: NoManifest) {
        NoManifest
    }
}

impl Default for NoManifest {
    fn default() -> (r: NoManifest) {
        NoManifest::new()
    }
}

impl ManifestProvider for NoManifest {
    fn is_valid_import(&self, import_name: &str, file_path: &str) -> (r: bool)
        ensures
            !r,
    {
        false
    }

    fn get_declared_imports(&self, file_path: &str) -> (r: Vec<String>)
        ensures
            r@.len() == 0,
    {
        Vec::new()
    }

    fn get_scope(&self, file_path: &str) -> (r: Option<String>)
        ensures
            r is None,
    {
        None
    }

    fn stats(&self) -> (r: ManifestStats)
        ensures
            r.scoped_count == 0 && r.package_count == 0,
    {
        ManifestStats { scoped_count: 0, package_count: 0 }
    }
}

} // verus!
