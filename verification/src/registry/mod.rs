//! Package registries: which registry a file's imports belong to, how a
//! registry's answer is read, the lookup cache, and the name forms each
//! registry expects.
//!
//! The network requests themselves are made by the application; this module
//! decides what to ask and what the answers mean.
pub mod cache;
pub mod client;
pub mod crates;
pub mod go;
pub mod npm;
pub mod pypi;

pub use cache::RegistryCache;
pub use client::RegistryClient;

use vstd::prelude::*;

use crate::matching::{glob_compiles, glob_set_is_match, glob_set_outcome, glob_valid};
use crate::detect::types::str_eq;


verus! {

/// Result of checking if a package exists.
#[derive(Debug, Clone, PartialEq, Eq)]
pub enum PackageStatus {
    /// Package exists in the registry
    Exists,
    /// Package does not exist (404)
    NotFound,
    /// Could not determine (timeout, error, etc.)
    Unknown(String),
}

/// The mathematical content of a package status.
pub enum PackageStatusView {
    Exists,
    NotFound,
    Unknown(Seq<char>),
}

impl View for PackageStatus {
    type V = PackageStatusView;

    open spec fn view(&self) -> PackageStatusView {
        match self {
            PackageStatus::Exists => PackageStatusView::Exists,
            PackageStatus::NotFound => PackageStatusView::NotFound,
            PackageStatus::Unknown(m) => PackageStatusView::Unknown(m@),
        }
    }
}

impl PackageStatus {
    /// A copy of this status.
    pub fn duplicate(&self) -> (r: PackageStatus)
        ensures
            r@ == self@,
    {
        match self {
            PackageStatus::Exists => PackageStatus::Exists,
            PackageStatus::NotFound => PackageStatus::NotFound,
            PackageStatus::Unknown(m) => PackageStatus::Unknown(m.clone()),
        }
    }
}

/// Errors that can occur during registry checks (the network error's text
/// is carried as a string).
#[derive(Debug, Clone, PartialEq, Eq)]
pub enum RegistryError {
    Network(String),
    Timeout,
    RateLimited,
    Unavailable(String),
}

impl RegistryError {
    /// A copy of this error.
    pub fn duplicate(&self) -> (r: RegistryError)
        ensures
            r == *self,
    {
        match self {
            RegistryError::Network(m) => RegistryError::Network(m.clone()),
            RegistryError::Timeout => RegistryError::Timeout,
            RegistryError::RateLimited => RegistryError::RateLimited,
            RegistryError::Unavailable(m) => RegistryError::Unavailable(m.clone()),
        }
    }
}

/// The type of registry to check.
#[derive(Debug, Clone, Copy, PartialEq, Eq, Hash, Structural)]
pub enum RegistryType {
    PyPI,
    Npm,
    Crates,
    Go,
}

pub open spec fn registry_name(r: RegistryType) -> Seq<char> {
    match r {
        RegistryType::PyPI => "pypi"@,
        RegistryType::Npm => "npm"@,
        RegistryType::Crates => "crates"@,
        RegistryType::Go => "go"@,
    }
}

pub open spec fn registry_extensions(r: RegistryType) -> Seq<Seq<char>> {
    match r {
        RegistryType::PyPI => seq!["py"@],
        RegistryType::Npm => seq!["js"@, "ts"@, "jsx"@, "tsx"@, "mjs"@, "cjs"@],
        RegistryType::Crates => seq!["rs"@],
        RegistryType::Go => seq!["go"@],
    }
}

/// The registry whose files have the given extension.
pub open spec fn registry_for_extension(ext: Seq<char>) -> Option<RegistryType> {
    if ext == "py"@ {
        Some(RegistryType::PyPI)
    } else if ext == "js"@ || ext == "ts"@ || ext == "jsx"@ || ext == "tsx"@ || ext == "mjs"@
        || ext == "cjs"@ {
        Some(RegistryType::Npm)
    } else if ext == "rs"@ {
        Some(RegistryType::Crates)
    } else if ext == "go"@ {
        Some(RegistryType::Go)
    } else {
        None
    }
}

impl RegistryType {
    pub fn as_str(&self) -> (r: &'static str)
        ensures
            r@ == registry_name(*self),
    {
        match self {
            RegistryType::PyPI => "pypi",
            RegistryType::Npm => "npm",
            RegistryType::Crates => "crates",
            RegistryType::Go => "go",
        }
    }

    /// Get the file extensions associated with this registry.
    pub fn extensions(&self) -> (r: Vec<&'static str>)
        ensures
            r@.len() == registry_extensions(*self).len(),
            forall|i: int| 0 <= i < r@.len() ==> #[trigger] r@[i]@ == registry_extensions(*self)[i],
    {
        let mut v: Vec<&'static str> = Vec::new();
        match self {
            RegistryType::PyPI => {
                v.push("py");
            },
            RegistryType::Npm => {
                v.push("js");
                v.push("ts");
                v.push("jsx");
                v.push("tsx");
                v.push("mjs");
                v.push("cjs");
            },
            RegistryType::Crates => {
                v.push("rs");
            },
            RegistryType::Go => {
                v.push("go");
            },
        }
        v
    }

    /// Determine registry type from file extension.
    pub fn from_extension(ext: &str) -> (r: Option<RegistryType>)
        ensures
            r == registry_for_extension(ext@),
    {
        if str_eq(ext, "py") {
            Some(RegistryType::PyPI)
        } else if str_eq(ext, "js") || str_eq(ext, "ts") || str_eq(ext, "jsx") || str_eq(ext, "tsx")
            || str_eq(ext, "mjs") || str_eq(ext, "cjs") {
            Some(RegistryType::Npm)
        } else if str_eq(ext, "rs") {
            Some(RegistryType::Crates)
        } else if str_eq(ext, "go") {
            Some(RegistryType::Go)
        } else {
            None
        }
    }
}

/// Every registry's extensions lead back to that registry.
pub proof fn lemma_extensions_lead_back(r: RegistryType, i: int)
    requires
        0 <= i < registry_extensions(r).len(),
    ensures
        registry_for_extension(registry_extensions(r)[i]) == Some(r),
{
    reveal_strlit("py");
    reveal_strlit("js");
    reveal_strlit("ts");
    reveal_strlit("jsx");
    reveal_strlit("tsx");
    reveal_strlit("mjs");
    reveal_strlit("cjs");
    reveal_strlit("rs");
    reveal_strlit("go");
    assert("ts"@[0] != "js"@[0]);
    assert("rs"@[0] != "js"@[0]);
    assert("rs"@[0] != "ts"@[0]);
    assert("go"@[0] != "js"@[0]);
    assert("go"@[0] != "ts"@[0]);
    assert("go"@[0] != "rs"@[0]);
    assert("py"@[0] != "js"@[0]);
    assert("py"@[0] != "ts"@[0]);
    assert("tsx"@[0] != "jsx"@[0]);
    assert("mjs"@[0] != "jsx"@[0]);
    assert("mjs"@[0] != "tsx"@[0]);
    assert("cjs"@[0] != "jsx"@[0]);
    assert("cjs"@[0] != "tsx"@[0]);
    assert("cjs"@[0] != "mjs"@[0]);
}

/// What an HTTP status code from a registry means: found (200), not found
/// (404, and for the Go proxy also 410 for retracted modules), rate limited
/// (429), and anything else unknown.
pub open spec fn status_for_http(registry: RegistryType, code: u16) -> Result<
    PackageStatusView,
    RegistryError,
> {
    if code == 200 {
        Ok(PackageStatusView::Exists)
    } else if code == 404 || (registry is Go && code == 410) {
        Ok(PackageStatusView::NotFound)
    } else if code == 429 {
        Err(RegistryError::RateLimited)
    } else {
        Ok(PackageStatusView::Unknown("HTTP "@ + crate::text::decimal(code as nat)))
    }
}

pub open spec fn status_result_view(r: Result<PackageStatus, RegistryError>) -> Result<
    PackageStatusView,
    RegistryError,
> {
    match r {
        Ok(s) => Ok(s@),
        Err(e) => Err(e),
    }
}

/// Reads a registry's HTTP status code.
pub fn status_from_http(registry: RegistryType, code: u16) -> (r: Result<
    PackageStatus,
    RegistryError,
>)
    ensures
        status_result_view(r) == status_for_http(registry, code),
{
    if code == 200 {
        Ok(PackageStatus::Exists)
    } else if code == 404 || (registry == RegistryType::Go && code == 410) {
        Ok(PackageStatus::NotFound)
    } else if code == 429 {
        Err(RegistryError::RateLimited)
    } else {
        let digits = crate::text::u64_to_decimal(code as u64);
        let msg = crate::text::chars_of("HTTP ");
        let full = crate::text::concat(msg.as_slice(), digits.as_slice());
        Ok(PackageStatus::Unknown(crate::text::string_of(full.as_slice())))
    }
}

/// The allowlist covers the package: an exact entry that is not a valid
/// glob, or a match of the glob set built from the valid entries (or, when
/// that set cannot be built, an exact entry).
pub open spec fn allowlisted(allowlist: Seq<Seq<char>>, package: Seq<char>) -> bool {
    if allowlist.len() == 0 {
        false
    } else if exists|i: int|
        0 <= i < allowlist.len() && !glob_valid(#[trigger] allowlist[i]) && allowlist[i]
            == package {
        true
    } else {
        let valid = allowlist.filter(|p: Seq<char>| glob_valid(p));
        match glob_set_outcome(valid, package) {
            Some(b) => b,
            None => allowlist.contains(package),
        }
    }
}

/// Check if a package is in the allowlist (exact names or glob patterns).
pub fn is_allowlisted(allowlist: &Vec<String>, package: &str) -> (r: bool)
    ensures
        r == allowlisted(allowlist@.map_values(|p: String| p@), package@),
{
    let ghost av = allowlist@.map_values(|p: String| p@);
    if allowlist.len() == 0 {
        return false;
    }
    let mut valid: Vec<String> = Vec::new();
    let mut i: usize = 0;
    while i < allowlist.len()
        invariant
            i <= allowlist@.len(),
            av == allowlist@.map_values(|p: String| p@),
            valid@.map_values(|p: String| p@) == av.take(i as int).filter(
                |p: Seq<char>| glob_valid(p),
            ),
            forall|k: int| 0 <= k < valid@.len() ==> glob_valid(#[trigger] valid@[k]@),
            forall|k: int| 0 <= k < i ==> !(!glob_valid(#[trigger] av[k]) && av[k] == package@),
        decreases allowlist.len() - i,
    {
        let p = &allowlist[i];
        assert(av.take(i + 1).drop_last() =~= av.take(i as int));
        reveal(Seq::filter);
        if glob_compiles(p.as_str()) {
            let ghost before = valid@.map_values(|p: String| p@);
            valid.push(p.clone());
            assert(valid@.map_values(|p: String| p@) =~= before.push(p@));
        } else if str_eq(p.as_str(), package) {
            assert(!glob_valid(av[i as int]) && av[i as int] == package@);
            return true;
        }
        i = i + 1;
    }
    assert(av.take(av.len() as int) =~= av);
    let ghost no_exact = forall|k: int|
        0 <= k < av.len() ==> !(!glob_valid(#[trigger] av[k]) && av[k] == package@);
    assert(no_exact);
    match glob_set_is_match(&valid, package) {
        Some(b) => b,
        None => {
            let ghost fv = av.filter(|p: Seq<char>| glob_valid(p));
            assert(glob_set_outcome(fv, package@) is None);
            let mut k: usize = 0;
            while k < allowlist.len()
                invariant
                    k <= allowlist@.len(),
                    av == allowlist@.map_values(|p: String| p@),
                    av.len() > 0,
                    no_exact == forall|k: int|
                        0 <= k < av.len() ==> !(!glob_valid(#[trigger] av[k]) && av[k] == package@),
                    no_exact,
                    fv == av.filter(|p: Seq<char>| glob_valid(p)),
                    glob_set_outcome(fv, package@) is None,
                    forall|j: int| 0 <= j < k ==> av[j] != package@,
                decreases allowlist.len() - k,
            {
                if str_eq(allowlist[k].as_str(), package) {
                    assert(av[k as int] == package@);
                    assert(av.contains(package@));
                    return true;
                }
                k = k + 1;
            }
            false
        },
    }
}

} // verus!
