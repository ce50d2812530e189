//! Contract schema: the quality requirements for a codebase.
//!
//! A contract is written in YAML; reading it is the application's business.
//! This module holds the contract's settings (those the checks use) and the
//! rules about them: defaults, exclusions and validation.
use vstd::prelude::*;

use crate::detect::types::str_eq;
use crate::matching::{
    glob_compile_error, glob_error_text, glob_is_match, glob_matches, glob_valid,
    regex_compile_error, regex_error_text, regex_valid,
};
use crate::text::{chars_of, concat, concat_str, debug_form, debug_quoted, string_of};

verus! {

/// A file that must exist.
#[derive(Debug, Clone)]
pub struct RequiredFile {
    pub path: String,
    pub required: bool,
}

/// Kind of symbol (function, method, type, const).
#[derive(Debug, Clone, Copy, PartialEq, Eq, Structural)]
pub enum SymbolKind {
    Function,
    Method,
    Type,
    Const,
}

pub open spec fn symbol_kind_name(k: SymbolKind) -> Seq<char> {
    match k {
        SymbolKind::Function => "function"@,
        SymbolKind::Method => "method"@,
        SymbolKind::Type => "type"@,
        SymbolKind::Const => "const"@,
    }
}

impl SymbolKind {
    /// The lowercase name of the kind.
    pub fn as_str(&self) -> (r: &'static str)
        ensures
            r@ == symbol_kind_name(*self),
    {
        match self {
            SymbolKind::Function => "function",
            SymbolKind::Method => "method",
            SymbolKind::Type => "type",
            SymbolKind::Const => "const",
        }
    }
}

/// A symbol that must be defined.
#[derive(Debug, Clone)]
pub struct RequiredSymbol {
    pub name: String,
    pub kind: SymbolKind,
    pub file: String,
}

/// A regex pattern that must not appear in the code.
#[derive(Debug, Clone)]
pub struct ForbiddenPattern {
    pub pattern: String,
    pub description: Option<String>,
}

/// A regex pattern identifying mock/placeholder data.
#[derive(Debug, Clone)]
pub struct MockSignature {
    pub pattern: String,
    pub description: Option<String>,
}

/// Configuration for mock signature detection.
#[derive(Debug, Clone)]
pub struct MockSignaturesConfig {
    pub patterns: Vec<MockSignature>,
    /// Whether to skip test files (default: true)
    pub skip_test_files: Option<bool>,
    /// Severity for test files: "info", "warning", or "" (skip)
    pub test_file_severity: Option<String>,
}

impl Default for MockSignaturesConfig {
    fn default() -> (r: MockSignaturesConfig)
        ensures
            r.patterns@.len() == 0,
            r.skip_test_files is None,
            r.test_file_severity is None,
    {
        MockSignaturesConfig { patterns: Vec::new(), skip_test_files: None, test_file_severity: None }
    }
}

pub open spec fn skips_test_files(c: MockSignaturesConfig) -> bool {
    match c.skip_test_files {
        Some(b) => b,
        None => true,
    }
}

/// The severity name for test files: none when they are skipped or the
/// configured severity is empty, else the configured one, or "warning" when
/// none is configured.
pub open spec fn test_file_severity_of(c: MockSignaturesConfig) -> Option<Seq<char>> {
    if skips_test_files(c) {
        None
    } else {
        match c.test_file_severity {
            Some(s) => if s@.len() > 0 {
                Some(s@)
            } else {
                None
            },
            None => Some("warning"@),
        }
    }
}

impl MockSignaturesConfig {
    /// Returns whether to skip test files (defaults to true).
    pub fn should_skip_test_files(&self) -> (r: bool)
        ensures
            r == skips_test_files(*self),
    {
        match self.skip_test_files {
            Some(b) => b,
            None => true,
        }
    }

    /// Returns the severity to use for test files, or `None` if test files
    /// should be skipped entirely.
    pub fn get_test_file_severity(&self) -> (r: Option<&str>)
        ensures
            match r {
                Some(s) => test_file_severity_of(*self) == Some(s@),
                None => test_file_severity_of(*self) is None,
            },
    {
        if self.should_skip_test_files() {
            return None;
        }
        match &self.test_file_severity {
            Some(s) => if chars_of(s.as_str()).len() > 0 {
                Some(s.as_str())
            } else {
                None
            },
            None => Some("warning"),
        }
    }
}

/// Minimum cyclomatic complexity requirement for a symbol.
#[derive(Debug, Clone)]
pub struct ComplexityRequirement {
    pub symbol: String,
    pub file: Option<String>,
    pub min_complexity: i32,
}

/// A test function that must exist.
#[derive(Debug, Clone)]
pub struct RequiredTest {
    pub name: String,
    pub file: Option<String>,
}

/// Configuration for a single registry.
#[derive(Debug, Clone, Copy, PartialEq, Eq, Structural)]
pub struct RegistryConfig {
    /// Whether this registry check is enabled (default: true)
    pub enabled: bool,
    /// Request timeout in milliseconds (default: 5000)
    pub timeout_ms: u64,
}

impl RegistryConfig {
    pub fn default_enabled() -> (r: RegistryConfig)
        ensures
            r.enabled && r.timeout_ms == 5000,
    {
        RegistryConfig { enabled: true, timeout_ms: 5000 }
    }
}

/// Configuration for individual registries.
#[derive(Debug, Clone, Copy, PartialEq, Eq, Structural)]
pub struct RegistriesConfig {
    pub pypi: RegistryConfig,
    pub npm: RegistryConfig,
    pub crates: RegistryConfig,
    pub go: RegistryConfig,
}

impl Default for RegistriesConfig {
    fn default() -> (r: RegistriesConfig)
        ensures
            r.pypi.enabled && r.npm.enabled && r.crates.enabled && r.go.enabled,
            r.pypi.timeout_ms == 5000 && r.npm.timeout_ms == 5000 && r.crates.timeout_ms == 5000
                && r.go.timeout_ms == 5000,
    {
        RegistriesConfig {
            pypi: RegistryConfig::default_enabled(),
            npm: RegistryConfig::default_enabled(),
            crates: RegistryConfig::default_enabled(),
            go: RegistryConfig::default_enabled(),
        }
    }
}

/// Configuration for dependency verification (hallucinated dependency detection).
#[derive(Debug, Clone)]
pub struct DependencyVerificationConfig {
    /// Whether dependency verification is enabled
    pub enabled: bool,
    /// Registry-specific configuration
    pub registries: RegistriesConfig,
    /// Package names or glob patterns to skip verification for
    pub allowlist: Vec<String>,
    /// How long to cache registry responses in hours
    pub cache_ttl_hours: u32,
    /// If true, treat registry timeouts as errors
    pub fail_on_timeout: bool,
}

impl Default for DependencyVerificationConfig {
    /// Every field at its type's default (disabled, no allowlist, no TTL),
    /// with every registry enabled.
    fn default() -> (r: DependencyVerificationConfig)
        ensures
            !r.enabled,
            r.allowlist@.len() == 0,
            r.cache_ttl_hours == 0,
            !r.fail_on_timeout,
            r.registries.pypi.enabled && r.registries.npm.enabled && r.registries.crates.enabled
                && r.registries.go.enabled,
    {
        DependencyVerificationConfig {
            enabled: false,
            registries: RegistriesConfig::default(),
            allowlist: Vec::new(),
            cache_ttl_hours: 0,
            fail_on_timeout: false,
        }
    }
}

impl DependencyVerificationConfig {
    /// Returns whether dependency verification is enabled.
    pub fn is_enabled(&self) -> (r: bool)
        ensures
            r == self.enabled,
    {
        self.enabled
    }
}

/// Configuration for god object detection in the contract.
#[derive(Debug, Clone, Copy, PartialEq, Eq, Structural)]
pub struct GodObjectContractConfig {
    /// Whether god object detection is enabled
    pub enabled: bool,
    /// Maximum lines per file before flagging (default: 500)
    pub max_file_lines: Option<usize>,
    /// Maximum lines per function before flagging (default: 50)
    pub max_function_lines: Option<usize>,
    /// Maximum cyclomatic complexity per function (default: 15)
    pub max_function_complexity: Option<usize>,
    /// Maximum functions per file (default: 20)
    pub max_functions_per_file: Option<usize>,
    /// Maximum methods per class (default: 15)
    pub max_class_methods: Option<usize>,
}

impl Default for GodObjectContractConfig {
    fn default() -> (r: GodObjectContractConfig)
        ensures
            !r.enabled && r.max_file_lines is None && r.max_function_lines is None
                && r.max_function_complexity is None && r.max_functions_per_file is None
                && r.max_class_methods is None,
    {
        GodObjectContractConfig {
            enabled: false,
            max_file_lines: None,
            max_function_lines: None,
            max_function_complexity: None,
            max_functions_per_file: None,
            max_class_methods: None,
        }
    }
}

impl GodObjectContractConfig {
    /// Returns whether god object detection is enabled.
    pub fn is_enabled(&self) -> (r: bool)
        ensures
            r == self.enabled,
    {
        self.enabled
    }
}

/// Configuration for hollow TODO detection.
#[derive(Debug, Clone, Copy, PartialEq, Eq, Structural)]
pub struct HollowTodosConfig {
    /// Whether hollow TODO detection is enabled
    pub enabled: bool,
}

impl Default for HollowTodosConfig {
    fn default() -> (r: HollowTodosConfig)
        ensures
            !r.enabled,
    {
        HollowTodosConfig { enabled: false }
    }
}

/// The contract's settings that the checks use.
#[derive(Debug, Clone)]
pub struct Contract {
    pub version: String,
    pub name: String,
    pub description: Option<String>,
    /// "code" (default) or "prose"
    pub mode: Option<String>,
    /// Whether to include test files in analysis (default: false)
    pub include_test_files: Option<bool>,
    /// Glob patterns for paths to exclude from analysis
    pub excluded_paths: Vec<String>,
    pub required_files: Vec<RequiredFile>,
    pub required_symbols: Vec<RequiredSymbol>,
    pub forbidden_patterns: Vec<ForbiddenPattern>,
    pub mock_signatures: Option<MockSignaturesConfig>,
    pub complexity: Vec<ComplexityRequirement>,
    pub required_tests: Vec<RequiredTest>,
    pub dependency_verification: Option<DependencyVerificationConfig>,
    pub god_objects: Option<GodObjectContractConfig>,
    /// Whether to detect hollow TODOs (default: true)
    pub hollow_todos: Option<HollowTodosConfig>,
}

impl Default for Contract {
    fn default() -> (r: Contract)
        ensures
            r.version@.len() == 0 && r.name@.len() == 0,
            r.description is None && r.mode is None && r.include_test_files is None,
            r.excluded_paths@.len() == 0 && r.required_files@.len() == 0
                && r.required_symbols@.len() == 0 && r.forbidden_patterns@.len() == 0,
            r.mock_signatures is None && r.complexity@.len() == 0 && r.required_tests@.len() == 0,
            r.dependency_verification is None && r.god_objects is None && r.hollow_todos is None,
    {
        Contract {
            version: String::new(),
            name: String::new(),
            description: None,
            mode: None,
            include_test_files: None,
            excluded_paths: Vec::new(),
            required_files: Vec::new(),
            required_symbols: Vec::new(),
            forbidden_patterns: Vec::new(),
            mock_signatures: None,
            complexity: Vec::new(),
            required_tests: Vec::new(),
            dependency_verification: None,
            god_objects: None,
            hollow_todos: None,
        }
    }
}

/// A path is excluded when some excluded-path glob matches it.
pub open spec fn path_excluded(patterns: Seq<String>, path: Seq<char>) -> bool {
    exists|i: int|
        0 <= i < patterns.len() && glob_valid(#[trigger] patterns[i]@) && glob_matches(
            patterns[i]@,
            path,
        )
}

pub open spec fn mode_of(c: Contract) -> Seq<char> {
    match c.mode {
        Some(m) => m@,
        None => "code"@,
    }
}

impl Contract {
    /// Returns whether to include test files (defaults to false).
    pub fn should_include_test_files(&self) -> (r: bool)
        ensures
            r == (self.include_test_files == Some(true)),
    {
        match self.include_test_files {
            Some(b) => b,
            None => false,
        }
    }

    /// Returns the analysis mode (defaults to "code").
    pub fn get_mode(&self) -> (r: &str)
        ensures
            r@ == mode_of(*self),
    {
        match &self.mode {
            Some(m) => m.as_str(),
            None => "code",
        }
    }

    /// Check if a path should be excluded based on excluded_paths patterns
    /// (globs, with `**` for any depth of directories).
    pub fn is_path_excluded(&self, path: &str) -> (r: bool)
        ensures
            r == path_excluded(self.excluded_paths@, path@),
    {
        let mut i: usize = 0;
        while i < self.excluded_paths.len()
            invariant
                i <= self.excluded_paths@.len(),
                forall|j: int|
                    0 <= j < i ==> !(glob_valid(#[trigger] self.excluded_paths@[j]@) && glob_matches(
                        self.excluded_paths@[j]@,
                        path@,
                    )),
            decreases self.excluded_paths.len() - i,
        {
            if glob_is_match(self.excluded_paths[i].as_str(), path) {
                return true;
            }
            i = i + 1;
        }
        false
    }

    /// Returns whether hollow TODO detection is enabled (defaults to true).
    pub fn detect_hollow_todos(&self) -> (r: bool)
        ensures
            r == match self.hollow_todos {
                Some(c) => c.enabled,
                None => true,
            },
    {
        match self.hollow_todos {
            Some(c) => c.enabled,
            None => true,
        }
    }
}

/// The first index from `i` on whose pattern does not compile as a regex.
pub open spec fn first_bad_regex(ps: Seq<Seq<char>>, i: int) -> Option<int>
    decreases ps.len() - i,
{
    if i < 0 || i >= ps.len() {
        None
    } else if !regex_valid(ps[i]) {
        Some(i)
    } else {
        first_bad_regex(ps, i + 1)
    }
}

/// The first index from `i` on whose pattern does not compile as a glob.
pub open spec fn first_bad_glob(ps: Seq<Seq<char>>, i: int) -> Option<int>
    decreases ps.len() - i,
{
    if i < 0 || i >= ps.len() {
        None
    } else if !glob_valid(ps[i]) {
        Some(i)
    } else {
        first_bad_glob(ps, i + 1)
    }
}

pub open spec fn forbidden_pattern_texts(c: Contract) -> Seq<Seq<char>> {
    c.forbidden_patterns@.map_values(|p: ForbiddenPattern| p.pattern@)
}

pub open spec fn mock_pattern_texts(c: Contract) -> Seq<Seq<char>> {
    match c.mock_signatures {
        Some(m) => m.patterns@.map_values(|p: MockSignature| p.pattern@),
        None => Seq::empty(),
    }
}

pub open spec fn excluded_texts(c: Contract) -> Seq<Seq<char>> {
    c.excluded_paths@.map_values(|p: String| p@)
}

pub open spec fn mode_ok(c: Contract) -> bool {
    !(c.mode is Some && c.mode.unwrap()@ != "code"@ && c.mode.unwrap()@ != "prose"@)
}

/// What validating a contract answers: the mode must be `code` or `prose`,
/// and every forbidden pattern, mock signature and excluded path must
/// compile; the first problem found is reported.
pub open spec fn validation_of(c: Contract) -> Result<(), Seq<char>> {
    if c.mode is Some && c.mode.unwrap()@ != "code"@ && c.mode.unwrap()@ != "prose"@ {
        Err("invalid mode "@ + debug_form(c.mode.unwrap()@) + ", must be 'code' or 'prose'"@)
    } else if first_bad_regex(forbidden_pattern_texts(c), 0) is Some {
        let p = forbidden_pattern_texts(c)[first_bad_regex(forbidden_pattern_texts(c), 0).unwrap()];
        Err("invalid forbidden pattern "@ + debug_form(p) + ": "@ + regex_error_text(p))
    } else if first_bad_regex(mock_pattern_texts(c), 0) is Some {
        let p = mock_pattern_texts(c)[first_bad_regex(mock_pattern_texts(c), 0).unwrap()];
        Err("invalid mock signature "@ + debug_form(p) + ": "@ + regex_error_text(p))
    } else if first_bad_glob(excluded_texts(c), 0) is Some {
        let p = excluded_texts(c)[first_bad_glob(excluded_texts(c), 0).unwrap()];
        Err("invalid excluded_paths pattern "@ + debug_form(p) + ": "@ + glob_error_text(p))
    } else {
        Ok(())
    }
}

pub open spec fn unit_result_view(r: Result<(), String>) -> Result<(), Seq<char>> {
    match r {
        Ok(_) => Ok(()),
        Err(e) => Err(e@),
    }
}

/// The message `<what> <debug-quoted pattern>: <error>`.
fn pattern_error(what: &str, pattern: &str, error: &str) -> (r: String)
    ensures
        r@ == what@ + debug_form(pattern@) + ": "@ + error@,
{
    let q = debug_quoted(chars_of(pattern).as_slice());
    let a = concat(chars_of(what).as_slice(), q.as_slice());
    let b = concat_str(a.as_slice(), ": ");
    let c = concat_str(b.as_slice(), error);
    string_of(c.as_slice())
}

/// Validate a contract for correctness.
pub fn validate(contract: &Contract) -> (r: Result<(), String>)
    ensures
        unit_result_view(r) == validation_of(*contract),
{
    match &contract.mode {
        Some(mode) => {
            if !str_eq(mode.as_str(), "code") && !str_eq(mode.as_str(), "prose") {
                let q = debug_quoted(chars_of(mode.as_str()).as_slice());
                let a = concat(chars_of("invalid mode ").as_slice(), q.as_slice());
                let b = concat_str(a.as_slice(), ", must be 'code' or 'prose'");
                return Err(string_of(b.as_slice()));
            }
        },
        None => {},
    }
    let ghost fp = forbidden_pattern_texts(*contract);
    let mut i: usize = 0;
    while i < contract.forbidden_patterns.len()
        invariant
            i <= contract.forbidden_patterns@.len(),
            fp == forbidden_pattern_texts(*contract),
            mode_ok(*contract),
            first_bad_regex(fp, 0) == first_bad_regex(fp, i as int),
        decreases contract.forbidden_patterns.len() - i,
    {
        let p = contract.forbidden_patterns[i].pattern.as_str();
        match regex_compile_error(p) {
            Some(e) => {
                assert(first_bad_regex(fp, i as int) == Some(i as int));
                return Err(pattern_error("invalid forbidden pattern ", p, e.as_str()));
            },
            None => {},
        }
        i = i + 1;
    }
    match &contract.mock_signatures {
        Some(m) => {
            let ghost mp = mock_pattern_texts(*contract);
            let mut j: usize = 0;
            while j < m.patterns.len()
                invariant
                    j <= m.patterns@.len(),
                    contract.mock_signatures == Some(*m),
                    mp == mock_pattern_texts(*contract),
                    mp == m.patterns@.map_values(|p: MockSignature| p.pattern@),
                    mode_ok(*contract),
                    first_bad_regex(forbidden_pattern_texts(*contract), 0) is None,
                    first_bad_regex(mp, 0) == first_bad_regex(mp, j as int),
                decreases m.patterns.len() - j,
            {
                let p = m.patterns[j].pattern.as_str();
                match regex_compile_error(p) {
                    Some(e) => {
                        assert(first_bad_regex(mp, j as int) == Some(j as int));
                        return Err(pattern_error("invalid mock signature ", p, e.as_str()));
                    },
                    None => {},
                }
                j = j + 1;
            }
        },
        None => {},
    }
    let ghost ep = excluded_texts(*contract);
    let mut k: usize = 0;
    while k < contract.excluded_paths.len()
        invariant
            k <= contract.excluded_paths@.len(),
            ep == excluded_texts(*contract),
            mode_ok(*contract),
            first_bad_regex(forbidden_pattern_texts(*contract), 0) is None,
            first_bad_regex(mock_pattern_texts(*contract), 0) is None,
            first_bad_glob(ep, 0) == first_bad_glob(ep, k as int),
        decreases contract.excluded_paths.len() - k,
    {
        let p = contract.excluded_paths[k].as_str();
        match glob_compile_error(p) {
            Some(e) => {
                assert(first_bad_glob(ep, k as int) == Some(k as int));
                return Err(pattern_error("invalid excluded_paths pattern ", p, e.as_str()));
            },
            None => {},
        }
        k = k + 1;
    }
    Ok(())
}

} // verus!
