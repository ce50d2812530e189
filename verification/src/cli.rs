//! The decisions of the command line: which options are accepted, which
//! directories and files a scan visits, the threshold presets, templates
//! and exit codes.
use vstd::prelude::*;

use crate::contract::{path_excluded, Contract, GodObjectContractConfig};
use crate::detect::god_objects::GodObjectConfig;
use crate::detect::types::str_eq;
use crate::matching::{glob_is_match, glob_matches, glob_valid};
use crate::text::{
    chars_of, concat, concat_str, debug_form, debug_quoted, ends_with_str, has_prefix, has_suffix,
    starts_with_str, string_of,
};

verus! {

/// Exit code of a run that passed.
pub const EXIT_SUCCESS: i32 = 0;

/// Exit code of a run whose score exceeded the threshold.
pub const EXIT_FAILED: i32 = 1;

/// Exit code of a run that could not be carried out.
pub const EXIT_ERROR: i32 = 2;

/// The exit code of a completed run.
pub fn exit_code(passed: bool) -> (r: i32)
    ensures
        r == if passed {
            EXIT_SUCCESS
        } else {
            EXIT_FAILED
        },
{
    if passed {
        EXIT_SUCCESS
    } else {
        EXIT_FAILED
    }
}

/// The contract file names looked for, in order, when none is given.
pub open spec fn default_contract_names() -> Seq<Seq<char>> {
    seq!["hollowcheck.yaml"@, "hollow.yaml"@, ".hollowcheck.yaml"@]
}

pub fn contract_names() -> (r: Vec<&'static str>)
    ensures
        r@.map_values(|s: &'static str| s@) == default_contract_names(),
{
    let r = vec!["hollowcheck.yaml", "hollow.yaml", ".hollowcheck.yaml"];
    assert(r@.map_values(|s: &'static str| s@) =~= default_contract_names());
    r
}

/// Directories that a scan never enters.
pub open spec fn excluded_dirs() -> Seq<Seq<char>> {
    seq![
        "target"@, "node_modules"@, "vendor"@, "dist"@, "build"@, "_build"@, "test"@, "tests"@,
        "__tests__"@, "__test__"@, "testdata"@, "test_data"@, "test-data"@, "example"@,
        "examples"@, "bench"@, "benches"@, "benchmark"@, "benchmarks"@, "doc"@, "docs"@,
        "documentation"@,
    ]
}

fn excluded_dir_list() -> (r: Vec<&'static str>)
    ensures
        r@.map_values(|s: &'static str| s@) == excluded_dirs(),
{
    let r = vec![
        "target", "node_modules", "vendor", "dist", "build", "_build", "test", "tests",
        "__tests__", "__test__", "testdata", "test_data", "test-data", "example", "examples",
        "bench", "benches", "benchmark", "benchmarks", "doc", "docs", "documentation",
    ];
    assert(r@.map_values(|s: &'static str| s@) =~= excluded_dirs());
    r
}

fn listed(list: &Vec<&'static str>, name: &str) -> (r: bool)
    ensures
        r == list@.map_values(|s: &'static str| s@).contains(name@),
{
    let ghost names = list@.map_values(|s: &'static str| s@);
    let mut i: usize = 0;
    while i < list.len()
        invariant
            i <= list@.len(),
            names == list@.map_values(|s: &'static str| s@),
            forall|j: int| 0 <= j < i ==> names[j] != name@,
        decreases list.len() - i,
    {
        if str_eq(list[i], name) {
            assert(names[i as int] == name@);
            return true;
        }
        i = i + 1;
    }
    false
}

/// A directory that a scan does not enter: a hidden one, or one of the
/// build, test, example, benchmark and documentation directories.
pub open spec fn skipped_dir(name: Seq<char>, is_dir: bool) -> bool {
    is_dir && (has_prefix(name, "."@) || excluded_dirs().contains(name))
}

/// Whether a directory entry is left out of a scan, with everything below it.
pub fn skip_directory(name: &str, is_dir: bool) -> (r: bool)
    ensures
        r == skipped_dir(name@, is_dir),
{
    if !is_dir {
        return false;
    }
    if starts_with_str(chars_of(name).as_slice(), ".") {
        return true;
    }
    listed(&excluded_dir_list(), name)
}

/// The extensions of the files a scan reads.
pub open spec fn supported_extensions() -> Seq<Seq<char>> {
    seq![
        "go"@, "rs"@, "py"@, "js"@, "ts"@, "jsx"@, "tsx"@, "java"@, "kt"@, "c"@, "cpp"@, "h"@,
        "hpp"@,
    ]
}

/// Whether files with this extension are scanned.
pub fn is_supported_extension(ext: &str) -> (r: bool)
    ensures
        r == supported_extensions().contains(ext@),
{
    let list = vec!["go", "rs", "py", "js", "ts", "jsx", "tsx", "java", "kt", "c", "cpp", "h", "hpp"];
    assert(list@.map_values(|s: &'static str| s@) =~= supported_extensions());
    listed(&list, ext)
}

/// A test file by its name, in any of the supported languages.
pub open spec fn test_file_name(f: Seq<char>) -> bool {
    ||| has_suffix(f, "_test.go"@) || has_suffix(f, "_test.rs"@) || has_suffix(f, "_test.py"@)
        || has_suffix(f, "_test.js"@) || has_suffix(f, "_test.ts"@) || has_suffix(f, "_test.tsx"@)
        || has_suffix(f, "_test.jsx"@)
    ||| has_suffix(f, ".test.js"@) || has_suffix(f, ".test.ts"@) || has_suffix(f, ".test.tsx"@)
        || has_suffix(f, ".test.jsx"@)
    ||| has_suffix(f, ".spec.js"@) || has_suffix(f, ".spec.ts"@) || has_suffix(f, ".spec.tsx"@)
        || has_suffix(f, ".spec.jsx"@)
    ||| has_prefix(f, "test_"@)
    ||| f == "conftest.py"@
}

/// Check if a filename indicates a test file.
pub fn is_test_file(filename: &str) -> (r: bool)
    ensures
        r == test_file_name(filename@),
{
    let cs = chars_of(filename);
    let f = cs.as_slice();
    ends_with_str(f, "_test.go") || ends_with_str(f, "_test.rs") || ends_with_str(f, "_test.py")
        || ends_with_str(f, "_test.js") || ends_with_str(f, "_test.ts") || ends_with_str(
        f,
        "_test.tsx",
    ) || ends_with_str(f, "_test.jsx") || ends_with_str(f, ".test.js") || ends_with_str(
        f,
        ".test.ts",
    ) || ends_with_str(f, ".test.tsx") || ends_with_str(f, ".test.jsx") || ends_with_str(
        f,
        ".spec.js",
    ) || ends_with_str(f, ".spec.ts") || ends_with_str(f, ".spec.tsx") || ends_with_str(
        f,
        ".spec.jsx",
    ) || starts_with_str(f, "test_") || str_eq(filename, "conftest.py")
}

/// Some valid glob of the list matches the path.
pub open spec fn any_glob_matches(patterns: Seq<String>, path: Seq<char>) -> bool {
    exists|i: int|
        0 <= i < patterns.len() && glob_valid(#[trigger] patterns[i]@) && glob_matches(
            patterns[i]@,
            path,
        )
}

fn any_glob(patterns: &Vec<String>, path: &str) -> (r: bool)
    ensures
        r == any_glob_matches(patterns@, path@),
{
    let mut i: usize = 0;
    while i < patterns.len()
        invariant
            i <= patterns@.len(),
            forall|j: int|
                0 <= j < i ==> !(glob_valid(#[trigger] patterns@[j]@) && glob_matches(
                    patterns@[j]@,
                    path@,
                )),
        decreases patterns.len() - i,
    {
        if glob_is_match(patterns[i].as_str(), path) {
            return true;
        }
        i = i + 1;
    }
    false
}

/// Whether a file with a supported extension is scanned: always when an
/// include pattern matches its path; otherwise not when it is a test file
/// (unless the contract includes them), nor when the contract or an extra
/// exclude pattern excludes its path.
pub open spec fn file_selected(
    contract: Contract,
    extra_excludes: Seq<String>,
    include_patterns: Seq<String>,
    path: Seq<char>,
    filename: Seq<char>,
) -> bool {
    any_glob_matches(include_patterns, path) || !((contract.include_test_files != Some(true)
        && test_file_name(filename)) || path_excluded(contract.excluded_paths@, path)
        || any_glob_matches(extra_excludes, path))
}

/// Whether a file with a supported extension is scanned.
pub fn select_file(
    contract: &Contract,
    extra_excludes: &Vec<String>,
    include_patterns: &Vec<String>,
    path: &str,
    filename: &str,
) -> (r: bool)
    ensures
        r == file_selected(*contract, extra_excludes@, include_patterns@, path@, filename@),
{
    if any_glob(include_patterns, path) {
        return true;
    }
    if !contract.should_include_test_files() && is_test_file(filename) {
        return false;
    }
    if contract.is_path_excluded(path) {
        return false;
    }
    !any_glob(extra_excludes, path)
}

/// Why the options of a lint run are refused, if they are.
pub open spec fn lint_options_error(
    format: Seq<char>,
    mode: Option<Seq<char>>,
    strict: bool,
    relaxed: bool,
) -> Option<Seq<char>> {
    let m = match mode {
        Some(m) => m,
        None => "code"@,
    };
    if format != "pretty"@ && format != "json"@ && format != "sarif"@ {
        Some(
            "invalid format "@ + debug_form(format) + ", must be 'pretty', 'json', or 'sarif'"@,
        )
    } else if m != "code"@ && m != "prose"@ {
        Some("invalid mode "@ + debug_form(m) + ", must be 'code' or 'prose'"@)
    } else if strict && relaxed {
        Some("cannot use both --strict and --relaxed flags"@)
    } else {
        None
    }
}

/// Checks the output format, the analysis mode and the preset flags, in
/// that order; the error names the first one refused.
pub fn check_lint_options(format: &str, mode: Option<&str>, strict: bool, relaxed: bool) -> (r:
    Result<(), String>)
    ensures
        match lint_options_error(
            format@,
            match mode {
                Some(m) => Some(m@),
                None => None,
            },
            strict,
            relaxed,
        ) {
            Some(e) => r matches Err(m) && m@ == e,
            None => r is Ok,
        },
{
    if !str_eq(format, "pretty") && !str_eq(format, "json") && !str_eq(format, "sarif") {
        let a = concat(
            chars_of("invalid format ").as_slice(),
            debug_quoted(chars_of(format).as_slice()).as_slice(),
        );
        let b = concat_str(a.as_slice(), ", must be 'pretty', 'json', or 'sarif'");
        return Err(string_of(b.as_slice()));
    }
    let m = match mode {
        Some(m) => m,
        None => "code",
    };
    if !str_eq(m, "code") && !str_eq(m, "prose") {
        let a = concat(
            chars_of("invalid mode ").as_slice(),
            debug_quoted(chars_of(m).as_slice()).as_slice(),
        );
        let b = concat_str(a.as_slice(), ", must be 'code' or 'prose'");
        return Err(string_of(b.as_slice()));
    }
    if strict && relaxed {
        return Err(String::from_str("cannot use both --strict and --relaxed flags"));
    }
    Ok(())
}

/// The limits of the strict preset, for AI-generated code.
pub open spec fn strict_preset() -> GodObjectConfig {
    GodObjectConfig {
        max_file_lines: 500,
        max_function_lines: 50,
        max_function_complexity: 15,
        max_functions_per_file: 20,
        max_class_methods: 15,
    }
}

/// The limits of the relaxed preset, for large, mature codebases.
pub open spec fn relaxed_preset() -> GodObjectConfig {
    GodObjectConfig {
        max_file_lines: 2000,
        max_function_lines: 200,
        max_function_complexity: 30,
        max_functions_per_file: 50,
        max_class_methods: 30,
    }
}

/// A limit the contract leaves open takes the preset's value.
pub open spec fn filled(v: Option<usize>, preset: usize) -> Option<usize> {
    match v {
        Some(x) => Some(x),
        None => Some(preset),
    }
}

/// The contract's god-object limits after a preset fills those it leaves
/// open (a contract without the section gets a disabled one).
pub open spec fn preset_applied(g: Option<GodObjectContractConfig>, t: GodObjectConfig) -> (
    bool,
    Option<usize>,
    Option<usize>,
    Option<usize>,
    Option<usize>,
    Option<usize>,
) {
    match g {
        Some(c) => (
            c.enabled,
            filled(c.max_file_lines, t.max_file_lines),
            filled(c.max_function_lines, t.max_function_lines),
            filled(c.max_function_complexity, t.max_function_complexity),
            filled(c.max_functions_per_file, t.max_functions_per_file),
            filled(c.max_class_methods, t.max_class_methods),
        ),
        None => (
            false,
            Some(t.max_file_lines),
            Some(t.max_function_lines),
            Some(t.max_function_complexity),
            Some(t.max_functions_per_file),
            Some(t.max_class_methods),
        ),
    }
}

pub open spec fn god_limits(c: GodObjectContractConfig) -> (
    bool,
    Option<usize>,
    Option<usize>,
    Option<usize>,
    Option<usize>,
    Option<usize>,
) {
    (
        c.enabled,
        c.max_file_lines,
        c.max_function_lines,
        c.max_function_complexity,
        c.max_functions_per_file,
        c.max_class_methods,
    )
}

/// Applying a preset to limits it has already filled changes nothing.
pub proof fn lemma_preset_idempotent(
    g: Option<GodObjectContractConfig>,
    t: GodObjectConfig,
    c: GodObjectContractConfig,
)
    requires
        god_limits(c) == preset_applied(g, t),
    ensures
        preset_applied(Some(c), t) == god_limits(c),
{
}

fn fill(v: Option<usize>, preset: usize) -> (r: Option<usize>)
    ensures
        r == filled(v, preset),
{
    match v {
        Some(x) => Some(x),
        None => Some(preset),
    }
}

/// Apply the strict or relaxed thresholds to the god-object limits the
/// contract leaves open; without either flag the contract is unchanged.
pub fn apply_threshold_preset(contract: &mut Contract, strict: bool, relaxed: bool)
    ensures
        !(strict || relaxed) ==> *final(contract) == *old(contract),
        (strict || relaxed) ==> ({
            let t = if strict {
                strict_preset()
            } else {
                relaxed_preset()
            };
            &&& final(contract).god_objects matches Some(g) && god_limits(g) == preset_applied(
                old(contract).god_objects,
                t,
            )
            &&& *final(contract) == (Contract { god_objects: final(contract).god_objects, ..*old(contract) })
        }),
{
    if !(strict || relaxed) {
        return ;
    }
    let t = if strict {
        GodObjectConfig::strict()
    } else {
        GodObjectConfig::relaxed()
    };
    let g = match contract.god_objects.take() {
        Some(c) => c,
        None => GodObjectContractConfig::default(),
    };
    contract.god_objects = Some(
        GodObjectContractConfig {
            enabled: g.enabled,
            max_file_lines: fill(g.max_file_lines, t.max_file_lines),
            max_function_lines: fill(g.max_function_lines, t.max_function_lines),
            max_function_complexity: fill(g.max_function_complexity, t.max_function_complexity),
            max_functions_per_file: fill(g.max_functions_per_file, t.max_functions_per_file),
            max_class_methods: fill(g.max_class_methods, t.max_class_methods),
        },
    );
}

/// A contract template: its name and what it is for.
pub struct TemplateInfo {
    pub name: &'static str,
    pub description: &'static str,
}

pub open spec fn template_names() -> Seq<Seq<char>> {
    seq!["minimal"@, "crud-endpoint"@, "cli-tool"@, "client-sdk"@, "worker"@]
}

/// The available contract templates, in the order they are listed.
pub fn templates() -> (r: Vec<TemplateInfo>)
    ensures
        r@.map_values(|t: TemplateInfo| t.name@) == template_names(),
{
    let r = vec![
        TemplateInfo {
            name: "minimal",
            description: "Bare minimum quality gate - no stubs, no obvious mocks",
        },
        TemplateInfo {
            name: "crud-endpoint",
            description: "REST API endpoint with CRUD database operations",
        },
        TemplateInfo {
            name: "cli-tool",
            description: "Command-line tool with argument parsing and subcommands",
        },
        TemplateInfo {
            name: "client-sdk",
            description: "API client SDK with authentication, retry, and error handling",
        },
        TemplateInfo {
            name: "worker",
            description: "Background job processor with graceful shutdown",
        },
    ];
    assert(r@.map_values(|t: TemplateInfo| t.name@) =~= template_names());
    r
}

/// The position of the template with this name, if there is one.
pub fn find_template(name: &str) -> (r: Option<usize>)
    ensures
        match r {
            Some(i) => i < template_names().len() && template_names()[i as int] == name@,
            None => !template_names().contains(name@),
        },
{
    let ts = templates();
    let ghost names = ts@.map_values(|t: TemplateInfo| t.name@);
    let mut i: usize = 0;
    while i < ts.len()
        invariant
            i <= ts@.len(),
            names == ts@.map_values(|t: TemplateInfo| t.name@),
            names == template_names(),
            forall|j: int| 0 <= j < i ==> names[j] != name@,
        decreases ts.len() - i,
    {
        if str_eq(ts[i].name, name) {
            assert(names[i as int] == name@);
            return Some(i);
        }
        i = i + 1;
    }
    None
}

/// How a template is listed: the default one is marked.
pub open spec fn template_label(name: Seq<char>) -> Seq<char> {
    if name == "minimal"@ {
        name + " (default)"@
    } else {
        name
    }
}

pub fn template_display_name(name: &str) -> (r: String)
    ensures
        r@ == template_label(name@),
{
    if str_eq(name, "minimal") {
        string_of(concat_str(chars_of(name).as_slice(), " (default)").as_slice())
    } else {
        string_of(chars_of(name).as_slice())
    }
}

} // verus!
