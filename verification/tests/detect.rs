use hollowcheck::contract::{
    Contract, DependencyVerificationConfig, ForbiddenPattern, HollowTodosConfig,
    MockSignaturesConfig, RequiredFile,
};
use hollowcheck::detect::dependencies::{
    dependency_violations, detect_local_packages, group_imports, parse_cargo_package_name,
    parse_go_module_name, parse_npm_package_name, parse_pyproject_name, prepare_dependency_check,
    resolve_manifest_type, AnyManifest, DependencyValidator,
};
use hollowcheck::detect::files::{detect_missing_files, PathStatus};
use hollowcheck::detect::god_objects::{extract_class_from_method, GodFileInput, GodObjectConfig};
use hollowcheck::detect::imports::{
    extract_go_imports, extract_imports, extract_js_imports, extract_npm_package_name,
    extract_python_imports, extract_rust_imports, ImportedDependency,
};
use hollowcheck::detect::manifest::python::{PythonManifest, PythonSources};
use hollowcheck::detect::manifest::{ManifestType, NoManifest};
use hollowcheck::detect::patterns::is_inside_string_literal;
use hollowcheck::detect::runner::{finish_run, god_config_from, Runner};
use hollowcheck::detect::stdlib::{is_stdlib, StdlibLanguage};
use hollowcheck::detect::stubs::{
    detect_stub_functions, is_legitimate_noop, last_path_segment, should_skip_stub_detection,
    StubDetectionConfig, StubInput,
};
use hollowcheck::detect::suppress::{
    matches_suppression, parse_suppressions, Suppression, SuppressionType,
};
use hollowcheck::detect::todos::is_hollow_todo;
use hollowcheck::detect::types::{DetectionResult, Severity, Violation, ViolationRule};
use hollowcheck::analysis::facts::{
    ControlFlowInfo, Declaration, DeclarationKind, FileFacts, FunctionBody, Span,
};
use hollowcheck::analysis::stubs::HollowBodyKind;
use hollowcheck::parser::for_extension;
use hollowcheck::registry::{PackageStatus, RegistryError, RegistryType};

#[test]
fn test_mock_signatures_defaults() {
    let cfg = MockSignaturesConfig::default();
    assert!(cfg.should_skip_test_files());
    assert!(cfg.get_test_file_severity().is_none());
}

#[test]
fn test_extract_class_from_method() {
    assert_eq!(extract_class_from_method("Foo.bar"), Some("Foo".to_string()));
    assert_eq!(extract_class_from_method("Foo::bar"), Some("Foo".to_string()));
    assert_eq!(extract_class_from_method("Foo->bar"), Some("Foo".to_string()));
    assert_eq!(extract_class_from_method("bar"), None);
}

#[test]
fn test_is_inside_string_literal() {
    assert!(!is_inside_string_literal("hello world", 0));
    assert!(is_inside_string_literal(r#""hello world""#, 3));
    assert!(!is_inside_string_literal(r#""hello" world"#, 9));
    assert!(is_inside_string_literal(r#""hello \" world""#, 10));
}

#[test]
fn test_python_stdlib_detection() {
    assert!(is_stdlib(StdlibLanguage::Python, "os"));
    assert!(is_stdlib(StdlibLanguage::Python, "sys"));
    assert!(is_stdlib(StdlibLanguage::Python, "json"));

    assert!(!is_stdlib(StdlibLanguage::Python, "requests"));
    assert!(!is_stdlib(StdlibLanguage::Python, "flask"));
    assert!(!is_stdlib(StdlibLanguage::Python, "nonexistent-package-xyz"));
}

#[test]
fn test_node_builtin_detection() {
    assert!(is_stdlib(StdlibLanguage::JavaScript, "fs"));
    assert!(is_stdlib(StdlibLanguage::JavaScript, "path"));
    assert!(is_stdlib(StdlibLanguage::JavaScript, "node:fs"));

    assert!(!is_stdlib(StdlibLanguage::JavaScript, "express"));
    assert!(!is_stdlib(StdlibLanguage::JavaScript, "lodash"));
}

#[test]
fn test_go_stdlib_detection() {
    assert!(is_stdlib(StdlibLanguage::Go, "fmt"));
    assert!(is_stdlib(StdlibLanguage::Go, "net/http"));

    assert!(!is_stdlib(StdlibLanguage::Go, "github.com/gorilla/mux"));
}

#[test]
fn test_rust_stdlib_detection() {
    assert!(is_stdlib(StdlibLanguage::Rust, "std"));
    assert!(is_stdlib(StdlibLanguage::Rust, "core"));

    assert!(!is_stdlib(StdlibLanguage::Rust, "serde"));
    assert!(!is_stdlib(StdlibLanguage::Rust, "tokio"));
}

#[test]
fn test_cache_performance() {
    let lang = StdlibLanguage::Python;
    let _ = is_stdlib(lang, "os");

    let start = std::time::Instant::now();
    for _ in 0..1000 {
        let _ = is_stdlib(lang, "os");
    }
    let elapsed = start.elapsed();

    assert!(elapsed.as_millis() < 50, "Cache too slow: {:?}", elapsed);
}

#[test]
fn node_prefix_needs_a_builtin() {
    assert!(!is_stdlib(StdlibLanguage::JavaScript, "node:express"));
    assert!(!is_stdlib(StdlibLanguage::Python, "node:os"));
}

#[test]
fn test_parse_suppressions_go_style() {
    let content = r#"
package main

// hollowcheck:ignore-file forbidden_pattern - Generated code
func main() {
    // TODO: implement // hollowcheck:ignore forbidden_pattern - Expected
}
"#;
    let suppressions = parse_suppressions("main.go", content);
    assert_eq!(suppressions.len(), 2);

    assert_eq!(suppressions[0].suppression_type, SuppressionType::File);
    assert_eq!(suppressions[0].rule, "forbidden_pattern");

    assert_eq!(suppressions[1].suppression_type, SuppressionType::Line);
}

#[test]
fn test_parse_suppressions_next_line() {
    let content = r#"
// hollowcheck:ignore-next-line mock_data - Test data
var testUrl = "example.com"
"#;
    let suppressions = parse_suppressions("test.go", content);
    assert_eq!(suppressions.len(), 1);
    assert_eq!(suppressions[0].suppression_type, SuppressionType::NextLine);
    assert_eq!(suppressions[0].line, 2);
}

#[test]
fn test_matches_suppression() {
    let violation = Violation {
        rule: ViolationRule::ForbiddenPattern,
        message: "TODO found".to_string(),
        file: "main.go".to_string(),
        line: 5,
        severity: Severity::Error,
    };

    let file_suppression = Suppression {
        rule: "forbidden_pattern".to_string(),
        reason: "Generated".to_string(),
        file: "main.go".to_string(),
        line: 0,
        suppression_type: SuppressionType::File,
    };
    assert!(matches_suppression(&violation, &file_suppression));

    let next_line_suppression = Suppression {
        rule: "forbidden_pattern".to_string(),
        reason: "Expected".to_string(),
        file: "main.go".to_string(),
        line: 4,
        suppression_type: SuppressionType::NextLine,
    };
    assert!(matches_suppression(&violation, &next_line_suppression));

    let wrong_rule = Suppression {
        rule: "mock_data".to_string(),
        reason: "".to_string(),
        file: "main.go".to_string(),
        line: 0,
        suppression_type: SuppressionType::File,
    };
    assert!(!matches_suppression(&violation, &wrong_rule));

    let wildcard = Suppression {
        rule: "*".to_string(),
        reason: "".to_string(),
        file: "main.go".to_string(),
        line: 0,
        suppression_type: SuppressionType::File,
    };
    assert!(matches_suppression(&violation, &wildcard));
}

#[test]
fn test_is_hollow_todo() {
    assert!(is_hollow_todo(""));
    assert!(is_hollow_todo("implement"));
    assert!(is_hollow_todo("implement this"));
    assert!(is_hollow_todo("Implement this function"));
    assert!(is_hollow_todo("finish later"));
    assert!(is_hollow_todo("fix this"));
    assert!(is_hollow_todo("fix"));
    assert!(is_hollow_todo("TBD"));
    assert!(is_hollow_todo("WIP"));
    assert!(is_hollow_todo("stub"));
    assert!(is_hollow_todo("placeholder"));
    assert!(is_hollow_todo("not implemented"));
    assert!(is_hollow_todo("needs implementation"));
    assert!(is_hollow_todo("add code"));
    assert!(is_hollow_todo("add this"));

    assert!(!is_hollow_todo("Use io_uring for zero-copy when kernel >= 5.19"));
    assert!(!is_hollow_todo("Optimize query performance per #1234"));
    assert!(!is_hollow_todo("Race condition when concurrent writes exceed buffer"));
    assert!(!is_hollow_todo("See https://example.com/issue/123"));
    assert!(!is_hollow_todo("@jsmith needs to review this"));
    assert!(!is_hollow_todo("Upgrade to v2.0 API"));
    assert!(!is_hollow_todo("Add retry logic with exponential backoff"));
    assert!(!is_hollow_todo("Implement caching for database queries"));
    assert!(!is_hollow_todo("Fix memory leak in worker thread pool"));
}

fn make_violation(rule: ViolationRule, file: &str, line: usize, message: &str) -> Violation {
    Violation {
        rule,
        message: message.to_string(),
        file: file.to_string(),
        line,
        severity: rule.default_severity(),
    }
}

#[test]
fn test_violation_key() {
    let v = make_violation(ViolationRule::GodFunction, "src/main.rs", 10, "complexity exceeded");
    assert_eq!(v.key(), "god_function|src/main.rs|10|complexity exceeded");
}

#[test]
fn test_deduplicate_removes_exact_duplicates() {
    let mut result = DetectionResult::new();
    let v1 = make_violation(ViolationRule::GodFunction, "src/main.rs", 10, "function too complex");
    let v2 = make_violation(ViolationRule::GodFunction, "src/main.rs", 10, "function too complex");
    result.add_violation(v1);
    result.add_violation(v2);

    assert_eq!(result.violations.len(), 2);
    result.deduplicate();
    assert_eq!(result.violations.len(), 1);
}

#[test]
fn test_deduplicate_keeps_different_violations() {
    let mut result = DetectionResult::new();
    let v1 = make_violation(ViolationRule::GodFunction, "src/main.rs", 10, "complexity 18 exceeds 15");
    let v2 = make_violation(ViolationRule::GodFunction, "src/main.rs", 10, "~73 lines exceeds 50");
    result.add_violation(v1);
    result.add_violation(v2);

    assert_eq!(result.violations.len(), 2);
    result.deduplicate();
    assert_eq!(result.violations.len(), 2);
}

#[test]
fn test_deduplicate_keeps_violations_on_different_lines() {
    let mut result = DetectionResult::new();
    let v1 = make_violation(ViolationRule::ForbiddenPattern, "src/main.rs", 10, "TODO found");
    let v2 = make_violation(ViolationRule::ForbiddenPattern, "src/main.rs", 20, "TODO found");
    result.add_violation(v1);
    result.add_violation(v2);

    assert_eq!(result.violations.len(), 2);
    result.deduplicate();
    assert_eq!(result.violations.len(), 2);
}

#[test]
fn test_deduplicate_keeps_violations_in_different_files() {
    let mut result = DetectionResult::new();
    let v1 = make_violation(ViolationRule::GodFile, "src/a.rs", 1, "file too large");
    let v2 = make_violation(ViolationRule::GodFile, "src/b.rs", 1, "file too large");
    result.add_violation(v1);
    result.add_violation(v2);

    assert_eq!(result.violations.len(), 2);
    result.deduplicate();
    assert_eq!(result.violations.len(), 2);
}

#[test]
fn test_forbidden_pattern_severity_is_warning() {
    assert_eq!(ViolationRule::ForbiddenPattern.default_severity(), Severity::Warning);
}

#[test]
fn test_hallucinated_dependency_severity_is_critical() {
    assert_eq!(ViolationRule::HallucinatedDependency.default_severity(), Severity::Critical);
}

#[test]
fn test_god_object_severities_are_warning() {
    assert_eq!(ViolationRule::GodFile.default_severity(), Severity::Warning);
    assert_eq!(ViolationRule::GodFunction.default_severity(), Severity::Warning);
    assert_eq!(ViolationRule::GodClass.default_severity(), Severity::Warning);
}

#[test]
fn test_scoring_only_counts_critical_and_error() {
    let mut result = DetectionResult::new();
    result.add_violation(make_violation(ViolationRule::MissingFile, "a.rs", 1, "missing"));
    result.add_violation(make_violation(ViolationRule::LowComplexity, "b.rs", 1, "stub"));
    result.add_violation(make_violation(ViolationRule::GodFunction, "c.rs", 1, "too complex"));
    result.add_violation(make_violation(ViolationRule::MockData, "d.rs", 1, "mock found"));

    assert_eq!(result.scoring_violation_count(), 2);
}

#[test]
fn rule_names_round_trip() {
    for rule in [
        ViolationRule::ForbiddenPattern,
        ViolationRule::MockData,
        ViolationRule::StubFunction,
        ViolationRule::ProseWeakTransition,
    ] {
        assert_eq!(ViolationRule::parse(rule.as_str()), Some(rule));
    }
}

#[test]
fn test_unregistered_extension() {
    let parser = for_extension(".unknown");
    assert!(parser.is_none());
}

#[test]
fn registered_extensions_have_parsers() {
    assert!(for_extension(".go").is_some());
    assert!(for_extension(".py").is_some());
    assert!(for_extension("go").is_none());
}

#[test]
fn test_extract_npm_package_name() {
    assert_eq!(extract_npm_package_name("lodash"), "lodash");
    assert_eq!(extract_npm_package_name("lodash/get"), "lodash");
    assert_eq!(extract_npm_package_name("@types/node"), "@types/node");
    assert_eq!(extract_npm_package_name("@babel/core/lib"), "@babel/core");
}

fn names(imports: &[ImportedDependency]) -> Vec<&str> {
    imports.iter().map(|i| i.name.as_str()).collect()
}

#[test]
fn test_extract_python_imports() {
    let content = r#"
import requests
import json
from flask import Flask
from typing import Optional
"#;
    let imports = extract_python_imports(content, "test.py");
    let names = names(&imports);
    assert!(names.contains(&"requests"));
    assert!(names.contains(&"flask"));
    assert!(!names.contains(&"json"));
    assert!(!names.contains(&"typing"));
}

#[test]
fn test_extract_js_imports() {
    let content = r#"
import express from 'express';
import { useState } from 'react';
import fs from 'fs';
const lodash = require('lodash');
import('@types/node');
"#;
    let imports = extract_js_imports(content, "test.js");
    let names = names(&imports);
    assert!(names.contains(&"express"));
    assert!(names.contains(&"react"));
    assert!(names.contains(&"lodash"));
    assert!(!names.contains(&"fs"));
}

#[test]
fn test_extract_go_imports() {
    let content = r#"
package main

import (
    "fmt"
    "github.com/gin-gonic/gin"
    "github.com/spf13/cobra"
)

import "golang.org/x/net/context"
"#;
    let imports = extract_go_imports(content, "main.go");
    let names = names(&imports);
    assert!(names.contains(&"github.com/gin-gonic/gin"));
    assert!(names.contains(&"github.com/spf13/cobra"));
    assert!(names.contains(&"golang.org/x/net"));
    assert!(!names.contains(&"fmt"));
}

#[test]
fn test_extract_rust_imports() {
    let content = r#"
use std::collections::HashMap;
use serde::{Serialize, Deserialize};
use anyhow::Result;
"#;
    let imports = extract_rust_imports(content, "main.rs");
    let names = names(&imports);
    assert!(names.contains(&"serde"));
    assert!(names.contains(&"anyhow"));
    assert!(!names.contains(&"std"));
}

#[test]
fn import_lines_and_docstrings() {
    let content = "\"\"\"\nimport fake_in_docstring\n\"\"\"\nimport requests\nimport requests\n";
    let imports = extract_python_imports(content, "a.py");
    assert_eq!(names(&imports), vec!["requests"]);
    assert_eq!(imports[0].line, 4);
    assert_eq!(imports[0].file, "a.py");
    assert_eq!(imports[0].registry, RegistryType::PyPI);

    let go = extract_go_imports("package x\n\nimport (\n\t\"github.com/a/b/c\"\n)\n", "x.go");
    assert_eq!(names(&go), vec!["github.com/a/b"]);
    assert_eq!(go[0].line, 4);

    assert!(extract_imports("notes.txt", "import requests").is_empty());
    assert_eq!(names(&extract_imports("x.rs", "use serde::Serialize;\n")), vec!["serde"]);
}

#[test]
fn test_parse_cargo_package_name() {
    let content = r#"
[package]
name = "my-cool-crate"
version = "0.1.0"
"#;
    assert_eq!(parse_cargo_package_name(content), Some("my-cool-crate".to_string()));
}

#[test]
fn test_parse_npm_package_name() {
    let content = r#"{"name": "@org/my-package", "version": "1.0.0"}"#;
    assert_eq!(parse_npm_package_name(content), Some("@org/my-package".to_string()));
}

#[test]
fn test_parse_go_module_name() {
    let content = "module github.com/user/myproject\n\ngo 1.21\n";
    assert_eq!(
        parse_go_module_name(content),
        Some("github.com/user/myproject".to_string())
    );
}

#[test]
fn test_parse_pyproject_name() {
    let content = r#"
[project]
name = "my-python-pkg"
version = "0.1.0"
"#;
    assert_eq!(parse_pyproject_name(content), Some("my-python-pkg".to_string()));
}

#[test]
fn test_detect_local_packages_cargo() {
    let cargo = "[package]\nname = \"local-crate\"\nversion = \"0.1.0\"\n";
    let packages = detect_local_packages(Some(cargo), None, None, None);
    assert!(packages.contains(&"local-crate".to_string()));
}

fn python_validator(requirements: &str, allowlist: Vec<String>) -> DependencyValidator {
    let sources = PythonSources {
        requirements: vec![requirements.to_string()],
        pyproject_toml: None,
        setup_cfg: None,
    };
    let manifest = PythonManifest::from_root("/proj", &sources);
    let config = DependencyVerificationConfig {
        enabled: true,
        allowlist,
        ..Default::default()
    };
    DependencyValidator::new(
        ManifestType::PythonStandard,
        AnyManifest::Python(manifest),
        &config,
        vec![],
    )
}

#[test]
fn test_allowlist_exact() {
    let v = python_validator("", vec!["my_internal_pkg".to_string()]);
    assert!(v.is_allowlisted("my_internal_pkg"));
    assert!(!v.is_allowlisted("other_pkg"));
}

#[test]
fn test_allowlist_glob() {
    let v = python_validator("", vec!["company-*".to_string()]);
    assert!(v.is_allowlisted("company-utils"));
    assert!(v.is_allowlisted("company-core"));
    assert!(!v.is_allowlisted("other-pkg"));
}

#[test]
fn test_dependency_validator_validates_imports() {
    let validator = python_validator("pyswitchbot>=0.40.0\n", vec![]);
    let file = "/proj/test.py";
    assert!(validator.is_valid_import("pyswitchbot", file));
    assert!(validator.is_valid_import("switchbot", file));
    assert!(!validator.is_valid_import("nonexistent", file));
    assert!(validator.validate_import("nonexistent", file, 1).is_none());
    assert_eq!(validator.manifest_type(), &ManifestType::PythonStandard);
}

#[test]
fn manifest_type_resolution() {
    assert_eq!(
        resolve_manifest_type(ManifestType::Auto, ManifestType::HomeAssistant),
        ManifestType::HomeAssistant
    );
    assert_eq!(
        resolve_manifest_type(ManifestType::Go, ManifestType::PythonStandard),
        ManifestType::Go
    );
}

#[test]
fn dependency_check_flags_undeclared_packages() {
    let validator = python_validator("requests\n", vec!["internal_*".to_string()]);
    let files = vec![
        (
            "/proj/app.py".to_string(),
            "import requests\nimport ghostpkg\nimport internal_tools\n".to_string(),
        ),
        ("/proj/other.py".to_string(), "import ghostpkg\n".to_string()),
        ("/proj/main.go".to_string(), "package main\n\nimport \"github.com/x/y\"\n".to_string()),
    ];
    let check = prepare_dependency_check(&validator, &files, 3);
    assert_eq!(check.result.scanned, 3);
    // Go modules are checked against the manifest alone.
    assert_eq!(check.result.violations.len(), 1);
    assert_eq!(check.result.violations[0].severity, Severity::Critical);
    assert_eq!(
        check.result.violations[0].message,
        "Go import \"github.com/x/y\" not found in go.mod"
    );
    // ghostpkg is left for the registry, with both of its locations.
    assert_eq!(check.to_check.len(), 1);
    assert_eq!(check.to_check[0].name, "ghostpkg");
    assert_eq!(check.to_check[0].locations.len(), 2);

    let answers: Vec<(_, Result<PackageStatus, RegistryError>)> = check
        .to_check
        .into_iter()
        .map(|g| (g, Ok(PackageStatus::NotFound)))
        .collect();
    let result = dependency_violations(&validator, check.result, &answers);
    assert_eq!(result.violations.len(), 3);
    assert_eq!(
        result.violations[1].message,
        "package \"ghostpkg\" not found in pypi"
    );
    assert_eq!(result.violations[1].file, "/proj/app.py");
    assert_eq!(result.violations[2].file, "/proj/other.py");
}

#[test]
fn unverifiable_packages_reported_only_when_asked() {
    let validator = python_validator("", vec![]);
    let imports = extract_python_imports("import ghostpkg\n", "a.py");
    let groups = group_imports(&imports);
    let answers = vec![(groups.into_iter().next().unwrap(), Err(RegistryError::Timeout))];
    let result = dependency_violations(&validator, DetectionResult::new(), &answers);
    assert!(result.violations.is_empty());

    let config = DependencyVerificationConfig {
        enabled: true,
        fail_on_timeout: true,
        ..Default::default()
    };
    let strict = DependencyValidator::new(
        ManifestType::NoManifest,
        AnyManifest::NoManifest(NoManifest::new()),
        &config,
        vec![],
    );
    let groups = group_imports(&imports);
    let answers = vec![(groups.into_iter().next().unwrap(), Err(RegistryError::Timeout))];
    let result = dependency_violations(&strict, DetectionResult::new(), &answers);
    assert_eq!(result.violations.len(), 1);
    assert_eq!(
        result.violations[0].message,
        "registry error checking \"ghostpkg\": request timed out"
    );
    assert_eq!(result.violations[0].severity, Severity::Warning);
}

#[test]
fn test_detect_missing_files() {
    let files = vec![
        (
            RequiredFile { path: "exists.txt".to_string(), required: true },
            PathStatus::File,
        ),
        (
            RequiredFile { path: "missing.txt".to_string(), required: true },
            PathStatus::NotFound,
        ),
        (
            RequiredFile { path: "optional.txt".to_string(), required: false },
            PathStatus::NotFound,
        ),
    ];
    let result = detect_missing_files(&files).unwrap();
    assert_eq!(result.violations.len(), 1);
    assert_eq!(result.violations[0].rule, ViolationRule::MissingFile);
    assert!(result.violations[0].message.contains("missing.txt"));
}

#[test]
fn test_detect_directory_as_file() {
    let files = vec![(
        RequiredFile { path: "subdir".to_string(), required: true },
        PathStatus::Directory,
    )];
    let result = detect_missing_files(&files).unwrap();
    assert_eq!(result.violations.len(), 1);
    assert!(result.violations[0].message.contains("is a directory"));
}

#[test]
fn missing_file_check_error_stops() {
    let files = vec![(
        RequiredFile { path: "locked".to_string(), required: true },
        PathStatus::Error("permission denied".to_string()),
    )];
    assert_eq!(
        detect_missing_files(&files).err(),
        Some("checking file locked: permission denied".to_string())
    );
}

fn body(is_empty: bool, is_panic_only: bool) -> FunctionBody {
    FunctionBody {
        span: Span { start_byte: 10, end_byte: 20, start_line: 2, start_col: 1, end_line: 2, end_col: 5 },
        statement_count: 0,
        is_empty,
        is_panic_only,
        is_nil_return_only: false,
        has_only_todo_comment: false,
        text: "{}".to_string(),
        control_flow: ControlFlowInfo::default(),
    }
}

fn function(name: &str, receiver: Option<&str>, b: FunctionBody, line: usize) -> Declaration {
    Declaration {
        name: name.to_string(),
        kind: if receiver.is_some() { DeclarationKind::Method } else { DeclarationKind::Function },
        span: Span { start_byte: line * 10, end_byte: line * 10 + 5, start_line: line, start_col: 1, end_line: line, end_col: 5 },
        receiver: receiver.map(|r| r.to_string()),
        body: Some(b),
    }
}

fn go_facts(path: &str, decls: Vec<Declaration>) -> FileFacts {
    FileFacts {
        path: path.to_string(),
        language: "go".to_string(),
        package: Some("main".to_string()),
        declarations: decls,
        imports: vec![],
        has_parse_errors: false,
        parse_error: None,
    }
}

#[test]
fn stub_functions_detected_and_filtered() {
    let inputs = vec![
        StubInput {
            path: "pkg/server.go".to_string(),
            facts: Some(go_facts(
                "pkg/server.go",
                vec![
                    function("Serve", None, body(true, false), 3),
                    function("main", None, body(true, false), 5),
                    function("Destroy", Some("REST"), body(true, false), 7),
                    function("Fail", None, body(false, true), 9),
                ],
            )),
        },
        StubInput { path: "notes.txt".to_string(), facts: None },
        StubInput {
            path: "pkg/server_test.go".to_string(),
            facts: Some(go_facts("pkg/server_test.go", vec![function("Helper", None, body(true, false), 1)])),
        },
    ];
    let result = detect_stub_functions(&inputs, Some(&StubDetectionConfig::default_enabled()));
    assert_eq!(result.scanned, 2);
    let mut messages: Vec<String> = result.violations.iter().map(|v| v.message.clone()).collect();
    messages.sort();
    assert_eq!(
        messages,
        vec![
            "stub function \"Fail\": only contains panic/unimplemented/todo! call".to_string(),
            "stub function \"Serve\": empty function body".to_string(),
        ]
    );
    let fail = result.violations.iter().find(|v| v.message.contains("Fail")).unwrap();
    assert_eq!(fail.severity, Severity::Error);
    assert_eq!(fail.line, 9);
    assert_eq!(fail.rule, ViolationRule::StubFunction);
}

#[test]
fn stub_skip_rules() {
    assert!(should_skip_stub_detection("pkg/testing/util.go", "Do"));
    assert!(should_skip_stub_detection("pkg/fake_client.go", "Do"));
    assert!(should_skip_stub_detection("pkg/a.go", "mockThing"));
    assert!(!should_skip_stub_detection("pkg/a.go", "Do"));
    assert!(is_legitimate_noop("Canonicalize", "pkg/a.go", &HollowBodyKind::Empty));
    assert!(is_legitimate_noop("Strategy.PrepareForUpdate", "pkg/registry/x.go", &HollowBodyKind::Empty));
    assert!(!is_legitimate_noop("Canonicalize", "pkg/a.go", &HollowBodyKind::PanicOnly));
    assert_eq!(last_path_segment("a::b::c"), "c");
    assert_eq!(last_path_segment("plain"), "plain");
}

#[test]
fn runner_checks_one_file_and_finishes() {
    let contract = Contract {
        forbidden_patterns: vec![ForbiddenPattern {
            pattern: "TODO".to_string(),
            description: None,
        }],
        hollow_todos: Some(HollowTodosConfig { enabled: false }),
        ..Default::default()
    };
    let runner = Runner::new("/proj").skip_registry_check(true);
    assert!(runner.skips_registry_check());
    assert_eq!(runner.base_dir(), "/proj");
    let content = "package main\n\n// hollowcheck:ignore-next-line forbidden_pattern - Expected\n// TODO: implement this\nfunc main() {}\n";
    let file = GodFileInput {
        path: "main.go".to_string(),
        content: content.to_string(),
        symbols: None,
    };
    let result = runner.check_file(&contract, &god_config_from(&contract), file);
    assert_eq!(result.violations.len(), 1);
    assert!(result.violations[0].message.contains("TODO"));

    let suppressions = parse_suppressions("main.go", content);
    let finished = finish_run(result, &suppressions);
    assert_eq!(finished.violations.len(), 0);
    assert_eq!(finished.suppressed.len(), 1);
}

#[test]
fn god_config_uses_defaults_for_open_limits() {
    let mut contract = Contract::default();
    assert!(god_config_from(&contract).is_none());
    contract.god_objects = Some(hollowcheck::contract::GodObjectContractConfig {
        enabled: true,
        max_file_lines: Some(10),
        max_function_lines: None,
        max_function_complexity: None,
        max_functions_per_file: None,
        max_class_methods: None,
    });
    let cfg = god_config_from(&contract).unwrap();
    let d = GodObjectConfig::default();
    assert_eq!(cfg.max_file_lines, 10);
    assert_eq!(cfg.max_function_lines, d.max_function_lines);
    assert_eq!(cfg.max_class_methods, d.max_class_methods);
}
