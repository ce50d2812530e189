use hollowcheck::analysis::languages::go::GoAnalyzer;
use hollowcheck::contract::{
    ComplexityRequirement, Contract, ForbiddenPattern, HollowTodosConfig, MockSignature,
    MockSignaturesConfig, RequiredFile, RequiredSymbol, SymbolKind,
};
use hollowcheck::detect::complexity::{detect_low_complexity, AnalyzedFile, FileAnalysis};
use hollowcheck::detect::files::PathStatus;
use hollowcheck::detect::god_objects::{detect_god_objects, god_symbols, GodFileInput, GodObjectConfig};
use hollowcheck::detect::mocks::detect_mock_data;
use hollowcheck::detect::patterns::detect_forbidden_patterns;
use hollowcheck::detect::runner::{RunInputs, Runner};
use hollowcheck::detect::suppress::parse_suppressions;
use hollowcheck::detect::symbols::{detect_missing_symbols, extract_symbols_from_facts};
use hollowcheck::detect::todos::detect_hollow_todos;
use hollowcheck::detect::types::{DetectionResult, Severity, ViolationRule};
use hollowcheck::parser::languages::go;

fn one_file(path: &str, content: &str) -> Vec<(String, String)> {
    vec![(path.to_string(), content.to_string())]
}

fn signature(pattern: &str, description: Option<&str>) -> MockSignature {
    MockSignature {
        pattern: pattern.to_string(),
        description: description.map(|d| d.to_string()),
    }
}

fn go_input(path: &str, content: &str) -> GodFileInput {
    GodFileInput {
        path: path.to_string(),
        content: content.to_string(),
        symbols: Some(go::new_parser().parse_symbols_with_complexity(content)),
    }
}

fn analyzed_go(path: &str, source: &str) -> AnalyzedFile {
    AnalyzedFile {
        rel_path: path.to_string(),
        analysis: FileAnalysis::Analyzed(GoAnalyzer::new().extract_facts(path, source).unwrap()),
    }
}

#[test]
fn test_detect_mock_data() {
    let files = one_file(
        "main.go",
        "\nvar apiUrl = \"https://example.com/api\"\nvar userId = \"user-12345\"\n",
    );
    let cfg = MockSignaturesConfig {
        patterns: vec![
            signature(r"example\.com", Some("Mock domain")),
            signature(r"user-\d+", Some("Mock user ID")),
        ],
        skip_test_files: None,
        test_file_severity: None,
    };
    let result = detect_mock_data(&files, Some(&cfg)).unwrap();
    assert_eq!(result.violations.len(), 2);
    assert!(result.violations.iter().all(|v| v.rule == ViolationRule::MockData));
}

#[test]
fn test_skip_test_files() {
    let files = one_file("main_test.go", "\nvar testUrl = \"https://example.com/api\"\n");
    let cfg = MockSignaturesConfig {
        patterns: vec![signature(r"example\.com", None)],
        skip_test_files: Some(true),
        test_file_severity: None,
    };
    let result = detect_mock_data(&files, Some(&cfg)).unwrap();
    assert_eq!(result.violations.len(), 0);
    assert_eq!(result.scanned, 1);
}

#[test]
fn test_test_file_with_severity() {
    let files = one_file("main_test.go", "\nvar testUrl = \"https://example.com/api\"\n");
    let cfg = MockSignaturesConfig {
        patterns: vec![signature(r"example\.com", None)],
        skip_test_files: Some(false),
        test_file_severity: Some("info".to_string()),
    };
    let result = detect_mock_data(&files, Some(&cfg)).unwrap();
    assert_eq!(result.violations.len(), 1);
    assert_eq!(result.violations[0].severity, Severity::Info);
}

#[test]
fn test_skip_numeric_range_constants() {
    let content = r#"
# Oracle NUMBER precision limits
integer_field_ranges = {
    "small": (-999999999, 999999999),
    "large": (-999999999999999999999999999999999999999, 999999999999999999999999999999999999999),
}

decimal_field_ranges = {
    "precision_38": (-99999999999999999999999999999999999999, 99999999999999999999999999999999999999),
}

MAX_ORACLE_NUMBER = 999999999999999999999999999999999999999
MIN_ORACLE_NUMBER = -999999999999999999999999999999999999999
"#;
    let files = one_file("schema.py", content);
    let cfg = MockSignaturesConfig {
        patterns: vec![signature(r"9{10,}", Some("Suspicious repeated digits"))],
        skip_test_files: None,
        test_file_severity: None,
    };
    let result = detect_mock_data(&files, Some(&cfg)).unwrap();
    assert_eq!(result.violations.len(), 0, "Should not flag numeric range constants");
}

#[test]
fn test_skip_config_dictionaries() {
    let content = r#"
FIELD_LIMITS = {
    "max_value": 999999999999,
    "min_value": -999999999999,
}
"#;
    let files = one_file("config.py", content);
    let cfg = MockSignaturesConfig {
        patterns: vec![signature(r"9{10,}", None)],
        skip_test_files: None,
        test_file_severity: None,
    };
    let result = detect_mock_data(&files, Some(&cfg)).unwrap();
    assert_eq!(result.violations.len(), 0, "Should not flag config dictionary values");
}

#[test]
fn test_still_flags_actual_mock_data() {
    let content = r#"
func GetUser() User {
    return User{
        Email: "test@example.com",
        Phone: "555-1234",
    }
}
"#;
    let files = one_file("handler.go", content);
    let cfg = MockSignaturesConfig {
        patterns: vec![
            signature(r"example\.com", Some("Mock domain")),
            signature(r"555-\d{4}", Some("Mock phone")),
        ],
        skip_test_files: None,
        test_file_severity: None,
    };
    let result = detect_mock_data(&files, Some(&cfg)).unwrap();
    assert_eq!(result.violations.len(), 2, "Should flag actual mock data");
}

#[test]
fn mock_signature_that_does_not_compile_is_reported() {
    let files = one_file("main.go", "var a = 1\n");
    let cfg = MockSignaturesConfig {
        patterns: vec![signature("(unclosed", None)],
        skip_test_files: None,
        test_file_severity: None,
    };
    let err = detect_mock_data(&files, Some(&cfg)).unwrap_err();
    assert!(err.starts_with("compiling mock signature \"(unclosed\": "));
}

#[test]
fn test_detect_forbidden_patterns() {
    let todo_marker = "TODO";
    let content = format!(
        "\nfunc main() {{\n    // {}: implement this\n    fmt.Println(\"Hello\")\n}}\n",
        todo_marker
    );
    let files = one_file("test.go", &content);
    let patterns = vec![ForbiddenPattern {
        pattern: todo_marker.to_string(),
        description: Some("Remove TODO comments".to_string()),
    }];
    let result = detect_forbidden_patterns(&files, &patterns).unwrap();
    assert_eq!(result.violations.len(), 1);
    assert_eq!(result.violations[0].rule, ViolationRule::ForbiddenPattern);
    assert_eq!(result.violations[0].line, 3);
}

#[test]
fn test_skip_pattern_in_string() {
    let todo_marker = "TODO";
    let content = format!(
        "\nvar msg = \"{}: this is in a string\"\n// {}: this is a real todo\n",
        todo_marker, todo_marker
    );
    let files = one_file("test.go", &content);
    let patterns = vec![ForbiddenPattern {
        pattern: todo_marker.to_string(),
        description: None,
    }];
    let result = detect_forbidden_patterns(&files, &patterns).unwrap();
    assert_eq!(result.violations.len(), 1);
    assert_eq!(result.violations[0].line, 3);
}

#[test]
fn forbidden_pattern_that_does_not_compile_is_reported() {
    let files = one_file("test.go", "x\n");
    let patterns = vec![ForbiddenPattern {
        pattern: "[".to_string(),
        description: None,
    }];
    let err = detect_forbidden_patterns(&files, &patterns).unwrap_err();
    assert!(err.starts_with("compiling pattern \"[\": "));
}

#[test]
fn test_detect_hollow_todos() {
    let content = r#"
fn main() {
    // TODO: implement this function
    let x = 1;

    // TODO: Use io_uring for zero-copy when kernel >= 5.19
    do_something();

    // FIXME
    broken_code();

    // TODO: Optimize with batching per #456
    process();
}
"#;
    let result = detect_hollow_todos(&one_file("test.rs", content));
    assert_eq!(result.violations.len(), 2);
    assert!(result.violations.iter().any(|v| v.line == 3));
    assert!(result.violations.iter().any(|v| v.line == 9));
}

#[test]
fn test_skip_string_content() {
    let content = r#"
fn main() {
    let msg = "TODO: implement this";
    println!("FIXME: fix this");
}
"#;
    let result = detect_hollow_todos(&one_file("test.rs", content));
    assert_eq!(result.violations.len(), 0);
}

#[test]
fn test_god_file_line_count() {
    let lines: String = (0..600).map(|i| format!("// line {}\n", i)).collect();
    let content = format!("package main\n{}", lines);
    let config = GodObjectConfig {
        max_file_lines: 500,
        ..Default::default()
    };
    let result = detect_god_objects(&[go_input("big.go", &content)], &config).unwrap();
    assert!(
        result
            .violations
            .iter()
            .any(|v| v.rule == ViolationRule::GodFile && v.message.contains("lines")),
        "Expected god file violation for line count"
    );
}

#[test]
fn test_god_file_function_count() {
    let mut content = String::from("package main\n\n");
    for i in 0..25 {
        content.push_str(&format!("func func{}() {{}}\n\n", i));
    }
    let config = GodObjectConfig {
        max_functions_per_file: 20,
        ..Default::default()
    };
    let result = detect_god_objects(&[go_input("many_funcs.go", &content)], &config).unwrap();
    assert!(
        result
            .violations
            .iter()
            .any(|v| v.rule == ViolationRule::GodFile && v.message.contains("functions")),
        "Expected god file violation for function count"
    );
}

#[test]
fn test_god_function_complexity() {
    let content = r#"package main

func complexFunc(x int) int {
    if x > 0 {
        if x > 10 {
            if x > 20 {
                if x > 30 {
                    if x > 40 {
                        for i := 0; i < x; i++ {
                            if i%2 == 0 {
                                for j := 0; j < i; j++ {
                                    if j > 5 {
                                        switch j {
                                        case 1:
                                            return 1
                                        case 2:
                                            return 2
                                        case 3:
                                            return 3
                                        default:
                                            return 4
                                        }
                                    }
                                }
                            }
                        }
                    }
                }
            }
        }
    }
    return 0
}
"#;
    let config = GodObjectConfig {
        max_function_complexity: 5,
        ..Default::default()
    };
    let result = detect_god_objects(&[go_input("complex.go", content)], &config).unwrap();
    assert!(
        result
            .violations
            .iter()
            .any(|v| v.rule == ViolationRule::GodFunction && v.message.contains("complexity")),
        "Expected god function violation for complexity"
    );
}

#[test]
fn test_god_function_length() {
    let mut func_body = String::new();
    for i in 0..60 {
        func_body.push_str(&format!("    x := {}\n", i));
    }
    let content = format!("package main\n\nfunc longFunc() {{\n{}}}\n", func_body);
    let config = GodObjectConfig {
        max_function_lines: 50,
        ..Default::default()
    };
    let result = detect_god_objects(&[go_input("long_func.go", &content)], &config).unwrap();
    assert!(
        result
            .violations
            .iter()
            .any(|v| v.rule == ViolationRule::GodFunction && v.message.contains("lines")),
        "Expected god function violation for line count"
    );
}

#[test]
fn test_clean_file_no_violations() {
    let content = r#"package main

func main() {
    fmt.Println("Hello")
}

func helper() int {
    return 42
}
"#;
    let config = GodObjectConfig::default();
    let result = detect_god_objects(&[go_input("clean.go", content)], &config).unwrap();
    assert!(result.violations.is_empty(), "Expected no violations for clean file");
    assert_eq!(result.scanned, 1);
}

#[test]
fn test_extract_symbols_from_facts() {
    let source = r#"
package main

const Version = "1.0"

type Handler struct{}

func (h *Handler) Handle() {}

func main() {}
"#;
    let facts = GoAnalyzer::new().extract_facts("main.go", source).unwrap();
    let symbols = extract_symbols_from_facts(&facts);
    assert!(symbols.iter().any(|s| s.name == "Version" && s.kind == SymbolKind::Const));
    assert!(symbols.iter().any(|s| s.name == "Handler" && s.kind == SymbolKind::Type));
    assert!(symbols.iter().any(|s| s.name == "Handle" && s.kind == SymbolKind::Method));
    assert!(symbols.iter().any(|s| s.name == "main" && s.kind == SymbolKind::Function));
}

#[test]
fn test_detect_missing_symbols() {
    let files = vec![analyzed_go("main.go", "\npackage main\n\nfunc main() {}\n")];
    let symbols = vec![
        RequiredSymbol {
            name: "main".to_string(),
            kind: SymbolKind::Function,
            file: "main.go".to_string(),
        },
        RequiredSymbol {
            name: "Handler".to_string(),
            kind: SymbolKind::Type,
            file: "main.go".to_string(),
        },
    ];
    let result = detect_missing_symbols(&files, &symbols);
    assert_eq!(result.violations.len(), 1);
    assert!(result.violations[0].message.contains("Handler"));
}

#[test]
fn symbols_test_unsupported_extension_fails() {
    let files = vec![AnalyzedFile {
        rel_path: "main.xyz".to_string(),
        analysis: FileAnalysis::Unsupported,
    }];
    let symbols = vec![RequiredSymbol {
        name: "SomeFunc".to_string(),
        kind: SymbolKind::Function,
        file: "main.xyz".to_string(),
    }];
    let result = detect_missing_symbols(&files, &symbols);
    assert_eq!(result.violations.len(), 1);
    assert!(result.violations[0].message.contains("no analyzer for file extension"));
    assert_eq!(result.violations[0].severity, Severity::Critical);
}

#[test]
fn complexity_test_unsupported_extension_fails() {
    let files = vec![AnalyzedFile {
        rel_path: "main.xyz".to_string(),
        analysis: FileAnalysis::Unsupported,
    }];
    let requirements = vec![ComplexityRequirement {
        symbol: "SomeFunc".to_string(),
        file: Some("main.xyz".to_string()),
        min_complexity: 5,
    }];
    let result = detect_low_complexity(&files, &requirements);
    assert_eq!(result.violations.len(), 1);
    assert!(result.violations[0].message.contains("no analyzer for file extension"));
}

#[test]
fn test_complexity_symbol_not_found() {
    let files = vec![analyzed_go("main.go", "\npackage main\n\nfunc main() {}\n")];
    let requirements = vec![ComplexityRequirement {
        symbol: "nonexistent".to_string(),
        file: Some("main.go".to_string()),
        min_complexity: 5,
    }];
    let result = detect_low_complexity(&files, &requirements);
    assert_eq!(result.violations.len(), 1);
    assert!(result.violations[0].message.contains("not found"));
}

fn run_one(contract: &Contract, path: &str, content: &str, required: Vec<RequiredFile>) -> DetectionResult {
    let runner = Runner::new("/proj").skip_registry_check(true);
    let statuses: Vec<(RequiredFile, PathStatus)> =
        required.into_iter().map(|f| (f, PathStatus::File)).collect();
    let inputs = RunInputs {
        required: statuses,
        files: vec![GodFileInput {
            path: path.to_string(),
            content: content.to_string(),
            symbols: None,
        }],
        analyzed: vec![analyzed_go(path, content)],
        stubs: Vec::new(),
        dependencies: None,
        suppressions: parse_suppressions(path, content),
    };
    runner.run(contract, inputs).unwrap()
}

#[test]
fn test_runner_basic() {
    let todo_marker = "TODO";
    let content = format!("\npackage main\n\n// {}: implement this\nfunc main() {{}}\n", todo_marker);
    let required = vec![RequiredFile {
        path: "main.go".to_string(),
        required: true,
    }];
    let contract = Contract {
        required_files: required.clone(),
        forbidden_patterns: vec![ForbiddenPattern {
            pattern: todo_marker.to_string(),
            description: Some("Remove TODOs".to_string()),
        }],
        hollow_todos: Some(HollowTodosConfig { enabled: false }),
        ..Default::default()
    };
    let result = run_one(&contract, "main.go", &content, required);
    assert_eq!(result.violations.len(), 1);
    assert!(result.violations[0].message.contains(todo_marker));
}

#[test]
fn test_runner_with_suppression() {
    let todo_marker = "TODO";
    let content = format!(
        "\npackage main\n\n// hollowcheck:ignore-next-line forbidden_pattern - Expected\n// {}: implement this\nfunc main() {{}}\n",
        todo_marker
    );
    let contract = Contract {
        forbidden_patterns: vec![ForbiddenPattern {
            pattern: todo_marker.to_string(),
            description: None,
        }],
        hollow_todos: Some(HollowTodosConfig { enabled: false }),
        ..Default::default()
    };
    let result = run_one(&contract, "main.go", &content, Vec::new());
    assert_eq!(result.violations.len(), 0);
    assert_eq!(result.suppressed.len(), 1);
}

#[test]
fn runner_reports_missing_required_file_and_stops_on_check_error() {
    let contract = Contract {
        hollow_todos: Some(HollowTodosConfig { enabled: false }),
        ..Default::default()
    };
    let runner = Runner::new("/proj");
    let missing = RunInputs {
        required: vec![(
            RequiredFile {
                path: "README.md".to_string(),
                required: true,
            },
            PathStatus::NotFound,
        )],
        files: Vec::new(),
        analyzed: Vec::new(),
        stubs: Vec::new(),
        dependencies: None,
        suppressions: Vec::new(),
    };
    let result = runner.run(&contract, missing).unwrap();
    assert_eq!(result.violations.len(), 1);
    assert_eq!(result.violations[0].rule, ViolationRule::MissingFile);

    let broken = RunInputs {
        required: vec![(
            RequiredFile {
                path: "README.md".to_string(),
                required: true,
            },
            PathStatus::Error("denied".to_string()),
        )],
        files: Vec::new(),
        analyzed: Vec::new(),
        stubs: Vec::new(),
        dependencies: None,
        suppressions: Vec::new(),
    };
    assert_eq!(runner.run(&contract, broken).unwrap_err(), "checking file README.md: denied");
}

#[test]
fn runner_skips_dependency_result_when_asked() {
    let contract = Contract {
        hollow_todos: Some(HollowTodosConfig { enabled: false }),
        ..Default::default()
    };
    let mut deps = DetectionResult::new();
    deps.violations.push(hollowcheck::detect::types::Violation {
        rule: ViolationRule::HallucinatedDependency,
        message: "package 'nope' not found".to_string(),
        file: "main.py".to_string(),
        line: 1,
        severity: Severity::Critical,
    });
    let make = |d: Option<DetectionResult>| RunInputs {
        required: Vec::new(),
        files: Vec::new(),
        analyzed: Vec::new(),
        stubs: Vec::new(),
        dependencies: d,
        suppressions: Vec::new(),
    };
    let with = Runner::new("/proj").run(&contract, make(Some(deps.clone()))).unwrap();
    assert_eq!(with.violations.len(), 1);
    let without = Runner::new("/proj")
        .skip_registry_check(true)
        .run(&contract, make(Some(deps)))
        .unwrap();
    assert_eq!(without.violations.len(), 0);
}

#[test]
fn empty_test_file_severity_skips_test_files() {
    let cfg = MockSignaturesConfig {
        patterns: vec![signature(r"example\.com", None)],
        skip_test_files: Some(false),
        test_file_severity: Some(String::new()),
    };
    assert_eq!(cfg.get_test_file_severity(), None);
    let files = one_file("main_test.go", "\nvar testUrl = \"https://example.com/api\"\n");
    let result = detect_mock_data(&files, Some(&cfg)).unwrap();
    assert_eq!(result.violations.len(), 0);
    assert_eq!(result.scanned, 1);
}

#[test]
fn god_check_fails_when_needed_symbols_cannot_be_parsed() {
    let lines: String = (0..60).map(|i| format!("// line {}\n", i)).collect();
    let config = GodObjectConfig {
        max_function_lines: 50,
        ..Default::default()
    };
    let broken = GodFileInput {
        path: "big.go".to_string(),
        content: lines.clone(),
        symbols: Some(Err("invalid complexity query".to_string())),
    };
    assert_eq!(
        detect_god_objects(&[broken], &config).unwrap_err(),
        "invalid complexity query"
    );
    // A short file does not need its symbols, so the failed parse is not looked at.
    let short = GodFileInput {
        path: "small.go".to_string(),
        content: "package main\n".to_string(),
        symbols: Some(Err("invalid complexity query".to_string())),
    };
    assert!(detect_god_objects(&[short], &config).unwrap().violations.is_empty());
}

#[test]
fn god_symbols_parses_only_what_is_needed() {
    let config = GodObjectConfig {
        max_function_lines: 2,
        max_functions_per_file: 2,
        ..Default::default()
    };
    let content = "package main\n\nfunc a() {}\n\nfunc b() {}\n";
    let syms = god_symbols("main.go", content, &config).unwrap().unwrap();
    assert_eq!(syms.len(), 2);
    assert!(god_symbols("notes.txt", content, &config).is_none());
    assert!(god_symbols("main.go", "package main\n", &GodObjectConfig::default()).is_none());
}

#[test]
fn runner_drops_god_results_of_a_file_whose_parse_failed() {
    let contract = Contract {
        hollow_todos: Some(HollowTodosConfig { enabled: false }),
        god_objects: Some(hollowcheck::contract::GodObjectContractConfig {
            enabled: true,
            max_file_lines: Some(10),
            max_function_lines: None,
            max_function_complexity: None,
            max_functions_per_file: None,
            max_class_methods: None,
        }),
        ..Default::default()
    };
    let content: String = (0..120).map(|i| format!("// line {}\n", i)).collect();
    let make = |symbols: Option<Result<Vec<hollowcheck::parser::SymbolWithComplexity>, String>>| RunInputs {
        required: Vec::new(),
        files: vec![GodFileInput {
            path: "big.go".to_string(),
            content: content.clone(),
            symbols,
        }],
        analyzed: Vec::new(),
        stubs: Vec::new(),
        dependencies: None,
        suppressions: Vec::new(),
    };
    let runner = Runner::new("/proj");
    let ok = runner.run(&contract, make(Some(Ok(Vec::new())))).unwrap();
    assert_eq!(ok.violations.len(), 1);
    assert_eq!(ok.violations[0].rule, ViolationRule::GodFile);
    let failed = runner.run(&contract, make(Some(Err("bad".to_string())))).unwrap();
    assert!(failed.violations.is_empty());
}
