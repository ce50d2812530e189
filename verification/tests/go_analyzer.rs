use hollowcheck::analysis::facts::{DeclarationKind, FileFacts};
use hollowcheck::analysis::languages::go::GoAnalyzer;
use hollowcheck::analysis::languages::{
    analyzer_language, registered_extensions, registered_languages,
};
use hollowcheck::analysis::context::AnalysisContext;
use hollowcheck::analysis::syntax::go_tree;
use hollowcheck::contract::ComplexityRequirement;
use hollowcheck::detect::complexity::{
    detect_low_complexity, extract_complexities_from_facts, AnalyzedFile, FileAnalysis,
};
use hollowcheck::detect::stubs::{detect_stub_functions, StubDetectionConfig, StubInput};
use hollowcheck::detect::types::DetectionResult;

fn go_facts(source: &str) -> FileFacts {
    GoAnalyzer::new().extract_facts("test.go", source).unwrap()
}

#[test]
fn test_extract_package() {
    let facts = go_facts("package main\n");
    assert_eq!(facts.package, Some("main".to_string()));
}

#[test]
fn go_test_extract_functions() {
    let source = r#"
package main

func main() {
    println("hello")
}

func helper(x int) int {
    return x + 1
}
"#;
    let facts = go_facts(source);

    assert_eq!(facts.declarations.len(), 2);
    assert!(facts
        .declarations
        .iter()
        .any(|d| d.name == "main" && d.kind == DeclarationKind::Function));
    assert!(facts
        .declarations
        .iter()
        .any(|d| d.name == "helper" && d.kind == DeclarationKind::Function));
}

#[test]
fn go_test_extract_methods() {
    let source = r#"
package main

type Config struct {
    Name string
}

func (c *Config) Validate() error {
    return nil
}

func (c Config) String() string {
    return c.Name
}
"#;
    let facts = go_facts(source);

    let methods: Vec<_> = facts
        .declarations
        .iter()
        .filter(|d| d.kind == DeclarationKind::Method)
        .collect();

    assert_eq!(methods.len(), 2);

    let validate = methods.iter().find(|d| d.name == "Validate").unwrap();
    assert_eq!(validate.receiver, Some("Config".to_string()));

    let string_method = methods.iter().find(|d| d.name == "String").unwrap();
    assert_eq!(string_method.receiver, Some("Config".to_string()));
}

#[test]
fn go_test_extract_types() {
    let source = r#"
package main

type Handler struct {
    name string
}

type Service interface {
    Run() error
}
"#;
    let facts = go_facts(source);

    let types: Vec<_> = facts
        .declarations
        .iter()
        .filter(|d| {
            matches!(
                d.kind,
                DeclarationKind::Type | DeclarationKind::Struct | DeclarationKind::Interface
            )
        })
        .collect();

    // Handler (struct) and Service (interface)
    assert_eq!(types.len(), 2);
    assert!(types
        .iter()
        .any(|d| d.name == "Handler" && d.kind == DeclarationKind::Struct));
    assert!(types
        .iter()
        .any(|d| d.name == "Service" && d.kind == DeclarationKind::Interface));
}

#[test]
fn go_test_extract_constants() {
    let source = r#"
package main

const Version = "1.0.0"

const (
    MaxRetries = 3
    Timeout = 30
)
"#;
    let facts = go_facts(source);

    let consts: Vec<_> = facts
        .declarations
        .iter()
        .filter(|d| d.kind == DeclarationKind::Const)
        .collect();

    assert_eq!(consts.len(), 3);
    assert!(consts.iter().any(|d| d.name == "Version"));
    assert!(consts.iter().any(|d| d.name == "MaxRetries"));
    assert!(consts.iter().any(|d| d.name == "Timeout"));
}

#[test]
fn go_test_extract_imports() {
    let source = r#"
package main

import (
    "fmt"
    "os"
    log "github.com/sirupsen/logrus"
)
"#;
    let facts = go_facts(source);

    assert_eq!(facts.imports.len(), 3);
    assert!(facts
        .imports
        .iter()
        .any(|i| i.path == "fmt" && i.alias.is_none()));
    assert!(facts.imports.iter().any(|i| i.path == "os"));
    assert!(facts.imports.iter().any(
        |i| i.path == "github.com/sirupsen/logrus" && i.alias == Some("log".to_string())
    ));
}

#[test]
fn go_test_complexity_simple() {
    let source = r#"
package main

func simple() int {
    return 42
}
"#;
    let facts = go_facts(source);

    let func = facts.find_declaration("simple").unwrap();
    let body = func.body.as_ref().unwrap();
    assert_eq!(body.control_flow.cyclomatic_complexity(), 1);
}

#[test]
fn go_test_complexity_with_branches() {
    let source = r#"
package main

func branchy(x int) int {
    if x > 0 {
        if x > 10 {
            return 100
        }
        return 10
    }
    return 0
}
"#;
    let facts = go_facts(source);

    let func = facts.find_declaration("branchy").unwrap();
    let body = func.body.as_ref().unwrap();
    // 1 base + 2 if statements = 3
    assert_eq!(body.control_flow.cyclomatic_complexity(), 3);
}

#[test]
fn test_complexity_with_loops_and_logic() {
    let source = r#"
package main

func complex(items []int) int {
    sum := 0
    for _, item := range items {
        if item > 0 && item < 100 {
            sum += item
        }
    }
    return sum
}
"#;
    let facts = go_facts(source);

    let func = facts.find_declaration("complex").unwrap();
    let body = func.body.as_ref().unwrap();
    // 1 base + 1 for + 1 if + 1 && = 4
    assert_eq!(body.control_flow.cyclomatic_complexity(), 4);
}

#[test]
fn go_test_stub_detection_empty() {
    let source = r#"
package main

func empty() {
}
"#;
    let facts = go_facts(source);

    let func = facts.find_declaration("empty").unwrap();
    let body = func.body.as_ref().unwrap();
    assert!(body.is_empty);
}

#[test]
fn test_stub_detection_panic() {
    let source = r#"
package main

func notImplemented() {
    panic("not implemented")
}
"#;
    let facts = go_facts(source);

    let func = facts.find_declaration("notImplemented").unwrap();
    let body = func.body.as_ref().unwrap();
    assert!(body.is_panic_only);
}

#[test]
fn test_stub_detection_nil_return() {
    let source = r#"
package main

func stubbed() error {
    return nil
}
"#;
    let facts = go_facts(source);

    let func = facts.find_declaration("stubbed").unwrap();
    let body = func.body.as_ref().unwrap();
    assert!(body.is_nil_return_only);
}

#[test]
fn go_test_stub_detection_todo_comment() {
    let source = r#"
package main

func placeholder() {
    // TODO: implement this
}
"#;
    let facts = go_facts(source);

    let func = facts.find_declaration("placeholder").unwrap();
    let body = func.body.as_ref().unwrap();
    assert!(body.has_only_todo_comment);
}

#[test]
fn test_not_stub_real_implementation() {
    let source = r#"
package main

func realFunc(x int) int {
    if x > 0 {
        return x * 2
    }
    return 0
}
"#;
    let facts = go_facts(source);

    let func = facts.find_declaration("realFunc").unwrap();
    let body = func.body.as_ref().unwrap();
    assert!(!body.is_empty);
    assert!(!body.is_panic_only);
    assert!(!body.is_nil_return_only);
    assert!(!body.has_only_todo_comment);
}

#[test]
fn go_declarations_are_sorted_by_position() {
    let source = "package main\n\nfunc b() {}\n\nfunc a() {}\n";
    let facts = go_facts(source);
    let names: Vec<&str> = facts.declarations.iter().map(|d| d.name.as_str()).collect();
    assert_eq!(names, vec!["b", "a"]);
    assert!(facts.declarations[0].span.start_byte < facts.declarations[1].span.start_byte);
    assert_eq!(facts.language, "go");
    assert_eq!(facts.path, "test.go");
}

#[test]
fn go_spans_count_lines_and_columns_from_one() {
    let source = "package main\n\nfunc f() {\n}\n";
    let facts = go_facts(source);
    let f = facts.find_declaration("f").unwrap();
    assert_eq!(f.span.start_line, 3);
    assert_eq!(f.span.start_col, 1);
    assert_eq!(f.span.end_line, 4);
    assert_eq!(f.span.end_col, 2);
    assert_eq!(f.span.start_byte, 14);
    let body = f.body.as_ref().unwrap();
    assert_eq!(body.text, "{\n}");
    assert_eq!(body.span.start_col, 10);
}

#[test]
fn go_imports_are_sorted_and_kept_once() {
    let source = "package main\n\nimport \"os\"\nimport \"fmt\"\nimport \"os\"\n";
    let facts = go_facts(source);
    let paths: Vec<&str> = facts.imports.iter().map(|i| i.path.as_str()).collect();
    assert_eq!(paths, vec!["fmt", "os"]);
}

#[test]
fn go_syntax_errors_are_reported() {
    let facts = go_facts("package main\n\nfunc broken( {\n");
    assert!(facts.has_parse_errors);
    assert_eq!(
        facts.parse_error,
        Some("Source contains syntax errors".to_string())
    );
    let clean = go_facts("package main\n");
    assert!(!clean.has_parse_errors);
    assert_eq!(clean.parse_error, None);
}

#[test]
fn go_tree_text_handles_multibyte_characters() {
    let source = "package main\n\n// héllo\nfunc f() {}\n";
    let tree = go_tree(source).unwrap();
    let comment = tree.iter().find(|n| n.kind == "comment").unwrap();
    assert_eq!(comment.text, "// héllo");
    assert_eq!(comment.start_row, 2);
    let func = tree.iter().find(|n| n.kind == "function_declaration").unwrap();
    assert_eq!(func.start_row, 3);
    assert_eq!(func.start_column, 0);
    assert_eq!(tree[0].depth, 0);
}

#[test]
fn go_nil_return_with_several_values() {
    let source = "package main\n\nfunc f() (error, error) {\n    return nil, nil\n}\n\nfunc g() (int, error) {\n    return 0, nil\n}\n";
    let facts = go_facts(source);
    assert!(facts.find_declaration("f").unwrap().body.as_ref().unwrap().is_nil_return_only);
    assert!(!facts.find_declaration("g").unwrap().body.as_ref().unwrap().is_nil_return_only);
}

#[test]
fn analyzer_languages_by_extension() {
    assert_eq!(analyzer_language("go"), Some("go"));
    assert_eq!(analyzer_language("tsx"), Some("typescript"));
    assert_eq!(analyzer_language("h"), Some("c"));
    assert_eq!(analyzer_language("txt"), None);
    let langs = registered_languages();
    assert_eq!(langs.len(), 10);
    for ext in registered_extensions() {
        let lang = analyzer_language(&ext).unwrap();
        assert!(langs.iter().any(|l| l == lang));
    }
}

fn stubs_in(path: &str, source: &str) -> DetectionResult {
    let facts = GoAnalyzer::new().extract_facts(path, source).unwrap();
    let config = StubDetectionConfig::default_enabled();
    let files = vec![StubInput {
        path: path.to_string(),
        facts: Some(facts),
    }];
    detect_stub_functions(&files, Some(&config))
}

#[test]
fn test_detect_empty_go_function() {
    let result = stubs_in(
        "test.go",
        r#"
package main

func empty() {
}

func notEmpty() {
    println("hello")
}
"#,
    );

    assert_eq!(result.violations.len(), 1);
    assert!(result.violations[0].message.contains("empty"));
    assert!(result.violations[0].message.contains("empty function body"));
}

#[test]
fn test_detect_panic_go_function() {
    let result = stubs_in(
        "test.go",
        r#"
package main

func notImplemented() {
    panic("not implemented")
}
"#,
    );

    assert_eq!(result.violations.len(), 1);
    assert!(result.violations[0].message.contains("panic"));
}

#[test]
fn test_detect_todo_comment_go_function() {
    let result = stubs_in(
        "test.go",
        r#"
package main

func placeholder() {
    // TODO: implement this
}
"#,
    );

    assert_eq!(result.violations.len(), 1);
    assert!(result.violations[0].message.contains("TODO"));
}

#[test]
fn go_source_main_function_is_skipped() {
    let result = stubs_in(
        "test.go",
        r#"
package main

func main() {
}
"#,
    );

    assert_eq!(result.violations.len(), 0);
}

#[test]
fn test_no_stub_real_implementation() {
    let result = stubs_in(
        "test.go",
        r#"
package main

func realFunc(x int) int {
    if x > 0 {
        return x * 2
    }
    return 0
}
"#,
    );

    assert_eq!(result.violations.len(), 0);
}

#[test]
fn test_skip_kubernetes_noop_methods() {
    let result = stubs_in(
        "strategy.go",
        r#"
package core

// Canonicalize is intentionally empty for this strategy
func (s *MyType) Canonicalize(obj runtime.Object) {
}

// PrepareForCreate is intentionally empty
func (s *MyType) PrepareForCreate(ctx context.Context, obj runtime.Object) {
}

// Destroy is intentionally empty - no cleanup needed
func (r *REST) Destroy() {
}

// This one should still be detected (not a known pattern)
func (s *MyType) DoSomething() {
}
"#,
    );

    // Only DoSomething should be flagged, not the known no-op patterns
    assert_eq!(result.violations.len(), 1);
    assert!(result.violations[0].message.contains("DoSomething"));
}

#[test]
fn test_noop_only_applies_to_empty_bodies() {
    let result = stubs_in(
        "test.go",
        r#"
package main

// Panic in a noop method should still be flagged
func Canonicalize() {
    panic("not implemented")
}
"#,
    );

    // Should be flagged because panic bodies are not legitimate no-ops
    assert_eq!(result.violations.len(), 1);
    assert!(result.violations[0].message.contains("panic"));
}

#[test]
fn test_analyze_go_file() {
    let mut ctx = AnalysisContext::new("/project");
    let recorded = ctx
        .analyze_source(
            "main.go",
            r#"
package main

func main() {
    println("hello")
}

func helper() int {
    return 42
}
"#,
        )
        .unwrap();
    assert!(recorded);
    let facts = ctx.facts_for_file("main.go").unwrap();

    assert_eq!(facts.language, "go");
    assert_eq!(facts.package, Some("main".to_string()));
    assert_eq!(facts.declarations.len(), 2);
    assert_eq!(facts.path, "main.go");
}

#[test]
fn test_caching() {
    let mut ctx = AnalysisContext::new("/project");
    ctx.analyze_source("/project/main.go", "package main\nfunc main() {}")
        .unwrap();
    let facts1 = ctx.facts_for_file("main.go").unwrap().clone();
    // A second analysis keeps what was recorded, whatever the source says now.
    ctx.analyze_source("main.go", "package main\nfunc main() {}\nfunc other() {}")
        .unwrap();
    let facts2 = ctx.facts_for_file("/project/main.go").unwrap();

    assert_eq!(facts1.path, facts2.path);
    assert_eq!(facts1.declarations.len(), facts2.declarations.len());
}

#[test]
fn test_find_symbol() {
    let mut ctx = AnalysisContext::new("/project");
    ctx.analyze_source("a.go", "package main\nfunc helper() {}")
        .unwrap();
    ctx.analyze_source("b.go", "package main\nfunc helper() {}\nfunc other() {}")
        .unwrap();

    // Find 'helper' in all files
    let matches = ctx.find_symbol("helper", None, None);
    assert_eq!(matches.len(), 2);

    // Find 'other' (only in b.go)
    let matches = ctx.find_symbol("other", None, None);
    assert_eq!(matches.len(), 1);

    // Find non-existent symbol
    let matches = ctx.find_symbol("nonexistent", None, None);
    assert_eq!(matches.len(), 0);
}

#[test]
fn analyze_source_leaves_other_languages_unrecorded() {
    let mut ctx = AnalysisContext::new("/project");
    assert_eq!(ctx.analyze_source("notes.txt", "hello"), Ok(false));
    assert!(ctx.facts_for_file("notes.txt").is_none());
    let facts = ctx.unsupported_file_facts("notes.txt");
    assert_eq!(facts.language, "unknown");
}

#[test]
fn test_calculate_go_complexity() {
    let facts = GoAnalyzer::new()
        .extract_facts(
            "main.go",
            r#"
package main

func process(x int) int {
    if x > 0 {
        for i := 0; i < x; i++ {
            if i%2 == 0 && i > 5 {
                return i
            }
        }
    }
    return 0
}
"#,
        )
        .unwrap();
    let funcs = extract_complexities_from_facts(&facts);

    assert_eq!(funcs.len(), 1);
    // 1 (base) + 2 (if) + 1 (for) + 1 (&&) = 5
    assert_eq!(funcs[0].complexity, 5);
}

#[test]
fn test_detect_low_complexity() {
    let facts = GoAnalyzer::new()
        .extract_facts(
            "main.go",
            r#"
package main

func simple() {
    return
}

func complex(x int) int {
    if x > 0 {
        for i := 0; i < x; i++ {
            if i%2 == 0 {
                return i
            }
        }
    }
    return 0
}
"#,
        )
        .unwrap();
    let files = vec![AnalyzedFile {
        rel_path: "main.go".to_string(),
        analysis: FileAnalysis::Analyzed(facts),
    }];
    let requirements = vec![
        ComplexityRequirement {
            symbol: "simple".to_string(),
            file: Some("main.go".to_string()),
            min_complexity: 3,
        },
        ComplexityRequirement {
            symbol: "complex".to_string(),
            file: Some("main.go".to_string()),
            min_complexity: 3,
        },
    ];

    let result = detect_low_complexity(&files, &requirements);
    // simple has complexity 1, required 3 -> violation
    // complex has complexity 4, required 3 -> ok
    assert_eq!(result.violations.len(), 1);
    assert!(result.violations[0].message.contains("simple"));
}

#[test]
fn facts_are_found_after_analysis_until_cleared() {
    let mut ctx = AnalysisContext::new("/project");
    assert!(ctx.facts_for_file("main.go").is_none());
    assert_eq!(ctx.analyze_source("main.go", "package main\nfunc main() {}\n"), Ok(true));
    assert_eq!(ctx.analyze_source("notes.txt", "hello"), Ok(false));
    let facts = ctx.facts_for_file("/project/main.go").unwrap();
    assert_eq!(facts.path, "main.go");
    assert_eq!(facts.declarations.len(), 1);
    assert!(ctx.facts_for_file("notes.txt").is_none());
    ctx.clear_cache();
    assert!(ctx.facts_for_file("main.go").is_none());
}
