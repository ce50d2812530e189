use hollowcheck::analysis::languages::go::GoAnalyzer;
use hollowcheck::analysis::context::AnalysisContext;
use hollowcheck::analysis::facts::{
    ControlFlowInfo, Declaration, DeclarationKind, FileFacts, FunctionBody, Span,
};
use hollowcheck::analysis::stubs::{HollowBodyKind, StubDetector, StubDetectorConfig};

fn span(start_byte: usize, end_byte: usize, start_line: usize, end_line: usize) -> Span {
    Span {
        start_byte,
        end_byte,
        start_line,
        start_col: 1,
        end_line,
        end_col: 1,
    }
}

fn make_facts(decls: Vec<Declaration>) -> FileFacts {
    FileFacts {
        path: "test.go".to_string(),
        language: "go".to_string(),
        package: Some("main".to_string()),
        declarations: decls,
        imports: vec![],
        has_parse_errors: false,
        parse_error: None,
    }
}

fn make_decl(name: &str, body: FunctionBody) -> Declaration {
    Declaration {
        name: name.to_string(),
        kind: DeclarationKind::Function,
        span: span(0, 100, 1, 5),
        receiver: None,
        body: Some(body),
    }
}

fn make_body(
    is_empty: bool,
    is_panic_only: bool,
    is_nil_return_only: bool,
    has_only_todo_comment: bool,
) -> FunctionBody {
    FunctionBody {
        span: span(10, 50, 2, 4),
        statement_count: if is_empty { 0 } else { 1 },
        is_empty,
        is_panic_only,
        is_nil_return_only,
        has_only_todo_comment,
        text: "{}".to_string(),
        control_flow: ControlFlowInfo::default(),
    }
}

#[test]
fn test_cyclomatic_complexity() {
    let mut cf = ControlFlowInfo::default();
    assert_eq!(cf.cyclomatic_complexity(), 1);

    cf.if_count = 2;
    cf.loop_count = 1;
    cf.and_count = 1;
    // 1 + 2 + 1 + 1 = 5
    assert_eq!(cf.cyclomatic_complexity(), 5);
}

#[test]
fn test_declaration_qualified_name() {
    let func = Declaration {
        name: "main".to_string(),
        kind: DeclarationKind::Function,
        span: Span {
            start_byte: 0,
            end_byte: 10,
            start_line: 1,
            start_col: 1,
            end_line: 1,
            end_col: 11,
        },
        receiver: None,
        body: None,
    };
    assert_eq!(func.qualified_name(), "main");

    let method = Declaration {
        name: "Validate".to_string(),
        kind: DeclarationKind::Method,
        span: Span {
            start_byte: 0,
            end_byte: 10,
            start_line: 1,
            start_col: 1,
            end_line: 1,
            end_col: 11,
        },
        receiver: Some("Config".to_string()),
        body: None,
    };
    assert_eq!(method.qualified_name(), "Config.Validate");
}

#[test]
fn test_detect_empty_body() {
    let detector = StubDetector::new();
    let facts = make_facts(vec![make_decl("empty", make_body(true, false, false, false))]);

    let findings = detector.detect(&facts);
    assert_eq!(findings.len(), 1);
    assert_eq!(findings[0].kind, HollowBodyKind::Empty);
}

#[test]
fn test_detect_panic_body() {
    let detector = StubDetector::new();
    let facts = make_facts(vec![make_decl("panics", make_body(false, true, false, false))]);

    let findings = detector.detect(&facts);
    assert_eq!(findings.len(), 1);
    assert_eq!(findings[0].kind, HollowBodyKind::PanicOnly);
}

#[test]
fn test_detect_todo_comment() {
    let detector = StubDetector::new();
    let facts = make_facts(vec![make_decl(
        "placeholder",
        make_body(false, false, false, true),
    )]);

    let findings = detector.detect(&facts);
    assert_eq!(findings.len(), 1);
    assert_eq!(findings[0].kind, HollowBodyKind::TodoCommentOnly);
}

#[test]
fn stubs_test_skip_main_function() {
    let detector = StubDetector::new();
    let facts = make_facts(vec![make_decl("main", make_body(true, false, false, false))]);

    let findings = detector.detect(&facts);
    assert_eq!(findings.len(), 0);
}

#[test]
fn test_nil_return_disabled_by_default() {
    let detector = StubDetector::new();
    let facts = make_facts(vec![make_decl(
        "returnsNil",
        make_body(false, false, true, false),
    )]);

    let findings = detector.detect(&facts);
    assert_eq!(findings.len(), 0);
}

#[test]
fn test_nil_return_enabled() {
    let config = StubDetectorConfig {
        detect_nil_return: true,
        ..Default::default()
    };
    let detector = StubDetector::with_config(config);
    let facts = make_facts(vec![make_decl(
        "returnsNil",
        make_body(false, false, true, false),
    )]);

    let findings = detector.detect(&facts);
    assert_eq!(findings.len(), 1);
    assert_eq!(findings[0].kind, HollowBodyKind::NilReturnOnly);
}

#[test]
fn test_no_findings_for_real_implementation() {
    let detector = StubDetector::new();
    let facts = make_facts(vec![make_decl(
        "realFunc",
        make_body(false, false, false, false),
    )]);

    let findings = detector.detect(&facts);
    assert_eq!(findings.len(), 0);
}

#[test]
fn stub_findings_sorted_by_position() {
    let detector = StubDetector::new();
    let mut late = make_decl("late", make_body(true, false, false, false));
    late.span = span(200, 300, 10, 12);
    let early = make_decl("early", make_body(false, true, false, false));
    let facts = make_facts(vec![late, early]);

    let findings = detector.detect(&facts);
    assert_eq!(findings.len(), 2);
    assert_eq!(findings[0].name, "early");
    assert_eq!(findings[1].name, "late");
    assert_eq!(findings[1].qualified_name, "late");
}

#[test]
fn stub_detector_skips_listed_receivers() {
    let config = StubDetectorConfig {
        skip_receivers: vec!["Fake".to_string()],
        ..Default::default()
    };
    let detector = StubDetector::with_config(config);
    let mut method = make_decl("Run", make_body(true, false, false, false));
    method.kind = DeclarationKind::Method;
    method.receiver = Some("Fake".to_string());
    let facts = make_facts(vec![method]);
    assert_eq!(detector.detect(&facts).len(), 0);
}

#[test]
fn context_records_and_finds_facts() {
    let mut ctx = AnalysisContext::new("/project");
    assert_eq!(ctx.base_dir(), "/project");
    assert!(ctx.facts_for_file("main.go").is_none());

    let mut facts = make_facts(vec![make_decl("main", make_body(false, false, false, false))]);
    facts.path = "ignored".to_string();
    ctx.record_facts("main.go", facts);

    let found = ctx.facts_for_file("main.go").expect("recorded facts are found");
    assert_eq!(found.path, "main.go");
    assert_eq!(found.declarations.len(), 1);
    // The same file named by its absolute path.
    assert!(ctx.facts_for_file("/project/main.go").is_some());
    assert_eq!(ctx.analyzed_files(), vec!["main.go".to_string()]);

    let by_lang = ctx.facts_by_language("go");
    assert_eq!(by_lang.len(), 1);
    assert!(ctx.facts_by_language("rust").is_empty());

    let matches = ctx.find_symbol("main", None, None);
    assert_eq!(matches.len(), 1);
    assert_eq!(matches[0].file, "main.go");
    assert_eq!(matches[0].language, "go");
    assert!(ctx
        .find_symbol("main", Some(DeclarationKind::Method), None)
        .is_empty());
    assert!(ctx.find_symbol("main", None, Some("python")).is_empty());
    assert_eq!(ctx.declarations_by_kind(DeclarationKind::Function).len(), 1);

    ctx.clear_cache();
    assert!(ctx.facts_for_file("main.go").is_none());
    assert!(ctx.analyzed_files().is_empty());
}

#[test]
fn context_replaces_facts_of_same_file() {
    let mut ctx = AnalysisContext::new("/project");
    ctx.record_facts("a.go", make_facts(vec![]));
    ctx.record_facts(
        "a.go",
        make_facts(vec![make_decl("f", make_body(false, false, false, false))]),
    );
    assert_eq!(ctx.analyzed_files().len(), 1);
    assert_eq!(ctx.facts_for_file("a.go").unwrap().declarations.len(), 1);
}

#[test]
fn context_unsupported_file_facts() {
    let ctx = AnalysisContext::new("/project");
    let facts = ctx.unsupported_file_facts("notes.txt");
    assert_eq!(facts.path, "notes.txt");
    assert_eq!(facts.language, "unknown");
    assert!(facts.declarations.is_empty());
}

#[test]
fn context_analyzed_files_sorted() {
    let mut ctx = AnalysisContext::new("/p");
    ctx.record_facts("b.go", make_facts(vec![]));
    ctx.record_facts("a.go", make_facts(vec![]));
    assert_eq!(
        ctx.analyzed_files(),
        vec!["a.go".to_string(), "b.go".to_string()]
    );
}

#[test]
fn detect_all_is_the_sorted_union_of_detect() {
    let a = GoAnalyzer::new()
        .extract_facts("b.go", "package main\nfunc stubA() {}\nfunc real() int { return 1 }\n")
        .unwrap();
    let b = GoAnalyzer::new()
        .extract_facts("a.go", "package main\nfunc stubB() {\n    panic(\"todo\")\n}\n")
        .unwrap();
    let detector = StubDetector::new();
    let mut each: Vec<(String, String)> = Vec::new();
    for f in [&a, &b] {
        for s in detector.detect(f) {
            each.push((s.file.clone(), s.name.clone()));
        }
    }
    let all: Vec<(String, String)> = detector
        .detect_all(&[a.clone(), b.clone()])
        .iter()
        .map(|s| (s.file.clone(), s.name.clone()))
        .collect();
    assert_eq!(all.len(), 2);
    let mut sorted_each = each.clone();
    sorted_each.sort();
    assert_eq!(all, sorted_each);
    assert_eq!(all[0].0, "a.go");
}

#[test]
fn select_and_switch_statements_are_not_decision_points() {
    let mut cf = ControlFlowInfo::default();
    cf.select_count = 3;
    cf.switch_count = 2;
    assert_eq!(cf.cyclomatic_complexity(), 1);
    cf.case_count = 4;
    cf.catch_count = 1;
    assert_eq!(cf.cyclomatic_complexity(), 6);
}

#[test]
fn total_complexity_adds_only_callables_with_bodies() {
    let facts = GoAnalyzer::new()
        .extract_facts(
            "main.go",
            "package main\ntype T struct{}\nfunc a(x int) int {\n    if x > 0 && x < 9 {\n        return 1\n    }\n    return 0\n}\nfunc b() {}\n",
        )
        .unwrap();
    // a: 1 + if + && = 3; b: 1.
    assert_eq!(facts.total_complexity(), 4);
}
