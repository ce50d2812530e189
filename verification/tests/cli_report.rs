use hollowcheck::cli::{
    apply_threshold_preset, check_lint_options, exit_code, find_template, is_supported_extension,
    is_test_file, select_file, skip_directory, template_display_name, templates, EXIT_FAILED,
    EXIT_SUCCESS,
};
use hollowcheck::contract::{Contract, GodObjectContractConfig};
use hollowcheck::detect::types::{Severity, Violation, ViolationRule};
use hollowcheck::report::{
    get_rule_info, make_relative_path, map_severity_to_level, rules_of, sarif_result, sarif_rule,
};

#[test]
fn lint_options_are_checked_in_order() {
    assert!(check_lint_options("pretty", None, false, false).is_ok());
    assert!(check_lint_options("sarif", Some("prose"), true, false).is_ok());
    assert_eq!(
        check_lint_options("xml", Some("bogus"), true, true).err().unwrap(),
        "invalid format \"xml\", must be 'pretty', 'json', or 'sarif'"
    );
    assert_eq!(
        check_lint_options("json", Some("bogus"), true, true).err().unwrap(),
        "invalid mode \"bogus\", must be 'code' or 'prose'"
    );
    assert_eq!(
        check_lint_options("json", None, true, true).err().unwrap(),
        "cannot use both --strict and --relaxed flags"
    );
}

#[test]
fn exit_codes() {
    assert_eq!(exit_code(true), EXIT_SUCCESS);
    assert_eq!(exit_code(false), EXIT_FAILED);
}

#[test]
fn scanned_directories_and_files() {
    assert!(skip_directory(".git", true));
    assert!(skip_directory("node_modules", true));
    assert!(!skip_directory("node_modules", false));
    assert!(!skip_directory("src", true));
    assert!(is_supported_extension("rs"));
    assert!(!is_supported_extension("md"));
    assert!(is_test_file("foo_test.go"));
    assert!(is_test_file("test_foo.py"));
    assert!(is_test_file("conftest.py"));
    assert!(is_test_file("app.spec.ts"));
    assert!(!is_test_file("main.go"));
}

#[test]
fn file_selection_follows_contract_and_patterns() {
    let contract = Contract {
        excluded_paths: vec!["**/generated/**".to_string()],
        ..Default::default()
    };
    let none: Vec<String> = vec![];
    assert!(select_file(&contract, &none, &none, "/p/src/main.go", "main.go"));
    assert!(!select_file(&contract, &none, &none, "/p/src/main_test.go", "main_test.go"));
    assert!(!select_file(&contract, &none, &none, "/p/generated/x.go", "x.go"));
    let extra = vec!["**/legacy/**".to_string()];
    assert!(!select_file(&contract, &extra, &none, "/p/legacy/a.go", "a.go"));
    let forced = vec!["**/*_test.go".to_string()];
    assert!(select_file(&contract, &none, &forced, "/p/src/main_test.go", "main_test.go"));
}

#[test]
fn strict_preset_fills_open_limits() {
    let mut contract = Contract::default();
    apply_threshold_preset(&mut contract, true, false);
    let g = contract.god_objects.as_ref().unwrap();
    assert!(!g.enabled);
    assert_eq!(g.max_file_lines, Some(500));
    assert_eq!(g.max_class_methods, Some(15));

    let mut contract = Contract {
        god_objects: Some(GodObjectContractConfig {
            enabled: true,
            max_file_lines: Some(42),
            max_function_lines: None,
            max_function_complexity: None,
            max_functions_per_file: None,
            max_class_methods: None,
        }),
        ..Default::default()
    };
    apply_threshold_preset(&mut contract, false, true);
    let g = contract.god_objects.as_ref().unwrap();
    assert_eq!(g.max_file_lines, Some(42));
    assert_eq!(g.max_function_lines, Some(200));

    let mut untouched = Contract::default();
    apply_threshold_preset(&mut untouched, false, false);
    assert!(untouched.god_objects.is_none());
}

#[test]
fn templates_listed_and_found() {
    let names: Vec<&str> = templates().iter().map(|t| t.name).collect();
    assert_eq!(names, vec!["minimal", "crud-endpoint", "cli-tool", "client-sdk", "worker"]);
    assert_eq!(find_template("worker"), Some(4));
    assert_eq!(find_template("nope"), None);
    assert_eq!(template_display_name("minimal"), "minimal (default)");
    assert_eq!(template_display_name("worker"), "worker");
}

#[test]
fn rule_info_and_levels() {
    let info = get_rule_info("mock_data");
    assert_eq!(info.name, "MockData");
    assert_eq!(info.default_level, "warning");
    assert_eq!(info.help_uri, "#mock-data");
    let unknown = get_rule_info("stub_function");
    assert_eq!(unknown.name, "Unknown");
    assert_eq!(map_severity_to_level(&Severity::Info), "note");
    assert_eq!(map_severity_to_level(&Severity::Critical), "error");
    let rule = sarif_rule(ViolationRule::ProseWeakTransition);
    assert_eq!(rule.level, "note");
    assert_eq!(
        rule.help_uri,
        "https://github.com/zen-systems/hollowcheck#prose-structure"
    );
}

#[test]
fn sarif_results_and_rules() {
    let v = Violation {
        rule: ViolationRule::ForbiddenPattern,
        message: "TODO".to_string(),
        file: "/proj/src/a.go".to_string(),
        line: 0,
        severity: Severity::Warning,
    };
    let r = sarif_result(&v, "/proj");
    assert_eq!(r.rule_id, "forbidden_pattern");
    assert_eq!(r.level, "warning");
    assert_eq!(r.uri, "src/a.go");
    assert_eq!(r.start_line, 1);
    let w = Violation { line: 7, ..v.clone() };
    assert_eq!(sarif_result(&w, "/proj").start_line, 7);
    let rules = rules_of(&vec![v.clone(), w, Violation { rule: ViolationRule::MockData, ..v }]);
    assert_eq!(rules, vec![ViolationRule::ForbiddenPattern, ViolationRule::MockData]);
}

#[test]
fn relative_paths() {
    assert_eq!(make_relative_path("/proj/a/b.rs", "/proj"), "a/b.rs");
    assert_eq!(make_relative_path("/proj/main.go", "/proj/main.go"), "main.go");
    assert_eq!(make_relative_path("/other/x.go", "/proj"), "/other/x.go");
    assert_eq!(make_relative_path("x.go", ""), "x.go");
}
