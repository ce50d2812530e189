use hollowcheck::analysis::facts::{DeclarationKind, FileFacts};
use hollowcheck::analysis::languages::rust_lang::RustAnalyzer;
use hollowcheck::detect::stubs::{detect_stub_functions, StubDetectionConfig, StubInput};

fn parse_rust(source: &str) -> FileFacts {
    RustAnalyzer::new().extract_facts("test.rs", source).unwrap()
}

#[test]
    fn rust_lang_test_extract_functions() {
        let source = r#"
fn main() {
    println!("hello");
}

pub fn helper(x: i32) -> i32 {
    x + 1
}
"#;
        let facts = parse_rust(source);

        assert_eq!(facts.declarations.len(), 2);
        assert!(facts.declarations.iter().any(|d| d.name == "main" && d.kind == DeclarationKind::Function));
        assert!(facts.declarations.iter().any(|d| d.name == "helper" && d.kind == DeclarationKind::Function));
    }

#[test]
    fn rust_lang_test_extract_methods() {
        let source = r#"
struct Config {
    name: String,
}

impl Config {
    fn new(name: String) -> Self {
        Self { name }
    }

    fn validate(&self) -> Result<(), Error> {
        Ok(())
    }
}
"#;
        let facts = parse_rust(source);

        let methods: Vec<_> = facts.declarations.iter()
            .filter(|d| d.kind == DeclarationKind::Method)
            .collect();

        assert_eq!(methods.len(), 2);
        assert!(methods.iter().any(|d| d.name == "new" && d.receiver == Some("Config".to_string())));
        assert!(methods.iter().any(|d| d.name == "validate" && d.receiver == Some("Config".to_string())));
    }

#[test]
    fn rust_lang_test_extract_types() {
        let source = r#"
struct Handler {
    name: String,
}

enum Status {
    Active,
    Inactive,
}

trait Service {
    fn run(&self) -> Result<(), Error>;
}

type Id = String;
"#;
        let facts = parse_rust(source);

        assert!(facts.declarations.iter().any(|d| d.name == "Handler" && d.kind == DeclarationKind::Struct));
        assert!(facts.declarations.iter().any(|d| d.name == "Status" && d.kind == DeclarationKind::Enum));
        assert!(facts.declarations.iter().any(|d| d.name == "Service" && d.kind == DeclarationKind::Trait));
        assert!(facts.declarations.iter().any(|d| d.name == "Id" && d.kind == DeclarationKind::Type));
    }

#[test]
    fn rust_lang_test_extract_constants() {
        let source = r#"
const VERSION: &str = "1.0.0";
const MAX_RETRIES: u32 = 3;
static INSTANCE: Lazy<Config> = Lazy::new(|| Config::default());
"#;
        let facts = parse_rust(source);

        let consts: Vec<_> = facts.declarations.iter()
            .filter(|d| d.kind == DeclarationKind::Const)
            .collect();

        assert_eq!(consts.len(), 3);
        assert!(consts.iter().any(|d| d.name == "VERSION"));
        assert!(consts.iter().any(|d| d.name == "MAX_RETRIES"));
        assert!(consts.iter().any(|d| d.name == "INSTANCE"));
    }

#[test]
    fn rust_lang_test_complexity_simple() {
        let source = r#"
fn simple() -> i32 {
    42
}
"#;
        let facts = parse_rust(source);

        let func = facts.find_declaration("simple").unwrap();
        let body = func.body.as_ref().unwrap();
        assert_eq!(body.control_flow.cyclomatic_complexity(), 1);
    }

#[test]
    fn rust_lang_test_complexity_with_branches() {
        let source = r#"
fn branchy(x: i32) -> i32 {
    if x > 0 {
        if x > 10 {
            100
        } else {
            10
        }
    } else {
        0
    }
}
"#;
        let facts = parse_rust(source);

        let func = facts.find_declaration("branchy").unwrap();
        let body = func.body.as_ref().unwrap();
        // 1 base + 2 if = 3
        assert_eq!(body.control_flow.cyclomatic_complexity(), 3);
    }

#[test]
    fn test_complexity_with_match() {
        let source = r#"
fn matcher(x: Option<i32>) -> i32 {
    match x {
        Some(v) if v > 0 => v,
        Some(_) => 0,
        None => -1,
    }
}
"#;
        let facts = parse_rust(source);

        let func = facts.find_declaration("matcher").unwrap();
        let body = func.body.as_ref().unwrap();
        // 1 base + 1 match + 3 arms = 5
        assert!(body.control_flow.cyclomatic_complexity() >= 4);
    }

#[test]
    fn rust_lang_test_stub_detection_empty() {
        let source = r#"
fn empty() {
}
"#;
        let facts = parse_rust(source);

        let func = facts.find_declaration("empty").unwrap();
        let body = func.body.as_ref().unwrap();
        assert!(body.is_empty);
    }

#[test]
    fn test_stub_detection_unimplemented() {
        let source = r#"
fn not_implemented() {
    unimplemented!()
}
"#;
        let facts = parse_rust(source);

        let func = facts.find_declaration("not_implemented").unwrap();
        let body = func.body.as_ref().unwrap();
        assert!(body.is_panic_only);
    }

#[test]
    fn test_stub_detection_todo_macro() {
        let source = r#"
fn placeholder() {
    todo!()
}
"#;
        let facts = parse_rust(source);

        let func = facts.find_declaration("placeholder").unwrap();
        let body = func.body.as_ref().unwrap();
        assert!(body.is_panic_only);
    }

#[test]
    fn rust_lang_test_stub_detection_todo_comment() {
        let source = r#"
fn with_todo() {
    // TODO: implement this
}
"#;
        let facts = parse_rust(source);

        let func = facts.find_declaration("with_todo").unwrap();
        let body = func.body.as_ref().unwrap();
        assert!(body.has_only_todo_comment);
    }

#[test]
fn test_detect_rust_unimplemented() {
    let source = r#"
fn placeholder() {
    unimplemented!()
}

fn todo_func() {
    todo!()
}
"#;
    let facts = RustAnalyzer::new().extract_facts("test.rs", source).unwrap();
    let config = StubDetectionConfig::default_enabled();
    let files = vec![StubInput {
        path: "test.rs".to_string(),
        facts: Some(facts),
    }];
    let result = detect_stub_functions(&files, Some(&config));

    assert_eq!(result.violations.len(), 2);
}

#[test]
fn rust_legitimate_empty_functions_are_not_stubs() {
    let source = "fn check_send<T: Send>() {}\nfn _unused() {}\nfn work() {}\n";
    let facts = parse_rust(source);
    let body = |n: &str| facts.find_declaration(n).unwrap().body.clone().unwrap();
    assert!(!body("check_send").is_empty);
    assert!(!body("_unused").is_empty);
    assert!(body("work").is_empty);
    let in_stub_file = RustAnalyzer::new()
        .extract_facts("src/platform/stub.rs", "fn work() { panic!() }\n")
        .unwrap();
    let b = in_stub_file.declarations[0].body.as_ref().unwrap();
    assert!(!b.is_panic_only);
    assert!(!b.is_empty);
}

#[test]
fn rust_panic_with_message_is_no_stub() {
    let facts = parse_rust("fn a() { panic!(\"bad state\") }\nfn b() { panic!() }\n");
    assert!(!facts.find_declaration("a").unwrap().body.as_ref().unwrap().is_panic_only);
    assert!(facts.find_declaration("b").unwrap().body.as_ref().unwrap().is_panic_only);
}

#[test]
fn rust_use_declarations_with_alias() {
    let source = "use std::collections::HashMap;\nuse std::io::Result as IoResult;\nuse serde;\n";
    let facts = parse_rust(source);
    let paths: Vec<&str> = facts.imports.iter().map(|i| i.path.as_str()).collect();
    assert_eq!(paths, vec!["serde", "std::collections::HashMap", "std::io::Result"]);
    let aliased = facts.imports.iter().find(|i| i.path == "std::io::Result").unwrap();
    assert_eq!(aliased.alias, Some("IoResult".to_string()));
    assert_eq!(facts.language, "rust");
    assert_eq!(facts.package, None);
}

#[test]
fn rust_try_counts_as_a_branch() {
    let facts = parse_rust("fn f() -> Option<i32> {\n    let x = g()?;\n    Some(x)\n}\n");
    let body = facts.find_declaration("f").unwrap().body.as_ref().unwrap().clone();
    assert_eq!(body.control_flow.catch_count, 1);
    assert_eq!(body.control_flow.cyclomatic_complexity(), 2);
}
