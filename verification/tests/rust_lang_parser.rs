use hollowcheck::parser::languages::rust_lang::new_parser;

#[test]
    fn test_rust_symbols() {
        let parser = new_parser();
        let source = r#"
const VERSION: &str = "1.0";

struct Config {
    name: String,
}

enum Status {
    Ok,
    Error,
}

trait Processor {
    fn process(&self);
}

type Result<T> = std::result::Result<T, Error>;

impl Config {
    fn new() -> Self {
        Config { name: String::new() }
    }
}

fn main() {
    println!("hello");
}

fn helper() -> i32 {
    42
}
"#;

        let symbols = parser.parse_symbols(source).unwrap();

        assert!(
            symbols.iter().any(|s| s.name == "VERSION" && s.kind == "const"),
            "Expected VERSION const, got: {:?}",
            symbols
        );
        assert!(
            symbols.iter().any(|s| s.name == "Config" && s.kind == "type"),
            "Expected Config struct"
        );
        assert!(
            symbols.iter().any(|s| s.name == "Status" && s.kind == "type"),
            "Expected Status enum"
        );
        assert!(
            symbols.iter().any(|s| s.name == "Processor" && s.kind == "type"),
            "Expected Processor trait"
        );
        assert!(
            symbols.iter().any(|s| s.name == "main" && s.kind == "function"),
            "Expected main function"
        );
        assert!(
            symbols.iter().any(|s| s.name == "helper" && s.kind == "function"),
            "Expected helper function"
        );
    }

#[test]
    fn test_rust_complexity_simple() {
        let parser = new_parser();
        let source = r#"
fn simple() -> i32 {
    42
}
"#;

        let complexity = parser.complexity(source, "simple").unwrap();
        assert_eq!(complexity, 1, "Simple function should have complexity 1");
    }

#[test]
    fn test_rust_complexity_branches() {
        let parser = new_parser();
        let source = r#"
fn branchy(x: i32) -> i32 {
    if x > 0 {
        1
    } else if x < 0 {
        -1
    } else {
        0
    }
}
"#;

        let complexity = parser.complexity(source, "branchy").unwrap();
        assert!(complexity >= 3, "Expected >= 3, got {}", complexity);
    }

#[test]
    fn test_rust_complexity_loops() {
        let parser = new_parser();
        let source = r#"
fn loopy(items: Vec<i32>) -> i32 {
    let mut sum = 0;
    for item in items {
        while item > 0 {
            sum += item;
        }
    }
    sum
}
"#;

        let complexity = parser.complexity(source, "loopy").unwrap();
        assert!(complexity >= 3, "Expected >= 3, got {}", complexity);
    }

#[test]
    fn test_rust_complexity_match() {
        let parser = new_parser();
        let source = r#"
fn matchy(x: Option<i32>) -> i32 {
    match x {
        Some(v) if v > 0 => v,
        Some(v) => -v,
        None => 0,
    }
}
"#;

        let complexity = parser.complexity(source, "matchy").unwrap();
        assert!(complexity >= 4, "Expected >= 4, got {}", complexity);
    }

#[test]
    fn test_rust_complexity_boolean_ops() {
        let parser = new_parser();
        let source = r#"
fn check(a: bool, b: bool, c: bool) -> bool {
    if a && b {
        true
    } else if a || c {
        true
    } else {
        false
    }
}
"#;

        let complexity = parser.complexity(source, "check").unwrap();
        assert!(complexity >= 5, "Expected >= 5, got {}", complexity);
    }

#[test]
    fn test_rust_complexity_missing_function() {
        let parser = new_parser();
        let source = r#"
fn existing() {
}
"#;

        let complexity = parser.complexity(source, "nonexistent").unwrap();
        assert_eq!(complexity, 0, "Missing function should return 0");
    }
