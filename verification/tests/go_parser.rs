use hollowcheck::parser::languages::go::new_parser;
use hollowcheck::parser::{supported_extensions, ParserLanguage, ParserRegistry};

#[test]
fn test_go_symbols() {
    let parser = new_parser();
    let source = r#"
package main

const Version = "1.0"

type Config struct {
    Name string
}

func (c *Config) Validate() error {
    return nil
}

func main() {
    fmt.Println("hello")
}

func helper() int {
    return 42
}
"#;

    let symbols = parser.parse_symbols(source).unwrap();

    assert!(
        symbols.iter().any(|s| s.name == "Version" && s.kind == "const"),
        "Expected Version const, got: {:?}",
        symbols
    );
    assert!(
        symbols.iter().any(|s| s.name == "Config" && s.kind == "type"),
        "Expected Config type"
    );
    assert!(
        symbols
            .iter()
            .any(|s| s.name == "Validate" && s.kind == "method"),
        "Expected Validate method"
    );
    assert!(
        symbols.iter().any(|s| s.name == "main" && s.kind == "function"),
        "Expected main function"
    );
    assert!(
        symbols
            .iter()
            .any(|s| s.name == "helper" && s.kind == "function"),
        "Expected helper function"
    );
}

#[test]
fn test_go_complexity_simple() {
    let parser = new_parser();
    let source = r#"
package main

func simple() int {
    return 42
}
"#;

    let complexity = parser.complexity(source, "simple").unwrap();
    assert_eq!(complexity, 1, "Simple function should have complexity 1");
}

#[test]
fn test_go_complexity_branches() {
    let parser = new_parser();
    let source = r#"
package main

func branchy(x int) int {
    if x > 0 {
        return 1
    } else if x < 0 {
        return -1
    }
    return 0
}
"#;

    let complexity = parser.complexity(source, "branchy").unwrap();
    // 1 (base) + 2 (if statements)
    assert!(complexity >= 3, "Expected >= 3, got {}", complexity);
}

#[test]
fn test_go_complexity_loops() {
    let parser = new_parser();
    let source = r#"
package main

func loopy(items []int) int {
    sum := 0
    for _, item := range items {
        for item > 0 {
            sum += item
            item--
        }
    }
    return sum
}
"#;

    let complexity = parser.complexity(source, "loopy").unwrap();
    // 1 (base) + 2 (for loops)
    assert!(complexity >= 3, "Expected >= 3, got {}", complexity);
}

#[test]
fn test_go_complexity_switch() {
    let parser = new_parser();
    let source = r#"
package main

func switchy(x string) int {
    switch x {
    case "a":
        return 1
    case "b":
        return 2
    case "c":
        return 3
    default:
        return 0
    }
}
"#;

    let complexity = parser.complexity(source, "switchy").unwrap();
    // 1 (base) + 1 (switch) + 4 (cases)
    assert!(complexity >= 5, "Expected >= 5, got {}", complexity);
}

#[test]
fn test_go_complexity_select() {
    let parser = new_parser();
    let source = r#"
package main

func selecty(ch1, ch2 chan int) int {
    select {
    case x := <-ch1:
        return x
    case y := <-ch2:
        return y
    default:
        return 0
    }
}
"#;

    let complexity = parser.complexity(source, "selecty").unwrap();
    // 1 (base) + 1 (select) + 3 (cases)
    assert!(complexity >= 4, "Expected >= 4, got {}", complexity);
}

#[test]
fn test_go_complexity_boolean_ops() {
    let parser = new_parser();
    let source = r#"
package main

func check(a, b, c int) bool {
    if a > 0 && b > 0 {
        return true
    }
    if a < 0 || c < 0 {
        return false
    }
    return true
}
"#;

    let complexity = parser.complexity(source, "check").unwrap();
    // 1 (base) + 2 (if) + 1 (&&) + 1 (||) = 5
    assert!(complexity >= 5, "Expected >= 5, got {}", complexity);
}

#[test]
fn test_go_complexity_missing_function() {
    let parser = new_parser();
    let source = r#"
package main

func existing() {
}
"#;

    let complexity = parser.complexity(source, "nonexistent").unwrap();
    assert_eq!(complexity, 0, "Missing function should return 0");
}

#[test]
fn go_symbols_carry_lines_and_complexity() {
    let parser = new_parser();
    assert_eq!(parser.language(), "go");
    let source = "package main\n\nconst A = 1\n\nfunc f(x int) int {\n    if x > 0 {\n        return 1\n    }\n    return 0\n}\n";
    let symbols = parser.parse_symbols_with_complexity(source).unwrap();
    assert_eq!(symbols.len(), 2);
    assert_eq!(symbols[0].symbol.name, "A");
    assert_eq!(symbols[0].symbol.kind, "const");
    assert_eq!(symbols[0].symbol.line, 3);
    assert_eq!(symbols[0].complexity, None);
    assert_eq!(symbols[1].symbol.name, "f");
    assert_eq!(symbols[1].symbol.line, 5);
    assert_eq!(symbols[1].complexity, Some(2));
}

#[test]
fn test_registry() {
    let mut registry = ParserRegistry::new();
    registry.register(".mock", ParserLanguage::Go);

    let language = registry.for_extension(".mock");
    assert!(language.is_some());
    assert_eq!(language, Some(ParserLanguage::Go));

    let parser = new_parser();
    assert_eq!(parser.language(), "go");

    let symbols = parser.parse_symbols("package main\n\nfunc test() {}\n").unwrap();
    assert_eq!(symbols.len(), 1);
    assert_eq!(symbols[0].name, "test");
    assert_eq!(registry.for_extension(".other"), None);
}

#[test]
fn supported_extensions_lists_each_extension_once() {
    let exts = supported_extensions();
    assert_eq!(exts.len(), 17);
    assert!(exts.iter().any(|e| e == ".go"));
    assert_eq!(exts.iter().filter(|e| e.as_str() == ".js").count(), 1);
    let mut registry = ParserRegistry::new();
    registry.register(".a", ParserLanguage::Go);
    registry.register(".b", ParserLanguage::Rust);
    registry.register(".a", ParserLanguage::Python);
    assert_eq!(registry.supported_extensions(), vec![".a".to_string(), ".b".to_string()]);
}
