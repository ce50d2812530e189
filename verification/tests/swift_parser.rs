use hollowcheck::parser::languages::swift::new_parser;

#[test]
    fn test_swift_symbols() {
        let parser = new_parser();
        let source = r#"
import Foundation

class MyService {
    func processData(_ input: String) -> String {
        return input.uppercased()
    }
}

struct Config {
    var name: String
}

enum Status {
    case active
    case inactive
}

protocol Processor {
    func process()
}
"#;

        let symbols = parser.parse_symbols(source).unwrap();

        assert!(
            symbols
                .iter()
                .any(|s| s.name == "MyService" && s.kind == "type"),
            "Expected MyService class, got: {:?}",
            symbols
        );
        assert!(
            symbols
                .iter()
                .any(|s| s.name == "processData" && s.kind == "function"),
            "Expected processData function"
        );
        assert!(
            symbols
                .iter()
                .any(|s| s.name == "Config" && s.kind == "type"),
            "Expected Config struct"
        );
        assert!(
            symbols
                .iter()
                .any(|s| s.name == "Status" && s.kind == "type"),
            "Expected Status enum"
        );
        assert!(
            symbols
                .iter()
                .any(|s| s.name == "Processor" && s.kind == "type"),
            "Expected Processor protocol"
        );
    }

#[test]
    fn test_swift_complexity_simple() {
        let parser = new_parser();
        let source = r#"
func simple() -> Int {
    return 42
}
"#;

        let complexity = parser.complexity(source, "simple").unwrap();
        assert_eq!(complexity, 1, "Simple function should have complexity 1");
    }

#[test]
    fn test_swift_complexity_branches() {
        let parser = new_parser();
        let source = r#"
func branchy(x: Int) -> Int {
    if x > 0 {
        return 1
    } else if x < 0 {
        return -1
    } else {
        return 0
    }
}
"#;

        let complexity = parser.complexity(source, "branchy").unwrap();
        assert!(complexity >= 2, "Expected >= 2, got {}", complexity);
    }

#[test]
    fn test_swift_complexity_guard() {
        let parser = new_parser();
        let source = r#"
func guardy(x: Int?) -> Int {
    guard let value = x else {
        return 0
    }
    if value > 0 {
        return value
    }
    return -value
}
"#;

        let complexity = parser.complexity(source, "guardy").unwrap();
        assert!(complexity >= 3, "Expected >= 3, got {}", complexity);
    }

#[test]
    fn test_swift_complexity_switch() {
        let parser = new_parser();
        let source = r#"
func switchy(x: String) -> Int {
    switch x {
    case "a":
        return 1
    case "":
        return 2
    default:
        return 0
    }
}
"#;

        let complexity = parser.complexity(source, "switchy").unwrap();
        assert!(complexity >= 4, "Expected >= 4, got {}", complexity);
    }
