use hollowcheck::parser::languages::typescript::{new_javascript_parser, new_typescript_parser};

#[test]
    fn test_typescript_symbols() {
        let parser = new_typescript_parser();
        let source = r#"
function hello(): void {
    console.log("hello");
}

class MyClass {
    method(): number {
        return 42;
    }
}

interface IConfig {
    name: string;
}

type StringArray = string[];
"#;

        let symbols = parser.parse_symbols(source).unwrap();

        assert!(
            symbols.iter().any(|s| s.name == "hello" && s.kind == "function"),
            "Expected hello function"
        );
        assert!(
            symbols.iter().any(|s| s.name == "MyClass" && s.kind == "type"),
            "Expected MyClass"
        );
        assert!(
            symbols.iter().any(|s| s.name == "method" && s.kind == "method"),
            "Expected method"
        );
        assert!(
            symbols.iter().any(|s| s.name == "IConfig" && s.kind == "type"),
            "Expected IConfig interface"
        );
        assert!(
            symbols.iter().any(|s| s.name == "StringArray" && s.kind == "type"),
            "Expected StringArray type"
        );
    }

#[test]
    fn test_typescript_complexity_simple() {
        let parser = new_typescript_parser();
        let source = r#"
function simple(): number {
    return 42;
}
"#;

        let complexity = parser.complexity(source, "simple").unwrap();
        assert_eq!(complexity, 1, "Simple function should have complexity 1");
    }

#[test]
    fn test_typescript_complexity_branches() {
        let parser = new_typescript_parser();
        let source = r#"
function branchy(x: number): number {
    if (x > 0) {
        return 1;
    } else if (x < 0) {
        return -1;
    } else {
        return 0;
    }
}
"#;

        let complexity = parser.complexity(source, "branchy").unwrap();
        // 1 (base) + 2 (if statements)
        assert!(complexity >= 3, "Expected >= 3, got {}", complexity);
    }

#[test]
    fn test_typescript_complexity_loops() {
        let parser = new_typescript_parser();
        let source = r#"
function loopy(items: number[]): number {
    let sum = 0;
    for (const item of items) {
        while (item > 0) {
            sum += item;
        }
    }
    return sum;
}
"#;

        let complexity = parser.complexity(source, "loopy").unwrap();
        // 1 (base) + 1 (for-in) + 1 (while) = 3
        assert!(complexity >= 3, "Expected >= 3, got {}", complexity);
    }

#[test]
    fn test_typescript_complexity_switch() {
        let parser = new_typescript_parser();
        let source = r#"
function switchy(x: string): number {
    switch (x) {
        case "a":
            return 1;
        case "":
            return 2;
        case "c":
            return 3;
        default:
            return 0;
    }
}
"#;

        let complexity = parser.complexity(source, "switchy").unwrap();
        // 1 (base) + 1 (switch) + 4 (cases including default)
        assert!(complexity >= 5, "Expected >= 5, got {}", complexity);
    }

#[test]
    fn test_typescript_complexity_ternary_and_nullish() {
        let parser = new_typescript_parser();
        let source = r#"
function ternary(x: number | null): number {
    const y = x ?? 0;
    return x > 0 ? x : -x;
}
"#;

        let complexity = parser.complexity(source, "ternary").unwrap();
        // 1 (base) + 1 (??) + 1 (ternary) = 3
        assert!(complexity >= 3, "Expected >= 3, got {}", complexity);
    }

#[test]
    fn typescript_test_javascript_symbols() {
        let parser = new_javascript_parser();
        let source = r#"
function hello() {
    console.log("hello");
}

class MyClass {
    method() {
        return 42;
    }
}
"#;

        let symbols = parser.parse_symbols(source).unwrap();

        assert!(
            symbols.iter().any(|s| s.name == "hello" && s.kind == "function"),
            "Expected hello function"
        );
        assert!(
            symbols.iter().any(|s| s.name == "MyClass" && s.kind == "type"),
            "Expected MyClass"
        );
    }
