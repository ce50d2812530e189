use hollowcheck::parser::languages::javascript::new_parser;

#[test]
    fn javascript_test_javascript_symbols() {
        let parser = new_parser();
        let source = r#"
function hello() {
    console.log("hello");
}

function world(x, y) {
    return x + y;
}

class MyClass {
    constructor() {
        this.value = 0;
    }

    method() {
        return this.value;
    }
}
"#;

        let symbols = parser.parse_symbols(source).unwrap();

        assert!(
            symbols
                .iter()
                .any(|s| s.name == "hello" && s.kind == "function"),
            "Expected hello function, got: {:?}",
            symbols
        );
        assert!(
            symbols
                .iter()
                .any(|s| s.name == "world" && s.kind == "function"),
            "Expected world function"
        );
        assert!(
            symbols
                .iter()
                .any(|s| s.name == "MyClass" && s.kind == "type"),
            "Expected MyClass"
        );
        assert!(
            symbols
                .iter()
                .any(|s| s.name == "method" && s.kind == "method"),
            "Expected method"
        );
    }

#[test]
    fn test_javascript_complexity_simple() {
        let parser = new_parser();
        let source = r#"
function simple() {
    return 42;
}
"#;

        let complexity = parser.complexity(source, "simple").unwrap();
        assert_eq!(complexity, 1, "Simple function should have complexity 1");
    }

#[test]
    fn test_javascript_complexity_branches() {
        let parser = new_parser();
        let source = r#"
function branchy(x) {
    if (x > 0) {
        return 1;
    } else if (x < 0) {
        return -1;
    } else {
        return 0;
    }
}
"#;

        let complexity = parser.complexity(source, "branchy").unwrap();
        assert!(complexity >= 2, "Expected >= 2, got {}", complexity);
    }

#[test]
    fn test_javascript_complexity_loops() {
        let parser = new_parser();
        let source = r#"
function loopy(items) {
    let result = [];
    for (let i = 0; i < items.length; i++) {
        while (items[i] > 0) {
            result.push(items[i]);
            items[i]--;
        }
    }
    return result;
}
"#;

        let complexity = parser.complexity(source, "loopy").unwrap();
        assert!(complexity >= 3, "Expected >= 3, got {}", complexity);
    }

#[test]
    fn test_javascript_complexity_nullish() {
        let parser = new_parser();
        let source = r#"
function check(a, b) {
    const x = a ?? b;
    if (a && b) {
        return true;
    }
    if (a || b) {
        return true;
    }
    return false;
}
"#;

        let complexity = parser.complexity(source, "check").unwrap();
        assert!(complexity >= 5, "Expected >= 5, got {}", complexity);
    }

#[test]
    fn test_javascript_complexity_missing_function() {
        let parser = new_parser();
        let source = r#"
function existing() {
}
"#;

        let complexity = parser.complexity(source, "nonexistent").unwrap();
        assert_eq!(complexity, 0, "Missing function should return 0");
    }
