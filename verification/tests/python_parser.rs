use hollowcheck::parser::languages::python::new_parser;

#[test]
    fn test_python_symbols() {
        let parser = new_parser();
        let source = r#"
def hello():
    pass

def world(x, y):
    return x + y

class MyClass:
    def __init__(self):
        pass

    def method(self):
        pass

class AnotherClass:
    pass
"#;

        let symbols = parser.parse_symbols(source).unwrap();

        // Should find functions
        assert!(
            symbols
                .iter()
                .any(|s| s.name == "hello" && s.kind == "function"),
            "Expected hello function"
        );
        assert!(
            symbols
                .iter()
                .any(|s| s.name == "world" && s.kind == "function"),
            "Expected world function"
        );

        // Should find classes
        assert!(
            symbols
                .iter()
                .any(|s| s.name == "MyClass" && s.kind == "type"),
            "Expected MyClass"
        );
        assert!(
            symbols
                .iter()
                .any(|s| s.name == "AnotherClass" && s.kind == "type"),
            "Expected AnotherClass"
        );
    }

#[test]
    fn test_python_complexity_simple() {
        let parser = new_parser();
        let source = r#"
def simple():
    return 42
"#;

        let complexity = parser.complexity(source, "simple").unwrap();
        assert_eq!(complexity, 1, "Simple function should have complexity 1");
    }

#[test]
    fn test_python_complexity_branches() {
        let parser = new_parser();
        let source = r#"
def branchy(x):
    if x > 0:
        return 1
    elif x < 0:
        return -1
    else:
        return 0
"#;

        let complexity = parser.complexity(source, "branchy").unwrap();
        // 1 (base) + 1 (if) + 1 (elif) = 3
        assert!(complexity >= 3, "Expected >= 3, got {}", complexity);
    }

#[test]
    fn test_python_complexity_loops() {
        let parser = new_parser();
        let source = r#"
def loopy(items):
    result = []
    for item in items:
        while item > 0:
            result.append(item)
            item -= 1
    return result
"#;

        let complexity = parser.complexity(source, "loopy").unwrap();
        // 1 (base) + 1 (for) + 1 (while) = 3
        assert!(complexity >= 3, "Expected >= 3, got {}", complexity);
    }

#[test]
    fn test_python_complexity_boolean_ops() {
        let parser = new_parser();
        let source = r#"
def check(a, b, c):
    if a and b:
        return True
    if a or c:
        return True
    return False
"#;

        let complexity = parser.complexity(source, "check").unwrap();
        // 1 (base) + 2 (if) + 1 (and) + 1 (or) = 5
        assert!(complexity >= 5, "Expected >= 5, got {}", complexity);
    }

#[test]
    fn test_python_complexity_comprehension() {
        let parser = new_parser();
        let source = r#"
def comprehend(items):
    return [x * 2 for x in items if x > 0]
"#;

        let complexity = parser.complexity(source, "comprehend").unwrap();
        // 1 (base) + 1 (list_comprehension) = 2
        // Note: the `if` inside comprehension might also count
        assert!(complexity >= 2, "Expected >= 2, got {}", complexity);
    }

#[test]
    fn test_python_complexity_missing_function() {
        let parser = new_parser();
        let source = r#"
def existing():
    pass
"#;

        let complexity = parser.complexity(source, "nonexistent").unwrap();
        assert_eq!(complexity, 0, "Missing function should return 0");
    }

#[test]
    fn test_python_parser() {
        let parser = new_parser();
        let source = r#"
def hello():
    print("Hello")

class MyClass:
    def method(self):
        pass
"#;

        let symbols = parser.parse_symbols(source).unwrap();
        assert!(symbols
            .iter()
            .any(|s| s.name == "hello" && s.kind == "function"));
        assert!(symbols
            .iter()
            .any(|s| s.name == "MyClass" && s.kind == "type"));
        // Note: method extraction depends on query configuration
    }

#[test]
    fn test_python_complexity() {
        let parser = new_parser();
        let source = r#"
def simple():
    return 1

def complex(x):
    if x > 0:
        for i in range(x):
            if i % 2 == 0:
                print(i)
    return x
"#;

        // Simple function: base complexity = 1
        let simple_cc = parser.complexity(source, "simple").unwrap();
        assert_eq!(simple_cc, 1);

        // Complex function: 1 (base) + 1 (if) + 1 (for) + 1 (if) = 4
        let complex_cc = parser.complexity(source, "complex").unwrap();
        assert!(complex_cc >= 4, "Expected >= 4, got {}", complex_cc);
    }
