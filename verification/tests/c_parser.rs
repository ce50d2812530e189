use hollowcheck::parser::languages::c::new_parser;

#[test]
    fn test_c_symbols() {
        let parser = new_parser();
        let source = r#"
typedef int MyInt;

struct Config {
    int value;
};

enum Status {
    OK,
    ERROR
};

int process_data(const char* input) {
    return 0;
}

void helper(void) {
}
"#;

        let symbols = parser.parse_symbols(source).unwrap();

        assert!(
            symbols
                .iter()
                .any(|s| s.name == "MyInt" && s.kind == "type"),
            "Expected MyInt typedef, got: {:?}",
            symbols
        );
        assert!(
            symbols
                .iter()
                .any(|s| s.name == "Config" && s.kind == "type"),
            "Expected Config struct"
        );
        assert!(
            symbols
                .iter()
                .any(|s| s.name == "Status" && s.kind == "type"),
            "Expected Status enum"
        );
        assert!(
            symbols
                .iter()
                .any(|s| s.name == "process_data" && s.kind == "function"),
            "Expected process_data function"
        );
        assert!(
            symbols
                .iter()
                .any(|s| s.name == "helper" && s.kind == "function"),
            "Expected helper function"
        );
    }

#[test]
    fn test_c_complexity_simple() {
        let parser = new_parser();
        let source = r#"
int simple(void) {
    return 42;
}
"#;

        let complexity = parser.complexity(source, "simple").unwrap();
        assert_eq!(complexity, 1, "Simple function should have complexity 1");
    }

#[test]
    fn test_c_complexity_branches() {
        let parser = new_parser();
        let source = r#"
int branchy(int x) {
    if (x > 0) {
        return 1;
    } else if (x < 0) {
        return -1;
    } else {
        return 0;
    }
}
"#;

        let complexity = parser.complexity(source, "branchy").unwrap();
        assert!(complexity >= 3, "Expected >= 3, got {}", complexity);
    }

#[test]
    fn test_c_complexity_loops() {
        let parser = new_parser();
        let source = r#"
int loopy(int n) {
    int sum = 0;
    for (int i = 0; i < n; i++) {
        while (i > 0) {
            sum += i;
            i--;
        }
    }
    return sum;
}
"#;

        let complexity = parser.complexity(source, "loopy").unwrap();
        assert!(complexity >= 3, "Expected >= 3, got {}", complexity);
    }

#[test]
    fn test_c_complexity_switch() {
        let parser = new_parser();
        let source = r#"
int switchy(int x) {
    switch (x) {
    case 1:
        return 1;
    case 2:
        return 2;
    default:
        return 0;
    }
}
"#;

        let complexity = parser.complexity(source, "switchy").unwrap();
        assert!(complexity >= 4, "Expected >= 4, got {}", complexity);
    }
