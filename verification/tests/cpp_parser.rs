use hollowcheck::parser::languages::cpp::new_parser;

#[test]
    fn test_cpp_symbols() {
        let parser = new_parser();
        let source = r#"
typedef int MyInt;

class Config {
public:
    int value;
    void process();
};

struct Data {
    int x;
};

enum Status {
    OK,
    ERROR
};

int process_data(const std::string& input) {
    return 0;
}

void helper() {
}
"#;

        let symbols = parser.parse_symbols(source).unwrap();

        assert!(
            symbols.iter().any(|s| s.name == "MyInt" && s.kind == "type"),
            "Expected MyInt typedef, got: {:?}",
            symbols
        );
        assert!(
            symbols.iter().any(|s| s.name == "Config" && s.kind == "type"),
            "Expected Config class"
        );
        assert!(
            symbols.iter().any(|s| s.name == "Data" && s.kind == "type"),
            "Expected Data struct"
        );
        assert!(
            symbols.iter().any(|s| s.name == "Status" && s.kind == "type"),
            "Expected Status enum"
        );
        assert!(
            symbols.iter().any(|s| s.name == "process_data" && s.kind == "function"),
            "Expected process_data function"
        );
    }

#[test]
    fn test_cpp_complexity_simple() {
        let parser = new_parser();
        let source = r#"
int simple() {
    return 42;
}
"#;

        let complexity = parser.complexity(source, "simple").unwrap();
        assert_eq!(complexity, 1, "Simple function should have complexity 1");
    }

#[test]
    fn test_cpp_complexity_branches() {
        let parser = new_parser();
        let source = r#"
int branchy(int x) {
    if (x > 0) {
        return 1;
    } else if (x < 0) {
        return -1;
    } else {
        return 0;
    }
}
"#;

        let complexity = parser.complexity(source, "branchy").unwrap();
        assert!(complexity >= 3, "Expected >= 3, got {}", complexity);
    }

#[test]
    fn test_cpp_complexity_range_loop() {
        let parser = new_parser();
        let source = r#"
#include <vector>

int sum_items(const std::vector<int>& items) {
    int sum = 0;
    for (const auto& item : items) {
        if (item > 0) {
            sum += item;
        }
    }
    return sum;
}
"#;

        let complexity = parser.complexity(source, "sum_items").unwrap();
        assert!(complexity >= 3, "Expected >= 3, got {}", complexity);
    }

#[test]
    fn test_cpp_complexity_try_catch() {
        let parser = new_parser();
        let source = r#"
int risky(int x) {
    try {
        if (x < 0) {
            throw "error";
        }
        return x;
    } catch (...) {
        return 0;
    }
}
"#;

        let complexity = parser.complexity(source, "risky").unwrap();
        assert!(complexity >= 3, "Expected >= 3, got {}", complexity);
    }
