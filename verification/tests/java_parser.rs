use hollowcheck::parser::languages::java::new_parser;

#[test]
    fn test_java_symbols() {
        let parser = new_parser();
        let source = r#"
public class MyClass {
    public void method() {
        System.out.println("hello");
    }

    public int calculate(int x) {
        return x * 2;
    }
}

interface MyInterface {
    void doSomething();
}

enum Status {
    ACTIVE,
    INACTIVE
}
"#;

        let symbols = parser.parse_symbols(source).unwrap();

        assert!(
            symbols
                .iter()
                .any(|s| s.name == "MyClass" && s.kind == "type"),
            "Expected MyClass"
        );
        assert!(
            symbols
                .iter()
                .any(|s| s.name == "method" && s.kind == "method"),
            "Expected method"
        );
        assert!(
            symbols
                .iter()
                .any(|s| s.name == "calculate" && s.kind == "method"),
            "Expected calculate"
        );
        assert!(
            symbols
                .iter()
                .any(|s| s.name == "MyInterface" && s.kind == "type"),
            "Expected MyInterface"
        );
        assert!(
            symbols
                .iter()
                .any(|s| s.name == "Status" && s.kind == "type"),
            "Expected Status enum"
        );
    }

#[test]
    fn test_java_complexity_simple() {
        let parser = new_parser();
        let source = r#"
public class Test {
    public int simple() {
        return 42;
    }
}
"#;

        let complexity = parser.complexity(source, "simple").unwrap();
        assert_eq!(complexity, 1, "Simple method should have complexity 1");
    }

#[test]
    fn test_java_complexity_branches() {
        let parser = new_parser();
        let source = r#"
public class Test {
    public int branchy(int x) {
        if (x > 0) {
            return 1;
        } else if (x < 0) {
            return -1;
        } else {
            return 0;
        }
    }
}
"#;

        let complexity = parser.complexity(source, "branchy").unwrap();
        // 1 (base) + 2 (if statements)
        assert!(complexity >= 3, "Expected >= 3, got {}", complexity);
    }

#[test]
    fn test_java_complexity_loops() {
        let parser = new_parser();
        let source = r#"
public class Test {
    public int loopy(int[] items) {
        int sum = 0;
        for (int item : items) {
            while (item > 0) {
                sum += item;
                item--;
            }
        }
        return sum;
    }
}
"#;

        let complexity = parser.complexity(source, "loopy").unwrap();
        // 1 (base) + 1 (enhanced for) + 1 (while) = 3
        assert!(complexity >= 3, "Expected >= 3, got {}", complexity);
    }

#[test]
    fn test_java_complexity_switch() {
        let parser = new_parser();
        let source = r#"
public class Test {
    public int switchy(String x) {
        switch (x) {
            case "a":
                return 1;
            case "":
                return 2;
            default:
                return 0;
        }
    }
}
"#;

        let complexity = parser.complexity(source, "switchy").unwrap();
        // 1 (base) + 3 (cases)
        assert!(complexity >= 4, "Expected >= 4, got {}", complexity);
    }

#[test]
    fn test_java_complexity_try_catch() {
        let parser = new_parser();
        let source = r#"
public class Test {
    public void risky() {
        try {
            throw new Exception();
        } catch (RuntimeException e) {
            System.out.println("runtime");
        } catch (Exception e) {
            System.out.println("exception");
        }
    }
}
"#;

        let complexity = parser.complexity(source, "risky").unwrap();
        // 1 (base) + 2 (catch clauses)
        assert!(complexity >= 3, "Expected >= 3, got {}", complexity);
    }

#[test]
    fn test_java_complexity_boolean_ops() {
        let parser = new_parser();
        let source = r#"
public class Test {
    public boolean check(int a, int b, int c) {
        if (a > 0 && b > 0) {
            return true;
        }
        if (a < 0 || c < 0) {
            return false;
        }
        return true;
    }
}
"#;

        let complexity = parser.complexity(source, "check").unwrap();
        // 1 (base) + 2 (if) + 1 (&&) + 1 (||) = 5
        assert!(complexity >= 5, "Expected >= 5, got {}", complexity);
    }
