use hollowcheck::parser::languages::scala::new_parser;

#[test]
    fn test_scala_symbols() {
        let parser = new_parser();
        let source = r#"
package com.example

object MyService {
  def processData(input: String): String = {
    input.toUpperCase
  }
}

class Config(val name: String)

trait Processor {
  def process(): Unit
}
"#;

        let symbols = parser.parse_symbols(source).unwrap();

        assert!(
            symbols
                .iter()
                .any(|s| s.name == "MyService" && s.kind == "type"),
            "Expected MyService object, got: {:?}",
            symbols
        );
        assert!(
            symbols
                .iter()
                .any(|s| s.name == "processData" && s.kind == "function"),
            "Expected processData function"
        );
        assert!(
            symbols
                .iter()
                .any(|s| s.name == "Config" && s.kind == "type"),
            "Expected Config class"
        );
        assert!(
            symbols
                .iter()
                .any(|s| s.name == "Processor" && s.kind == "type"),
            "Expected Processor trait"
        );
    }

#[test]
    fn test_scala_complexity_simple() {
        let parser = new_parser();
        let source = r#"
def simple(): Int = {
  42
}
"#;

        let complexity = parser.complexity(source, "simple").unwrap();
        assert_eq!(complexity, 1, "Simple function should have complexity 1");
    }

#[test]
    fn test_scala_complexity_branches() {
        let parser = new_parser();
        let source = r#"
def branchy(x: Int): Int = {
  if (x > 0) {
    1
  } else if (x < 0) {
    -1
  } else {
    0
  }
}
"#;

        let complexity = parser.complexity(source, "branchy").unwrap();
        assert!(complexity >= 2, "Expected >= 2, got {}", complexity);
    }

#[test]
    fn test_scala_complexity_match() {
        let parser = new_parser();
        let source = r#"
def matchy(x: String): Int = x match {
  case "a" => 1
  case "" => 2
  case _ => 0
}
"#;

        let complexity = parser.complexity(source, "matchy").unwrap();
        assert!(complexity >= 4, "Expected >= 4, got {}", complexity);
    }
