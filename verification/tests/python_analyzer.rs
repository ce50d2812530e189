use hollowcheck::analysis::context::AnalysisContext;
use hollowcheck::analysis::facts::{DeclarationKind, FileFacts};
use hollowcheck::analysis::languages::python::PythonAnalyzer;

fn parse_python(source: &str) -> FileFacts {
    PythonAnalyzer::new().extract_facts("test.py", source).unwrap()
}

#[test]
fn python_test_extract_imports() {
    let source = r#"
import os
import sys
from collections import OrderedDict
from typing import List, Optional
from . import local_module
"#;
    let facts = parse_python(source);

    assert!(facts.imports.iter().any(|i| i.path == "os"));
    assert!(facts.imports.iter().any(|i| i.path == "sys"));
    assert!(facts.imports.iter().any(|i| i.path == "collections"));
    assert!(facts.imports.iter().any(|i| i.path == "typing"));
}

#[test]
fn python_test_extract_functions() {
    let source = r#"
def simple():
    pass

def with_args(x, y):
    return x + y

class MyClass:
    def method(self):
        pass
"#;
    let facts = parse_python(source);

    assert!(facts.declarations.iter().any(|d| d.name == "simple"));
    assert!(facts.declarations.iter().any(|d| d.name == "with_args"));
    assert!(facts.declarations.iter().any(|d| d.name == "MyClass"));
}

#[test]
fn python_test_stub_detection() {
    let source = r#"
def abstract_method():
    raise NotImplementedError()

def guard_function():
    raise ValueError("invalid input")

def immutable_guard():
    raise AttributeError("cannot modify")

def actual_stub():
    raise Exception("not implemented")

def stub_pass():
    pass

def stub_none():
    return None
"#;
    let facts = parse_python(source);

    // NotImplementedError is Python's abstract method pattern - NOT a stub
    let abstract_method = facts
        .declarations
        .iter()
        .find(|d| d.name == "abstract_method")
        .unwrap();
    assert!(
        !abstract_method.body.as_ref().unwrap().is_panic_only,
        "NotImplementedError should not be flagged as stub"
    );

    // ValueError, TypeError, AttributeError etc. are intentional guard functions - NOT stubs
    let guard = facts
        .declarations
        .iter()
        .find(|d| d.name == "guard_function")
        .unwrap();
    assert!(
        !guard.body.as_ref().unwrap().is_panic_only,
        "ValueError guard should not be flagged as stub"
    );

    let immutable = facts
        .declarations
        .iter()
        .find(|d| d.name == "immutable_guard")
        .unwrap();
    assert!(
        !immutable.body.as_ref().unwrap().is_panic_only,
        "AttributeError guard should not be flagged as stub"
    );

    // Only generic Exception with stub-like messages ARE stubs
    let actual_stub = facts
        .declarations
        .iter()
        .find(|d| d.name == "actual_stub")
        .unwrap();
    assert!(
        actual_stub.body.as_ref().unwrap().is_panic_only,
        "Generic Exception('not implemented') should be flagged as stub"
    );

    let stub_pass = facts
        .declarations
        .iter()
        .find(|d| d.name == "stub_pass")
        .unwrap();
    assert!(stub_pass.body.as_ref().unwrap().is_nil_return_only);

    let stub_none = facts
        .declarations
        .iter()
        .find(|d| d.name == "stub_none")
        .unwrap();
    assert!(stub_none.body.as_ref().unwrap().is_nil_return_only);
}

#[test]
fn python_classes_and_functions_have_kinds_and_bodies() {
    let source = "class A:\n    pass\n\ndef f(x):\n    if x and x > 1:\n        return 1\n    return 2\n";
    let facts = parse_python(source);
    assert_eq!(facts.language, "python");
    assert_eq!(facts.package, None);
    assert_eq!(facts.declarations.len(), 2);
    assert_eq!(facts.declarations[0].name, "A");
    assert_eq!(facts.declarations[0].kind, DeclarationKind::Type);
    assert!(facts.declarations[0].body.is_none());
    let f = &facts.declarations[1];
    assert_eq!(f.kind, DeclarationKind::Function);
    let body = f.body.as_ref().unwrap();
    assert_eq!(body.statement_count, 2);
    // 1 base + 1 if + 1 and = 3
    assert_eq!(body.control_flow.cyclomatic_complexity(), 3);
}

#[test]
fn python_todo_docstring_marks_a_stub() {
    let source = "def f():\n    \"\"\"TODO: write this\"\"\"\n    pass\n\ndef g():\n    \"\"\"Does things.\"\"\"\n    pass\n";
    let facts = parse_python(source);
    assert!(facts.find_declaration("f").unwrap().body.as_ref().unwrap().has_only_todo_comment);
    assert!(!facts.find_declaration("g").unwrap().body.as_ref().unwrap().has_only_todo_comment);
}

#[test]
fn python_imports_sorted_once() {
    let facts = parse_python("import sys\nimport os\nimport sys\n");
    let paths: Vec<&str> = facts.imports.iter().map(|i| i.path.as_str()).collect();
    assert_eq!(paths, vec!["os", "sys"]);
}

#[test]
fn analyze_source_reads_python_files() {
    let mut ctx = AnalysisContext::new("/project");
    assert_eq!(ctx.analyze_source("app.py", "def main():\n    pass\n"), Ok(true));
    let facts = ctx.facts_for_file("app.py").unwrap();
    assert_eq!(facts.language, "python");
    assert_eq!(facts.declarations.len(), 1);
}
