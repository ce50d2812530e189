use hollowcheck::analysis::context::AnalysisContext;
use hollowcheck::analysis::facts::{DeclarationKind, FileFacts};
use hollowcheck::analysis::languages::c::CAnalyzer;
use hollowcheck::analysis::languages::java::JavaAnalyzer;
use hollowcheck::analysis::languages::scala::ScalaAnalyzer;
use hollowcheck::analysis::languages::swift::SwiftAnalyzer;
use hollowcheck::analysis::languages::typescript::TypeScriptAnalyzer;

fn ts(source: &str) -> FileFacts {
    TypeScriptAnalyzer::new().extract_facts("test.ts", source).unwrap()
}

fn c(source: &str) -> FileFacts {
    CAnalyzer::new().extract_facts("test.c", source).unwrap()
}

fn scala(source: &str) -> FileFacts {
    ScalaAnalyzer::new().extract_facts("Test.scala", source).unwrap()
}

fn swift(source: &str) -> FileFacts {
    SwiftAnalyzer::new().extract_facts("Test.swift", source).unwrap()
}

#[test]
fn typescript_test_extract_imports() {
    let source = r#"
import express from 'express';
import { Request, Response } from 'express';
import type { Handler } from './types';
import * as fs from 'fs';
"#;
    let facts = ts(source);

    assert!(facts.imports.iter().any(|i| i.path == "express"));
    assert!(facts.imports.iter().any(|i| i.path == "./types"));
    assert!(facts.imports.iter().any(|i| i.path == "fs"));
}

#[test]
fn typescript_test_extract_declarations() {
    let source = r#"
function hello() {}

const greet = () => {};

class MyClass {
    method() {}
}

interface MyInterface {
    prop: string;
}

type MyType = string | number;

enum Status {
    Active,
    Inactive
}
"#;
    let facts = ts(source);

    assert!(facts.declarations.iter().any(|d| d.name == "hello"));
    assert!(facts.declarations.iter().any(|d| d.name == "greet"));
    assert!(facts.declarations.iter().any(|d| d.name == "MyClass"));
    assert!(facts.declarations.iter().any(|d| d.name == "MyInterface"));
    assert!(facts.declarations.iter().any(|d| d.name == "MyType"));
    assert!(facts.declarations.iter().any(|d| d.name == "Status"));
}

#[test]
fn typescript_test_stub_detection() {
    let source = r#"
function throwOnly() {
    throw new Error("not implemented");
}

function nullOnly(): null {
    return null;
}

function undefinedOnly(): undefined {
    return undefined;
}
"#;
    let facts = ts(source);

    let throw_only = facts.declarations.iter().find(|d| d.name == "throwOnly").unwrap();
    assert!(throw_only.body.as_ref().unwrap().is_panic_only);

    let null_only = facts.declarations.iter().find(|d| d.name == "nullOnly").unwrap();
    assert!(null_only.body.as_ref().unwrap().is_nil_return_only);
}

#[test]
fn typescript_imports_are_kept_once_and_sorted() {
    let facts = ts("import b from \"zeta\";\nimport a from 'alpha';\nimport c from 'zeta';\n");
    let paths: Vec<&str> = facts.imports.iter().map(|i| i.path.as_str()).collect();
    assert_eq!(paths, vec!["alpha", "zeta"]);
    assert_eq!(facts.language, "typescript");
    assert_eq!(facts.package, None);
    assert!(!facts.has_parse_errors);
}

#[test]
fn typescript_control_flow_and_todo_body() {
    let source = r#"
function decide(x: number): number {
    if (x > 0 && x < 10) {
        for (let i = 0; i < x; i++) {}
    }
    return x ?? 0;
}

function later() {
    // TODO: write it
}
"#;
    let facts = ts(source);
    let decide = facts.declarations.iter().find(|d| d.name == "decide").unwrap();
    let cf = &decide.body.as_ref().unwrap().control_flow;
    assert_eq!(cf.if_count, 1);
    assert_eq!(cf.loop_count, 1);
    assert_eq!(cf.and_count, 2);
    assert_eq!(cf.or_count, 0);
    let later = facts.declarations.iter().find(|d| d.name == "later").unwrap();
    let body = later.body.as_ref().unwrap();
    assert!(body.is_empty);
    assert!(body.has_only_todo_comment);
}

#[test]
fn java_declarations_without_bodies() {
    let source = r#"
public class Service implements Runner {
    public Service() {}
}

interface Runner {}

enum Mode { ON, OFF }
"#;
    let facts = JavaAnalyzer::new().extract_facts("Service.java", source).unwrap();
    assert_eq!(facts.language, "java");
    assert!(facts.imports.is_empty());
    assert!(facts.declarations.iter().any(|d| d.name == "Service" && d.kind == DeclarationKind::Type));
    assert!(facts.declarations.iter().any(|d| d.name == "Runner" && d.kind == DeclarationKind::Interface));
    assert!(facts.declarations.iter().any(|d| d.name == "Mode" && d.kind == DeclarationKind::Enum));
    let ctor = facts
        .declarations
        .iter()
        .find(|d| d.name == "Service" && d.kind == DeclarationKind::Method)
        .unwrap();
    assert!(ctor.body.is_none());
}

#[test]
fn java_method_bodies_need_the_control_flow_query() {
    // The control-flow query names a node kind that this Java grammar does
    // not have, so a file with a method body cannot be analyzed.
    let source = "class Service {\n    String name() {\n        return null;\n    }\n}\n";
    let err = JavaAnalyzer::new().extract_facts("Service.java", source).unwrap_err();
    assert_eq!(err, "failed to run a Java query on: Service.java");
}

#[test]
fn test_extract_includes() {
    let source = r#"
#include <stdio.h>
#include <stdlib.h>
#include "myheader.h"

int main() {
    return 0;
}
"#;
    let facts = c(source);

    assert!(facts.imports.iter().any(|i| i.path == "stdio.h"));
    assert!(facts.imports.iter().any(|i| i.path == "stdlib.h"));
    assert!(facts.imports.iter().any(|i| i.path == "myheader.h"));
}

#[test]
fn c_test_extract_declarations() {
    let source = r#"
struct Point {
    int x;
    int y;
};

enum Color {
    RED,
    GREEN,
    BLUE
};

int add(int a, int b) {
    return a + b;
}
"#;
    let facts = c(source);

    assert!(facts.declarations.iter().any(|d| d.name == "Point" && d.kind == DeclarationKind::Struct));
    assert!(facts.declarations.iter().any(|d| d.name == "Color" && d.kind == DeclarationKind::Enum));
    assert!(facts.declarations.iter().any(|d| d.name == "add" && d.kind == DeclarationKind::Function));
}

#[test]
fn c_function_body_counts() {
    let source = "int pick(int a) {\n    if (a > 1 || a < -1) { return a; }\n    switch (a) { case 0: return 1; default: return 2; }\n}\n";
    let facts = c(source);
    let pick = facts.declarations.iter().find(|d| d.name == "pick").unwrap();
    let body = pick.body.as_ref().unwrap();
    assert_eq!(body.statement_count, 2);
    assert!(!body.is_panic_only);
    assert!(!body.is_nil_return_only);
    assert_eq!(body.control_flow.if_count, 1);
    assert_eq!(body.control_flow.or_count, 1);
    assert_eq!(body.control_flow.switch_count, 1);
    assert_eq!(body.control_flow.case_count, 2);
    assert_eq!(pick.span.start_line, 1);
}

#[test]
fn scala_test_extract_imports() {
    let source = r#"
package com.example

import scala.collection.mutable
import scala.util.Try

class Test
"#;
    let facts = scala(source);

    assert_eq!(facts.package, Some("com.example".to_string()));
    assert!(facts.imports.iter().any(|i| i.path == "scala.collection.mutable"));
    assert!(facts.imports.iter().any(|i| i.path == "scala.util.Try"));
}

#[test]
fn scala_test_extract_declarations() {
    let source = r#"
class MyClass {
  def myMethod(): Unit = {}
}

object MyObject

trait MyTrait {
  def abstractMethod(): Int
}
"#;
    let facts = scala(source);

    assert!(facts.declarations.iter().any(|d| d.name == "MyClass" && d.kind == DeclarationKind::Type));
    assert!(facts.declarations.iter().any(|d| d.name == "MyObject" && d.kind == DeclarationKind::Type));
    assert!(facts.declarations.iter().any(|d| d.name == "MyTrait" && d.kind == DeclarationKind::Interface));
}

#[test]
fn scala_todo_body_is_a_stub() {
    let source = "object Todo {\n  def later(): Int = {\n    // TODO: later\n  }\n}\n";
    let facts = scala(source);
    let later = facts.declarations.iter().find(|d| d.name == "later").unwrap();
    assert_eq!(later.kind, DeclarationKind::Method);
    let body = later.body.as_ref().unwrap();
    assert!(body.is_empty);
    assert!(body.has_only_todo_comment);
}

#[test]
fn swift_test_extract_imports() {
    let source = r#"
import Foundation
import UIKit

class Test {}
"#;
    let facts = swift(source);

    assert!(facts.imports.iter().any(|i| i.path == "Foundation"));
    assert!(facts.imports.iter().any(|i| i.path == "UIKit"));
}

#[test]
fn swift_test_extract_declarations() {
    let source = r#"
class MyClass {
    func myMethod() {}
}

func topLevelFunc() {}
"#;
    let facts = swift(source);

    assert!(facts.declarations.iter().any(|d| d.name == "MyClass" && d.kind == DeclarationKind::Type));
    assert!(facts.declarations.iter().any(|d| d.name == "topLevelFunc" && d.kind == DeclarationKind::Function));
}

#[test]
fn swift_test_stub_detection() {
    let source = r#"
func stubFatalError() {
    fatalError("not implemented")
}

func stubNil() -> String? {
    return nil
}
"#;
    let facts = swift(source);

    let fatal_error = facts.declarations.iter().find(|d| d.name == "stubFatalError").unwrap();
    assert!(fatal_error.body.as_ref().unwrap().is_panic_only);

    let stub_nil = facts.declarations.iter().find(|d| d.name == "stubNil").unwrap();
    assert!(stub_nil.body.as_ref().unwrap().is_nil_return_only);
}

#[test]
fn analyze_source_reads_the_table_languages() {
    let mut ctx = AnalysisContext::new("/proj");
    assert_eq!(ctx.analyze_source("web/app.ts", "function f() {}\n"), Ok(true));
    assert_eq!(ctx.analyze_source("lib/Main.java", "class Main {}\n"), Ok(true));
    assert_eq!(ctx.analyze_source("src/util.h", "struct S { int a; };\n"), Ok(true));
    assert_eq!(ctx.analyze_source("app/Main.scala", "object Main\n"), Ok(true));
    assert_eq!(ctx.analyze_source("app/Main.swift", "func main() {}\n"), Ok(true));
    assert_eq!(ctx.analyze_source("native/x.cpp", "int main() {}\n"), Ok(false));
    assert_eq!(ctx.analyze_source("web/x.js", "function f() {}\n"), Ok(false));
    assert_eq!(ctx.facts_for_file("web/app.ts").unwrap().language, "typescript");
    assert_eq!(ctx.facts_for_file("src/util.h").unwrap().language, "c");
    assert!(ctx.facts_for_file("native/x.cpp").is_none());
    assert_eq!(ctx.facts_by_language("swift").len(), 1);
}
