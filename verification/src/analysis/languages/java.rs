//! The Java analyzer: declarations, imports and function bodies of a
//! Java source file, read off its syntax tree and query matches by the
//! language tables.
use vstd::prelude::*;

use crate::analysis::facts::{FactsView, FileFacts};
use crate::analysis::languages::tables::{
    bodies_needed, facts_from_syntax, needs_bodies, table_facts_hold, Grammar,
};
use crate::analysis::syntax::{
    matches_view, java_matches, java_query_of, java_tree, java_tree_spec, Capture, CaptureView,
};
use crate::text::chars_of;

verus! {

/// Tree-sitter query for Java declarations.
pub const DECLARATION_QUERY: &'static str = "
; Method declarations
(method_declaration
  name: (identifier) @method_name
) @method

; Constructor declarations
(constructor_declaration
  name: (identifier) @constructor_name
) @constructor

; Class declarations
(class_declaration
  name: (identifier) @class_name
) @class

; Interface declarations
(interface_declaration
  name: (identifier) @interface_name
) @interface

; Enum declarations
(enum_declaration
  name: (identifier) @enum_name
) @enum
";

/// Tree-sitter query for control flow nodes (complexity calculation).
pub const CONTROL_FLOW_QUERY: &'static str = "
(if_statement) @if
(for_statement) @for
(enhanced_for_statement) @for_each
(while_statement) @while
(do_statement) @do
(switch_expression) @switch
(switch_block_statement_group) @case
(conditional_expression) @ternary
(binary_expression operator: \"&&\") @and
(binary_expression operator: \"||\") @or
(try_statement) @try
(catch_clause) @catch
";

/// Whether the parser gives a tree of the source and the queries run over it.
pub open spec fn java_source_parses(source: &str) -> bool {
    &&& java_tree_spec(source) is Some
    &&& java_query_of(source@, DECLARATION_QUERY@) is Some
    &&& (java_query_of(source@, CONTROL_FLOW_QUERY@) is Some || !needs_bodies(
        Grammar::Java,
        java_tree_spec(source)->0,
        java_query_of(source@, DECLARATION_QUERY@)->0,
    ))
}

/// The matches of the control-flow query, none where it cannot run.
pub open spec fn java_control(source: &str) -> Seq<Seq<CaptureView>> {
    match java_query_of(source@, CONTROL_FLOW_QUERY@) {
        Some(c) => c,
        None => Seq::empty(),
    }
}

/// What the facts of a Java source are, read off its syntax tree and the
/// matches of the queries.
pub open spec fn java_source_facts(f: FactsView, path: Seq<char>, source: &str) -> bool {
    &&& java_source_parses(source)
    &&& table_facts_hold(
        Grammar::Java,
        f,
        path,
        java_tree_spec(source)->0,
        java_query_of(source@, DECLARATION_QUERY@)->0,
        None,
        java_control(source),
    )
}

/// Java language analyzer.
pub struct JavaAnalyzer {}

impl JavaAnalyzer {
    /// Create a new Java analyzer.
    pub fn new() -> (r: JavaAnalyzer) {
        JavaAnalyzer {  }
    }

    /// The language identifier.
    pub fn language_id(&self) -> (r: &'static str)
        ensures
            r@ == "java"@,
    {
        "java"
    }

    /// The globs of the files this analyzer reads.
    pub fn file_globs(&self) -> (r: Vec<&'static str>)
        ensures
            r@.len() == 1,
            r@[0]@ == "**/*.java"@,
    {
        vec!["**/*.java"]
    }

    /// The extensions of the files this analyzer reads.
    pub fn file_extensions(&self) -> (r: Vec<&'static str>)
        ensures
            r@.len() == 1,
            r@[0]@ == "java"@,
    {
        vec!["java"]
    }

    /// Parses a Java source file and extracts its facts. Fails when the
    /// parser gives no tree or a query cannot run; the control-flow query
    /// only matters where a declaration has a body to read.
    pub fn extract_facts(&self, path: &str, source: &str) -> (r: Result<FileFacts, String>)
        ensures
            match r {
                Ok(f) => java_source_facts(f@, path@, source),
                Err(e) => !java_source_parses(source) && if java_tree_spec(source) is None {
                    e@ == "failed to parse Java source: "@ + path@
                } else {
                    e@ == "failed to run a Java query on: "@ + path@
                },
            },
    {
        let tree = match java_tree(source) {
            Some(t) => t,
            None => {
                let m = crate::text::concat_str(chars_of("failed to parse Java source: ").as_slice(), path);
                return Err(crate::text::string_of(m.as_slice()));
            },
        };
        let query_error = crate::text::string_of(
            crate::text::concat_str(chars_of("failed to run a Java query on: ").as_slice(), path).as_slice(),
        );
        let decls = match java_matches(source, DECLARATION_QUERY) {
            Some(d) => d,
            None => return Err(query_error),
        };
        let imports: Option<Vec<Vec<Capture>>> = None;
        let control = match java_matches(source, CONTROL_FLOW_QUERY) {
            Some(c) => c,
            None => {
                if bodies_needed(Grammar::Java, &tree, &decls) {
                    return Err(query_error);
                }
                let none: Vec<Vec<Capture>> = Vec::new();
                assert(matches_view(none@) =~= Seq::<Seq<CaptureView>>::empty());
                none
            },
        };
        Ok(facts_from_syntax(Grammar::Java, path, &tree, &decls, &imports, &control))
    }
}

} // verus!
