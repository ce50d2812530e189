//! The Swift analyzer: declarations, imports and function bodies of a
//! Swift source file, read off its syntax tree and query matches by the
//! language tables.
use vstd::prelude::*;

use crate::analysis::facts::{FactsView, FileFacts};
use crate::analysis::languages::tables::{
    bodies_needed, facts_from_syntax, needs_bodies, table_facts_hold, Grammar,
};
use crate::analysis::syntax::{
    matches_view, swift_matches, swift_query_of, swift_tree, swift_tree_spec, Capture, CaptureView,
};
use crate::text::chars_of;

verus! {

/// Tree-sitter query for Swift declarations.
pub const DECLARATION_QUERY: &'static str = "
; Function declarations
(function_declaration
  name: (simple_identifier) @func_name
) @function

; Class declarations
(class_declaration
  name: (type_identifier) @class_name
) @class
";

/// Tree-sitter query for control flow nodes (complexity calculation).
pub const CONTROL_FLOW_QUERY: &'static str = "
(if_statement) @if
(for_statement) @for
(while_statement) @while
(repeat_while_statement) @repeat
(switch_statement) @switch
(switch_entry) @case
(ternary_expression) @ternary
(conjunction_expression) @and
(disjunction_expression) @or
(do_statement) @do
(catch_block) @catch
(guard_statement) @guard
";

/// Tree-sitter query for imports.
pub const IMPORT_QUERY: &'static str = "
; import Foundation
(import_declaration
  (identifier) @import_module
) @import
";

/// Whether the parser gives a tree of the source and the queries run over it.
pub open spec fn swift_source_parses(source: &str) -> bool {
    &&& swift_tree_spec(source) is Some
    &&& swift_query_of(source@, DECLARATION_QUERY@) is Some
    &&& swift_query_of(source@, IMPORT_QUERY@) is Some
    &&& (swift_query_of(source@, CONTROL_FLOW_QUERY@) is Some || !needs_bodies(
        Grammar::Swift,
        swift_tree_spec(source)->0,
        swift_query_of(source@, DECLARATION_QUERY@)->0,
    ))
}

/// The matches of the control-flow query, none where it cannot run.
pub open spec fn swift_control(source: &str) -> Seq<Seq<CaptureView>> {
    match swift_query_of(source@, CONTROL_FLOW_QUERY@) {
        Some(c) => c,
        None => Seq::empty(),
    }
}

/// What the facts of a Swift source are, read off its syntax tree and the
/// matches of the queries.
pub open spec fn swift_source_facts(f: FactsView, path: Seq<char>, source: &str) -> bool {
    &&& swift_source_parses(source)
    &&& table_facts_hold(
        Grammar::Swift,
        f,
        path,
        swift_tree_spec(source)->0,
        swift_query_of(source@, DECLARATION_QUERY@)->0,
        swift_query_of(source@, IMPORT_QUERY@),
        swift_control(source),
    )
}

/// Swift language analyzer.
pub struct SwiftAnalyzer {}

impl SwiftAnalyzer {
    /// Create a new Swift analyzer.
    pub fn new() -> (r: SwiftAnalyzer) {
        SwiftAnalyzer {  }
    }

    /// The language identifier.
    pub fn language_id(&self) -> (r: &'static str)
        ensures
            r@ == "swift"@,
    {
        "swift"
    }

    /// The globs of the files this analyzer reads.
    pub fn file_globs(&self) -> (r: Vec<&'static str>)
        ensures
            r@.len() == 1,
            r@[0]@ == "**/*.swift"@,
    {
        vec!["**/*.swift"]
    }

    /// The extensions of the files this analyzer reads.
    pub fn file_extensions(&self) -> (r: Vec<&'static str>)
        ensures
            r@.len() == 1,
            r@[0]@ == "swift"@,
    {
        vec!["swift"]
    }

    /// Parses a Swift source file and extracts its facts. Fails when the
    /// parser gives no tree or a query cannot run; the control-flow query
    /// only matters where a declaration has a body to read.
    pub fn extract_facts(&self, path: &str, source: &str) -> (r: Result<FileFacts, String>)
        ensures
            match r {
                Ok(f) => swift_source_facts(f@, path@, source),
                Err(e) => !swift_source_parses(source) && if swift_tree_spec(source) is None {
                    e@ == "failed to parse Swift source: "@ + path@
                } else {
                    e@ == "failed to run a Swift query on: "@ + path@
                },
            },
    {
        let tree = match swift_tree(source) {
            Some(t) => t,
            None => {
                let m = crate::text::concat_str(chars_of("failed to parse Swift source: ").as_slice(), path);
                return Err(crate::text::string_of(m.as_slice()));
            },
        };
        let query_error = crate::text::string_of(
            crate::text::concat_str(chars_of("failed to run a Swift query on: ").as_slice(), path).as_slice(),
        );
        let decls = match swift_matches(source, DECLARATION_QUERY) {
            Some(d) => d,
            None => return Err(query_error),
        };
        let imports = match swift_matches(source, IMPORT_QUERY) {
            Some(i) => Some(i),
            None => return Err(query_error),
        };
        let control = match swift_matches(source, CONTROL_FLOW_QUERY) {
            Some(c) => c,
            None => {
                if bodies_needed(Grammar::Swift, &tree, &decls) {
                    return Err(query_error);
                }
                let none: Vec<Vec<Capture>> = Vec::new();
                assert(matches_view(none@) =~= Seq::<Seq<CaptureView>>::empty());
                none
            },
        };
        Ok(facts_from_syntax(Grammar::Swift, path, &tree, &decls, &imports, &control))
    }
}

} // verus!
