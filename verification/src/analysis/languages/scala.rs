//! The Scala analyzer: declarations, imports and function bodies of a
//! Scala source file, read off its syntax tree and query matches by the
//! language tables.
use vstd::prelude::*;

use crate::analysis::facts::{FactsView, FileFacts};
use crate::analysis::languages::tables::{
    bodies_needed, facts_from_syntax, needs_bodies, table_facts_hold, Grammar,
};
use crate::analysis::syntax::{
    matches_view, scala_matches, scala_query_of, scala_tree, scala_tree_spec, Capture, CaptureView,
};
use crate::text::chars_of;

verus! {

/// Tree-sitter query for Scala declarations.
pub const DECLARATION_QUERY: &'static str = "
; Function definitions
(function_definition
  name: (identifier) @func_name
) @function

; Value definitions (val/var with function type)
(val_definition
  pattern: (identifier) @val_name
) @val

; Class definitions
(class_definition
  name: (identifier) @class_name
) @class

; Object definitions
(object_definition
  name: (identifier) @object_name
) @object

; Trait definitions
(trait_definition
  name: (identifier) @trait_name
) @trait
";

/// Tree-sitter query for control flow nodes (complexity calculation).
pub const CONTROL_FLOW_QUERY: &'static str = "
(if_expression) @if
(for_expression) @for
(while_expression) @while
(match_expression) @match
(case_clause) @case
(try_expression) @try
(catch_clause) @catch
";

/// Tree-sitter query for imports and the package clause.
pub const IMPORT_QUERY: &'static str = "
; import scala.collection.mutable
(import_declaration) @import

; Package declaration
(package_clause) @package
";

/// Whether the parser gives a tree of the source and the queries run over it.
pub open spec fn scala_source_parses(source: &str) -> bool {
    &&& scala_tree_spec(source) is Some
    &&& scala_query_of(source@, DECLARATION_QUERY@) is Some
    &&& scala_query_of(source@, IMPORT_QUERY@) is Some
    &&& (scala_query_of(source@, CONTROL_FLOW_QUERY@) is Some || !needs_bodies(
        Grammar::Scala,
        scala_tree_spec(source)->0,
        scala_query_of(source@, DECLARATION_QUERY@)->0,
    ))
}

/// The matches of the control-flow query, none where it cannot run.
pub open spec fn scala_control(source: &str) -> Seq<Seq<CaptureView>> {
    match scala_query_of(source@, CONTROL_FLOW_QUERY@) {
        Some(c) => c,
        None => Seq::empty(),
    }
}

/// What the facts of a Scala source are, read off its syntax tree and the
/// matches of the queries.
pub open spec fn scala_source_facts(f: FactsView, path: Seq<char>, source: &str) -> bool {
    &&& scala_source_parses(source)
    &&& table_facts_hold(
        Grammar::Scala,
        f,
        path,
        scala_tree_spec(source)->0,
        scala_query_of(source@, DECLARATION_QUERY@)->0,
        scala_query_of(source@, IMPORT_QUERY@),
        scala_control(source),
    )
}

/// Scala language analyzer.
pub struct ScalaAnalyzer {}

impl ScalaAnalyzer {
    /// Create a new Scala analyzer.
    pub fn new() -> (r: ScalaAnalyzer) {
        ScalaAnalyzer {  }
    }

    /// The language identifier.
    pub fn language_id(&self) -> (r: &'static str)
        ensures
            r@ == "scala"@,
    {
        "scala"
    }

    /// The globs of the files this analyzer reads.
    pub fn file_globs(&self) -> (r: Vec<&'static str>)
        ensures
            r@.len() == 2,
            r@[0]@ == "**/*.scala"@,
            r@[1]@ == "**/*.sc"@,
    {
        vec!["**/*.scala", "**/*.sc"]
    }

    /// The extensions of the files this analyzer reads.
    pub fn file_extensions(&self) -> (r: Vec<&'static str>)
        ensures
            r@.len() == 2,
            r@[0]@ == "scala"@,
            r@[1]@ == "sc"@,
    {
        vec!["scala", "sc"]
    }

    /// Parses a Scala source file and extracts its facts. Fails when the
    /// parser gives no tree or a query cannot run; the control-flow query
    /// only matters where a declaration has a body to read.
    pub fn extract_facts(&self, path: &str, source: &str) -> (r: Result<FileFacts, String>)
        ensures
            match r {
                Ok(f) => scala_source_facts(f@, path@, source),
                Err(e) => !scala_source_parses(source) && if scala_tree_spec(source) is None {
                    e@ == "failed to parse Scala source: "@ + path@
                } else {
                    e@ == "failed to run a Scala query on: "@ + path@
                },
            },
    {
        let tree = match scala_tree(source) {
            Some(t) => t,
            None => {
                let m = crate::text::concat_str(chars_of("failed to parse Scala source: ").as_slice(), path);
                return Err(crate::text::string_of(m.as_slice()));
            },
        };
        let query_error = crate::text::string_of(
            crate::text::concat_str(chars_of("failed to run a Scala query on: ").as_slice(), path).as_slice(),
        );
        let decls = match scala_matches(source, DECLARATION_QUERY) {
            Some(d) => d,
            None => return Err(query_error),
        };
        let imports = match scala_matches(source, IMPORT_QUERY) {
            Some(i) => Some(i),
            None => return Err(query_error),
        };
        let control = match scala_matches(source, CONTROL_FLOW_QUERY) {
            Some(c) => c,
            None => {
                if bodies_needed(Grammar::Scala, &tree, &decls) {
                    return Err(query_error);
                }
                let none: Vec<Vec<Capture>> = Vec::new();
                assert(matches_view(none@) =~= Seq::<Seq<CaptureView>>::empty());
                none
            },
        };
        Ok(facts_from_syntax(Grammar::Scala, path, &tree, &decls, &imports, &control))
    }
}

} // verus!
