//! The C analyzer: declarations, imports and function bodies of a
//! C source file, read off its syntax tree and query matches by the
//! language tables.
use vstd::prelude::*;

use crate::analysis::facts::{FactsView, FileFacts};
use crate::analysis::languages::tables::{
    bodies_needed, facts_from_syntax, needs_bodies, table_facts_hold, Grammar,
};
use crate::analysis::syntax::{
    matches_view, c_matches, c_query_of, c_tree, c_tree_spec, Capture, CaptureView,
};
use crate::text::chars_of;

verus! {

/// Tree-sitter query for C declarations.
pub const DECLARATION_QUERY: &'static str = "
; Function definitions
(function_definition
  declarator: (function_declarator
    declarator: (identifier) @func_name
  )
) @function

; Struct definitions
(struct_specifier
  name: (type_identifier) @struct_name
) @struct

; Enum definitions
(enum_specifier
  name: (type_identifier) @enum_name
) @enum

; Typedef definitions
(type_definition
  declarator: (type_identifier) @typedef_name
) @typedef
";

/// Tree-sitter query for control flow nodes (complexity calculation).
pub const CONTROL_FLOW_QUERY: &'static str = "
(if_statement) @if
(for_statement) @for
(while_statement) @while
(do_statement) @do
(switch_statement) @switch
(case_statement) @case
(conditional_expression) @ternary
(binary_expression operator: \"&&\") @and
(binary_expression operator: \"||\") @or
";

/// Tree-sitter query for imports.
pub const IMPORT_QUERY: &'static str = "
; #include <header.h>
(preproc_include
  path: (system_lib_string) @system_include
) @include_system

; #include \"header.h\"
(preproc_include
  path: (string_literal) @local_include
) @include_local
";

/// Whether the parser gives a tree of the source and the queries run over it.
pub open spec fn c_source_parses(source: &str) -> bool {
    &&& c_tree_spec(source) is Some
    &&& c_query_of(source@, DECLARATION_QUERY@) is Some
    &&& c_query_of(source@, IMPORT_QUERY@) is Some
    &&& (c_query_of(source@, CONTROL_FLOW_QUERY@) is Some || !needs_bodies(
        Grammar::C,
        c_tree_spec(source)->0,
        c_query_of(source@, DECLARATION_QUERY@)->0,
    ))
}

/// The matches of the control-flow query, none where it cannot run.
pub open spec fn c_control(source: &str) -> Seq<Seq<CaptureView>> {
    match c_query_of(source@, CONTROL_FLOW_QUERY@) {
        Some(c) => c,
        None => Seq::empty(),
    }
}

/// What the facts of a C source are, read off its syntax tree and the
/// matches of the queries.
pub open spec fn c_source_facts(f: FactsView, path: Seq<char>, source: &str) -> bool {
    &&& c_source_parses(source)
    &&& table_facts_hold(
        Grammar::C,
        f,
        path,
        c_tree_spec(source)->0,
        c_query_of(source@, DECLARATION_QUERY@)->0,
        c_query_of(source@, IMPORT_QUERY@),
        c_control(source),
    )
}

/// C language analyzer.
pub struct CAnalyzer {}

impl CAnalyzer {
    /// Create a new C analyzer.
    pub fn new() -> (r: CAnalyzer) {
        CAnalyzer {  }
    }

    /// The language identifier.
    pub fn language_id(&self) -> (r: &'static str)
        ensures
            r@ == "c"@,
    {
        "c"
    }

    /// The globs of the files this analyzer reads.
    pub fn file_globs(&self) -> (r: Vec<&'static str>)
        ensures
            r@.len() == 2,
            r@[0]@ == "**/*.c"@,
            r@[1]@ == "**/*.h"@,
    {
        vec!["**/*.c", "**/*.h"]
    }

    /// The extensions of the files this analyzer reads.
    pub fn file_extensions(&self) -> (r: Vec<&'static str>)
        ensures
            r@.len() == 2,
            r@[0]@ == "c"@,
            r@[1]@ == "h"@,
    {
        vec!["c", "h"]
    }

    /// Parses a C source file and extracts its facts. Fails when the
    /// parser gives no tree or a query cannot run; the control-flow query
    /// only matters where a declaration has a body to read.
    pub fn extract_facts(&self, path: &str, source: &str) -> (r: Result<FileFacts, String>)
        ensures
            match r {
                Ok(f) => c_source_facts(f@, path@, source),
                Err(e) => !c_source_parses(source) && if c_tree_spec(source) is None {
                    e@ == "failed to parse C source: "@ + path@
                } else {
                    e@ == "failed to run a C query on: "@ + path@
                },
            },
    {
        let tree = match c_tree(source) {
            Some(t) => t,
            None => {
                let m = crate::text::concat_str(chars_of("failed to parse C source: ").as_slice(), path);
                return Err(crate::text::string_of(m.as_slice()));
            },
        };
        let query_error = crate::text::string_of(
            crate::text::concat_str(chars_of("failed to run a C query on: ").as_slice(), path).as_slice(),
        );
        let decls = match c_matches(source, DECLARATION_QUERY) {
            Some(d) => d,
            None => return Err(query_error),
        };
        let imports = match c_matches(source, IMPORT_QUERY) {
            Some(i) => Some(i),
            None => return Err(query_error),
        };
        let control = match c_matches(source, CONTROL_FLOW_QUERY) {
            Some(c) => c,
            None => {
                if bodies_needed(Grammar::C, &tree, &decls) {
                    return Err(query_error);
                }
                let none: Vec<Vec<Capture>> = Vec::new();
                assert(matches_view(none@) =~= Seq::<Seq<CaptureView>>::empty());
                none
            },
        };
        Ok(facts_from_syntax(Grammar::C, path, &tree, &decls, &imports, &control))
    }
}

} // verus!
