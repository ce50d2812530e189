//! The TypeScript analyzer: declarations, imports and function bodies of a
//! TypeScript source file, read off its syntax tree and query matches by the
//! language tables.
use vstd::prelude::*;

use crate::analysis::facts::{FactsView, FileFacts};
use crate::analysis::languages::tables::{
    bodies_needed, facts_from_syntax, needs_bodies, table_facts_hold, Grammar,
};
use crate::analysis::syntax::{
    matches_view, typescript_matches, typescript_query_of, typescript_tree, typescript_tree_spec, Capture, CaptureView,
};
use crate::text::chars_of;

verus! {

/// Tree-sitter query for TypeScript declarations.
pub const DECLARATION_QUERY: &'static str = "
; Function declarations
(function_declaration
  name: (identifier) @func_name
) @function

; Function expressions assigned to variables
(variable_declarator
  name: (identifier) @var_func_name
  value: (function_expression)
) @var_function

; Arrow functions assigned to variables
(variable_declarator
  name: (identifier) @arrow_func_name
  value: (arrow_function)
) @arrow_function

; Method definitions in objects/classes
(method_definition
  name: (property_identifier) @method_name
) @method

; Class declarations
(class_declaration
  name: (type_identifier) @class_name
) @class

; Interface declarations
(interface_declaration
  name: (type_identifier) @interface_name
) @interface

; Type alias declarations
(type_alias_declaration
  name: (type_identifier) @type_alias_name
) @type_alias

; Enum declarations
(enum_declaration
  name: (identifier) @enum_name
) @enum
";

/// Tree-sitter query for control flow nodes (complexity calculation).
pub const CONTROL_FLOW_QUERY: &'static str = "
(if_statement) @if
(for_statement) @for
(for_in_statement) @for_in
(while_statement) @while
(do_statement) @do
(switch_statement) @switch
(switch_case) @case
(ternary_expression) @ternary
(binary_expression operator: \"&&\") @and
(binary_expression operator: \"||\") @or
(binary_expression operator: \"??\") @nullish
(try_statement) @try
(catch_clause) @catch
";

/// Tree-sitter query for imports.
pub const IMPORT_QUERY: &'static str = "
; import x from 'module'
(import_statement
  source: (string) @import_source
) @import

; import { x } from 'module'
(import_statement
  source: (string) @named_import_source
) @named_import

; import type { x } from 'module'
(import_statement
  source: (string) @type_import_source
) @type_import

; require('module')
(call_expression
  function: (identifier) @require_func (#eq? @require_func \"require\")
  arguments: (arguments (string) @require_source)
) @require

; export * from 'module'
(export_statement
  source: (string) @reexport_source
) @reexport
";

/// Whether the parser gives a tree of the source and the queries run over it.
pub open spec fn typescript_source_parses(source: &str) -> bool {
    &&& typescript_tree_spec(source) is Some
    &&& typescript_query_of(source@, DECLARATION_QUERY@) is Some
    &&& typescript_query_of(source@, IMPORT_QUERY@) is Some
    &&& (typescript_query_of(source@, CONTROL_FLOW_QUERY@) is Some || !needs_bodies(
        Grammar::TypeScript,
        typescript_tree_spec(source)->0,
        typescript_query_of(source@, DECLARATION_QUERY@)->0,
    ))
}

/// The matches of the control-flow query, none where it cannot run.
pub open spec fn typescript_control(source: &str) -> Seq<Seq<CaptureView>> {
    match typescript_query_of(source@, CONTROL_FLOW_QUERY@) {
        Some(c) => c,
        None => Seq::empty(),
    }
}

/// What the facts of a TypeScript source are, read off its syntax tree and the
/// matches of the queries.
pub open spec fn typescript_source_facts(f: FactsView, path: Seq<char>, source: &str) -> bool {
    &&& typescript_source_parses(source)
    &&& table_facts_hold(
        Grammar::TypeScript,
        f,
        path,
        typescript_tree_spec(source)->0,
        typescript_query_of(source@, DECLARATION_QUERY@)->0,
        typescript_query_of(source@, IMPORT_QUERY@),
        typescript_control(source),
    )
}

/// TypeScript language analyzer.
pub struct TypeScriptAnalyzer {}

impl TypeScriptAnalyzer {
    /// Create a new TypeScript analyzer.
    pub fn new() -> (r: TypeScriptAnalyzer) {
        TypeScriptAnalyzer {  }
    }

    /// The language identifier.
    pub fn language_id(&self) -> (r: &'static str)
        ensures
            r@ == "typescript"@,
    {
        "typescript"
    }

    /// The globs of the files this analyzer reads.
    pub fn file_globs(&self) -> (r: Vec<&'static str>)
        ensures
            r@.len() == 3,
            r@[0]@ == "**/*.ts"@,
            r@[1]@ == "**/*.tsx"@,
            r@[2]@ == "**/*.mts"@,
    {
        vec!["**/*.ts", "**/*.tsx", "**/*.mts"]
    }

    /// The extensions of the files this analyzer reads.
    pub fn file_extensions(&self) -> (r: Vec<&'static str>)
        ensures
            r@.len() == 3,
            r@[0]@ == "ts"@,
            r@[1]@ == "tsx"@,
            r@[2]@ == "mts"@,
    {
        vec!["ts", "tsx", "mts"]
    }

    /// Parses a TypeScript source file and extracts its facts. Fails when the
    /// parser gives no tree or a query cannot run; the control-flow query
    /// only matters where a declaration has a body to read.
    pub fn extract_facts(&self, path: &str, source: &str) -> (r: Result<FileFacts, String>)
        ensures
            match r {
                Ok(f) => typescript_source_facts(f@, path@, source),
                Err(e) => !typescript_source_parses(source) && if typescript_tree_spec(source) is None {
                    e@ == "failed to parse TypeScript source: "@ + path@
                } else {
                    e@ == "failed to run a TypeScript query on: "@ + path@
                },
            },
    {
        let tree = match typescript_tree(source) {
            Some(t) => t,
            None => {
                let m = crate::text::concat_str(chars_of("failed to parse TypeScript source: ").as_slice(), path);
                return Err(crate::text::string_of(m.as_slice()));
            },
        };
        let query_error = crate::text::string_of(
            crate::text::concat_str(chars_of("failed to run a TypeScript query on: ").as_slice(), path).as_slice(),
        );
        let decls = match typescript_matches(source, DECLARATION_QUERY) {
            Some(d) => d,
            None => return Err(query_error),
        };
        let imports = match typescript_matches(source, IMPORT_QUERY) {
            Some(i) => Some(i),
            None => return Err(query_error),
        };
        let control = match typescript_matches(source, CONTROL_FLOW_QUERY) {
            Some(c) => c,
            None => {
                if bodies_needed(Grammar::TypeScript, &tree, &decls) {
                    return Err(query_error);
                }
                let none: Vec<Vec<Capture>> = Vec::new();
                assert(matches_view(none@) =~= Seq::<Seq<CaptureView>>::empty());
                none
            },
        };
        Ok(facts_from_syntax(Grammar::TypeScript, path, &tree, &decls, &imports, &control))
    }
}

} // verus!
