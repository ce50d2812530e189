//! Scala language configuration for tree-sitter parsing.
use vstd::prelude::*;

use crate::parser::treesitter::{Config, SymbolCapture, TreeSitterParser};
use crate::parser::ParserLanguage;

verus! {

/// Tree-sitter query for finding Scala symbols.
///
/// Captures:
/// - `func_name`: Function names
/// - `class_name`: Class names
/// - `object_name`: Object (singleton) names
/// - `trait_name`: Trait names
pub const SYMBOL_QUERY: &'static str = "
(function_definition name: (identifier) @func_name) @function
(class_definition name: (identifier) @class_name) @class
(object_definition name: (identifier) @object_name) @object
(trait_definition name: (identifier) @trait_name) @trait
";

/// Tree-sitter query for finding Scala functions by name.
pub const FUNCTION_QUERY: &'static str = "
(function_definition name: (identifier) @name) @func
";

/// Tree-sitter query for counting cyclomatic complexity in Scala.
///
/// Counts:
/// - if expressions
/// - match expressions
/// - case clauses
/// - while expressions
/// - for expressions
/// - try expressions
/// - catch clauses
pub const COMPLEXITY_QUERY: &'static str = "
(if_expression) @branch
(match_expression) @branch
(case_clause) @branch
(while_expression) @branch
(for_expression) @branch
(try_expression) @branch
(catch_clause) @branch
";

/// Create a new Scala parser.
pub fn new_parser() -> (r: TreeSitterParser)
    ensures
        r.language == ParserLanguage::Scala,
        r.config.language_name@ == "scala"@,
        r.config.symbol_query@ == SYMBOL_QUERY@,
        r.config.complexity_query@ == COMPLEXITY_QUERY@,
        r.config.function_query@ == FUNCTION_QUERY@,
        r.config.function_capture@ == "func"@,
        r.config.func_name_capture@ == "name"@,
        r.config.symbol_captures@.len() == 4,
        r.config.symbol_captures@[0].name_capture@ == "func_name"@,
        r.config.symbol_captures@[0].kind@ == "function"@,
        r.config.symbol_captures@[1].name_capture@ == "class_name"@,
        r.config.symbol_captures@[1].kind@ == "type"@,
        r.config.symbol_captures@[2].name_capture@ == "object_name"@,
        r.config.symbol_captures@[2].kind@ == "type"@,
        r.config.symbol_captures@[3].name_capture@ == "trait_name"@,
        r.config.symbol_captures@[3].kind@ == "type"@,
{
    let captures = vec![
        SymbolCapture { name_capture: "func_name", kind: "function" },
        SymbolCapture { name_capture: "class_name", kind: "type" },
        SymbolCapture { name_capture: "object_name", kind: "type" },
        SymbolCapture { name_capture: "trait_name", kind: "type" },
    ];
    TreeSitterParser::new(
        ParserLanguage::Scala,
        Config {
            language_name: "scala",
            symbol_query: SYMBOL_QUERY,
            symbol_captures: captures,
            complexity_query: COMPLEXITY_QUERY,
            function_query: FUNCTION_QUERY,
            function_capture: "func",
            func_name_capture: "name",
        },
    )
}

} // verus!
