//! JavaScript language configuration for tree-sitter parsing.
use vstd::prelude::*;

use crate::parser::treesitter::{Config, SymbolCapture, TreeSitterParser};
use crate::parser::ParserLanguage;

verus! {

/// Tree-sitter query for finding JavaScript symbols.
///
/// Captures:
/// - `func_name`: Function names from function declarations
/// - `method_name`: Method names from class methods
/// - `class_name`: Class names
pub const SYMBOL_QUERY: &'static str = "
(function_declaration name: (identifier) @func_name) @function
(method_definition name: (property_identifier) @method_name) @method
(class_declaration name: (identifier) @class_name) @class
";

/// Tree-sitter query for finding JavaScript functions by name.
pub const FUNCTION_QUERY: &'static str = "
(function_declaration name: (identifier) @name) @func
(method_definition name: (property_identifier) @name) @func
(arrow_function) @func
";

/// Tree-sitter query for counting cyclomatic complexity in JavaScript.
///
/// Counts:
/// - if statements
/// - for loops (including for-in)
/// - while loops
/// - do-while loops
/// - switch statements
/// - switch cases
/// - catch clauses
/// - ternary expressions
/// - logical operators (&&, ||, ??)
pub const COMPLEXITY_QUERY: &'static str = "
(if_statement) @branch
(for_statement) @branch
(for_in_statement) @branch
(while_statement) @branch
(do_statement) @branch
(switch_statement) @branch
(switch_case) @branch
(catch_clause) @branch
(ternary_expression) @branch
(binary_expression operator: \"&&\") @branch
(binary_expression operator: \"||\") @branch
(binary_expression operator: \"??\") @branch
";

/// Create a new JavaScript parser.
pub fn new_parser() -> (r: TreeSitterParser)
    ensures
        r.language == ParserLanguage::JavaScript,
        r.config.language_name@ == "javascript"@,
        r.config.symbol_query@ == SYMBOL_QUERY@,
        r.config.complexity_query@ == COMPLEXITY_QUERY@,
        r.config.function_query@ == FUNCTION_QUERY@,
        r.config.function_capture@ == "func"@,
        r.config.func_name_capture@ == "name"@,
        r.config.symbol_captures@.len() == 3,
        r.config.symbol_captures@[0].name_capture@ == "func_name"@,
        r.config.symbol_captures@[0].kind@ == "function"@,
        r.config.symbol_captures@[1].name_capture@ == "method_name"@,
        r.config.symbol_captures@[1].kind@ == "method"@,
        r.config.symbol_captures@[2].name_capture@ == "class_name"@,
        r.config.symbol_captures@[2].kind@ == "type"@,
{
    let captures = vec![
        SymbolCapture { name_capture: "func_name", kind: "function" },
        SymbolCapture { name_capture: "method_name", kind: "method" },
        SymbolCapture { name_capture: "class_name", kind: "type" },
    ];
    TreeSitterParser::new(
        ParserLanguage::JavaScript,
        Config {
            language_name: "javascript",
            symbol_query: SYMBOL_QUERY,
            symbol_captures: captures,
            complexity_query: COMPLEXITY_QUERY,
            function_query: FUNCTION_QUERY,
            function_capture: "func",
            func_name_capture: "name",
        },
    )
}

} // verus!
