//! Go language configuration for tree-sitter parsing.
use vstd::prelude::*;

use crate::parser::treesitter::{Config, SymbolCapture, TreeSitterParser};
use crate::parser::ParserLanguage;

verus! {

/// Tree-sitter query for finding Go symbols.
///
/// Captures:
/// - `func_name`: Function names
/// - `method_name`: Method names (functions with receivers)
/// - `type_name`: Type names
/// - `const_name`: Constant names
pub const SYMBOL_QUERY: &'static str = "
(function_declaration name: (identifier) @func_name) @function
(method_declaration name: (field_identifier) @method_name) @method
(type_declaration (type_spec name: (type_identifier) @type_name)) @type
(const_declaration (const_spec name: (identifier) @const_name)) @const
";

/// Tree-sitter query for finding Go functions by name.
pub const FUNCTION_QUERY: &'static str = "
(function_declaration name: (identifier) @name) @func
(method_declaration name: (field_identifier) @name) @func
";

/// Tree-sitter query for counting cyclomatic complexity in Go: if
/// statements, for loops, switch and select statements, case clauses and
/// logical operators.
pub const COMPLEXITY_QUERY: &'static str = "
(if_statement) @branch
(for_statement) @branch
(expression_switch_statement) @branch
(type_switch_statement) @branch
(select_statement) @branch
(communication_case) @branch
(expression_case) @branch
(type_case) @branch
(binary_expression operator: \"&&\") @branch
(binary_expression operator: \"||\") @branch
";

/// Create a new Go parser.
pub fn new_parser() -> (r: TreeSitterParser)
    ensures
        r.language == ParserLanguage::Go,
        r.config.language_name@ == "go"@,
        r.config.symbol_query@ == SYMBOL_QUERY@,
        r.config.complexity_query@ == COMPLEXITY_QUERY@,
        r.config.function_query@ == FUNCTION_QUERY@,
        r.config.function_capture@ == "func"@,
        r.config.func_name_capture@ == "name"@,
        r.config.symbol_captures@.len() == 4,
        r.config.symbol_captures@[0].name_capture@ == "func_name"@,
        r.config.symbol_captures@[0].kind@ == "function"@,
        r.config.symbol_captures@[1].name_capture@ == "method_name"@,
        r.config.symbol_captures@[1].kind@ == "method"@,
        r.config.symbol_captures@[2].name_capture@ == "type_name"@,
        r.config.symbol_captures@[2].kind@ == "type"@,
        r.config.symbol_captures@[3].name_capture@ == "const_name"@,
        r.config.symbol_captures@[3].kind@ == "const"@,
{
    let captures = vec![
        SymbolCapture { name_capture: "func_name", kind: "function" },
        SymbolCapture { name_capture: "method_name", kind: "method" },
        SymbolCapture { name_capture: "type_name", kind: "type" },
        SymbolCapture { name_capture: "const_name", kind: "const" },
    ];
    TreeSitterParser::new(
        ParserLanguage::Go,
        Config {
            language_name: "go",
            symbol_query: SYMBOL_QUERY,
            symbol_captures: captures,
            complexity_query: COMPLEXITY_QUERY,
            function_query: FUNCTION_QUERY,
            function_capture: "func",
            func_name_capture: "name",
        },
    )
}

} // verus!
