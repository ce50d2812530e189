//! Python language configuration for tree-sitter parsing.
use vstd::prelude::*;

use crate::parser::treesitter::{Config, SymbolCapture, TreeSitterParser};
use crate::parser::ParserLanguage;

verus! {

/// Tree-sitter query for finding Python symbols: function names and class
/// names.
pub const SYMBOL_QUERY: &'static str = "
(function_definition name: (identifier) @func_name) @function
(class_definition name: (identifier) @class_name) @class
";

/// Tree-sitter query for finding Python functions by name.
pub const FUNCTION_QUERY: &'static str = "
(function_definition name: (identifier) @name) @func
";

/// Tree-sitter query for counting cyclomatic complexity in Python: if and
/// elif, for and while loops, except clauses, with statements, conditional
/// expressions, boolean operators and comprehensions.
pub const COMPLEXITY_QUERY: &'static str = "
(if_statement) @branch
(elif_clause) @branch
(for_statement) @branch
(while_statement) @branch
(except_clause) @branch
(with_statement) @branch
(conditional_expression) @branch
(boolean_operator operator: \"and\") @branch
(boolean_operator operator: \"or\") @branch
(list_comprehension) @branch
(dictionary_comprehension) @branch
(set_comprehension) @branch
(generator_expression) @branch
";

/// Create a new Python parser.
pub fn new_parser() -> (r: TreeSitterParser)
    ensures
        r.language == ParserLanguage::Python,
        r.config.language_name@ == "python"@,
        r.config.symbol_query@ == SYMBOL_QUERY@,
        r.config.complexity_query@ == COMPLEXITY_QUERY@,
        r.config.function_query@ == FUNCTION_QUERY@,
        r.config.function_capture@ == "func"@,
        r.config.func_name_capture@ == "name"@,
        r.config.symbol_captures@.len() == 2,
        r.config.symbol_captures@[0].name_capture@ == "func_name"@,
        r.config.symbol_captures@[0].kind@ == "function"@,
        r.config.symbol_captures@[1].name_capture@ == "class_name"@,
        r.config.symbol_captures@[1].kind@ == "type"@,
{
    let captures = vec![
        SymbolCapture { name_capture: "func_name", kind: "function" },
        SymbolCapture { name_capture: "class_name", kind: "type" },
    ];
    TreeSitterParser::new(
        ParserLanguage::Python,
        Config {
            language_name: "python",
            symbol_query: SYMBOL_QUERY,
            symbol_captures: captures,
            complexity_query: COMPLEXITY_QUERY,
            function_query: FUNCTION_QUERY,
            function_capture: "func",
            func_name_capture: "name",
        },
    )
}

} // verus!
