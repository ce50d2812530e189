//! Java language configuration for tree-sitter parsing.
use vstd::prelude::*;

use crate::parser::treesitter::{Config, SymbolCapture, TreeSitterParser};
use crate::parser::ParserLanguage;

verus! {

/// Tree-sitter query for finding Java symbols.
///
/// Captures:
/// - `class_name`: Class names
/// - `interface_name`: Interface names
/// - `enum_name`: Enum names
/// - `method_name`: Method names
pub const SYMBOL_QUERY: &'static str = "
(class_declaration name: (identifier) @class_name) @class
(interface_declaration name: (identifier) @interface_name) @interface
(enum_declaration name: (identifier) @enum_name) @enum
(method_declaration name: (identifier) @method_name) @method
";

/// Tree-sitter query for finding Java methods by name.
pub const FUNCTION_QUERY: &'static str = "
(method_declaration name: (identifier) @name) @func
(constructor_declaration name: (identifier) @name) @func
";

/// Tree-sitter query for counting cyclomatic complexity in Java.
///
/// Counts:
/// - if statements
/// - for loops (regular and enhanced)
/// - while/do-while loops
/// - switch cases
/// - catch clauses
/// - ternary expressions
/// - logical operators (&&, ||)
pub const COMPLEXITY_QUERY: &'static str = "
(if_statement) @branch
(for_statement) @branch
(enhanced_for_statement) @branch
(while_statement) @branch
(do_statement) @branch
(switch_expression) @branch
(switch_block_statement_group) @branch
(catch_clause) @branch
(ternary_expression) @branch
(binary_expression operator: \"&&\") @branch
(binary_expression operator: \"||\") @branch
";

/// Create a new Java parser.
pub fn new_parser() -> (r: TreeSitterParser)
    ensures
        r.language == ParserLanguage::Java,
        r.config.language_name@ == "java"@,
        r.config.symbol_query@ == SYMBOL_QUERY@,
        r.config.complexity_query@ == COMPLEXITY_QUERY@,
        r.config.function_query@ == FUNCTION_QUERY@,
        r.config.function_capture@ == "func"@,
        r.config.func_name_capture@ == "name"@,
        r.config.symbol_captures@.len() == 4,
        r.config.symbol_captures@[0].name_capture@ == "class_name"@,
        r.config.symbol_captures@[0].kind@ == "type"@,
        r.config.symbol_captures@[1].name_capture@ == "interface_name"@,
        r.config.symbol_captures@[1].kind@ == "type"@,
        r.config.symbol_captures@[2].name_capture@ == "enum_name"@,
        r.config.symbol_captures@[2].kind@ == "type"@,
        r.config.symbol_captures@[3].name_capture@ == "method_name"@,
        r.config.symbol_captures@[3].kind@ == "method"@,
{
    let captures = vec![
        SymbolCapture { name_capture: "class_name", kind: "type" },
        SymbolCapture { name_capture: "interface_name", kind: "type" },
        SymbolCapture { name_capture: "enum_name", kind: "type" },
        SymbolCapture { name_capture: "method_name", kind: "method" },
    ];
    TreeSitterParser::new(
        ParserLanguage::Java,
        Config {
            language_name: "java",
            symbol_query: SYMBOL_QUERY,
            symbol_captures: captures,
            complexity_query: COMPLEXITY_QUERY,
            function_query: FUNCTION_QUERY,
            function_capture: "func",
            func_name_capture: "name",
        },
    )
}

} // verus!
