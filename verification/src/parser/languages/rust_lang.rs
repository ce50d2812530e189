//! Rust language configuration for tree-sitter parsing.
use vstd::prelude::*;

use crate::parser::treesitter::{Config, SymbolCapture, TreeSitterParser};
use crate::parser::ParserLanguage;

verus! {

/// Tree-sitter query for finding Rust symbols: functions, methods (inside
/// impl blocks), structs, enums, traits, type aliases and constants.
pub const SYMBOL_QUERY: &'static str = "
(function_item name: (identifier) @func_name) @function
(impl_item (declaration_list (function_item name: (identifier) @method_name))) @method
(struct_item name: (type_identifier) @struct_name) @struct
(enum_item name: (type_identifier) @enum_name) @enum
(trait_item name: (type_identifier) @trait_name) @trait
(type_item name: (type_identifier) @type_name) @type
(const_item name: (identifier) @const_name) @const
";

/// Tree-sitter query for finding Rust functions by name.
pub const FUNCTION_QUERY: &'static str = "
(function_item name: (identifier) @name) @func
";

/// Tree-sitter query for counting cyclomatic complexity in Rust: if
/// expressions and else clauses, for, while and loop expressions, match
/// expressions and arms, and logical operators.
pub const COMPLEXITY_QUERY: &'static str = "
(if_expression) @branch
(else_clause) @branch
(for_expression) @branch
(while_expression) @branch
(loop_expression) @branch
(match_expression) @branch
(match_arm) @branch
(binary_expression operator: \"&&\") @branch
(binary_expression operator: \"||\") @branch
";

/// Create a new Rust parser.
pub fn new_parser() -> (r: TreeSitterParser)
    ensures
        r.language == ParserLanguage::Rust,
        r.config.language_name@ == "rust"@,
        r.config.symbol_query@ == SYMBOL_QUERY@,
        r.config.complexity_query@ == COMPLEXITY_QUERY@,
        r.config.function_query@ == FUNCTION_QUERY@,
        r.config.function_capture@ == "func"@,
        r.config.func_name_capture@ == "name"@,
        r.config.symbol_captures@.len() == 7,
        r.config.symbol_captures@[0].name_capture@ == "func_name"@,
        r.config.symbol_captures@[0].kind@ == "function"@,
        r.config.symbol_captures@[1].name_capture@ == "method_name"@,
        r.config.symbol_captures@[1].kind@ == "method"@,
        r.config.symbol_captures@[2].name_capture@ == "struct_name"@,
        r.config.symbol_captures@[2].kind@ == "type"@,
        r.config.symbol_captures@[3].name_capture@ == "enum_name"@,
        r.config.symbol_captures@[3].kind@ == "type"@,
        r.config.symbol_captures@[4].name_capture@ == "trait_name"@,
        r.config.symbol_captures@[4].kind@ == "type"@,
        r.config.symbol_captures@[5].name_capture@ == "type_name"@,
        r.config.symbol_captures@[5].kind@ == "type"@,
        r.config.symbol_captures@[6].name_capture@ == "const_name"@,
        r.config.symbol_captures@[6].kind@ == "const"@,
{
    let captures = vec![
        SymbolCapture { name_capture: "func_name", kind: "function" },
        SymbolCapture { name_capture: "method_name", kind: "method" },
        SymbolCapture { name_capture: "struct_name", kind: "type" },
        SymbolCapture { name_capture: "enum_name", kind: "type" },
        SymbolCapture { name_capture: "trait_name", kind: "type" },
        SymbolCapture { name_capture: "type_name", kind: "type" },
        SymbolCapture { name_capture: "const_name", kind: "const" },
    ];
    TreeSitterParser::new(
        ParserLanguage::Rust,
        Config {
            language_name: "rust",
            symbol_query: SYMBOL_QUERY,
            symbol_captures: captures,
            complexity_query: COMPLEXITY_QUERY,
            function_query: FUNCTION_QUERY,
            function_capture: "func",
            func_name_capture: "name",
        },
    )
}

} // verus!
