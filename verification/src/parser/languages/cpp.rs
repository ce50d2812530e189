//! C++ language configuration for tree-sitter parsing.
use vstd::prelude::*;

use crate::parser::treesitter::{Config, SymbolCapture, TreeSitterParser};
use crate::parser::ParserLanguage;

verus! {

/// Tree-sitter query for finding C++ symbols.
///
/// Captures:
/// - `func_name`: Function names
/// - `method_name`: Method names (qualified identifiers)
/// - `class_name`: Class names
/// - `struct_name`: Struct names
/// - `enum_name`: Enum names
/// - `typedef_name`: Typedef names
pub const SYMBOL_QUERY: &'static str = "
(function_definition declarator: (function_declarator declarator: (identifier) @func_name)) @function
(function_definition declarator: (function_declarator declarator: (qualified_identifier name: (identifier) @method_name))) @method
(class_specifier name: (type_identifier) @class_name) @class
(struct_specifier name: (type_identifier) @struct_name) @struct
(enum_specifier name: (type_identifier) @enum_name) @enum
(type_definition declarator: (type_identifier) @typedef_name) @typedef
";

/// Tree-sitter query for finding C++ functions by name.
pub const FUNCTION_QUERY: &'static str = "
(function_definition declarator: (function_declarator declarator: (identifier) @name)) @func
(function_definition declarator: (function_declarator declarator: (qualified_identifier name: (identifier) @name))) @func
";

/// Tree-sitter query for counting cyclomatic complexity in C++.
///
/// Counts:
/// - if statements
/// - else clauses
/// - for loops (including range-based)
/// - while loops
/// - do-while loops
/// - switch statements
/// - case statements
/// - catch clauses
/// - conditional expressions (ternary)
/// - logical operators (&&, ||)
pub const COMPLEXITY_QUERY: &'static str = "
(if_statement) @branch
(else_clause) @branch
(for_statement) @branch
(for_range_loop) @branch
(while_statement) @branch
(do_statement) @branch
(switch_statement) @branch
(case_statement) @branch
(catch_clause) @branch
(conditional_expression) @branch
(binary_expression operator: \"&&\") @branch
(binary_expression operator: \"||\") @branch
";

/// Create a new C++ parser.
pub fn new_parser() -> (r: TreeSitterParser)
    ensures
        r.language == ParserLanguage::Cpp,
        r.config.language_name@ == "cpp"@,
        r.config.symbol_query@ == SYMBOL_QUERY@,
        r.config.complexity_query@ == COMPLEXITY_QUERY@,
        r.config.function_query@ == FUNCTION_QUERY@,
        r.config.function_capture@ == "func"@,
        r.config.func_name_capture@ == "name"@,
        r.config.symbol_captures@.len() == 6,
        r.config.symbol_captures@[0].name_capture@ == "func_name"@,
        r.config.symbol_captures@[0].kind@ == "function"@,
        r.config.symbol_captures@[1].name_capture@ == "method_name"@,
        r.config.symbol_captures@[1].kind@ == "method"@,
        r.config.symbol_captures@[2].name_capture@ == "class_name"@,
        r.config.symbol_captures@[2].kind@ == "type"@,
        r.config.symbol_captures@[3].name_capture@ == "struct_name"@,
        r.config.symbol_captures@[3].kind@ == "type"@,
        r.config.symbol_captures@[4].name_capture@ == "enum_name"@,
        r.config.symbol_captures@[4].kind@ == "type"@,
        r.config.symbol_captures@[5].name_capture@ == "typedef_name"@,
        r.config.symbol_captures@[5].kind@ == "type"@,
{
    let captures = vec![
        SymbolCapture { name_capture: "func_name", kind: "function" },
        SymbolCapture { name_capture: "method_name", kind: "method" },
        SymbolCapture { name_capture: "class_name", kind: "type" },
        SymbolCapture { name_capture: "struct_name", kind: "type" },
        SymbolCapture { name_capture: "enum_name", kind: "type" },
        SymbolCapture { name_capture: "typedef_name", kind: "type" },
    ];
    TreeSitterParser::new(
        ParserLanguage::Cpp,
        Config {
            language_name: "cpp",
            symbol_query: SYMBOL_QUERY,
            symbol_captures: captures,
            complexity_query: COMPLEXITY_QUERY,
            function_query: FUNCTION_QUERY,
            function_capture: "func",
            func_name_capture: "name",
        },
    )
}

} // verus!
