//! Swift language configuration for tree-sitter parsing.
use vstd::prelude::*;

use crate::parser::treesitter::{Config, SymbolCapture, TreeSitterParser};
use crate::parser::ParserLanguage;

verus! {

/// Tree-sitter query for finding Swift symbols.
///
/// Captures:
/// - `func_name`: Function names
/// - `class_name`: Class, struct, enum, and actor names (all use class_declaration)
/// - `protocol_name`: Protocol names
pub const SYMBOL_QUERY: &'static str = "
(function_declaration name: (simple_identifier) @func_name) @function
(class_declaration name: (type_identifier) @class_name) @class
(protocol_declaration name: (type_identifier) @protocol_name) @protocol
";

/// Tree-sitter query for finding Swift functions by name.
pub const FUNCTION_QUERY: &'static str = "
(function_declaration name: (simple_identifier) @name) @func
";

/// Tree-sitter query for counting cyclomatic complexity in Swift.
///
/// Counts:
/// - if statements
/// - guard statements
/// - switch statements
/// - switch entries (case/default)
/// - while statements
/// - for statements
/// - repeat-while statements
/// - do statements
/// - catch blocks
pub const COMPLEXITY_QUERY: &'static str = "
(if_statement) @branch
(guard_statement) @branch
(switch_statement) @branch
(switch_entry) @branch
(while_statement) @branch
(for_statement) @branch
(repeat_while_statement) @branch
(do_statement) @branch
(catch_block) @branch
";

/// Create a new Swift parser.
pub fn new_parser() -> (r: TreeSitterParser)
    ensures
        r.language == ParserLanguage::Swift,
        r.config.language_name@ == "swift"@,
        r.config.symbol_query@ == SYMBOL_QUERY@,
        r.config.complexity_query@ == COMPLEXITY_QUERY@,
        r.config.function_query@ == FUNCTION_QUERY@,
        r.config.function_capture@ == "func"@,
        r.config.func_name_capture@ == "name"@,
        r.config.symbol_captures@.len() == 3,
        r.config.symbol_captures@[0].name_capture@ == "func_name"@,
        r.config.symbol_captures@[0].kind@ == "function"@,
        r.config.symbol_captures@[1].name_capture@ == "class_name"@,
        r.config.symbol_captures@[1].kind@ == "type"@,
        r.config.symbol_captures@[2].name_capture@ == "protocol_name"@,
        r.config.symbol_captures@[2].kind@ == "type"@,
{
    let captures = vec![
        SymbolCapture { name_capture: "func_name", kind: "function" },
        SymbolCapture { name_capture: "class_name", kind: "type" },
        SymbolCapture { name_capture: "protocol_name", kind: "type" },
    ];
    TreeSitterParser::new(
        ParserLanguage::Swift,
        Config {
            language_name: "swift",
            symbol_query: SYMBOL_QUERY,
            symbol_captures: captures,
            complexity_query: COMPLEXITY_QUERY,
            function_query: FUNCTION_QUERY,
            function_capture: "func",
            func_name_capture: "name",
        },
    )
}

} // verus!
