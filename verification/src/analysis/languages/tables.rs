//! The analyzers for TypeScript, Java, C, Scala and Swift read a syntax tree
//! the same way and differ only in their tables: which captures name a
//! declaration and of what kind, which node holds a function's body, which
//! nodes are comments, what makes a body a stub, which captures count as
//! control flow, and how an import's path is read off its capture.
use vstd::prelude::*;

use crate::analysis::facts::{
    BodyView, ControlFlowInfo, DeclView, Declaration, DeclarationKind, FactsView, FileFacts,
    FunctionBody, Import, ImportFactView,
};
use crate::analysis::languages::common::{
    as_ints, children_exec, decls_sorted, decls_view, imports_sorted, imports_view,
    opt_body_view, opt_import_view, sat, within,
};
use crate::analysis::languages::go::{cand_key, unique_cands, unique_imports, DeclCand};
use crate::analysis::syntax::{
    capture_text, capture_text_exec, capture_view, children, find_node, match_view, matches_view,
    node_index, node_span, nodes_view, span_of, Capture, CaptureView, NodeView, SyntaxNode,
};
use crate::detect::types::str_eq;
use crate::sorting::{triple_le, KeyOrder};
use crate::text::{
    chars_of, contains, contains_seq, has_prefix, starts_with_str, string_of, trim, trim_chars,
    trim_either, trim_matches_either, unicode_uppercase,
};

verus! {

/// The languages whose analyzers the tables drive.
#[derive(Clone, Copy, Debug, PartialEq, Eq, Structural)]
pub enum Grammar {
    TypeScript,
    Java,
    C,
    Scala,
    Swift,
}

/// The counters of `ControlFlowInfo` that a capture can add to.
#[derive(Clone, Copy, Debug, PartialEq, Eq, Structural)]
pub enum FlowCounter {
    If,
    Loop,
    Switch,
    Case,
    Ternary,
    And,
    Or,
    Catch,
}

// ---------------------------------------------------------------------------
// The tables
// ---------------------------------------------------------------------------

/// The kind of declaration that a capture naming one stands for.
pub open spec fn decl_name_kind(g: Grammar, c: Seq<char>) -> Option<DeclarationKind> {
    match g {
        Grammar::TypeScript => if c == "func_name"@ || c == "var_func_name"@ || c
            == "arrow_func_name"@ {
            Some(DeclarationKind::Function)
        } else if c == "method_name"@ {
            Some(DeclarationKind::Method)
        } else if c == "class_name"@ || c == "type_alias_name"@ {
            Some(DeclarationKind::Type)
        } else if c == "interface_name"@ {
            Some(DeclarationKind::Interface)
        } else if c == "enum_name"@ {
            Some(DeclarationKind::Enum)
        } else {
            None
        },
        Grammar::Java => if c == "method_name"@ || c == "constructor_name"@ {
            Some(DeclarationKind::Method)
        } else if c == "class_name"@ {
            Some(DeclarationKind::Type)
        } else if c == "interface_name"@ {
            Some(DeclarationKind::Interface)
        } else if c == "enum_name"@ {
            Some(DeclarationKind::Enum)
        } else {
            None
        },
        Grammar::C => if c == "func_name"@ {
            Some(DeclarationKind::Function)
        } else if c == "struct_name"@ {
            Some(DeclarationKind::Struct)
        } else if c == "enum_name"@ {
            Some(DeclarationKind::Enum)
        } else if c == "typedef_name"@ {
            Some(DeclarationKind::Type)
        } else {
            None
        },
        Grammar::Scala => if c == "func_name"@ {
            Some(DeclarationKind::Method)
        } else if c == "val_name"@ {
            Some(DeclarationKind::Const)
        } else if c == "class_name"@ || c == "object_name"@ {
            Some(DeclarationKind::Type)
        } else if c == "trait_name"@ {
            Some(DeclarationKind::Interface)
        } else {
            None
        },
        Grammar::Swift => if c == "func_name"@ {
            Some(DeclarationKind::Function)
        } else if c == "class_name"@ {
            Some(DeclarationKind::Type)
        } else {
            None
        },
    }
}

fn decl_name_kind_exec(g: Grammar, c: &str) -> (r: Option<DeclarationKind>)
    ensures
        r == decl_name_kind(g, c@),
{
    match g {
        Grammar::TypeScript => if str_eq(c, "func_name") || str_eq(c, "var_func_name") || str_eq(
            c,
            "arrow_func_name",
        ) {
            Some(DeclarationKind::Function)
        } else if str_eq(c, "method_name") {
            Some(DeclarationKind::Method)
        } else if str_eq(c, "class_name") || str_eq(c, "type_alias_name") {
            Some(DeclarationKind::Type)
        } else if str_eq(c, "interface_name") {
            Some(DeclarationKind::Interface)
        } else if str_eq(c, "enum_name") {
            Some(DeclarationKind::Enum)
        } else {
            None
        },
        Grammar::Java => if str_eq(c, "method_name") || str_eq(c, "constructor_name") {
            Some(DeclarationKind::Method)
        } else if str_eq(c, "class_name") {
            Some(DeclarationKind::Type)
        } else if str_eq(c, "interface_name") {
            Some(DeclarationKind::Interface)
        } else if str_eq(c, "enum_name") {
            Some(DeclarationKind::Enum)
        } else {
            None
        },
        Grammar::C => if str_eq(c, "func_name") {
            Some(DeclarationKind::Function)
        } else if str_eq(c, "struct_name") {
            Some(DeclarationKind::Struct)
        } else if str_eq(c, "enum_name") {
            Some(DeclarationKind::Enum)
        } else if str_eq(c, "typedef_name") {
            Some(DeclarationKind::Type)
        } else {
            None
        },
        Grammar::Scala => if str_eq(c, "func_name") {
            Some(DeclarationKind::Method)
        } else if str_eq(c, "val_name") {
            Some(DeclarationKind::Const)
        } else if str_eq(c, "class_name") || str_eq(c, "object_name") {
            Some(DeclarationKind::Type)
        } else if str_eq(c, "trait_name") {
            Some(DeclarationKind::Interface)
        } else {
            None
        },
        Grammar::Swift => if str_eq(c, "func_name") {
            Some(DeclarationKind::Function)
        } else if str_eq(c, "class_name") {
            Some(DeclarationKind::Type)
        } else {
            None
        },
    }
}

/// Whether a capture is that of a declaration's whole node.
pub open spec fn is_decl_node(g: Grammar, c: Seq<char>) -> bool {
    match g {
        Grammar::TypeScript => c == "function"@ || c == "var_function"@ || c == "arrow_function"@
            || c == "method"@ || c == "class"@ || c == "interface"@ || c == "type_alias"@ || c
            == "enum"@,
        Grammar::Java => c == "method"@ || c == "constructor"@ || c == "class"@ || c
            == "interface"@ || c == "enum"@,
        Grammar::C => c == "function"@ || c == "struct"@ || c == "enum"@ || c == "typedef"@,
        Grammar::Scala => c == "function"@ || c == "val"@ || c == "class"@ || c == "object"@ || c
            == "trait"@,
        Grammar::Swift => c == "function"@ || c == "class"@,
    }
}

fn is_decl_node_exec(g: Grammar, c: &str) -> (r: bool)
    ensures
        r == is_decl_node(g, c@),
{
    match g {
        Grammar::TypeScript => str_eq(c, "function") || str_eq(c, "var_function") || str_eq(
            c,
            "arrow_function",
        ) || str_eq(c, "method") || str_eq(c, "class") || str_eq(c, "interface") || str_eq(
            c,
            "type_alias",
        ) || str_eq(c, "enum"),
        Grammar::Java => str_eq(c, "method") || str_eq(c, "constructor") || str_eq(c, "class")
            || str_eq(c, "interface") || str_eq(c, "enum"),
        Grammar::C => str_eq(c, "function") || str_eq(c, "struct") || str_eq(c, "enum") || str_eq(
            c,
            "typedef",
        ),
        Grammar::Scala => str_eq(c, "function") || str_eq(c, "val") || str_eq(c, "class")
            || str_eq(c, "object") || str_eq(c, "trait"),
        Grammar::Swift => str_eq(c, "function") || str_eq(c, "class"),
    }
}

/// Whether declarations of the kind have their body read.
pub open spec fn reads_body(g: Grammar, k: DeclarationKind) -> bool {
    match g {
        Grammar::Scala => k is Method,
        Grammar::Swift => k is Function,
        _ => k is Function || k is Method,
    }
}

fn reads_body_exec(g: Grammar, k: DeclarationKind) -> (r: bool)
    ensures
        r == reads_body(g, k),
{
    match g {
        Grammar::Scala => match k {
            DeclarationKind::Method => true,
            _ => false,
        },
        Grammar::Swift => match k {
            DeclarationKind::Function => true,
            _ => false,
        },
        _ => match k {
            DeclarationKind::Function => true,
            DeclarationKind::Method => true,
            _ => false,
        },
    }
}

/// Whether a node of the kind holds a function's body.
pub open spec fn is_body_kind(g: Grammar, k: Seq<char>) -> bool {
    match g {
        Grammar::TypeScript => k == "statement_block"@,
        Grammar::Java => k == "block"@,
        Grammar::C => k == "compound_statement"@,
        Grammar::Scala => k == "block"@ || k == "indented_block"@,
        Grammar::Swift => k == "function_body"@,
    }
}

fn is_body_kind_exec(g: Grammar, k: &str) -> (r: bool)
    ensures
        r == is_body_kind(g, k@),
{
    match g {
        Grammar::TypeScript => str_eq(k, "statement_block"),
        Grammar::Java => str_eq(k, "block"),
        Grammar::C => str_eq(k, "compound_statement"),
        Grammar::Scala => str_eq(k, "block") || str_eq(k, "indented_block"),
        Grammar::Swift => str_eq(k, "function_body"),
    }
}

/// Whether a node of the kind is a comment.
pub open spec fn is_comment_kind(g: Grammar, k: Seq<char>) -> bool {
    match g {
        Grammar::Java => k == "line_comment"@ || k == "block_comment"@,
        Grammar::Swift => k == "comment"@ || k == "multiline_comment"@,
        _ => k == "comment"@,
    }
}

fn is_comment_kind_exec(g: Grammar, k: &str) -> (r: bool)
    ensures
        r == is_comment_kind(g, k@),
{
    match g {
        Grammar::Java => str_eq(k, "line_comment") || str_eq(k, "block_comment"),
        Grammar::Swift => str_eq(k, "comment") || str_eq(k, "multiline_comment"),
        _ => str_eq(k, "comment"),
    }
}

/// Braces and comments are not statements.
pub open spec fn is_statement(g: Grammar, k: Seq<char>) -> bool {
    k != "{"@ && k != "}"@ && !is_comment_kind(g, k)
}

/// Whether a body whose one statement is the node does nothing but throw
/// (or, in Swift, stop the program).
pub open spec fn throws(g: Grammar, n: NodeView) -> bool {
    match g {
        Grammar::TypeScript => n.kind == "throw_statement"@,
        Grammar::Java => n.kind == "throw_statement"@,
        Grammar::C => false,
        Grammar::Scala => n.kind == "throw_expression"@,
        Grammar::Swift => has_prefix(trim(n.text), "fatalError("@) || has_prefix(
            trim(n.text),
            "preconditionFailure("@,
        ),
    }
}

fn throws_exec(g: Grammar, n: &SyntaxNode) -> (r: bool)
    ensures
        r == throws(g, n@),
{
    match g {
        Grammar::TypeScript => str_eq(n.kind.as_str(), "throw_statement"),
        Grammar::Java => str_eq(n.kind.as_str(), "throw_statement"),
        Grammar::C => false,
        Grammar::Scala => str_eq(n.kind.as_str(), "throw_expression"),
        Grammar::Swift => {
            let t = trim_chars(chars_of(n.text.as_str()).as_slice());
            starts_with_str(t.as_slice(), "fatalError(") || starts_with_str(
                t.as_slice(),
                "preconditionFailure(",
            )
        },
    }
}

/// Whether a body whose one statement is the node only returns null (or
/// `undefined`, or `nil`).
pub open spec fn returns_null(g: Grammar, n: NodeView) -> bool {
    let t = trim(n.text);
    match g {
        Grammar::TypeScript => n.kind == "return_statement"@ && (t == "return null;"@ || t
            == "return null"@ || t == "return undefined;"@ || t == "return undefined"@),
        Grammar::Java => n.kind == "return_statement"@ && (t == "return null;"@ || t
            == "return null"@),
        Grammar::C => false,
        Grammar::Scala => false,
        Grammar::Swift => t == "return nil"@,
    }
}

fn text_is(t: &Vec<char>, s: &str) -> (r: bool)
    ensures
        r == (t@ == s@),
{
    let v = chars_of(s);
    crate::text::chars_equal(t.as_slice(), v.as_slice())
}

fn returns_null_exec(g: Grammar, n: &SyntaxNode) -> (r: bool)
    ensures
        r == returns_null(g, n@),
{
    match g {
        Grammar::C => false,
        Grammar::Scala => false,
        Grammar::TypeScript => {
            if !str_eq(n.kind.as_str(), "return_statement") {
                return false;
            }
            let t = trim_chars(chars_of(n.text.as_str()).as_slice());
            text_is(&t, "return null;") || text_is(&t, "return null") || text_is(
                &t,
                "return undefined;",
            ) || text_is(&t, "return undefined")
        },
        Grammar::Java => {
            if !str_eq(n.kind.as_str(), "return_statement") {
                return false;
            }
            let t = trim_chars(chars_of(n.text.as_str()).as_slice());
            text_is(&t, "return null;") || text_is(&t, "return null")
        },
        Grammar::Swift => {
            let t = trim_chars(chars_of(n.text.as_str()).as_slice());
            text_is(&t, "return nil")
        },
    }
}

/// Whether a child of a body stands for code not written yet on its own
/// (Scala's `???`).
pub open spec fn placeholder(g: Grammar, n: NodeView) -> bool {
    match g {
        Grammar::Scala => n.kind == "call_expression"@ && trim(n.text) == "???"@,
        _ => false,
    }
}

fn placeholder_exec(g: Grammar, n: &SyntaxNode) -> (r: bool)
    ensures
        r == placeholder(g, n@),
{
    match g {
        Grammar::Scala => {
            if !str_eq(n.kind.as_str(), "call_expression") {
                return false;
            }
            let t = trim_chars(chars_of(n.text.as_str()).as_slice());
            text_is(&t, "???")
        },
        _ => false,
    }
}

/// The counter that a control-flow capture adds to.
pub open spec fn flow_counter(g: Grammar, c: Seq<char>) -> Option<FlowCounter> {
    match g {
        Grammar::TypeScript => if c == "if"@ {
            Some(FlowCounter::If)
        } else if c == "for"@ || c == "for_in"@ || c == "while"@ || c == "do"@ {
            Some(FlowCounter::Loop)
        } else if c == "switch"@ {
            Some(FlowCounter::Switch)
        } else if c == "case"@ {
            Some(FlowCounter::Case)
        } else if c == "ternary"@ {
            Some(FlowCounter::Ternary)
        } else if c == "and"@ || c == "or"@ || c == "nullish"@ {
            Some(FlowCounter::And)
        } else if c == "catch"@ {
            Some(FlowCounter::Catch)
        } else {
            None
        },
        Grammar::Java => if c == "if"@ {
            Some(FlowCounter::If)
        } else if c == "for"@ || c == "for_each"@ || c == "while"@ || c == "do"@ {
            Some(FlowCounter::Loop)
        } else if c == "switch"@ {
            Some(FlowCounter::Switch)
        } else if c == "case"@ {
            Some(FlowCounter::Case)
        } else if c == "ternary"@ {
            Some(FlowCounter::Ternary)
        } else if c == "and"@ {
            Some(FlowCounter::And)
        } else if c == "or"@ {
            Some(FlowCounter::Or)
        } else if c == "catch"@ {
            Some(FlowCounter::Catch)
        } else {
            None
        },
        Grammar::C => if c == "if"@ {
            Some(FlowCounter::If)
        } else if c == "for"@ || c == "while"@ || c == "do"@ {
            Some(FlowCounter::Loop)
        } else if c == "switch"@ {
            Some(FlowCounter::Switch)
        } else if c == "case"@ {
            Some(FlowCounter::Case)
        } else if c == "ternary"@ {
            Some(FlowCounter::Ternary)
        } else if c == "and"@ {
            Some(FlowCounter::And)
        } else if c == "or"@ {
            Some(FlowCounter::Or)
        } else {
            None
        },
        Grammar::Scala => if c == "if"@ {
            Some(FlowCounter::If)
        } else if c == "for"@ || c == "while"@ {
            Some(FlowCounter::Loop)
        } else if c == "match"@ {
            Some(FlowCounter::Switch)
        } else if c == "case"@ {
            Some(FlowCounter::Case)
        } else if c == "catch"@ {
            Some(FlowCounter::Catch)
        } else {
            None
        },
        Grammar::Swift => if c == "if"@ || c == "guard"@ {
            Some(FlowCounter::If)
        } else if c == "for"@ || c == "while"@ || c == "repeat"@ {
            Some(FlowCounter::Loop)
        } else if c == "switch"@ {
            Some(FlowCounter::Switch)
        } else if c == "case"@ {
            Some(FlowCounter::Case)
        } else if c == "ternary"@ {
            Some(FlowCounter::Ternary)
        } else if c == "and"@ {
            Some(FlowCounter::And)
        } else if c == "or"@ {
            Some(FlowCounter::Or)
        } else if c == "catch"@ {
            Some(FlowCounter::Catch)
        } else {
            None
        },
    }
}

fn flow_counter_exec(g: Grammar, c: &str) -> (r: Option<FlowCounter>)
    ensures
        r == flow_counter(g, c@),
{
    match g {
        Grammar::TypeScript => if str_eq(c, "if") {
            Some(FlowCounter::If)
        } else if str_eq(c, "for") || str_eq(c, "for_in") || str_eq(c, "while") || str_eq(c, "do") {
            Some(FlowCounter::Loop)
        } else if str_eq(c, "switch") {
            Some(FlowCounter::Switch)
        } else if str_eq(c, "case") {
            Some(FlowCounter::Case)
        } else if str_eq(c, "ternary") {
            Some(FlowCounter::Ternary)
        } else if str_eq(c, "and") || str_eq(c, "or") || str_eq(c, "nullish") {
            Some(FlowCounter::And)
        } else if str_eq(c, "catch") {
            Some(FlowCounter::Catch)
        } else {
            None
        },
        Grammar::Java => if str_eq(c, "if") {
            Some(FlowCounter::If)
        } else if str_eq(c, "for") || str_eq(c, "for_each") || str_eq(c, "while") || str_eq(
            c,
            "do",
        ) {
            Some(FlowCounter::Loop)
        } else if str_eq(c, "switch") {
            Some(FlowCounter::Switch)
        } else if str_eq(c, "case") {
            Some(FlowCounter::Case)
        } else if str_eq(c, "ternary") {
            Some(FlowCounter::Ternary)
        } else if str_eq(c, "and") {
            Some(FlowCounter::And)
        } else if str_eq(c, "or") {
            Some(FlowCounter::Or)
        } else if str_eq(c, "catch") {
            Some(FlowCounter::Catch)
        } else {
            None
        },
        Grammar::C => if str_eq(c, "if") {
            Some(FlowCounter::If)
        } else if str_eq(c, "for") || str_eq(c, "while") || str_eq(c, "do") {
            Some(FlowCounter::Loop)
        } else if str_eq(c, "switch") {
            Some(FlowCounter::Switch)
        } else if str_eq(c, "case") {
            Some(FlowCounter::Case)
        } else if str_eq(c, "ternary") {
            Some(FlowCounter::Ternary)
        } else if str_eq(c, "and") {
            Some(FlowCounter::And)
        } else if str_eq(c, "or") {
            Some(FlowCounter::Or)
        } else {
            None
        },
        Grammar::Scala => if str_eq(c, "if") {
            Some(FlowCounter::If)
        } else if str_eq(c, "for") || str_eq(c, "while") {
            Some(FlowCounter::Loop)
        } else if str_eq(c, "match") {
            Some(FlowCounter::Switch)
        } else if str_eq(c, "case") {
            Some(FlowCounter::Case)
        } else if str_eq(c, "catch") {
            Some(FlowCounter::Catch)
        } else {
            None
        },
        Grammar::Swift => if str_eq(c, "if") || str_eq(c, "guard") {
            Some(FlowCounter::If)
        } else if str_eq(c, "for") || str_eq(c, "while") || str_eq(c, "repeat") {
            Some(FlowCounter::Loop)
        } else if str_eq(c, "switch") {
            Some(FlowCounter::Switch)
        } else if str_eq(c, "case") {
            Some(FlowCounter::Case)
        } else if str_eq(c, "ternary") {
            Some(FlowCounter::Ternary)
        } else if str_eq(c, "and") {
            Some(FlowCounter::And)
        } else if str_eq(c, "or") {
            Some(FlowCounter::Or)
        } else if str_eq(c, "catch") {
            Some(FlowCounter::Catch)
        } else {
            None
        },
    }
}

/// The path that an import capture gives, read off its text: TypeScript's
/// module strings without their quotes, C's headers without their angle
/// brackets or quotes, Swift's module names as they stand, and what follows
/// `import ` in a Scala import.
pub open spec fn import_path(g: Grammar, c: Seq<char>, t: Seq<char>) -> Option<Seq<char>> {
    match g {
        Grammar::TypeScript => if c == "import_source"@ || c == "named_import_source"@ || c
            == "type_import_source"@ || c == "require_source"@ || c == "reexport_source"@ {
            Some(trim_either(t, '"', '\''))
        } else {
            None
        },
        Grammar::Java => None,
        Grammar::C => if c == "system_include"@ {
            Some(trim_either(t, '<', '>'))
        } else if c == "local_include"@ {
            Some(trim_either(t, '"', '"'))
        } else {
            None
        },
        Grammar::Scala => if c == "import"@ && has_prefix(trim(t), "import "@) {
            Some(trim(trim(t).skip(7)))
        } else {
            None
        },
        Grammar::Swift => if c == "import_module"@ {
            Some(t)
        } else {
            None
        },
    }
}

fn import_path_exec(g: Grammar, c: &str, t: &str) -> (r: Option<Vec<char>>)
    ensures
        match r {
            Some(p) => import_path(g, c@, t@) == Some(p@),
            None => import_path(g, c@, t@) is None,
        },
{
    match g {
        Grammar::TypeScript => if str_eq(c, "import_source") || str_eq(c, "named_import_source")
            || str_eq(c, "type_import_source") || str_eq(c, "require_source") || str_eq(
            c,
            "reexport_source",
        ) {
            Some(trim_matches_either(chars_of(t).as_slice(), '"', '\''))
        } else {
            None
        },
        Grammar::Java => None,
        Grammar::C => if str_eq(c, "system_include") {
            Some(trim_matches_either(chars_of(t).as_slice(), '<', '>'))
        } else if str_eq(c, "local_include") {
            Some(trim_matches_either(chars_of(t).as_slice(), '"', '"'))
        } else {
            None
        },
        Grammar::Scala => {
            if !str_eq(c, "import") {
                return None;
            }
            let tt = trim_chars(chars_of(t).as_slice());
            if !starts_with_str(tt.as_slice(), "import ") {
                return None;
            }
            proof {
                reveal_strlit("import ");
            }
            let rest = crate::text::slice_range(tt.as_slice(), 7, tt.len());
            assert(rest@ =~= tt@.skip(7));
            Some(trim_chars(rest.as_slice()))
        },
        Grammar::Swift => if str_eq(c, "import_module") {
            Some(chars_of(t))
        } else {
            None
        },
    }
}

// ---------------------------------------------------------------------------
// Function bodies
// ---------------------------------------------------------------------------

/// The first of the nodes that holds a function's body.
pub open spec fn first_body(g: Grammar, ns: Seq<NodeView>, ks: Seq<int>) -> Option<int>
    decreases ks.len(),
{
    if ks.len() == 0 {
        None
    } else if is_body_kind(g, ns[ks[0]].kind) {
        Some(ks[0])
    } else {
        first_body(g, ns, ks.drop_first())
    }
}

fn first_body_exec(g: Grammar, ns: &Vec<SyntaxNode>, ks: &Vec<usize>) -> (r: Option<usize>)
    requires
        forall|j: int| 0 <= j < ks@.len() ==> #[trigger] ks@[j] < ns@.len(),
    ensures
        match r {
            Some(k) => first_body(g, nodes_view(ns@), as_ints(ks@)) == Some(k as int) && k
                < ns@.len(),
            None => first_body(g, nodes_view(ns@), as_ints(ks@)) is None,
        },
{
    let ghost nv = nodes_view(ns@);
    let mut i: usize = 0;
    assert(as_ints(ks@).skip(0) =~= as_ints(ks@));
    while i < ks.len()
        invariant
            i <= ks@.len(),
            nv == nodes_view(ns@),
            forall|j: int| 0 <= j < ks@.len() ==> #[trigger] ks@[j] < ns@.len(),
            first_body(g, nv, as_ints(ks@)) == first_body(g, nv, as_ints(ks@).skip(i as int)),
        decreases ks.len() - i,
    {
        let k = ks[i];
        assert(as_ints(ks@).skip(i as int)[0] == k as int);
        assert(nv[k as int] == ns@[k as int]@);
        if is_body_kind_exec(g, ns[k].kind.as_str()) {
            return Some(k);
        }
        assert(as_ints(ks@).skip(i as int).drop_first() =~= as_ints(ks@).skip(i + 1));
        i = i + 1;
    }
    assert(as_ints(ks@).skip(i as int) =~= Seq::<int>::empty());
    None
}

/// The statements among the nodes: those that are not braces or comments.
pub open spec fn statements(g: Grammar, ns: Seq<NodeView>, ks: Seq<int>) -> Seq<int>
    decreases ks.len(),
{
    if ks.len() == 0 {
        Seq::empty()
    } else if is_statement(g, ns[ks.last()].kind) {
        statements(g, ns, ks.drop_last()).push(ks.last())
    } else {
        statements(g, ns, ks.drop_last())
    }
}

proof fn lemma_statements_len(g: Grammar, ns: Seq<NodeView>, ks: Seq<int>)
    ensures
        statements(g, ns, ks).len() <= ks.len(),
    decreases ks.len(),
{
    if ks.len() > 0 {
        lemma_statements_len(g, ns, ks.drop_last());
    }
}

fn statements_exec(g: Grammar, ns: &Vec<SyntaxNode>, ks: &Vec<usize>) -> (r: Vec<usize>)
    requires
        forall|j: int| 0 <= j < ks@.len() ==> #[trigger] ks@[j] < ns@.len(),
    ensures
        as_ints(r@) == statements(g, nodes_view(ns@), as_ints(ks@)),
        forall|j: int| 0 <= j < r@.len() ==> #[trigger] r@[j] < ns@.len(),
{
    let ghost nv = nodes_view(ns@);
    let mut out: Vec<usize> = Vec::new();
    let mut i: usize = 0;
    while i < ks.len()
        invariant
            i <= ks@.len(),
            nv == nodes_view(ns@),
            forall|j: int| 0 <= j < ks@.len() ==> #[trigger] ks@[j] < ns@.len(),
            forall|j: int| 0 <= j < out@.len() ==> #[trigger] out@[j] < ns@.len(),
            as_ints(out@) == statements(g, nv, as_ints(ks@).take(i as int)),
        decreases ks.len() - i,
    {
        let k = ks[i];
        assert(as_ints(ks@).take(i + 1).drop_last() =~= as_ints(ks@).take(i as int));
        assert(as_ints(ks@).take(i + 1).last() == k as int);
        assert(nv[k as int] == ns@[k as int]@);
        let kind = ns[k].kind.as_str();
        if !str_eq(kind, "{") && !str_eq(kind, "}") && !is_comment_kind_exec(g, kind) {
            let ghost before = out@;
            out.push(k);
            assert(as_ints(out@) =~= as_ints(before).push(k as int));
        }
        i = i + 1;
    }
    assert(as_ints(ks@).take(ks@.len() as int) =~= as_ints(ks@));
    out
}

/// A comment that marks unfinished work.
pub open spec fn todo_text(t: Seq<char>) -> bool {
    let u = unicode_uppercase(t);
    contains_seq(u, "TODO"@) || contains_seq(u, "FIXME"@)
}

fn todo_text_exec(t: &str) -> (r: bool)
    ensures
        r == todo_text(t@),
{
    let u = crate::text::to_uppercase(chars_of(t).as_slice());
    contains(u.as_slice(), chars_of("TODO").as_slice()) || contains(
        u.as_slice(),
        chars_of("FIXME").as_slice(),
    )
}

/// A body that holds a placeholder for unwritten code, or nothing but
/// comments, one of them marking unfinished work.
pub open spec fn todo_only(g: Grammar, ns: Seq<NodeView>, ks: Seq<int>, st: Seq<int>) -> bool {
    (exists|j: int| 0 <= j < ks.len() && placeholder(g, ns[#[trigger] ks[j]])) || (st.len() == 0
        && exists|j: int|
        0 <= j < ks.len() && is_comment_kind(g, ns[#[trigger] ks[j]].kind) && todo_text(
            ns[ks[j]].text,
        ))
}

fn todo_only_exec(g: Grammar, ns: &Vec<SyntaxNode>, ks: &Vec<usize>, st: &Vec<usize>) -> (r: bool)
    requires
        forall|j: int| 0 <= j < ks@.len() ==> #[trigger] ks@[j] < ns@.len(),
    ensures
        r == todo_only(g, nodes_view(ns@), as_ints(ks@), as_ints(st@)),
{
    let ghost nv = nodes_view(ns@);
    let mut has_todo = false;
    let mut i: usize = 0;
    while i < ks.len()
        invariant
            i <= ks@.len(),
            nv == nodes_view(ns@),
            forall|j: int| 0 <= j < ks@.len() ==> #[trigger] ks@[j] < ns@.len(),
            forall|j: int| 0 <= j < i ==> !placeholder(g, #[trigger] nv[as_ints(ks@)[j]]),
            has_todo == exists|j: int|
                0 <= j < i && is_comment_kind(g, nv[#[trigger] as_ints(ks@)[j]].kind) && todo_text(
                    nv[as_ints(ks@)[j]].text,
                ),
        decreases ks.len() - i,
    {
        let k = ks[i];
        assert(as_ints(ks@)[i as int] == k as int);
        assert(nv[k as int] == ns@[k as int]@);
        if placeholder_exec(g, &ns[k]) {
            assert(placeholder(g, nv[as_ints(ks@)[i as int]]));
            return true;
        }
        if is_comment_kind_exec(g, ns[k].kind.as_str()) && todo_text_exec(ns[k].text.as_str()) {
            has_todo = true;
        }
        i = i + 1;
    }
    st.len() == 0 && has_todo
}

// ---------------------------------------------------------------------------
// Control flow
// ---------------------------------------------------------------------------

/// The captures of a match that add to the counter and lie within the bytes.
pub open spec fn counted_in(g: Grammar, m: Seq<CaptureView>, f: FlowCounter, lo: usize, hi: usize) -> nat
    decreases m.len(),
{
    if m.len() == 0 {
        0
    } else {
        counted_in(g, m.drop_last(), f, lo, hi) + if flow_counter(g, m.last().0) == Some(f)
            && within(m.last(), lo, hi) {
            1nat
        } else {
            0nat
        }
    }
}

/// The captures of all matches that add to the counter and lie within the
/// bytes.
pub open spec fn counted(g: Grammar, cm: Seq<Seq<CaptureView>>, f: FlowCounter, lo: usize, hi: usize) -> nat
    decreases cm.len(),
{
    if cm.len() == 0 {
        0
    } else {
        counted(g, cm.drop_last(), f, lo, hi) + counted_in(g, cm.last(), f, lo, hi)
    }
}

fn count_flow(g: Grammar, cm: &Vec<Vec<Capture>>, f: FlowCounter, lo: usize, hi: usize) -> (r: usize)
    ensures
        r == sat(counted(g, matches_view(cm@), f, lo, hi)),
{
    let ghost mv = matches_view(cm@);
    let mut n: usize = 0;
    let mut i: usize = 0;
    while i < cm.len()
        invariant
            i <= cm@.len(),
            mv == matches_view(cm@),
            n == sat(counted(g, mv.take(i as int), f, lo, hi)),
        decreases cm.len() - i,
    {
        let m = &cm[i];
        let ghost base = counted(g, mv.take(i as int), f, lo, hi);
        assert(mv[i as int] == match_view(*m));
        let mut j: usize = 0;
        while j < m.len()
            invariant
                j <= m@.len(),
                n == sat(base + counted_in(g, match_view(*m).take(j as int), f, lo, hi)),
            decreases m.len() - j,
        {
            let c = &m[j];
            assert(match_view(*m).take(j + 1).drop_last() =~= match_view(*m).take(j as int));
            assert(match_view(*m).take(j + 1).last() == capture_view(*c));
            if flow_counter_exec(g, c.0.as_str()) == Some(f) && lo <= c.1.start && c.1.end <= hi
                && n < usize::MAX {
                n = n + 1;
            }
            j = j + 1;
        }
        assert(match_view(*m).take(m@.len() as int) =~= match_view(*m));
        assert(mv.take(i + 1).drop_last() =~= mv.take(i as int));
        i = i + 1;
    }
    assert(mv.take(mv.len() as int) =~= mv);
    n
}

/// The control flow within the given bytes.
pub open spec fn control_flow_of(g: Grammar, cm: Seq<Seq<CaptureView>>, lo: usize, hi: usize) -> ControlFlowInfo {
    ControlFlowInfo {
        if_count: sat(counted(g, cm, FlowCounter::If, lo, hi)),
        loop_count: sat(counted(g, cm, FlowCounter::Loop, lo, hi)),
        switch_count: sat(counted(g, cm, FlowCounter::Switch, lo, hi)),
        case_count: sat(counted(g, cm, FlowCounter::Case, lo, hi)),
        select_count: 0,
        and_count: sat(counted(g, cm, FlowCounter::And, lo, hi)),
        or_count: sat(counted(g, cm, FlowCounter::Or, lo, hi)),
        ternary_count: sat(counted(g, cm, FlowCounter::Ternary, lo, hi)),
        catch_count: sat(counted(g, cm, FlowCounter::Catch, lo, hi)),
    }
}

fn control_flow_exec(g: Grammar, cm: &Vec<Vec<Capture>>, lo: usize, hi: usize) -> (r: ControlFlowInfo)
    ensures
        r == control_flow_of(g, matches_view(cm@), lo, hi),
{
    ControlFlowInfo {
        if_count: count_flow(g, cm, FlowCounter::If, lo, hi),
        loop_count: count_flow(g, cm, FlowCounter::Loop, lo, hi),
        switch_count: count_flow(g, cm, FlowCounter::Switch, lo, hi),
        case_count: count_flow(g, cm, FlowCounter::Case, lo, hi),
        select_count: 0,
        and_count: count_flow(g, cm, FlowCounter::And, lo, hi),
        or_count: count_flow(g, cm, FlowCounter::Or, lo, hi),
        ternary_count: count_flow(g, cm, FlowCounter::Ternary, lo, hi),
        catch_count: count_flow(g, cm, FlowCounter::Catch, lo, hi),
    }
}

/// The body of the function at node `k`: its body node, with the
/// statements, the stub markers and the control flow within it.
pub open spec fn body_of(g: Grammar, ns: Seq<NodeView>, cm: Seq<Seq<CaptureView>>, k: int) -> Option<
    BodyView,
> {
    match first_body(g, ns, children(ns, k)) {
        None => None,
        Some(b) => {
            let ks = children(ns, b);
            let st = statements(g, ns, ks);
            Some(
                BodyView {
                    span: span_of(ns[b]),
                    statement_count: st.len() as usize,
                    is_empty: st.len() == 0,
                    is_panic_only: st.len() == 1 && throws(g, ns[st[0]]),
                    is_nil_return_only: st.len() == 1 && returns_null(g, ns[st[0]]),
                    has_only_todo_comment: todo_only(g, ns, ks, st),
                    text: ns[b].text,
                    control_flow: control_flow_of(g, cm, ns[b].start_byte, ns[b].end_byte),
                },
            )
        },
    }
}

fn function_body(g: Grammar, ns: &Vec<SyntaxNode>, cm: &Vec<Vec<Capture>>, k: usize) -> (r: Option<
    FunctionBody,
>)
    requires
        k < ns@.len(),
    ensures
        opt_body_view(r) == body_of(g, nodes_view(ns@), matches_view(cm@), k as int),
{
    let ghost nv = nodes_view(ns@);
    let ch = children_exec(ns, k);
    let b = match first_body_exec(g, ns, &ch) {
        Some(b) => b,
        None => return None,
    };
    assert(nv[b as int] == ns@[b as int]@);
    let ks = children_exec(ns, b);
    let st = statements_exec(g, ns, &ks);
    proof {
        lemma_statements_len(g, nv, as_ints(ks@));
    }
    let one = st.len() == 1;
    let panic_only = if one {
        assert(as_ints(st@)[0] == st@[0] as int);
        assert(nv[st@[0] as int] == ns@[st@[0] as int]@);
        throws_exec(g, &ns[st[0]])
    } else {
        false
    };
    let null_only = if one {
        assert(as_ints(st@)[0] == st@[0] as int);
        returns_null_exec(g, &ns[st[0]])
    } else {
        false
    };
    let body = FunctionBody {
        span: node_span(&ns[b]),
        statement_count: st.len(),
        is_empty: st.len() == 0,
        is_panic_only: panic_only,
        is_nil_return_only: null_only,
        has_only_todo_comment: todo_only_exec(g, ns, &ks, &st),
        text: ns[b].text.clone(),
        control_flow: control_flow_exec(g, cm, ns[b].start_byte, ns[b].end_byte),
    };
    Some(body)
}

// ---------------------------------------------------------------------------
// Declarations
// ---------------------------------------------------------------------------

/// What the captures of a declaration match say, read in order: the name,
/// the kind and the declaration's node.
pub struct DeclAcc {
    pub name: Seq<char>,
    pub kind: DeclarationKind,
    pub node: Option<(usize, usize, Seq<char>)>,
}

pub open spec fn decl_step(g: Grammar, ns: Seq<NodeView>, a: DeclAcc, c: CaptureView) -> DeclAcc {
    match decl_name_kind(g, c.0) {
        Some(k) => DeclAcc { name: capture_text(ns, c), kind: k, node: a.node },
        None => if is_decl_node(g, c.0) {
            DeclAcc { name: a.name, kind: a.kind, node: Some((c.1, c.2, c.3)) }
        } else {
            a
        },
    }
}

pub open spec fn decl_acc(g: Grammar, ns: Seq<NodeView>, m: Seq<CaptureView>) -> DeclAcc
    decreases m.len(),
{
    if m.len() == 0 {
        DeclAcc { name: Seq::empty(), kind: DeclarationKind::Function, node: None }
    } else {
        decl_step(g, ns, decl_acc(g, ns, m.drop_last()), m.last())
    }
}

/// The declaration a match yields: one with a name and a declaration node
/// (found in the tree).
pub open spec fn decl_candidate(g: Grammar, ns: Seq<NodeView>, m: Seq<CaptureView>) -> Option<DeclCand> {
    let a = decl_acc(g, ns, m);
    if a.name.len() == 0 {
        None
    } else {
        match a.node {
            None => None,
            Some(t) => match node_index(ns, t.0, t.1, t.2) {
                None => None,
                Some(k) => Some(DeclCand { name: a.name, kind: a.kind, node: k, receiver: None }),
            },
        }
    }
}

pub open spec fn all_candidates(g: Grammar, ns: Seq<NodeView>, dm: Seq<Seq<CaptureView>>) -> Seq<DeclCand> {
    crate::sorting::filter_map(dm, |m: Seq<CaptureView>| decl_candidate(g, ns, m))
}

/// The declaration a candidate stands for.
pub open spec fn decl_of(g: Grammar, ns: Seq<NodeView>, cm: Seq<Seq<CaptureView>>, c: DeclCand) -> DeclView {
    DeclView {
        name: c.name,
        kind: c.kind,
        span: span_of(ns[c.node]),
        receiver: None,
        body: if reads_body(g, c.kind) {
            body_of(g, ns, cm, c.node)
        } else {
            None
        },
    }
}

/// The declarations of a file, in the order the matches give them, each
/// (start offset, name) kept at its first occurrence.
pub open spec fn table_declarations(
    g: Grammar,
    ns: Seq<NodeView>,
    dm: Seq<Seq<CaptureView>>,
    cm: Seq<Seq<CaptureView>>,
) -> Seq<DeclView> {
    unique_cands(ns, all_candidates(g, ns, dm)).map_values(|c: DeclCand| decl_of(g, ns, cm, c))
}

/// A candidate as executable values: name, kind and node.
type ExecCand = (String, DeclarationKind, usize);

pub open spec fn exec_cand_view(c: ExecCand) -> DeclCand {
    DeclCand { name: c.0@, kind: c.1, node: c.2 as int, receiver: None }
}

fn decl_candidate_exec(g: Grammar, ns: &Vec<SyntaxNode>, m: &Vec<Capture>) -> (r: Option<ExecCand>)
    ensures
        match r {
            Some(c) => decl_candidate(g, nodes_view(ns@), match_view(*m)) == Some(exec_cand_view(c))
                && c.2 < ns@.len(),
            None => decl_candidate(g, nodes_view(ns@), match_view(*m)) is None,
        },
{
    let ghost nv = nodes_view(ns@);
    let ghost mv = match_view(*m);
    let mut name = String::new();
    let mut kind = DeclarationKind::Function;
    let mut node: Option<(usize, usize, String)> = None;
    let mut j: usize = 0;
    while j < m.len()
        invariant
            j <= m@.len(),
            nv == nodes_view(ns@),
            mv == match_view(*m),
            ({
                let a = decl_acc(g, nv, mv.take(j as int));
                &&& a.name == name@
                &&& a.kind == kind
                &&& a.node == match node {
                    Some(t) => Some((t.0, t.1, t.2@)),
                    None => None::<(usize, usize, Seq<char>)>,
                }
            }),
        decreases m.len() - j,
    {
        let c = &m[j];
        assert(mv.take(j + 1).drop_last() =~= mv.take(j as int));
        assert(mv.take(j + 1).last() == capture_view(*c));
        match decl_name_kind_exec(g, c.0.as_str()) {
            Some(k) => {
                name = capture_text_exec(ns, c);
                kind = k;
            },
            None => {
                if is_decl_node_exec(g, c.0.as_str()) {
                    node = Some((c.1.start, c.1.end, c.2.clone()));
                }
            },
        }
        j = j + 1;
    }
    assert(mv.take(m@.len() as int) =~= mv);
    if name.as_str().is_empty() {
        return None;
    }
    match node {
        None => None,
        Some(t) => match find_node(ns, t.0, t.1, t.2.as_str()) {
            None => None,
            Some(k) => Some((name, kind, k)),
        },
    }
}

fn declarations_exec(g: Grammar, ns: &Vec<SyntaxNode>, dm: &Vec<Vec<Capture>>, cm: &Vec<Vec<Capture>>) -> (r: Vec<
    Declaration,
>)
    ensures
        decls_view(r@) == table_declarations(g, nodes_view(ns@), matches_view(dm@), matches_view(cm@)),
{
    let ghost nv = nodes_view(ns@);
    let ghost dmv = matches_view(dm@);
    let ghost cmv = matches_view(cm@);
    let mut seen: Vec<(usize, String)> = Vec::new();
    let mut out: Vec<Declaration> = Vec::new();
    let mut i: usize = 0;
    while i < dm.len()
        invariant
            i <= dm@.len(),
            nv == nodes_view(ns@),
            dmv == matches_view(dm@),
            cmv == matches_view(cm@),
            seen@.len() == all_candidates(g, nv, dmv.take(i as int)).len(),
            forall|t: int|
                0 <= t < seen@.len() ==> ((#[trigger] seen@[t]).0, seen@[t].1@) == cand_key(
                    nv,
                    all_candidates(g, nv, dmv.take(i as int))[t],
                ),
            decls_view(out@) == unique_cands(nv, all_candidates(g, nv, dmv.take(i as int))).map_values(
                |c: DeclCand| decl_of(g, nv, cmv, c),
            ),
        decreases dm.len() - i,
    {
        let ghost cs = all_candidates(g, nv, dmv.take(i as int));
        assert(dmv.take(i + 1).drop_last() =~= dmv.take(i as int));
        assert(dmv.take(i + 1).last() == match_view(dm@[i as int]));
        match decl_candidate_exec(g, ns, &dm[i]) {
            None => {
                assert(all_candidates(g, nv, dmv.take(i + 1)) == cs);
            },
            Some(c) => {
                let ghost cv = exec_cand_view(c);
                let ghost cs2 = all_candidates(g, nv, dmv.take(i + 1));
                assert(cs2 == cs.push(cv));
                assert(cs2.drop_last() =~= cs);
                assert(nv[c.2 as int] == ns@[c.2 as int]@);
                let start = ns[c.2].start_byte;
                let mut dup = false;
                let mut j: usize = 0;
                while j < seen.len()
                    invariant
                        j <= seen@.len(),
                        seen@.len() == cs.len(),
                        forall|t: int|
                            0 <= t < seen@.len() ==> ((#[trigger] seen@[t]).0, seen@[t].1@)
                                == cand_key(nv, cs[t]),
                        dup == exists|t: int|
                            0 <= t < j && #[trigger] cand_key(nv, cs[t]) == (start, c.0@),
                    decreases seen.len() - j,
                {
                    assert(((seen@[j as int]).0, seen@[j as int].1@) == cand_key(nv, cs[j as int]));
                    if seen[j].0 == start && str_eq(seen[j].1.as_str(), c.0.as_str()) {
                        dup = true;
                    }
                    j = j + 1;
                }
                proof {
                    assert(cand_key(nv, cv) == (start, c.0@));
                    assert forall|t: int| 0 <= t < cs2.len() - 1 implies cs2[t] == cs[t] by {}
                    if dup {
                        let t = choose|t: int|
                            0 <= t < j && #[trigger] cand_key(nv, cs[t]) == (start, c.0@);
                        assert(cand_key(nv, cs2[t]) == cand_key(nv, cs2.last()));
                    } else {
                        assert(!exists|t: int|
                            0 <= t < cs2.len() - 1 && #[trigger] cand_key(nv, cs2[t])
                                == cand_key(nv, cs2.last())) by {
                            if exists|t: int|
                                0 <= t < cs2.len() - 1 && #[trigger] cand_key(nv, cs2[t])
                                    == cand_key(nv, cs2.last()) {
                                let t = choose|t: int|
                                    0 <= t < cs2.len() - 1 && #[trigger] cand_key(nv, cs2[t])
                                        == cand_key(nv, cs2.last());
                                assert(cand_key(nv, cs[t]) == (start, c.0@));
                            }
                        }
                    }
                }
                let key_name = c.0.clone();
                if !dup {
                    let body = if reads_body_exec(g, c.1) {
                        function_body(g, ns, cm, c.2)
                    } else {
                        None
                    };
                    let d = Declaration {
                        name: c.0,
                        kind: c.1,
                        span: node_span(&ns[c.2]),
                        receiver: None,
                        body,
                    };
                    let ghost before = out@;
                    out.push(d);
                    proof {
                        assert(d@ == decl_of(g, nv, cmv, cv));
                        assert(decls_view(out@) =~= decls_view(before).push(d@));
                        assert(unique_cands(nv, cs2) == unique_cands(nv, cs).push(cv));
                        assert(unique_cands(nv, cs2).map_values(|c: DeclCand| decl_of(g, nv, cmv, c))
                            =~= unique_cands(nv, cs).map_values(|c: DeclCand| decl_of(g, nv, cmv, c)).push(
                            decl_of(g, nv, cmv, cv),
                        ));
                    }
                } else {
                    assert(unique_cands(nv, cs2) == unique_cands(nv, cs));
                }
                let ghost seen_before = seen@;
                seen.push((start, key_name));
                proof {
                    assert forall|t: int| 0 <= t < seen@.len() implies ((#[trigger] seen@[t]).0, seen@[t].1@)
                        == cand_key(nv, cs2[t]) by {
                        if t < seen_before.len() {
                            assert(seen@[t] == seen_before[t]);
                            assert(cs2[t] == cs[t]);
                        }
                    }
                }
            },
        }
        i = i + 1;
    }
    assert(dmv.take(dm@.len() as int) =~= dmv);
    out
}

// ---------------------------------------------------------------------------
// Imports and package
// ---------------------------------------------------------------------------

/// What the captures of an import match say, read in order: the path and
/// the node of the capture that gave it.
pub struct PathAcc {
    pub path: Seq<char>,
    pub node: Option<(usize, usize, Seq<char>)>,
}

pub open spec fn path_step(g: Grammar, ns: Seq<NodeView>, a: PathAcc, c: CaptureView) -> PathAcc {
    match import_path(g, c.0, capture_text(ns, c)) {
        Some(p) => PathAcc { path: p, node: Some((c.1, c.2, c.3)) },
        None => a,
    }
}

pub open spec fn path_acc(g: Grammar, ns: Seq<NodeView>, m: Seq<CaptureView>) -> PathAcc
    decreases m.len(),
{
    if m.len() == 0 {
        PathAcc { path: Seq::empty(), node: None }
    } else {
        path_step(g, ns, path_acc(g, ns, m.drop_last()), m.last())
    }
}

/// What an import match yields: its path, when not empty, and the import,
/// when its node is found in the tree.
pub open spec fn import_entry(g: Grammar, ns: Seq<NodeView>, m: Seq<CaptureView>) -> Option<
    (Seq<char>, Option<ImportFactView>),
> {
    let a = path_acc(g, ns, m);
    if a.path.len() == 0 {
        None
    } else {
        Some(
            (
                a.path,
                match a.node {
                    None => None,
                    Some(t) => match node_index(ns, t.0, t.1, t.2) {
                        None => None,
                        Some(k) => Some(
                            ImportFactView { path: a.path, alias: None, span: span_of(ns[k]) },
                        ),
                    },
                },
            ),
        )
    }
}

pub open spec fn all_import_entries(g: Grammar, ns: Seq<NodeView>, im: Seq<Seq<CaptureView>>) -> Seq<
    (Seq<char>, Option<ImportFactView>),
> {
    crate::sorting::filter_map(im, |m: Seq<CaptureView>| import_entry(g, ns, m))
}

/// The imports of a file, in the order the matches give them, each path
/// kept at its first occurrence.
pub open spec fn table_imports(g: Grammar, ns: Seq<NodeView>, im: Seq<Seq<CaptureView>>) -> Seq<
    ImportFactView,
> {
    unique_imports(all_import_entries(g, ns, im))
}

fn import_entry_exec(g: Grammar, ns: &Vec<SyntaxNode>, m: &Vec<Capture>) -> (r: Option<
    (String, Option<Import>),
>)
    ensures
        match r {
            Some(e) => import_entry(g, nodes_view(ns@), match_view(*m)) == Some(
                (e.0@, opt_import_view(e.1)),
            ),
            None => import_entry(g, nodes_view(ns@), match_view(*m)) is None,
        },
{
    let ghost nv = nodes_view(ns@);
    let ghost mv = match_view(*m);
    let mut path: Vec<char> = Vec::new();
    let mut node: Option<(usize, usize, String)> = None;
    let mut j: usize = 0;
    while j < m.len()
        invariant
            j <= m@.len(),
            nv == nodes_view(ns@),
            mv == match_view(*m),
            ({
                let a = path_acc(g, nv, mv.take(j as int));
                &&& a.path == path@
                &&& a.node == match node {
                    Some(t) => Some((t.0, t.1, t.2@)),
                    None => None::<(usize, usize, Seq<char>)>,
                }
            }),
        decreases m.len() - j,
    {
        let c = &m[j];
        assert(mv.take(j + 1).drop_last() =~= mv.take(j as int));
        assert(mv.take(j + 1).last() == capture_view(*c));
        let t = capture_text_exec(ns, c);
        match import_path_exec(g, c.0.as_str(), t.as_str()) {
            Some(p) => {
                path = p;
                node = Some((c.1.start, c.1.end, c.2.clone()));
            },
            None => {},
        }
        j = j + 1;
    }
    assert(mv.take(m@.len() as int) =~= mv);
    if path.len() == 0 {
        return None;
    }
    let ps = string_of(path.as_slice());
    let entry = match node {
        None => None,
        Some(t) => match find_node(ns, t.0, t.1, t.2.as_str()) {
            None => None,
            Some(k) => {
                assert(nv[k as int] == ns@[k as int]@);
                Some(Import { path: string_of(path.as_slice()), alias: None, span: node_span(&ns[k]) })
            },
        },
    };
    Some((ps, entry))
}

fn imports_exec(g: Grammar, ns: &Vec<SyntaxNode>, im: &Vec<Vec<Capture>>) -> (r: Vec<Import>)
    ensures
        imports_view(r@) == table_imports(g, nodes_view(ns@), matches_view(im@)),
{
    let ghost nv = nodes_view(ns@);
    let ghost imv = matches_view(im@);
    let mut seen: Vec<String> = Vec::new();
    let mut out: Vec<Import> = Vec::new();
    let mut i: usize = 0;
    while i < im.len()
        invariant
            i <= im@.len(),
            nv == nodes_view(ns@),
            imv == matches_view(im@),
            seen@.len() == all_import_entries(g, nv, imv.take(i as int)).len(),
            forall|t: int|
                0 <= t < seen@.len() ==> (#[trigger] seen@[t])@ == all_import_entries(
                    g,
                    nv,
                    imv.take(i as int),
                )[t].0,
            imports_view(out@) == unique_imports(all_import_entries(g, nv, imv.take(i as int))),
        decreases im.len() - i,
    {
        let ghost es = all_import_entries(g, nv, imv.take(i as int));
        assert(imv.take(i + 1).drop_last() =~= imv.take(i as int));
        assert(imv.take(i + 1).last() == match_view(im@[i as int]));
        match import_entry_exec(g, ns, &im[i]) {
            None => {
                assert(all_import_entries(g, nv, imv.take(i + 1)) == es);
            },
            Some(e) => {
                let ghost ev = (e.0@, opt_import_view(e.1));
                let ghost es2 = all_import_entries(g, nv, imv.take(i + 1));
                assert(es2 == es.push(ev));
                let mut dup = false;
                let mut j: usize = 0;
                while j < seen.len()
                    invariant
                        j <= seen@.len(),
                        seen@.len() == es.len(),
                        forall|t: int| 0 <= t < seen@.len() ==> (#[trigger] seen@[t])@ == es[t].0,
                        dup == exists|t: int| 0 <= t < j && (#[trigger] es[t]).0 == e.0@,
                    decreases seen.len() - j,
                {
                    assert(seen@[j as int]@ == es[j as int].0);
                    if str_eq(seen[j].as_str(), e.0.as_str()) {
                        dup = true;
                    }
                    j = j + 1;
                }
                proof {
                    assert forall|t: int| 0 <= t < es2.len() - 1 implies es2[t] == es[t] by {}
                    if dup {
                        let t = choose|t: int| 0 <= t < j && (#[trigger] es[t]).0 == e.0@;
                        assert(es2[t].0 == es2.last().0);
                    } else {
                        assert(!exists|t: int|
                            0 <= t < es2.len() - 1 && (#[trigger] es2[t]).0 == es2.last().0) by {
                            if exists|t: int|
                                0 <= t < es2.len() - 1 && (#[trigger] es2[t]).0 == es2.last().0 {
                                let t = choose|t: int|
                                    0 <= t < es2.len() - 1 && (#[trigger] es2[t]).0
                                        == es2.last().0;
                                assert(es[t].0 == e.0@);
                            }
                        }
                    }
                    assert(es2.drop_last() =~= es);
                }
                let key = e.0.clone();
                if !dup {
                    match e.1 {
                        Some(x) => {
                            let ghost before = out@;
                            out.push(x);
                            assert(imports_view(out@) =~= imports_view(before).push(x@));
                        },
                        None => {},
                    }
                }
                let ghost seen_before = seen@;
                seen.push(key);
                proof {
                    assert forall|t: int| 0 <= t < seen@.len() implies (#[trigger] seen@[t])@
                        == es2[t].0 by {
                        if t < seen_before.len() {
                            assert(seen@[t] == seen_before[t]);
                        }
                    }
                }
            },
        }
        i = i + 1;
    }
    assert(imv.take(im@.len() as int) =~= imv);
    out
}

/// The package that a match names: the first of its `package` captures
/// whose text, trimmed, starts with `package `, by what follows, trimmed.
pub open spec fn package_in(ns: Seq<NodeView>, m: Seq<CaptureView>) -> Option<Seq<char>>
    decreases m.len(),
{
    if m.len() == 0 {
        None
    } else if m[0].0 == "package"@ && has_prefix(trim(capture_text(ns, m[0])), "package "@) {
        Some(trim(trim(capture_text(ns, m[0])).skip(8)))
    } else {
        package_in(ns, m.drop_first())
    }
}

/// The package that the first match naming one names.
pub open spec fn package_of(ns: Seq<NodeView>, ms: Seq<Seq<CaptureView>>) -> Option<Seq<char>>
    decreases ms.len(),
{
    if ms.len() == 0 {
        None
    } else {
        match package_in(ns, ms[0]) {
            Some(p) => Some(p),
            None => package_of(ns, ms.drop_first()),
        }
    }
}

/// The package of a file: only Scala files name one, in the matches of the
/// import query.
pub open spec fn table_package(g: Grammar, ns: Seq<NodeView>, im: Option<Seq<Seq<CaptureView>>>) -> Option<
    Seq<char>,
> {
    match g {
        Grammar::Scala => match im {
            Some(ms) => package_of(ns, ms),
            None => None,
        },
        _ => None,
    }
}

fn package_in_exec(ns: &Vec<SyntaxNode>, m: &Vec<Capture>) -> (r: Option<String>)
    ensures
        crate::paths::opt_string_view(r) == package_in(nodes_view(ns@), match_view(*m)),
{
    let ghost nv = nodes_view(ns@);
    let ghost mv = match_view(*m);
    let mut j: usize = 0;
    assert(mv.skip(0) =~= mv);
    while j < m.len()
        invariant
            j <= m@.len(),
            nv == nodes_view(ns@),
            mv == match_view(*m),
            package_in(nv, mv) == package_in(nv, mv.skip(j as int)),
        decreases m.len() - j,
    {
        let c = &m[j];
        assert(mv.skip(j as int)[0] == capture_view(*c));
        if str_eq(c.0.as_str(), "package") {
            let t = capture_text_exec(ns, c);
            let tt = trim_chars(chars_of(t.as_str()).as_slice());
            if starts_with_str(tt.as_slice(), "package ") {
                proof {
                    reveal_strlit("package ");
                }
                let rest = crate::text::slice_range(tt.as_slice(), 8, tt.len());
                assert(rest@ =~= tt@.skip(8));
                let p = trim_chars(rest.as_slice());
                return Some(string_of(p.as_slice()));
            }
        }
        assert(mv.skip(j as int).drop_first() =~= mv.skip(j + 1));
        j = j + 1;
    }
    assert(mv.skip(j as int) =~= Seq::<CaptureView>::empty());
    None
}

fn package_exec(g: Grammar, ns: &Vec<SyntaxNode>, im: &Option<Vec<Vec<Capture>>>) -> (r: Option<String>)
    ensures
        crate::paths::opt_string_view(r) == table_package(
            g,
            nodes_view(ns@),
            crate::analysis::syntax::opt_matches_view(*im),
        ),
{
    let ms = match g {
        Grammar::Scala => match im {
            Some(ms) => ms,
            None => return None,
        },
        _ => return None,
    };
    let ghost msv = matches_view(ms@);
    let mut i: usize = 0;
    assert(msv.skip(0) =~= msv);
    while i < ms.len()
        invariant
            i <= ms@.len(),
            msv == matches_view(ms@),
            g == Grammar::Scala,
            crate::analysis::syntax::opt_matches_view(*im) == Some(msv),
            package_of(nodes_view(ns@), msv) == package_of(nodes_view(ns@), msv.skip(i as int)),
        decreases ms.len() - i,
    {
        assert(msv.skip(i as int)[0] == match_view(ms@[i as int]));
        match package_in_exec(ns, &ms[i]) {
            Some(p) => {
                return Some(p);
            },
            None => {},
        }
        assert(msv.skip(i as int).drop_first() =~= msv.skip(i + 1));
        i = i + 1;
    }
    assert(msv.skip(i as int) =~= Seq::<Seq<CaptureView>>::empty());
    None
}

// ---------------------------------------------------------------------------
// The facts of a file
// ---------------------------------------------------------------------------

/// The identifier of the language.
pub open spec fn language_name(g: Grammar) -> Seq<char> {
    match g {
        Grammar::TypeScript => "typescript"@,
        Grammar::Java => "java"@,
        Grammar::C => "c"@,
        Grammar::Scala => "scala"@,
        Grammar::Swift => "swift"@,
    }
}

pub fn language_name_exec(g: Grammar) -> (r: &'static str)
    ensures
        r@ == language_name(g),
{
    match g {
        Grammar::TypeScript => "typescript",
        Grammar::Java => "java",
        Grammar::C => "c",
        Grammar::Scala => "scala",
        Grammar::Swift => "swift",
    }
}

/// What the facts of a file are, given its syntax tree and the matches of
/// the declaration, import (none for Java) and control-flow queries: its
/// declarations and imports (each kept once, sorted), its package, and
/// whether the tree holds a syntax error.
pub open spec fn table_facts_hold(
    g: Grammar,
    f: FactsView,
    path: Seq<char>,
    ns: Seq<NodeView>,
    dm: Seq<Seq<CaptureView>>,
    im: Option<Seq<Seq<CaptureView>>>,
    cm: Seq<Seq<CaptureView>>,
) -> bool {
    &&& f.path == path
    &&& f.language == language_name(g)
    &&& f.package == table_package(g, ns, im)
    &&& f.declarations.to_multiset() == table_declarations(g, ns, dm, cm).to_multiset()
    &&& decls_sorted(f.declarations)
    &&& f.imports.to_multiset() == match im {
        Some(ms) => table_imports(g, ns, ms),
        None => Seq::empty(),
    }.to_multiset()
    &&& imports_sorted(f.imports)
    &&& f.has_parse_errors == (ns.len() > 0 && ns[0].has_error)
    &&& f.parse_error is None
}

/// The facts of a file of the language, from its syntax tree and the
/// matches of its declaration, import and control-flow queries.
pub fn facts_from_syntax(
    g: Grammar,
    path: &str,
    tree: &Vec<SyntaxNode>,
    decls: &Vec<Vec<Capture>>,
    imports: &Option<Vec<Vec<Capture>>>,
    control: &Vec<Vec<Capture>>,
) -> (r: FileFacts)
    ensures
        table_facts_hold(
            g,
            r@,
            path@,
            nodes_view(tree@),
            matches_view(decls@),
            crate::analysis::syntax::opt_matches_view(*imports),
            matches_view(control@),
        ),
{
    let ghost nv = nodes_view(tree@);
    let pkg = package_exec(g, tree, imports);
    let ds = declarations_exec(g, tree, decls, control);
    let sorted_ds = crate::sorting::sort_by_key(ds);
    let is = match imports {
        Some(im) => imports_exec(g, tree, im),
        None => Vec::new(),
    };
    proof {
        if imports is None {
            assert(imports_view(is@) =~= Seq::<ImportFactView>::empty());
        }
    }
    let sorted_is = crate::sorting::sort_by_key(is);
    proof {
        crate::sorting::lemma_permutation_map(sorted_ds@, ds@, |d: Declaration| d@);
        crate::sorting::lemma_permutation_map(sorted_is@, is@, |i: Import| i@);
        let dv = decls_view(sorted_ds@);
        assert forall|i: int, j: int| 0 <= i < j < dv.len() implies triple_le(
            (Seq::empty(), dv[i].span.start_byte as int, dv[i].name),
            (Seq::empty(), dv[j].span.start_byte as int, dv[j].name),
        ) by {
            assert(sorted_ds@[i].key_le(&sorted_ds@[j]));
        }
        let iv = imports_view(sorted_is@);
        assert forall|i: int, j: int| 0 <= i < j < iv.len() implies triple_le(
            (iv[i].path, 0, Seq::empty()),
            (iv[j].path, 0, Seq::empty()),
        ) by {
            assert(sorted_is@[i].key_le(&sorted_is@[j]));
        }
    }
    let has_errors = tree.len() > 0 && tree[0].has_error;
    proof {
        if tree@.len() > 0 {
            assert(nv[0] == tree@[0]@);
        }
    }
    FileFacts {
        path: String::from_str(path),
        language: String::from_str(language_name_exec(g)),
        package: pkg,
        declarations: sorted_ds,
        imports: sorted_is,
        has_parse_errors: has_errors,
        parse_error: None,
    }
}

/// Whether some declaration of the file has a body to read, so that the
/// matches of the control-flow query are needed.
pub open spec fn needs_bodies(g: Grammar, ns: Seq<NodeView>, dm: Seq<Seq<CaptureView>>) -> bool {
    let ds = table_declarations(g, ns, dm, Seq::empty());
    exists|j: int| 0 <= j < ds.len() && (#[trigger] ds[j]).body is Some
}

/// Whether some declaration of the file has a body to read.
pub fn bodies_needed(g: Grammar, tree: &Vec<SyntaxNode>, decls: &Vec<Vec<Capture>>) -> (r: bool)
    ensures
        r == needs_bodies(g, nodes_view(tree@), matches_view(decls@)),
{
    let none: Vec<Vec<Capture>> = Vec::new();
    assert(matches_view(none@) =~= Seq::<Seq<CaptureView>>::empty());
    let ds = declarations_exec(g, tree, decls, &none);
    let ghost dv = decls_view(ds@);
    let mut i: usize = 0;
    while i < ds.len()
        invariant
            i <= ds@.len(),
            dv == decls_view(ds@),
            dv == table_declarations(g, nodes_view(tree@), matches_view(decls@), Seq::empty()),
            forall|j: int| 0 <= j < i ==> (#[trigger] dv[j]).body is None,
        decreases ds.len() - i,
    {
        assert(dv[i as int] == ds@[i as int]@);
        if ds[i].body.is_some() {
            assert(dv[i as int].body is Some);
            return true;
        }
        i = i + 1;
    }
    false
}

} // verus!
