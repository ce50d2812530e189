//! The Rust analyzer: declarations (functions, impl methods with their
//! receiver type, types, constants), use declarations and function bodies
//! of a Rust source file, read off its syntax tree and query matches.
use vstd::prelude::*;

use crate::analysis::facts::{
    callable, BodyView, ControlFlowInfo, DeclView, Declaration, DeclarationKind, FactsView,
    FileFacts, FunctionBody, Import, ImportFactView,
};
use crate::analysis::languages::common::{
    as_ints, children_exec, count_all, count_captures, decls_sorted, decls_view, first_of_kind,
    first_of_kind_exec, imports_sorted, imports_view, opt_body_view, opt_import_view, sat,
};
use crate::analysis::syntax::{
    capture_text, capture_text_exec, capture_view, children, find_node, match_view, matches_view,
    node_index, node_span, nodes_view, rust_matches, rust_query_of, rust_tree, rust_tree_spec,
    span_of, Capture, CaptureView, NodeView, SyntaxNode,
};
use crate::detect::types::str_eq;
use crate::sorting::{triple_le, KeyOrder};
use crate::text::{
    chars_of, contains, contains_seq, ends_with, has_prefix, has_suffix, starts_with, trim,
    trim_chars, unicode_lowercase, unicode_uppercase,
};

verus! {

// ---------------------------------------------------------------------------
// Queries
// ---------------------------------------------------------------------------

/// Tree-sitter query for extracting Rust declarations.
pub const DECLARATION_QUERY: &'static str = "
(function_item
  name: (identifier) @func_name
) @function

(impl_item
  type: (type_identifier) @impl_type
  body: (declaration_list
    (function_item
      name: (identifier) @method_name
    ) @method
  )
)

(struct_item
  name: (type_identifier) @struct_name
) @struct

(enum_item
  name: (type_identifier) @enum_name
) @enum

(trait_item
  name: (type_identifier) @trait_name
) @trait

(type_item
  name: (type_identifier) @type_name
) @type_alias

(const_item
  name: (identifier) @const_name
) @const

(static_item
  name: (identifier) @static_name
) @static
";

/// Tree-sitter query for extracting imports (use declarations).
pub const IMPORT_QUERY: &'static str = "
(use_declaration
  argument: (scoped_identifier) @path
) @use

(use_declaration
  argument: (use_as_clause
    path: (scoped_identifier) @path
    alias: (identifier) @alias
  )
) @use_alias

(use_declaration
  argument: (identifier) @simple_path
) @use_simple
";

/// Tree-sitter query for control flow nodes (complexity calculation).
pub const CONTROL_FLOW_QUERY: &'static str = "
(if_expression) @if
(for_expression) @for
(while_expression) @while
(loop_expression) @loop
(match_expression) @match
(match_arm) @match_arm
(binary_expression operator: \"&&\") @and
(binary_expression operator: \"||\") @or
(try_expression) @try
";

// ---------------------------------------------------------------------------
// Lists of names
// ---------------------------------------------------------------------------

pub open spec fn strs_view(v: Seq<&str>) -> Seq<Seq<char>> {
    v.map_values(|s: &str| s@)
}

/// Some of the texts starts the string.
pub open spec fn any_prefix(s: Seq<char>, ps: Seq<Seq<char>>) -> bool {
    exists|i: int| 0 <= i < ps.len() && has_prefix(s, #[trigger] ps[i])
}

/// Some of the texts occurs in the string.
pub open spec fn any_contained(s: Seq<char>, ps: Seq<Seq<char>>) -> bool {
    exists|i: int| 0 <= i < ps.len() && contains_seq(s, #[trigger] ps[i])
}

/// The string is one of the texts.
pub open spec fn any_equal(s: Seq<char>, ps: Seq<Seq<char>>) -> bool {
    exists|i: int| 0 <= i < ps.len() && s == #[trigger] ps[i]
}

fn any_prefix_exec(s: &[char], ps: &[&str]) -> (r: bool)
    ensures
        r == any_prefix(s@, strs_view(ps@)),
{
    let mut i: usize = 0;
    while i < ps.len()
        invariant
            i <= ps@.len(),
            forall|j: int| 0 <= j < i ==> !has_prefix(s@, #[trigger] strs_view(ps@)[j]),
        decreases ps.len() - i,
    {
        if starts_with(s, chars_of(ps[i]).as_slice()) {
            assert(has_prefix(s@, strs_view(ps@)[i as int]));
            return true;
        }
        i = i + 1;
    }
    false
}

fn any_contained_exec(s: &[char], ps: &[&str]) -> (r: bool)
    ensures
        r == any_contained(s@, strs_view(ps@)),
{
    let mut i: usize = 0;
    while i < ps.len()
        invariant
            i <= ps@.len(),
            forall|j: int| 0 <= j < i ==> !contains_seq(s@, #[trigger] strs_view(ps@)[j]),
        decreases ps.len() - i,
    {
        if contains(s, chars_of(ps[i]).as_slice()) {
            assert(contains_seq(s@, strs_view(ps@)[i as int]));
            return true;
        }
        i = i + 1;
    }
    false
}

fn any_equal_exec(s: &[char], ps: &[&str]) -> (r: bool)
    ensures
        r == any_equal(s@, strs_view(ps@)),
{
    let mut i: usize = 0;
    while i < ps.len()
        invariant
            i <= ps@.len(),
            forall|j: int| 0 <= j < i ==> s@ != #[trigger] strs_view(ps@)[j],
        decreases ps.len() - i,
    {
        if crate::text::chars_equal(s, chars_of(ps[i]).as_slice()) {
            assert(s@ == strs_view(ps@)[i as int]);
            return true;
        }
        i = i + 1;
    }
    false
}

/// Names of functions that check trait bounds at compile time.
pub open spec fn trait_check_names() -> Seq<Seq<char>> {
    seq![
        "check_send"@,
        "check_sync"@,
        "check_unpin"@,
        "check_static"@,
        "check_send_sync"@,
        "check_send_sync_val"@,
        "check_static_val"@,
        "is_send"@,
        "is_sync"@,
        "is_unpin"@,
        "is_debug"@,
        "_assert"@,
        "_assert_send"@,
        "_assert_sync"@,
        "_assert_unpin"@,
    ]
}

/// Prefixes of counter and metric functions.
pub open spec fn noop_prefixes() -> Seq<Seq<char>> {
    seq!["inc_"@, "dec_"@, "add_"@, "record_"@, "log_"@]
}

/// Words of paths of counter and metric code.
pub open spec fn metric_words() -> Seq<Seq<char>> {
    seq!["counter"@, "metric"@, "stats"@]
}

/// Names of trait methods whose default is to do nothing.
pub open spec fn default_impl_names() -> Seq<Seq<char>> {
    seq![
        "initialize"@,
        "finalize"@,
        "default"@,
        "new"@,
        "consume"@,
        "flush"@,
        "clear"@,
        "reset"@,
        "wake"@,
        "drop"@,
        "close"@,
    ]
}

/// Words of names of callbacks.
pub open spec fn callback_words() -> Seq<Seq<char>> {
    seq!["retain"@, "callback"@, "handler"@]
}

/// Prefixes of hook functions.
pub open spec fn hook_prefixes() -> Seq<Seq<char>> {
    seq!["post_"@, "pre_"@, "on_"@]
}

/// Marks of parameters that go unused.
pub open spec fn unused_parameter_marks() -> Seq<Seq<char>> {
    seq!["_:"@, "_,"@, ", _)"@]
}

/// Names of types that are empty on purpose, lowercased.
pub open spec fn empty_type_words() -> Seq<Seq<char>> {
    seq!["empty"@, "noop"@, "noop"@, "void"@, "unit"@, "null"@, "dummy"@]
}

/// Ends of paths of stub and mock files.
pub open spec fn stub_file_ends() -> Seq<Seq<char>> {
    seq!["stub.rs"@, "stubs.rs"@, "mock.rs"@, "mocks.rs"@, "noop.rs"@]
}

// ---------------------------------------------------------------------------
// Legitimate patterns
// ---------------------------------------------------------------------------

/// A file of stubs or mocks (by its lowercased path).
pub open spec fn stub_file(path_lower: Seq<char>) -> bool {
    (exists|i: int| 0 <= i < stub_file_ends().len() && has_suffix(path_lower, #[trigger] stub_file_ends()[i]))
        || contains_seq(path_lower, "/stub/"@) || contains_seq(path_lower, "/mock/"@)
}

/// Why an empty function is no stub: a compile-time trait check, a metrics
/// no-op, a default trait method, an intentionally unused or placeholder
/// function, a callback or hook, or a method of a type that is empty on
/// purpose.
pub open spec fn empty_on_purpose(path_lower: Seq<char>, name: Seq<char>, text: Seq<char>) -> bool {
    ||| any_prefix(name, trait_check_names())
    ||| (contains_seq(text, "<"@) && contains_seq(text, ":"@) && (has_prefix(name, "check_"@)
        || has_prefix(name, "is_"@) || has_prefix(name, "_"@)))
    ||| (any_prefix(name, noop_prefixes()) && any_contained(path_lower, metric_words()))
    ||| (any_equal(name, default_impl_names()) && (!contains_seq(text, ","@) || contains_seq(
        text,
        "&self)"@,
    ) || contains_seq(text, "&mut self)"@)))
    ||| has_prefix(name, "_"@)
    ||| any_contained(name, callback_words())
    ||| any_prefix(name, hook_prefixes())
    ||| has_prefix(name, "unhandled_"@)
    ||| any_contained(text, unused_parameter_marks())
    ||| any_contained(path_lower, empty_type_words())
}

/// Whether a function is a legitimate Rust pattern rather than a stub: a
/// panicking or empty function in a stub or mock file, or an empty function
/// that is so on purpose.
pub open spec fn legitimate_rust_pattern(
    path: Seq<char>,
    name: Seq<char>,
    text: Seq<char>,
    is_empty: bool,
    is_panic_only: bool,
) -> bool {
    let pl = unicode_lowercase(path);
    if (is_panic_only || is_empty) && stub_file(pl) {
        true
    } else if is_empty {
        empty_on_purpose(pl, name, text)
    } else {
        false
    }
}

fn stub_file_exec(pl: &[char]) -> (r: bool)
    ensures
        r == stub_file(pl@),
{
    let ends = ["stub.rs", "stubs.rs", "mock.rs", "mocks.rs", "noop.rs"];
    let mut i: usize = 0;
    while i < ends.len()
        invariant
            i <= ends@.len(),
            strs_view(ends@) == stub_file_ends(),
            forall|j: int| 0 <= j < i ==> !has_suffix(pl@, #[trigger] stub_file_ends()[j]),
        decreases ends.len() - i,
    {
        if ends_with(pl, chars_of(ends[i]).as_slice()) {
            assert(has_suffix(pl@, stub_file_ends()[i as int]));
            return true;
        }
        i = i + 1;
    }
    contains(pl, chars_of("/stub/").as_slice()) || contains(pl, chars_of("/mock/").as_slice())
}

fn empty_on_purpose_exec(pl: &[char], name: &[char], text: &[char]) -> (r: bool)
    ensures
        r == empty_on_purpose(pl@, name@, text@),
{
    let checks = [
        "check_send",
        "check_sync",
        "check_unpin",
        "check_static",
        "check_send_sync",
        "check_send_sync_val",
        "check_static_val",
        "is_send",
        "is_sync",
        "is_unpin",
        "is_debug",
        "_assert",
        "_assert_send",
        "_assert_sync",
        "_assert_unpin",
    ];
    assert(strs_view(checks@) =~= trait_check_names());
    if any_prefix_exec(name, &checks) {
        return true;
    }
    let generic = contains(text, chars_of("<").as_slice()) && contains(text, chars_of(":").as_slice());
    if generic && (starts_with(name, chars_of("check_").as_slice()) || starts_with(
        name,
        chars_of("is_").as_slice(),
    ) || starts_with(name, chars_of("_").as_slice())) {
        return true;
    }
    let noops = ["inc_", "dec_", "add_", "record_", "log_"];
    let metrics = ["counter", "metric", "stats"];
    assert(strs_view(noops@) =~= noop_prefixes());
    assert(strs_view(metrics@) =~= metric_words());
    if any_prefix_exec(name, &noops) && any_contained_exec(pl, &metrics) {
        return true;
    }
    let defaults = [
        "initialize",
        "finalize",
        "default",
        "new",
        "consume",
        "flush",
        "clear",
        "reset",
        "wake",
        "drop",
        "close",
    ];
    assert(strs_view(defaults@) =~= default_impl_names());
    let simple_signature = !contains(text, chars_of(",").as_slice()) || contains(
        text,
        chars_of("&self)").as_slice(),
    ) || contains(text, chars_of("&mut self)").as_slice());
    if any_equal_exec(name, &defaults) && simple_signature {
        return true;
    }
    if starts_with(name, chars_of("_").as_slice()) {
        return true;
    }
    let callbacks = ["retain", "callback", "handler"];
    assert(strs_view(callbacks@) =~= callback_words());
    if any_contained_exec(name, &callbacks) {
        return true;
    }
    let hooks = ["post_", "pre_", "on_"];
    assert(strs_view(hooks@) =~= hook_prefixes());
    if any_prefix_exec(name, &hooks) {
        return true;
    }
    if starts_with(name, chars_of("unhandled_").as_slice()) {
        return true;
    }
    let unused = ["_:", "_,", ", _)"];
    assert(strs_view(unused@) =~= unused_parameter_marks());
    if any_contained_exec(text, &unused) {
        return true;
    }
    let empties = ["empty", "noop", "noop", "void", "unit", "null", "dummy"];
    assert(strs_view(empties@) =~= empty_type_words());
    any_contained_exec(pl, &empties)
}

fn legitimate_rust_pattern_exec(
    path: &str,
    name: &str,
    text: &str,
    is_empty: bool,
    is_panic_only: bool,
) -> (r: bool)
    ensures
        r == legitimate_rust_pattern(path@, name@, text@, is_empty, is_panic_only),
{
    let pl = crate::text::to_lowercase(chars_of(path).as_slice());
    if (is_panic_only || is_empty) && stub_file_exec(pl.as_slice()) {
        return true;
    }
    if is_empty {
        return empty_on_purpose_exec(
            pl.as_slice(),
            chars_of(name).as_slice(),
            chars_of(text).as_slice(),
        );
    }
    false
}

// ---------------------------------------------------------------------------
// Function bodies
// ---------------------------------------------------------------------------

/// Braces and comments are not statements.
pub open spec fn is_statement_kind(k: Seq<char>) -> bool {
    k != "{"@ && k != "}"@ && k != "line_comment"@ && k != "block_comment"@
}

/// The statements among the nodes: those that are not braces or comments.
pub open spec fn statements(ns: Seq<NodeView>, ks: Seq<int>) -> Seq<int>
    decreases ks.len(),
{
    if ks.len() == 0 {
        Seq::empty()
    } else if is_statement_kind(ns[ks.last()].kind) {
        statements(ns, ks.drop_last()).push(ks.last())
    } else {
        statements(ns, ks.drop_last())
    }
}

fn is_statement_kind_exec(k: &str) -> (r: bool)
    ensures
        r == is_statement_kind(k@),
{
    !str_eq(k, "{") && !str_eq(k, "}") && !str_eq(k, "line_comment") && !str_eq(k, "block_comment")
}

fn statements_exec(ns: &Vec<SyntaxNode>, ks: &Vec<usize>) -> (r: Vec<usize>)
    requires
        forall|j: int| 0 <= j < ks@.len() ==> #[trigger] ks@[j] < ns@.len(),
    ensures
        as_ints(r@) == statements(nodes_view(ns@), as_ints(ks@)),
        forall|j: int| 0 <= j < r@.len() ==> #[trigger] r@[j] < ns@.len(),
{
    let ghost nv = nodes_view(ns@);
    let mut out: Vec<usize> = Vec::new();
    let mut i: usize = 0;
    while i < ks.len()
        invariant
            i <= ks@.len(),
            nv == nodes_view(ns@),
            forall|j: int| 0 <= j < ks@.len() ==> #[trigger] ks@[j] < ns@.len(),
            forall|j: int| 0 <= j < out@.len() ==> #[trigger] out@[j] < ns@.len(),
            as_ints(out@) == statements(nv, as_ints(ks@).take(i as int)),
        decreases ks.len() - i,
    {
        let k = ks[i];
        assert(as_ints(ks@).take(i + 1).drop_last() =~= as_ints(ks@).take(i as int));
        assert(as_ints(ks@).take(i + 1).last() == k as int);
        assert(nv[k as int] == ns@[k as int]@);
        if is_statement_kind_exec(ns[k].kind.as_str()) {
            let ghost before = out@;
            out.push(k);
            assert(as_ints(out@) =~= as_ints(before).push(k as int));
        }
        i = i + 1;
    }
    assert(as_ints(ks@).take(ks@.len() as int) =~= as_ints(ks@));
    out
}

/// A statement's text that only says the work is not done:
/// `unimplemented!`, `todo!`, or a `panic!` without a message.
pub open spec fn stub_macro_text(t: Seq<char>) -> bool {
    has_prefix(t, "unimplemented!"@) || has_prefix(t, "todo!"@) || (has_prefix(t, "panic!"@) && (t
        == "panic!()"@ || t == "panic!();"@ || t == "panic!(\"\")"@ || t == "panic!(\"\");"@))
}

/// A body whose one statement is such a macro call.
pub open spec fn panic_only(ns: Seq<NodeView>, st: Seq<int>) -> bool {
    st.len() == 1 && (ns[st[0]].kind == "expression_statement"@ || ns[st[0]].kind
        == "macro_invocation"@) && stub_macro_text(trim(ns[st[0]].text))
}

/// A body whose one statement returns `None`.
pub open spec fn none_only(ns: Seq<NodeView>, st: Seq<int>) -> bool {
    st.len() == 1 && {
        let t = trim(ns[st[0]].text);
        t == "None"@ || t == "return None"@ || t == "return None;"@
    }
}

/// A comment that marks unfinished work.
pub open spec fn todo_text(t: Seq<char>) -> bool {
    let u = unicode_uppercase(t);
    contains_seq(u, "TODO"@) || contains_seq(u, "FIXME"@) || contains_seq(u, "UNIMPLEMENTED"@)
}

/// A comment node.
pub open spec fn is_comment_kind(k: Seq<char>) -> bool {
    k == "line_comment"@ || k == "block_comment"@
}

/// A body that holds nothing but comments, one of them marking unfinished
/// work.
pub open spec fn todo_only(ns: Seq<NodeView>, ks: Seq<int>, st: Seq<int>) -> bool {
    st.len() == 0 && exists|j: int|
        0 <= j < ks.len() && is_comment_kind(ns[#[trigger] ks[j]].kind) && todo_text(ns[ks[j]].text)
}

fn panic_only_exec(ns: &Vec<SyntaxNode>, st: &Vec<usize>) -> (r: bool)
    requires
        forall|j: int| 0 <= j < st@.len() ==> #[trigger] st@[j] < ns@.len(),
    ensures
        r == panic_only(nodes_view(ns@), as_ints(st@)),
{
    if st.len() != 1 {
        return false;
    }
    let s0 = st[0];
    assert(as_ints(st@)[0] == s0 as int);
    assert(nodes_view(ns@)[s0 as int] == ns@[s0 as int]@);
    let kind = ns[s0].kind.as_str();
    if !str_eq(kind, "expression_statement") && !str_eq(kind, "macro_invocation") {
        return false;
    }
    let t = trim_chars(chars_of(ns[s0].text.as_str()).as_slice());
    if starts_with(t.as_slice(), chars_of("unimplemented!").as_slice()) || starts_with(
        t.as_slice(),
        chars_of("todo!").as_slice(),
    ) {
        return true;
    }
    if starts_with(t.as_slice(), chars_of("panic!").as_slice()) {
        let ts = t.as_slice();
        return crate::text::chars_eq_str(ts, "panic!()") || crate::text::chars_eq_str(
            ts,
            "panic!();",
        ) || crate::text::chars_eq_str(ts, "panic!(\"\")") || crate::text::chars_eq_str(
            ts,
            "panic!(\"\");",
        );
    }
    false
}

fn none_only_exec(ns: &Vec<SyntaxNode>, st: &Vec<usize>) -> (r: bool)
    requires
        forall|j: int| 0 <= j < st@.len() ==> #[trigger] st@[j] < ns@.len(),
    ensures
        r == none_only(nodes_view(ns@), as_ints(st@)),
{
    if st.len() != 1 {
        return false;
    }
    let s0 = st[0];
    assert(as_ints(st@)[0] == s0 as int);
    assert(nodes_view(ns@)[s0 as int] == ns@[s0 as int]@);
    let t = trim_chars(chars_of(ns[s0].text.as_str()).as_slice());
    let ts = t.as_slice();
    crate::text::chars_eq_str(ts, "None") || crate::text::chars_eq_str(ts, "return None")
        || crate::text::chars_eq_str(ts, "return None;")
}

fn todo_text_exec(t: &str) -> (r: bool)
    ensures
        r == todo_text(t@),
{
    let u = crate::text::to_uppercase(chars_of(t).as_slice());
    contains(u.as_slice(), chars_of("TODO").as_slice()) || contains(
        u.as_slice(),
        chars_of("FIXME").as_slice(),
    ) || contains(u.as_slice(), chars_of("UNIMPLEMENTED").as_slice())
}

fn todo_only_exec(ns: &Vec<SyntaxNode>, ks: &Vec<usize>, st: &Vec<usize>) -> (r: bool)
    requires
        forall|j: int| 0 <= j < ks@.len() ==> #[trigger] ks@[j] < ns@.len(),
    ensures
        r == todo_only(nodes_view(ns@), as_ints(ks@), as_ints(st@)),
{
    let ghost nv = nodes_view(ns@);
    if st.len() != 0 {
        return false;
    }
    let mut i: usize = 0;
    while i < ks.len()
        invariant
            i <= ks@.len(),
            nv == nodes_view(ns@),
            st@.len() == 0,
            forall|j: int| 0 <= j < ks@.len() ==> #[trigger] ks@[j] < ns@.len(),
            forall|j: int|
                0 <= j < i ==> !(is_comment_kind(nv[#[trigger] as_ints(ks@)[j]].kind) && todo_text(
                    nv[as_ints(ks@)[j]].text,
                )),
        decreases ks.len() - i,
    {
        let k = ks[i];
        assert(as_ints(ks@)[i as int] == k as int);
        assert(nv[k as int] == ns@[k as int]@);
        let kind = ns[k].kind.as_str();
        if (str_eq(kind, "line_comment") || str_eq(kind, "block_comment")) && todo_text_exec(
            ns[k].text.as_str(),
        ) {
            return true;
        }
        i = i + 1;
    }
    false
}

// ---------------------------------------------------------------------------
// Control flow
// ---------------------------------------------------------------------------

/// The control flow within the given bytes (`?` counts as a catch).
pub open spec fn control_flow_of(cm: Seq<Seq<CaptureView>>, lo: usize, hi: usize) -> ControlFlowInfo {
    ControlFlowInfo {
        if_count: sat(count_all(cm, "if"@, lo, hi)),
        loop_count: sat(
            count_all(cm, "for"@, lo, hi) + count_all(cm, "while"@, lo, hi) + count_all(
                cm,
                "loop"@,
                lo,
                hi,
            ),
        ),
        switch_count: sat(count_all(cm, "match"@, lo, hi)),
        case_count: sat(count_all(cm, "match_arm"@, lo, hi)),
        select_count: 0,
        and_count: sat(count_all(cm, "and"@, lo, hi)),
        or_count: sat(count_all(cm, "or"@, lo, hi)),
        ternary_count: 0,
        catch_count: sat(count_all(cm, "try"@, lo, hi)),
    }
}

fn control_flow_exec(cm: &Vec<Vec<Capture>>, lo: usize, hi: usize) -> (r: ControlFlowInfo)
    ensures
        r == control_flow_of(matches_view(cm@), lo, hi),
{
    let loops = count_captures(cm, "for", lo, hi).saturating_add(
        count_captures(cm, "while", lo, hi),
    ).saturating_add(count_captures(cm, "loop", lo, hi));
    ControlFlowInfo {
        if_count: count_captures(cm, "if", lo, hi),
        loop_count: loops,
        switch_count: count_captures(cm, "match", lo, hi),
        case_count: count_captures(cm, "match_arm", lo, hi),
        select_count: 0,
        and_count: count_captures(cm, "and", lo, hi),
        or_count: count_captures(cm, "or", lo, hi),
        ternary_count: 0,
        catch_count: count_captures(cm, "try", lo, hi),
    }
}

// ---------------------------------------------------------------------------
// The body of a function
// ---------------------------------------------------------------------------

proof fn lemma_statements_len(ns: Seq<NodeView>, ks: Seq<int>)
    ensures
        statements(ns, ks).len() <= ks.len(),
    decreases ks.len(),
{
    if ks.len() > 0 {
        lemma_statements_len(ns, ks.drop_last());
    }
}

/// The name of the function at node `k`: its first identifier child.
pub open spec fn function_name(ns: Seq<NodeView>, k: int) -> Seq<char> {
    match first_of_kind(ns, children(ns, k), "identifier"@) {
        Some(i) => ns[i].text,
        None => Seq::empty(),
    }
}

/// The body of the function at node `k` of the file at `path`: its block,
/// with the statements, the stub markers (an empty or panicking body counts
/// as a stub unless it is a legitimate pattern) and the control flow within
/// it.
pub open spec fn body_of(
    ns: Seq<NodeView>,
    cm: Seq<Seq<CaptureView>>,
    path: Seq<char>,
    k: int,
) -> Option<BodyView> {
    match first_of_kind(ns, children(ns, k), "block"@) {
        None => None,
        Some(b) => {
            let ks = children(ns, b);
            let st = statements(ns, ks);
            let raw_empty = st.len() == 0;
            let raw_panic = panic_only(ns, st);
            let legit = legitimate_rust_pattern(
                path,
                function_name(ns, k),
                ns[k].text,
                raw_empty,
                raw_panic,
            );
            Some(
                BodyView {
                    span: span_of(ns[b]),
                    statement_count: st.len() as usize,
                    is_empty: raw_empty && !legit,
                    is_panic_only: raw_panic && !legit,
                    is_nil_return_only: none_only(ns, st),
                    has_only_todo_comment: todo_only(ns, ks, st),
                    text: ns[b].text,
                    control_flow: control_flow_of(cm, ns[b].start_byte, ns[b].end_byte),
                },
            )
        },
    }
}

fn function_body(ns: &Vec<SyntaxNode>, cm: &Vec<Vec<Capture>>, path: &str, k: usize) -> (r: Option<
    FunctionBody,
>)
    requires
        k < ns@.len(),
    ensures
        opt_body_view(r) == body_of(nodes_view(ns@), matches_view(cm@), path@, k as int),
{
    let ghost nv = nodes_view(ns@);
    let ch = children_exec(ns, k);
    let b = match first_of_kind_exec(ns, &ch, "block") {
        Some(b) => b,
        None => return None,
    };
    assert(nv[b as int] == ns@[b as int]@);
    assert(nv[k as int] == ns@[k as int]@);
    let name = match first_of_kind_exec(ns, &ch, "identifier") {
        Some(i) => {
            assert(nv[i as int] == ns@[i as int]@);
            ns[i].text.clone()
        },
        None => String::new(),
    };
    let ks = children_exec(ns, b);
    let st = statements_exec(ns, &ks);
    proof {
        lemma_statements_len(nv, as_ints(ks@));
    }
    let raw_empty = st.len() == 0;
    let raw_panic = panic_only_exec(ns, &st);
    let legit = legitimate_rust_pattern_exec(
        path,
        name.as_str(),
        ns[k].text.as_str(),
        raw_empty,
        raw_panic,
    );
    let body = FunctionBody {
        span: node_span(&ns[b]),
        statement_count: st.len(),
        is_empty: raw_empty && !legit,
        is_panic_only: raw_panic && !legit,
        is_nil_return_only: none_only_exec(ns, &st),
        has_only_todo_comment: todo_only_exec(ns, &ks, &st),
        text: ns[b].text.clone(),
        control_flow: control_flow_exec(cm, ns[b].start_byte, ns[b].end_byte),
    };
    Some(body)
}

// ---------------------------------------------------------------------------
// Declarations
// ---------------------------------------------------------------------------

/// What the captures of a declaration match say, read in order: the name,
/// the kind, the declaration's node and the receiver type; and the type of
/// the impl block last seen, which carries over from match to match.
pub struct DeclAcc {
    pub name: Seq<char>,
    pub kind: DeclarationKind,
    pub node: Option<(usize, usize, Seq<char>)>,
    pub receiver: Option<Seq<char>>,
    pub impl_type: Option<Seq<char>>,
}

pub open spec fn decl_step(ns: Seq<NodeView>, a: DeclAcc, c: CaptureView) -> DeclAcc {
    let t = capture_text(ns, c);
    let n = c.0;
    if n == "impl_type"@ {
        DeclAcc { impl_type: Some(t), ..a }
    } else if n == "func_name"@ {
        DeclAcc { name: t, kind: DeclarationKind::Function, ..a }
    } else if n == "method_name"@ {
        DeclAcc { name: t, kind: DeclarationKind::Method, receiver: a.impl_type, ..a }
    } else if n == "struct_name"@ {
        DeclAcc { name: t, kind: DeclarationKind::Struct, ..a }
    } else if n == "enum_name"@ {
        DeclAcc { name: t, kind: DeclarationKind::Enum, ..a }
    } else if n == "trait_name"@ {
        DeclAcc { name: t, kind: DeclarationKind::Trait, ..a }
    } else if n == "type_name"@ {
        DeclAcc { name: t, kind: DeclarationKind::Type, ..a }
    } else if n == "const_name"@ || n == "static_name"@ {
        DeclAcc { name: t, kind: DeclarationKind::Const, ..a }
    } else if n == "function"@ || n == "method"@ || n == "struct"@ || n == "enum"@ || n == "trait"@
        || n == "type_alias"@ || n == "const"@ || n == "static"@ {
        DeclAcc { node: Some((c.1, c.2, c.3)), ..a }
    } else {
        a
    }
}

/// The reading of a match, starting from the impl type last seen.
pub open spec fn decl_acc(ns: Seq<NodeView>, m: Seq<CaptureView>, impl_type: Option<Seq<char>>) -> DeclAcc
    decreases m.len(),
{
    if m.len() == 0 {
        DeclAcc {
            name: Seq::empty(),
            kind: DeclarationKind::Function,
            node: None,
            receiver: None,
            impl_type: impl_type,
        }
    } else {
        decl_step(ns, decl_acc(ns, m.drop_last(), impl_type), m.last())
    }
}

/// The impl type last seen after the matches.
pub open spec fn impl_after(ns: Seq<NodeView>, dm: Seq<Seq<CaptureView>>) -> Option<Seq<char>>
    decreases dm.len(),
{
    if dm.len() == 0 {
        None
    } else {
        decl_acc(ns, dm.last(), impl_after(ns, dm.drop_last())).impl_type
    }
}

/// A declaration that a match yields: its name, kind, node and receiver.
pub struct DeclCand {
    pub name: Seq<char>,
    pub kind: DeclarationKind,
    pub node: int,
    pub receiver: Option<Seq<char>>,
}

/// The declaration a match yields: one with a name and a declaration node
/// (found in the tree).
pub open spec fn decl_candidate(ns: Seq<NodeView>, m: Seq<CaptureView>, impl_type: Option<Seq<char>>) -> Option<
    DeclCand,
> {
    let a = decl_acc(ns, m, impl_type);
    if a.name.len() == 0 {
        None
    } else {
        match a.node {
            None => None,
            Some(t) => match node_index(ns, t.0, t.1, t.2) {
                None => None,
                Some(k) => Some(DeclCand { name: a.name, kind: a.kind, node: k, receiver: a.receiver }),
            },
        }
    }
}

/// The declarations the matches yield, in order.
pub open spec fn all_candidates(ns: Seq<NodeView>, dm: Seq<Seq<CaptureView>>) -> Seq<DeclCand>
    decreases dm.len(),
{
    if dm.len() == 0 {
        Seq::empty()
    } else {
        let prev = all_candidates(ns, dm.drop_last());
        match decl_candidate(ns, dm.last(), impl_after(ns, dm.drop_last())) {
            Some(c) => prev.push(c),
            None => prev,
        }
    }
}

/// A declaration is known by its start offset and name.
pub open spec fn cand_key(ns: Seq<NodeView>, c: DeclCand) -> (usize, Seq<char>) {
    (ns[c.node].start_byte, c.name)
}

/// The declarations in order, each key kept at its first occurrence.
pub open spec fn unique_cands(ns: Seq<NodeView>, cs: Seq<DeclCand>) -> Seq<DeclCand>
    decreases cs.len(),
{
    if cs.len() == 0 {
        Seq::empty()
    } else if exists|j: int|
        0 <= j < cs.len() - 1 && #[trigger] cand_key(ns, cs[j]) == cand_key(ns, cs.last()) {
        unique_cands(ns, cs.drop_last())
    } else {
        unique_cands(ns, cs.drop_last()).push(cs.last())
    }
}

/// The declaration a candidate stands for.
pub open spec fn decl_of(ns: Seq<NodeView>, cm: Seq<Seq<CaptureView>>, path: Seq<char>, c: DeclCand) -> DeclView {
    DeclView {
        name: c.name,
        kind: c.kind,
        span: span_of(ns[c.node]),
        receiver: c.receiver,
        body: if callable(c.kind) {
            body_of(ns, cm, path, c.node)
        } else {
            None
        },
    }
}

/// The declarations of a Rust file, in the order the matches give them.
pub open spec fn rust_declarations(
    ns: Seq<NodeView>,
    dm: Seq<Seq<CaptureView>>,
    cm: Seq<Seq<CaptureView>>,
    path: Seq<char>,
) -> Seq<DeclView> {
    unique_cands(ns, all_candidates(ns, dm)).map_values(|c: DeclCand| decl_of(ns, cm, path, c))
}

/// A candidate as executable values: name, kind, node and receiver.
type ExecCand = (String, DeclarationKind, usize, Option<String>);

pub open spec fn exec_cand_view(c: ExecCand) -> DeclCand {
    DeclCand { name: c.0@, kind: c.1, node: c.2 as int, receiver: crate::paths::opt_string_view(c.3) }
}

fn decl_candidate_exec(ns: &Vec<SyntaxNode>, m: &Vec<Capture>, impl_type: &Option<String>) -> (r: (
    Option<ExecCand>,
    Option<String>,
))
    ensures
        crate::paths::opt_string_view(r.1) == decl_acc(
            nodes_view(ns@),
            match_view(*m),
            crate::paths::opt_string_view(*impl_type),
        ).impl_type,
        match r.0 {
            Some(c) => decl_candidate(
                nodes_view(ns@),
                match_view(*m),
                crate::paths::opt_string_view(*impl_type),
            ) == Some(exec_cand_view(c)) && c.2 < ns@.len(),
            None => decl_candidate(
                nodes_view(ns@),
                match_view(*m),
                crate::paths::opt_string_view(*impl_type),
            ) is None,
        },
{
    let ghost nv = nodes_view(ns@);
    let ghost mv = match_view(*m);
    let ghost iv = crate::paths::opt_string_view(*impl_type);
    let mut name = String::new();
    let mut kind = DeclarationKind::Function;
    let mut node: Option<(usize, usize, String)> = None;
    let mut receiver: Option<String> = None;
    let mut current: Option<String> = match impl_type {
        Some(t) => Some(t.clone()),
        None => None,
    };
    let mut j: usize = 0;
    while j < m.len()
        invariant
            j <= m@.len(),
            nv == nodes_view(ns@),
            mv == match_view(*m),
            ({
                let a = decl_acc(nv, mv.take(j as int), iv);
                &&& a.name == name@
                &&& a.kind == kind
                &&& a.receiver == crate::paths::opt_string_view(receiver)
                &&& a.impl_type == crate::paths::opt_string_view(current)
                &&& a.node == match node {
                    Some(t) => Some((t.0, t.1, t.2@)),
                    None => None::<(usize, usize, Seq<char>)>,
                }
            }),
        decreases m.len() - j,
    {
        let c = &m[j];
        assert(mv.take(j + 1).drop_last() =~= mv.take(j as int));
        assert(mv.take(j + 1).last() == capture_view(*c));
        let cn = c.0.as_str();
        if str_eq(cn, "impl_type") {
            current = Some(capture_text_exec(ns, c));
        } else if str_eq(cn, "func_name") {
            name = capture_text_exec(ns, c);
            kind = DeclarationKind::Function;
        } else if str_eq(cn, "method_name") {
            name = capture_text_exec(ns, c);
            kind = DeclarationKind::Method;
            receiver = match &current {
                Some(t) => Some(t.clone()),
                None => None,
            };
        } else if str_eq(cn, "struct_name") {
            name = capture_text_exec(ns, c);
            kind = DeclarationKind::Struct;
        } else if str_eq(cn, "enum_name") {
            name = capture_text_exec(ns, c);
            kind = DeclarationKind::Enum;
        } else if str_eq(cn, "trait_name") {
            name = capture_text_exec(ns, c);
            kind = DeclarationKind::Trait;
        } else if str_eq(cn, "type_name") {
            name = capture_text_exec(ns, c);
            kind = DeclarationKind::Type;
        } else if str_eq(cn, "const_name") || str_eq(cn, "static_name") {
            name = capture_text_exec(ns, c);
            kind = DeclarationKind::Const;
        } else if str_eq(cn, "function") || str_eq(cn, "method") || str_eq(cn, "struct") || str_eq(
            cn,
            "enum",
        ) || str_eq(cn, "trait") || str_eq(cn, "type_alias") || str_eq(cn, "const") || str_eq(
            cn,
            "static",
        ) {
            node = Some((c.1.start, c.1.end, c.2.clone()));
        }
        j = j + 1;
    }
    assert(mv.take(m@.len() as int) =~= mv);
    if name.as_str().is_empty() {
        return (None, current);
    }
    match node {
        None => (None, current),
        Some(t) => match find_node(ns, t.0, t.1, t.2.as_str()) {
            None => (None, current),
            Some(k) => (Some((name, kind, k, receiver)), current),
        },
    }
}

/// The declarations of a Rust file, in the order the matches give them.
fn declarations_exec(
    ns: &Vec<SyntaxNode>,
    dm: &Vec<Vec<Capture>>,
    cm: &Vec<Vec<Capture>>,
    path: &str,
) -> (r: Vec<
    Declaration,
>)
    ensures
        decls_view(r@) == rust_declarations(nodes_view(ns@), matches_view(dm@), matches_view(cm@), path@),
{
    let ghost nv = nodes_view(ns@);
    let ghost dmv = matches_view(dm@);
    let ghost cmv = matches_view(cm@);
    let mut seen: Vec<(usize, String)> = Vec::new();
    let mut out: Vec<Declaration> = Vec::new();
    let mut current_impl: Option<String> = None;
    let mut i: usize = 0;
    while i < dm.len()
        invariant
            i <= dm@.len(),
            nv == nodes_view(ns@),
            dmv == matches_view(dm@),
            cmv == matches_view(cm@),
            crate::paths::opt_string_view(current_impl) == impl_after(nv, dmv.take(i as int)),
            seen@.len() == all_candidates(nv, dmv.take(i as int)).len(),
            forall|t: int|
                0 <= t < seen@.len() ==> ((#[trigger] seen@[t]).0, seen@[t].1@) == cand_key(
                    nv,
                    all_candidates(nv, dmv.take(i as int))[t],
                ),
            decls_view(out@) == unique_cands(nv, all_candidates(nv, dmv.take(i as int))).map_values(
                |c: DeclCand| decl_of(nv, cmv, path@, c),
            ),
        decreases dm.len() - i,
    {
        let ghost cs = all_candidates(nv, dmv.take(i as int));
        assert(dmv.take(i + 1).drop_last() =~= dmv.take(i as int));
        assert(dmv.take(i + 1).last() == match_view(dm@[i as int]));
        let (cand, next_impl) = decl_candidate_exec(ns, &dm[i], &current_impl);
        current_impl = next_impl;
        match cand {
            None => {
                assert(all_candidates(nv, dmv.take(i + 1)) == cs);
            },
            Some(c) => {
                let ghost cv = exec_cand_view(c);
                let ghost cs2 = all_candidates(nv, dmv.take(i + 1));
                assert(cs2 == cs.push(cv));
                assert(cs2.drop_last() =~= cs);
                assert(nv[c.2 as int] == ns@[c.2 as int]@);
                let start = ns[c.2].start_byte;
                let mut dup = false;
                let mut j: usize = 0;
                while j < seen.len()
                    invariant
                        j <= seen@.len(),
                        seen@.len() == cs.len(),
                        forall|t: int|
                            0 <= t < seen@.len() ==> ((#[trigger] seen@[t]).0, seen@[t].1@)
                                == cand_key(nv, cs[t]),
                        dup == exists|t: int|
                            0 <= t < j && #[trigger] cand_key(nv, cs[t]) == (start, c.0@),
                    decreases seen.len() - j,
                {
                    assert(((seen@[j as int]).0, seen@[j as int].1@) == cand_key(nv, cs[j as int]));
                    if seen[j].0 == start && str_eq(seen[j].1.as_str(), c.0.as_str()) {
                        dup = true;
                    }
                    j = j + 1;
                }
                proof {
                    assert(cand_key(nv, cv) == (start, c.0@));
                    assert forall|t: int| 0 <= t < cs2.len() - 1 implies cs2[t] == cs[t] by {}
                    if dup {
                        let t = choose|t: int|
                            0 <= t < j && #[trigger] cand_key(nv, cs[t]) == (start, c.0@);
                        assert(cand_key(nv, cs2[t]) == cand_key(nv, cs2.last()));
                    } else {
                        assert(!exists|t: int|
                            0 <= t < cs2.len() - 1 && #[trigger] cand_key(nv, cs2[t])
                                == cand_key(nv, cs2.last())) by {
                            if exists|t: int|
                                0 <= t < cs2.len() - 1 && #[trigger] cand_key(nv, cs2[t])
                                    == cand_key(nv, cs2.last()) {
                                let t = choose|t: int|
                                    0 <= t < cs2.len() - 1 && #[trigger] cand_key(nv, cs2[t])
                                        == cand_key(nv, cs2.last());
                                assert(cand_key(nv, cs[t]) == (start, c.0@));
                            }
                        }
                    }
                }
                let key_name = c.0.clone();
                if !dup {
                    let body = if c.1.is_callable() {
                        function_body(ns, cm, path, c.2)
                    } else {
                        None
                    };
                    let d = Declaration {
                        name: c.0,
                        kind: c.1,
                        span: node_span(&ns[c.2]),
                        receiver: c.3,
                        body,
                    };
                    let ghost before = out@;
                    out.push(d);
                    proof {
                        assert(d@ == decl_of(nv, cmv, path@, cv));
                        assert(decls_view(out@) =~= decls_view(before).push(d@));
                        assert(unique_cands(nv, cs2) == unique_cands(nv, cs).push(cv));
                        assert(unique_cands(nv, cs2).map_values(|c: DeclCand| decl_of(nv, cmv, path@, c))
                            =~= unique_cands(nv, cs).map_values(|c: DeclCand| decl_of(nv, cmv, path@, c)).push(
                            decl_of(nv, cmv, path@, cv),
                        ));
                    }
                } else {
                    assert(unique_cands(nv, cs2) == unique_cands(nv, cs));
                }
                let ghost seen_before = seen@;
                seen.push((start, key_name));
                proof {
                    assert forall|t: int| 0 <= t < seen@.len() implies ((#[trigger] seen@[t]).0, seen@[t].1@)
                        == cand_key(nv, cs2[t]) by {
                        if t < seen_before.len() {
                            assert(seen@[t] == seen_before[t]);
                            assert(cs2[t] == cs[t]);
                        }
                    }
                }
            },
        }
        i = i + 1;
    }
    assert(dmv.take(dm@.len() as int) =~= dmv);
    out
}

// ---------------------------------------------------------------------------
// Imports
// ---------------------------------------------------------------------------

/// What the captures of a use declaration match say, read in order: the
/// path, the alias and the path's node.
pub struct ImportAcc {
    pub path: Seq<char>,
    pub alias: Option<Seq<char>>,
    pub node: Option<(usize, usize, Seq<char>)>,
}

pub open spec fn import_step(ns: Seq<NodeView>, a: ImportAcc, c: CaptureView) -> ImportAcc {
    if c.0 == "path"@ || c.0 == "simple_path"@ {
        ImportAcc { path: capture_text(ns, c), alias: a.alias, node: Some((c.1, c.2, c.3)) }
    } else if c.0 == "alias"@ {
        ImportAcc { path: a.path, alias: Some(capture_text(ns, c)), node: a.node }
    } else {
        a
    }
}

pub open spec fn import_acc(ns: Seq<NodeView>, m: Seq<CaptureView>) -> ImportAcc
    decreases m.len(),
{
    if m.len() == 0 {
        ImportAcc { path: Seq::empty(), alias: None, node: None }
    } else {
        import_step(ns, import_acc(ns, m.drop_last()), m.last())
    }
}

/// What an import match yields: its path, when not empty, and the import,
/// when its node is found in the tree.
pub open spec fn import_entry(ns: Seq<NodeView>, m: Seq<CaptureView>) -> Option<
    (Seq<char>, Option<ImportFactView>),
> {
    let a = import_acc(ns, m);
    if a.path.len() == 0 {
        None
    } else {
        Some(
            (
                a.path,
                match a.node {
                    None => None,
                    Some(t) => match node_index(ns, t.0, t.1, t.2) {
                        None => None,
                        Some(k) => Some(
                            ImportFactView { path: a.path, alias: a.alias, span: span_of(ns[k]) },
                        ),
                    },
                },
            ),
        )
    }
}

pub open spec fn all_import_entries(ns: Seq<NodeView>, im: Seq<Seq<CaptureView>>) -> Seq<
    (Seq<char>, Option<ImportFactView>),
> {
    crate::sorting::filter_map(im, |m: Seq<CaptureView>| import_entry(ns, m))
}

/// The imports in order, each path kept at its first occurrence.
pub open spec fn unique_imports(es: Seq<(Seq<char>, Option<ImportFactView>)>) -> Seq<ImportFactView>
    decreases es.len(),
{
    if es.len() == 0 {
        Seq::empty()
    } else if exists|j: int| 0 <= j < es.len() - 1 && (#[trigger] es[j]).0 == es.last().0 {
        unique_imports(es.drop_last())
    } else {
        match es.last().1 {
            Some(v) => unique_imports(es.drop_last()).push(v),
            None => unique_imports(es.drop_last()),
        }
    }
}

/// The imports of a Rust file, in the order the matches give them.
pub open spec fn rust_imports(ns: Seq<NodeView>, im: Seq<Seq<CaptureView>>) -> Seq<ImportFactView> {
    unique_imports(all_import_entries(ns, im))
}

fn import_entry_exec(ns: &Vec<SyntaxNode>, m: &Vec<Capture>) -> (r: Option<(String, Option<Import>)>)
    ensures
        match r {
            Some(e) => import_entry(nodes_view(ns@), match_view(*m)) == Some(
                (e.0@, opt_import_view(e.1)),
            ),
            None => import_entry(nodes_view(ns@), match_view(*m)) is None,
        },
{
    let ghost nv = nodes_view(ns@);
    let ghost mv = match_view(*m);
    let mut path = String::new();
    let mut alias: Option<String> = None;
    let mut node: Option<(usize, usize, String)> = None;
    let mut j: usize = 0;
    while j < m.len()
        invariant
            j <= m@.len(),
            nv == nodes_view(ns@),
            mv == match_view(*m),
            ({
                let a = import_acc(nv, mv.take(j as int));
                &&& a.path == path@
                &&& a.alias == crate::paths::opt_string_view(alias)
                &&& a.node == match node {
                    Some(t) => Some((t.0, t.1, t.2@)),
                    None => None::<(usize, usize, Seq<char>)>,
                }
            }),
        decreases m.len() - j,
    {
        let c = &m[j];
        assert(mv.take(j + 1).drop_last() =~= mv.take(j as int));
        assert(mv.take(j + 1).last() == capture_view(*c));
        if str_eq(c.0.as_str(), "path") || str_eq(c.0.as_str(), "simple_path") {
            path = capture_text_exec(ns, c);
            node = Some((c.1.start, c.1.end, c.2.clone()));
        } else if str_eq(c.0.as_str(), "alias") {
            alias = Some(capture_text_exec(ns, c));
        }
        j = j + 1;
    }
    assert(mv.take(m@.len() as int) =~= mv);
    if path.as_str().is_empty() {
        return None;
    }
    let entry = match node {
        None => None,
        Some(t) => match find_node(ns, t.0, t.1, t.2.as_str()) {
            None => None,
            Some(k) => {
                assert(nv[k as int] == ns@[k as int]@);
                Some(Import { path: path.clone(), alias, span: node_span(&ns[k]) })
            },
        },
    };
    Some((path, entry))
}

/// The imports of a Rust file, in the order the matches give them.
fn imports_exec(ns: &Vec<SyntaxNode>, im: &Vec<Vec<Capture>>) -> (r: Vec<Import>)
    ensures
        imports_view(r@) == rust_imports(nodes_view(ns@), matches_view(im@)),
{
    let ghost nv = nodes_view(ns@);
    let ghost imv = matches_view(im@);
    let mut seen: Vec<String> = Vec::new();
    let mut out: Vec<Import> = Vec::new();
    let mut i: usize = 0;
    while i < im.len()
        invariant
            i <= im@.len(),
            nv == nodes_view(ns@),
            imv == matches_view(im@),
            seen@.len() == all_import_entries(nv, imv.take(i as int)).len(),
            forall|t: int|
                0 <= t < seen@.len() ==> (#[trigger] seen@[t])@ == all_import_entries(
                    nv,
                    imv.take(i as int),
                )[t].0,
            imports_view(out@) == unique_imports(all_import_entries(nv, imv.take(i as int))),
        decreases im.len() - i,
    {
        let ghost es = all_import_entries(nv, imv.take(i as int));
        assert(imv.take(i + 1).drop_last() =~= imv.take(i as int));
        assert(imv.take(i + 1).last() == match_view(im@[i as int]));
        match import_entry_exec(ns, &im[i]) {
            None => {
                assert(all_import_entries(nv, imv.take(i + 1)) == es);
            },
            Some(e) => {
                let ghost ev = (e.0@, opt_import_view(e.1));
                let ghost es2 = all_import_entries(nv, imv.take(i + 1));
                assert(es2 == es.push(ev));
                let mut dup = false;
                let mut j: usize = 0;
                while j < seen.len()
                    invariant
                        j <= seen@.len(),
                        seen@.len() == es.len(),
                        forall|t: int| 0 <= t < seen@.len() ==> (#[trigger] seen@[t])@ == es[t].0,
                        dup == exists|t: int| 0 <= t < j && (#[trigger] es[t]).0 == e.0@,
                    decreases seen.len() - j,
                {
                    assert(seen@[j as int]@ == es[j as int].0);
                    if str_eq(seen[j].as_str(), e.0.as_str()) {
                        dup = true;
                    }
                    j = j + 1;
                }
                proof {
                    assert forall|t: int| 0 <= t < es2.len() - 1 implies es2[t] == es[t] by {}
                    if dup {
                        let t = choose|t: int| 0 <= t < j && (#[trigger] es[t]).0 == e.0@;
                        assert(es2[t].0 == es2.last().0);
                    } else {
                        assert(!exists|t: int|
                            0 <= t < es2.len() - 1 && (#[trigger] es2[t]).0 == es2.last().0) by {
                            if exists|t: int|
                                0 <= t < es2.len() - 1 && (#[trigger] es2[t]).0 == es2.last().0 {
                                let t = choose|t: int|
                                    0 <= t < es2.len() - 1 && (#[trigger] es2[t]).0
                                        == es2.last().0;
                                assert(es[t].0 == e.0@);
                            }
                        }
                    }
                    assert(es2.drop_last() =~= es);
                }
                let key = e.0.clone();
                if !dup {
                    match e.1 {
                        Some(x) => {
                            let ghost before = out@;
                            out.push(x);
                            assert(imports_view(out@) =~= imports_view(before).push(x@));
                        },
                        None => {},
                    }
                }
                let ghost seen_before = seen@;
                seen.push(key);
                proof {
                    assert forall|t: int| 0 <= t < seen@.len() implies (#[trigger] seen@[t])@
                        == es2[t].0 by {
                        if t < seen_before.len() {
                            assert(seen@[t] == seen_before[t]);
                        }
                    }
                }
            },
        }
        i = i + 1;
    }
    assert(imv.take(im@.len() as int) =~= imv);
    out
}

// ---------------------------------------------------------------------------
// The facts of a file
// ---------------------------------------------------------------------------

/// What the facts of a Rust file at `path` are, given its syntax tree and
/// the matches of the declaration, import and control-flow queries: its
/// declarations and imports (each kept once, sorted), and whether the tree
/// holds a syntax error. Rust files carry no package.
pub open spec fn rust_facts_hold(
    f: FactsView,
    path: Seq<char>,
    ns: Seq<NodeView>,
    dm: Seq<Seq<CaptureView>>,
    im: Seq<Seq<CaptureView>>,
    cm: Seq<Seq<CaptureView>>,
) -> bool {
    let has_errors = ns.len() > 0 && ns[0].has_error;
    &&& f.path == path
    &&& f.language == "rust"@
    &&& f.package is None
    &&& f.declarations.to_multiset() == rust_declarations(ns, dm, cm, path).to_multiset()
    &&& decls_sorted(f.declarations)
    &&& f.imports.to_multiset() == rust_imports(ns, im).to_multiset()
    &&& imports_sorted(f.imports)
    &&& f.has_parse_errors == has_errors
    &&& f.parse_error == if has_errors {
        Some("Source contains syntax errors"@)
    } else {
        None
    }
}

/// Whether the parser gives a tree of the source and the declaration,
/// import and control-flow queries run over it.
pub open spec fn rust_source_parses(source: &str) -> bool {
    &&& rust_tree_spec(source) is Some
    &&& rust_query_of(source@, DECLARATION_QUERY@) is Some
    &&& rust_query_of(source@, IMPORT_QUERY@) is Some
    &&& rust_query_of(source@, CONTROL_FLOW_QUERY@) is Some
}

/// What the facts of a Rust source are, read off its syntax tree and the
/// matches of the queries.
pub open spec fn rust_source_facts(f: FactsView, path: Seq<char>, source: &str) -> bool {
    &&& rust_source_parses(source)
    &&& rust_facts_hold(
        f,
        path,
        rust_tree_spec(source)->0,
        rust_query_of(source@, DECLARATION_QUERY@)->0,
        rust_query_of(source@, IMPORT_QUERY@)->0,
        rust_query_of(source@, CONTROL_FLOW_QUERY@)->0,
    )
}

/// Rust language analyzer.
pub struct RustAnalyzer {}

impl RustAnalyzer {
    /// Create a new Rust analyzer.
    pub fn new() -> (r: RustAnalyzer) {
        RustAnalyzer {  }
    }

    /// The language identifier.
    pub fn language_id(&self) -> (r: &'static str)
        ensures
            r@ == "rust"@,
    {
        "rust"
    }

    /// The globs of the files this analyzer reads.
    pub fn file_globs(&self) -> (r: Vec<&'static str>)
        ensures
            r@.len() == 1,
            r@[0]@ == "**/*.rs"@,
    {
        vec!["**/*.rs"]
    }

    /// The extensions of the files this analyzer reads.
    pub fn file_extensions(&self) -> (r: Vec<&'static str>)
        ensures
            r@.len() == 1,
            r@[0]@ == "rs"@,
    {
        vec!["rs"]
    }

    /// The facts of a Rust file at `path`, from its syntax tree and the
    /// matches of the declaration, import and control-flow queries.
    pub fn facts_from_syntax(
        &self,
        path: &str,
        tree: &Vec<SyntaxNode>,
        decls: &Vec<Vec<Capture>>,
        imports: &Vec<Vec<Capture>>,
        control: &Vec<Vec<Capture>>,
    ) -> (r: FileFacts)
        ensures
            rust_facts_hold(
                r@,
                path@,
                nodes_view(tree@),
                matches_view(decls@),
                matches_view(imports@),
                matches_view(control@),
            ),
    {
        let ghost nv = nodes_view(tree@);
        let ds = declarations_exec(tree, decls, control, path);
        let sorted_ds = crate::sorting::sort_by_key(ds);
        let is = imports_exec(tree, imports);
        let sorted_is = crate::sorting::sort_by_key(is);
        proof {
            crate::sorting::lemma_permutation_map(sorted_ds@, ds@, |d: Declaration| d@);
            crate::sorting::lemma_permutation_map(sorted_is@, is@, |i: Import| i@);
            let dv = decls_view(sorted_ds@);
            assert forall|i: int, j: int| 0 <= i < j < dv.len() implies triple_le(
                (Seq::empty(), dv[i].span.start_byte as int, dv[i].name),
                (Seq::empty(), dv[j].span.start_byte as int, dv[j].name),
            ) by {
                assert(sorted_ds@[i].key_le(&sorted_ds@[j]));
            }
            let iv = imports_view(sorted_is@);
            assert forall|i: int, j: int| 0 <= i < j < iv.len() implies triple_le(
                (iv[i].path, 0, Seq::empty()),
                (iv[j].path, 0, Seq::empty()),
            ) by {
                assert(sorted_is@[i].key_le(&sorted_is@[j]));
            }
        }
        let has_errors = tree.len() > 0 && tree[0].has_error;
        proof {
            if tree@.len() > 0 {
                assert(nv[0] == tree@[0]@);
            }
        }
        let parse_error = if has_errors {
            Some(String::from_str("Source contains syntax errors"))
        } else {
            None
        };
        FileFacts {
            path: String::from_str(path),
            language: String::from_str("rust"),
            package: None,
            declarations: sorted_ds,
            imports: sorted_is,
            has_parse_errors: has_errors,
            parse_error,
        }
    }

    /// Parses a Rust source file and extracts its facts. Fails when the
    /// parser gives no tree or a query cannot run.
    pub fn extract_facts(&self, path: &str, source: &str) -> (r: Result<FileFacts, String>)
        ensures
            match r {
                Ok(f) => rust_source_facts(f@, path@, source),
                Err(e) => !rust_source_parses(source) && if rust_tree_spec(source) is None {
                    e@ == "failed to parse Rust source: "@ + path@
                } else {
                    e@ == "failed to run a Rust query on: "@ + path@
                },
            },
    {
        let tree = match rust_tree(source) {
            Some(t) => t,
            None => {
                let m = crate::text::concat_str(
                    chars_of("failed to parse Rust source: ").as_slice(),
                    path,
                );
                return Err(crate::text::string_of(m.as_slice()));
            },
        };
        let decls = rust_matches(source, DECLARATION_QUERY);
        let imports = rust_matches(source, IMPORT_QUERY);
        let control = rust_matches(source, CONTROL_FLOW_QUERY);
        match (decls, imports, control) {
            (Some(d), Some(i), Some(c)) => Ok(self.facts_from_syntax(path, &tree, &d, &i, &c)),
            _ => {
                let m = crate::text::concat_str(
                    chars_of("failed to run a Rust query on: ").as_slice(),
                    path,
                );
                Err(crate::text::string_of(m.as_slice()))
            },
        }
    }
}

} // verus!
