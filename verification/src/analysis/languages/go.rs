//! The Go analyzer: declarations, imports, package and function bodies of a
//! Go source file, read off its syntax tree and query matches.
use vstd::prelude::*;

use crate::analysis::facts::{
    callable, BodyView, ControlFlowInfo, DeclView, Declaration, DeclarationKind, FactsView,
    FileFacts, FunctionBody, Import, ImportFactView,
};
use crate::analysis::syntax::{
    capture_text, capture_text_exec, capture_view, child_indices, children, find_node, go_matches, go_query_of, go_tree, go_tree_spec,
    match_view, matches_view, node_index, node_span, nodes_view, span_of, Capture, CaptureView,
    NodeView, SyntaxNode,
};
use crate::detect::types::str_eq;
use crate::sorting::{triple_le, KeyOrder};
use crate::analysis::languages::common::{
    as_ints, children_exec, count_all, count_captures, decls_sorted, decls_view, first_of_field,
    first_of_field_exec, first_of_kind, first_of_kind_exec, imports_sorted, imports_view,
    opt_body_view, opt_import_view, sat,
};
use crate::text::{
    chars_of, contains, contains_seq, trim, trim_chars, trim_matches_char, unicode_uppercase,
};

verus! {

// ---------------------------------------------------------------------------
// Queries
// ---------------------------------------------------------------------------

/// Tree-sitter query for extracting Go declarations.
pub const DECLARATION_QUERY: &'static str = "
(function_declaration
  name: (identifier) @func_name
) @function

(method_declaration
  receiver: (parameter_list
    (parameter_declaration
      type: [
        (pointer_type (type_identifier) @receiver_type)
        (type_identifier) @receiver_type
      ]
    )
  )
  name: (field_identifier) @method_name
) @method

(type_declaration
  (type_spec
    name: (type_identifier) @type_name
    type: (struct_type)
  )
) @struct

(type_declaration
  (type_spec
    name: (type_identifier) @type_name
    type: (interface_type)
  )
) @interface

(type_declaration
  (type_spec
    name: (type_identifier) @type_name
    type: (_) @other_type
  )
) @type_alias

(const_declaration
  (const_spec
    name: (identifier) @const_name
  )
) @const
";

/// Tree-sitter query for extracting imports.
pub const IMPORT_QUERY: &'static str = "
(import_declaration
  (import_spec
    name: (package_identifier)? @alias
    path: (interpreted_string_literal) @path
  )
) @import

(import_declaration
  (import_spec_list
    (import_spec
      name: (package_identifier)? @alias
      path: (interpreted_string_literal) @path
    ) @import_item
  )
) @import_group
";

/// Tree-sitter query for the package clause.
pub const PACKAGE_QUERY: &'static str = "
(package_clause
  (package_identifier) @package_name
)
";

/// Tree-sitter query for control flow nodes (complexity calculation).
pub const CONTROL_FLOW_QUERY: &'static str = "
(if_statement) @if
(for_statement) @for
(expression_switch_statement) @switch
(type_switch_statement) @switch
(select_statement) @select
(communication_case) @case
(expression_case) @case
(type_case) @case
(default_case) @default_case
(binary_expression operator: \"&&\") @and
(binary_expression operator: \"||\") @or
";


// ---------------------------------------------------------------------------
// Function bodies
// ---------------------------------------------------------------------------

/// Braces and comments are not statements.
pub open spec fn is_statement_kind(k: Seq<char>) -> bool {
    k != "{"@ && k != "}"@ && k != "comment"@
}

/// The statements among the nodes: those that are not braces or comments.
pub open spec fn statements(ns: Seq<NodeView>, ks: Seq<int>) -> Seq<int>
    decreases ks.len(),
{
    if ks.len() == 0 {
        Seq::empty()
    } else if is_statement_kind(ns[ks.last()].kind) {
        statements(ns, ks.drop_last()).push(ks.last())
    } else {
        statements(ns, ks.drop_last())
    }
}

fn is_statement_kind_exec(k: &str) -> (r: bool)
    ensures
        r == is_statement_kind(k@),
{
    !str_eq(k, "{") && !str_eq(k, "}") && !str_eq(k, "comment")
}

fn statements_exec(ns: &Vec<SyntaxNode>, ks: &Vec<usize>) -> (r: Vec<usize>)
    requires
        forall|j: int| 0 <= j < ks@.len() ==> #[trigger] ks@[j] < ns@.len(),
    ensures
        as_ints(r@) == statements(nodes_view(ns@), as_ints(ks@)),
        forall|j: int| 0 <= j < r@.len() ==> #[trigger] r@[j] < ns@.len(),
{
    let ghost nv = nodes_view(ns@);
    let mut out: Vec<usize> = Vec::new();
    let mut i: usize = 0;
    while i < ks.len()
        invariant
            i <= ks@.len(),
            nv == nodes_view(ns@),
            forall|j: int| 0 <= j < ks@.len() ==> #[trigger] ks@[j] < ns@.len(),
            forall|j: int| 0 <= j < out@.len() ==> #[trigger] out@[j] < ns@.len(),
            as_ints(out@) == statements(nv, as_ints(ks@).take(i as int)),
        decreases ks.len() - i,
    {
        let k = ks[i];
        assert(as_ints(ks@).take(i + 1).drop_last() =~= as_ints(ks@).take(i as int));
        assert(as_ints(ks@).take(i + 1).last() == k as int);
        assert(nv[k as int] == ns@[k as int]@);
        if is_statement_kind_exec(ns[k].kind.as_str()) {
            let ghost before = out@;
            out.push(k);
            assert(as_ints(out@) =~= as_ints(before).push(k as int));
        }
        i = i + 1;
    }
    assert(as_ints(ks@).take(ks@.len() as int) =~= as_ints(ks@));
    out
}

/// A body whose one statement is a call of `panic`.
pub open spec fn panic_only(ns: Seq<NodeView>, st: Seq<int>) -> bool {
    st.len() == 1 && ns[st[0]].kind == "expression_statement"@ && {
        let c0 = children(ns, st[0]);
        c0.len() > 0 && ns[c0[0]].kind == "call_expression"@ && match first_of_field(
            ns,
            children(ns, c0[0]),
            "function"@,
        ) {
            Some(f) => ns[f].text == "panic"@,
            None => false,
        }
    }
}

/// A value of a return statement that reads as `nil`.
pub open spec fn nil_like(n: NodeView) -> bool {
    n.kind == "nil"@ || n.kind == ","@ || trim(n.text) == "nil"@
}

/// Whether a return statement's values are all `nil`, judged by the first
/// child that is an expression list (all its children `nil`-like) or a
/// `nil`.
pub open spec fn nil_values(ns: Seq<NodeView>, ks: Seq<int>) -> bool
    decreases ks.len(),
{
    if ks.len() == 0 {
        false
    } else if ns[ks[0]].kind == "expression_list"@ {
        forall|j: int|
            0 <= j < children(ns, ks[0]).len() ==> nil_like(
                #[trigger] ns[children(ns, ks[0])[j]],
            )
    } else if ns[ks[0]].kind == "nil"@ {
        true
    } else {
        nil_values(ns, ks.drop_first())
    }
}

/// A body whose one statement returns only `nil`.
pub open spec fn nil_return_only(ns: Seq<NodeView>, st: Seq<int>) -> bool {
    st.len() == 1 && ns[st[0]].kind == "return_statement"@ && (exists|j: int|
        0 <= j < children(ns, st[0]).len() && ns[#[trigger] children(ns, st[0])[j]].kind
            != "return"@) && nil_values(ns, children(ns, st[0]))
}

/// A comment that marks unfinished work.
pub open spec fn todo_text(t: Seq<char>) -> bool {
    let u = unicode_uppercase(t);
    contains_seq(u, "TODO"@) || contains_seq(u, "FIXME"@) || contains_seq(u, "UNIMPLEMENTED"@)
}

/// A body that holds nothing but comments, one of them marking unfinished
/// work.
pub open spec fn todo_only(ns: Seq<NodeView>, ks: Seq<int>, st: Seq<int>) -> bool {
    st.len() == 0 && exists|j: int|
        0 <= j < ks.len() && ns[#[trigger] ks[j]].kind == "comment"@ && todo_text(ns[ks[j]].text)
}

/// The children of a node, as integers.

fn panic_only_exec(ns: &Vec<SyntaxNode>, st: &Vec<usize>) -> (r: bool)
    requires
        forall|j: int| 0 <= j < st@.len() ==> #[trigger] st@[j] < ns@.len(),
    ensures
        r == panic_only(nodes_view(ns@), as_ints(st@)),
{
    let ghost nv = nodes_view(ns@);
    if st.len() != 1 {
        return false;
    }
    let s0 = st[0];
    assert(as_ints(st@)[0] == s0 as int);
    assert(nv[s0 as int] == ns@[s0 as int]@);
    if !str_eq(ns[s0].kind.as_str(), "expression_statement") {
        return false;
    }
    let c0 = children_exec(ns, s0);
    if c0.len() == 0 {
        return false;
    }
    let e = c0[0];
    assert(as_ints(c0@)[0] == e as int);
    assert(nv[e as int] == ns@[e as int]@);
    if !str_eq(ns[e].kind.as_str(), "call_expression") {
        return false;
    }
    let ce = children_exec(ns, e);
    match first_of_field_exec(ns, &ce, "function") {
        Some(f) => {
            assert(nv[f as int] == ns@[f as int]@);
            str_eq(ns[f].text.as_str(), "panic")
        },
        None => false,
    }
}

fn nil_like_exec(n: &SyntaxNode) -> (r: bool)
    ensures
        r == nil_like(n@),
{
    if str_eq(n.kind.as_str(), "nil") || str_eq(n.kind.as_str(), ",") {
        return true;
    }
    let t = trim_chars(chars_of(n.text.as_str()).as_slice());
    let nil = chars_of("nil");
    crate::text::chars_equal(t.as_slice(), nil.as_slice())
}

fn all_nil_like(ns: &Vec<SyntaxNode>, ks: &Vec<usize>) -> (r: bool)
    requires
        forall|j: int| 0 <= j < ks@.len() ==> #[trigger] ks@[j] < ns@.len(),
    ensures
        r == forall|j: int| 0 <= j < ks@.len() ==> nil_like(#[trigger] nodes_view(ns@)[as_ints(ks@)[j]]),
{
    let ghost nv = nodes_view(ns@);
    let mut i: usize = 0;
    while i < ks.len()
        invariant
            i <= ks@.len(),
            nv == nodes_view(ns@),
            forall|j: int| 0 <= j < ks@.len() ==> #[trigger] ks@[j] < ns@.len(),
            forall|j: int| 0 <= j < i ==> nil_like(#[trigger] nv[as_ints(ks@)[j]]),
        decreases ks.len() - i,
    {
        let k = ks[i];
        assert(as_ints(ks@)[i as int] == k as int);
        assert(nv[k as int] == ns@[k as int]@);
        if !nil_like_exec(&ns[k]) {
            return false;
        }
        i = i + 1;
    }
    true
}

fn nil_values_exec(ns: &Vec<SyntaxNode>, ks: &Vec<usize>) -> (r: bool)
    requires
        forall|j: int| 0 <= j < ks@.len() ==> #[trigger] ks@[j] < ns@.len(),
    ensures
        r == nil_values(nodes_view(ns@), as_ints(ks@)),
{
    let ghost nv = nodes_view(ns@);
    let mut i: usize = 0;
    assert(as_ints(ks@).skip(0) =~= as_ints(ks@));
    while i < ks.len()
        invariant
            i <= ks@.len(),
            nv == nodes_view(ns@),
            forall|j: int| 0 <= j < ks@.len() ==> #[trigger] ks@[j] < ns@.len(),
            nil_values(nv, as_ints(ks@)) == nil_values(nv, as_ints(ks@).skip(i as int)),
        decreases ks.len() - i,
    {
        let k = ks[i];
        assert(as_ints(ks@).skip(i as int)[0] == k as int);
        assert(nv[k as int] == ns@[k as int]@);
        if str_eq(ns[k].kind.as_str(), "expression_list") {
            let ch = children_exec(ns, k);
            return all_nil_like(ns, &ch);
        }
        if str_eq(ns[k].kind.as_str(), "nil") {
            return true;
        }
        assert(as_ints(ks@).skip(i as int).drop_first() =~= as_ints(ks@).skip(i + 1));
        i = i + 1;
    }
    assert(as_ints(ks@).skip(i as int) =~= Seq::<int>::empty());
    false
}

fn nil_return_only_exec(ns: &Vec<SyntaxNode>, st: &Vec<usize>) -> (r: bool)
    requires
        forall|j: int| 0 <= j < st@.len() ==> #[trigger] st@[j] < ns@.len(),
    ensures
        r == nil_return_only(nodes_view(ns@), as_ints(st@)),
{
    let ghost nv = nodes_view(ns@);
    if st.len() != 1 {
        return false;
    }
    let s0 = st[0];
    assert(as_ints(st@)[0] == s0 as int);
    assert(nv[s0 as int] == ns@[s0 as int]@);
    if !str_eq(ns[s0].kind.as_str(), "return_statement") {
        return false;
    }
    let ch = children_exec(ns, s0);
    let mut has_value = false;
    let mut i: usize = 0;
    while i < ch.len()
        invariant
            i <= ch@.len(),
            nv == nodes_view(ns@),
            forall|j: int| 0 <= j < ch@.len() ==> #[trigger] ch@[j] < ns@.len(),
            has_value == exists|j: int| 0 <= j < i && nv[#[trigger] as_ints(ch@)[j]].kind != "return"@,
        decreases ch.len() - i,
    {
        let k = ch[i];
        assert(as_ints(ch@)[i as int] == k as int);
        assert(nv[k as int] == ns@[k as int]@);
        if !str_eq(ns[k].kind.as_str(), "return") {
            has_value = true;
        }
        i = i + 1;
    }
    proof {
        let cs = children(nv, s0 as int);
        assert(cs == as_ints(ch@));
        if has_value {
            let j = choose|j: int| 0 <= j < i && nv[#[trigger] as_ints(ch@)[j]].kind != "return"@;
            assert(nv[cs[j]].kind != "return"@);
        }
    }
    has_value && nil_values_exec(ns, &ch)
}

fn todo_text_exec(t: &str) -> (r: bool)
    ensures
        r == todo_text(t@),
{
    let u = crate::text::to_uppercase(chars_of(t).as_slice());
    contains(u.as_slice(), chars_of("TODO").as_slice()) || contains(
        u.as_slice(),
        chars_of("FIXME").as_slice(),
    ) || contains(u.as_slice(), chars_of("UNIMPLEMENTED").as_slice())
}

fn todo_only_exec(ns: &Vec<SyntaxNode>, ks: &Vec<usize>, st: &Vec<usize>) -> (r: bool)
    requires
        forall|j: int| 0 <= j < ks@.len() ==> #[trigger] ks@[j] < ns@.len(),
    ensures
        r == todo_only(nodes_view(ns@), as_ints(ks@), as_ints(st@)),
{
    let ghost nv = nodes_view(ns@);
    if st.len() != 0 {
        return false;
    }
    let mut i: usize = 0;
    while i < ks.len()
        invariant
            i <= ks@.len(),
            nv == nodes_view(ns@),
            st@.len() == 0,
            forall|j: int| 0 <= j < ks@.len() ==> #[trigger] ks@[j] < ns@.len(),
            forall|j: int|
                0 <= j < i ==> !(nv[#[trigger] as_ints(ks@)[j]].kind == "comment"@ && todo_text(
                    nv[as_ints(ks@)[j]].text,
                )),
        decreases ks.len() - i,
    {
        let k = ks[i];
        assert(as_ints(ks@)[i as int] == k as int);
        assert(nv[k as int] == ns@[k as int]@);
        if str_eq(ns[k].kind.as_str(), "comment") && todo_text_exec(ns[k].text.as_str()) {
            return true;
        }
        i = i + 1;
    }
    false
}


pub open spec fn control_flow_of(cm: Seq<Seq<CaptureView>>, lo: usize, hi: usize) -> ControlFlowInfo {
    ControlFlowInfo {
        if_count: sat(count_all(cm, "if"@, lo, hi)),
        loop_count: sat(count_all(cm, "for"@, lo, hi)),
        switch_count: sat(count_all(cm, "switch"@, lo, hi)),
        case_count: sat(count_all(cm, "case"@, lo, hi)),
        select_count: sat(count_all(cm, "select"@, lo, hi)),
        and_count: sat(count_all(cm, "and"@, lo, hi)),
        or_count: sat(count_all(cm, "or"@, lo, hi)),
        ternary_count: 0,
        catch_count: 0,
    }
}

fn control_flow_exec(cm: &Vec<Vec<Capture>>, lo: usize, hi: usize) -> (r: ControlFlowInfo)
    ensures
        r == control_flow_of(matches_view(cm@), lo, hi),
{
    ControlFlowInfo {
        if_count: count_captures(cm, "if", lo, hi),
        loop_count: count_captures(cm, "for", lo, hi),
        switch_count: count_captures(cm, "switch", lo, hi),
        case_count: count_captures(cm, "case", lo, hi),
        select_count: count_captures(cm, "select", lo, hi),
        and_count: count_captures(cm, "and", lo, hi),
        or_count: count_captures(cm, "or", lo, hi),
        ternary_count: 0,
        catch_count: 0,
    }
}

// ---------------------------------------------------------------------------
// The body of a function
// ---------------------------------------------------------------------------

proof fn lemma_statements_len(ns: Seq<NodeView>, ks: Seq<int>)
    ensures
        statements(ns, ks).len() <= ks.len(),
    decreases ks.len(),
{
    if ks.len() > 0 {
        lemma_statements_len(ns, ks.drop_last());
    }
}

/// The body of the function at node `k`: its block, with the statements,
/// the stub markers and the control flow within it.
pub open spec fn body_of(ns: Seq<NodeView>, cm: Seq<Seq<CaptureView>>, k: int) -> Option<BodyView> {
    match first_of_kind(ns, children(ns, k), "block"@) {
        None => None,
        Some(b) => {
            let ks = children(ns, b);
            let st = statements(ns, ks);
            Some(
                BodyView {
                    span: span_of(ns[b]),
                    statement_count: st.len() as usize,
                    is_empty: st.len() == 0,
                    is_panic_only: panic_only(ns, st),
                    is_nil_return_only: nil_return_only(ns, st),
                    has_only_todo_comment: todo_only(ns, ks, st),
                    text: ns[b].text,
                    control_flow: control_flow_of(cm, ns[b].start_byte, ns[b].end_byte),
                },
            )
        },
    }
}

fn function_body(ns: &Vec<SyntaxNode>, cm: &Vec<Vec<Capture>>, k: usize) -> (r: Option<
    FunctionBody,
>)
    requires
        k < ns@.len(),
    ensures
        opt_body_view(r) == body_of(nodes_view(ns@), matches_view(cm@), k as int),
{
    let ghost nv = nodes_view(ns@);
    let ch = children_exec(ns, k);
    let b = match first_of_kind_exec(ns, &ch, "block") {
        Some(b) => b,
        None => return None,
    };
    assert(nv[b as int] == ns@[b as int]@);
    let ks = children_exec(ns, b);
    let st = statements_exec(ns, &ks);
    proof {
        lemma_statements_len(nv, as_ints(ks@));
    }
    let body = FunctionBody {
        span: node_span(&ns[b]),
        statement_count: st.len(),
        is_empty: st.len() == 0,
        is_panic_only: panic_only_exec(ns, &st),
        is_nil_return_only: nil_return_only_exec(ns, &st),
        has_only_todo_comment: todo_only_exec(ns, &ks, &st),
        text: ns[b].text.clone(),
        control_flow: control_flow_exec(cm, ns[b].start_byte, ns[b].end_byte),
    };
    Some(body)
}

// ---------------------------------------------------------------------------
// Declarations
// ---------------------------------------------------------------------------

/// What the captures of a declaration match say, read in order: the name,
/// the kind, the declaration's node and the receiver type.
pub struct DeclAcc {
    pub name: Seq<char>,
    pub kind: DeclarationKind,
    pub node: Option<(usize, usize, Seq<char>)>,
    pub receiver: Option<Seq<char>>,
}

pub open spec fn decl_step(ns: Seq<NodeView>, a: DeclAcc, c: CaptureView) -> DeclAcc {
    let t = capture_text(ns, c);
    if c.0 == "func_name"@ {
        DeclAcc { name: t, kind: DeclarationKind::Function, node: a.node, receiver: a.receiver }
    } else if c.0 == "method_name"@ {
        DeclAcc { name: t, kind: DeclarationKind::Method, node: a.node, receiver: a.receiver }
    } else if c.0 == "receiver_type"@ {
        DeclAcc { name: a.name, kind: a.kind, node: a.node, receiver: Some(t) }
    } else if c.0 == "type_name"@ {
        DeclAcc { name: t, kind: a.kind, node: a.node, receiver: a.receiver }
    } else if c.0 == "const_name"@ {
        DeclAcc { name: t, kind: DeclarationKind::Const, node: a.node, receiver: a.receiver }
    } else if c.0 == "function"@ || c.0 == "method"@ || c.0 == "const"@ {
        DeclAcc { name: a.name, kind: a.kind, node: Some((c.1, c.2, c.3)), receiver: a.receiver }
    } else if c.0 == "struct"@ {
        DeclAcc { name: a.name, kind: DeclarationKind::Struct, node: Some((c.1, c.2, c.3)), receiver: a.receiver }
    } else if c.0 == "interface"@ {
        DeclAcc {
            name: a.name,
            kind: DeclarationKind::Interface,
            node: Some((c.1, c.2, c.3)),
            receiver: a.receiver,
        }
    } else if c.0 == "type_alias"@ {
        DeclAcc { name: a.name, kind: DeclarationKind::Type, node: Some((c.1, c.2, c.3)), receiver: a.receiver }
    } else {
        a
    }
}

pub open spec fn decl_acc(ns: Seq<NodeView>, m: Seq<CaptureView>) -> DeclAcc
    decreases m.len(),
{
    if m.len() == 0 {
        DeclAcc { name: Seq::empty(), kind: DeclarationKind::Function, node: None, receiver: None }
    } else {
        decl_step(ns, decl_acc(ns, m.drop_last()), m.last())
    }
}

/// A declaration that a match yields: its name, kind, node and receiver.
pub struct DeclCand {
    pub name: Seq<char>,
    pub kind: DeclarationKind,
    pub node: int,
    pub receiver: Option<Seq<char>>,
}

/// The declaration a match yields: one with a name and a declaration node
/// (found in the tree).
pub open spec fn decl_candidate(ns: Seq<NodeView>, m: Seq<CaptureView>) -> Option<DeclCand> {
    let a = decl_acc(ns, m);
    if a.name.len() == 0 {
        None
    } else {
        match a.node {
            None => None,
            Some(t) => match node_index(ns, t.0, t.1, t.2) {
                None => None,
                Some(k) => Some(DeclCand { name: a.name, kind: a.kind, node: k, receiver: a.receiver }),
            },
        }
    }
}

/// A declaration is known by its start offset and name.
pub open spec fn cand_key(ns: Seq<NodeView>, c: DeclCand) -> (usize, Seq<char>) {
    (ns[c.node].start_byte, c.name)
}

/// The declarations in order, each key kept at its first occurrence.
pub open spec fn unique_cands(ns: Seq<NodeView>, cs: Seq<DeclCand>) -> Seq<DeclCand>
    decreases cs.len(),
{
    if cs.len() == 0 {
        Seq::empty()
    } else if exists|j: int|
        0 <= j < cs.len() - 1 && #[trigger] cand_key(ns, cs[j]) == cand_key(ns, cs.last()) {
        unique_cands(ns, cs.drop_last())
    } else {
        unique_cands(ns, cs.drop_last()).push(cs.last())
    }
}

/// The declaration a candidate stands for.
pub open spec fn decl_of(ns: Seq<NodeView>, cm: Seq<Seq<CaptureView>>, c: DeclCand) -> DeclView {
    DeclView {
        name: c.name,
        kind: c.kind,
        span: span_of(ns[c.node]),
        receiver: c.receiver,
        body: if callable(c.kind) {
            body_of(ns, cm, c.node)
        } else {
            None
        },
    }
}

pub open spec fn all_candidates(ns: Seq<NodeView>, dm: Seq<Seq<CaptureView>>) -> Seq<DeclCand> {
    crate::sorting::filter_map(dm, |m: Seq<CaptureView>| decl_candidate(ns, m))
}

/// The declarations of a Go file, in the order the matches give them.
pub open spec fn go_declarations(
    ns: Seq<NodeView>,
    dm: Seq<Seq<CaptureView>>,
    cm: Seq<Seq<CaptureView>>,
) -> Seq<DeclView> {
    unique_cands(ns, all_candidates(ns, dm)).map_values(|c: DeclCand| decl_of(ns, cm, c))
}

/// A candidate as executable values: name, kind, node and receiver.
type ExecCand = (String, DeclarationKind, usize, Option<String>);

pub open spec fn exec_cand_view(c: ExecCand) -> DeclCand {
    DeclCand { name: c.0@, kind: c.1, node: c.2 as int, receiver: crate::paths::opt_string_view(c.3) }
}

fn decl_candidate_exec(ns: &Vec<SyntaxNode>, m: &Vec<Capture>) -> (r: Option<ExecCand>)
    ensures
        match r {
            Some(c) => decl_candidate(nodes_view(ns@), match_view(*m)) == Some(exec_cand_view(c))
                && c.2 < ns@.len(),
            None => decl_candidate(nodes_view(ns@), match_view(*m)) is None,
        },
{
    let ghost nv = nodes_view(ns@);
    let ghost mv = match_view(*m);
    let mut name = String::new();
    let mut kind = DeclarationKind::Function;
    let mut node: Option<(usize, usize, String)> = None;
    let mut receiver: Option<String> = None;
    let mut j: usize = 0;
    while j < m.len()
        invariant
            j <= m@.len(),
            nv == nodes_view(ns@),
            mv == match_view(*m),
            ({
                let a = decl_acc(nv, mv.take(j as int));
                &&& a.name == name@
                &&& a.kind == kind
                &&& a.receiver == crate::paths::opt_string_view(receiver)
                &&& a.node == match node {
                    Some(t) => Some((t.0, t.1, t.2@)),
                    None => None::<(usize, usize, Seq<char>)>,
                }
            }),
        decreases m.len() - j,
    {
        let c = &m[j];
        assert(mv.take(j + 1).drop_last() =~= mv.take(j as int));
        assert(mv.take(j + 1).last() == capture_view(*c));
        let cn = c.0.as_str();
        if str_eq(cn, "func_name") {
            name = capture_text_exec(ns, c);
            kind = DeclarationKind::Function;
        } else if str_eq(cn, "method_name") {
            name = capture_text_exec(ns, c);
            kind = DeclarationKind::Method;
        } else if str_eq(cn, "receiver_type") {
            receiver = Some(capture_text_exec(ns, c));
        } else if str_eq(cn, "type_name") {
            name = capture_text_exec(ns, c);
        } else if str_eq(cn, "const_name") {
            name = capture_text_exec(ns, c);
            kind = DeclarationKind::Const;
        } else if str_eq(cn, "function") || str_eq(cn, "method") || str_eq(cn, "const") {
            node = Some((c.1.start, c.1.end, c.2.clone()));
        } else if str_eq(cn, "struct") {
            node = Some((c.1.start, c.1.end, c.2.clone()));
            kind = DeclarationKind::Struct;
        } else if str_eq(cn, "interface") {
            node = Some((c.1.start, c.1.end, c.2.clone()));
            kind = DeclarationKind::Interface;
        } else if str_eq(cn, "type_alias") {
            node = Some((c.1.start, c.1.end, c.2.clone()));
            kind = DeclarationKind::Type;
        }
        j = j + 1;
    }
    assert(mv.take(m@.len() as int) =~= mv);
    if name.as_str().is_empty() {
        return None;
    }
    match node {
        None => None,
        Some(t) => match find_node(ns, t.0, t.1, t.2.as_str()) {
            None => None,
            Some(k) => Some((name, kind, k, receiver)),
        },
    }
}

/// The declarations of a Go file, in the order the matches give them.
fn declarations_exec(ns: &Vec<SyntaxNode>, dm: &Vec<Vec<Capture>>, cm: &Vec<Vec<Capture>>) -> (r: Vec<
    Declaration,
>)
    ensures
        decls_view(r@) == go_declarations(nodes_view(ns@), matches_view(dm@), matches_view(cm@)),
{
    let ghost nv = nodes_view(ns@);
    let ghost dmv = matches_view(dm@);
    let ghost cmv = matches_view(cm@);
    let mut seen: Vec<(usize, String)> = Vec::new();
    let mut out: Vec<Declaration> = Vec::new();
    let mut i: usize = 0;
    while i < dm.len()
        invariant
            i <= dm@.len(),
            nv == nodes_view(ns@),
            dmv == matches_view(dm@),
            cmv == matches_view(cm@),
            seen@.len() == all_candidates(nv, dmv.take(i as int)).len(),
            forall|t: int|
                0 <= t < seen@.len() ==> ((#[trigger] seen@[t]).0, seen@[t].1@) == cand_key(
                    nv,
                    all_candidates(nv, dmv.take(i as int))[t],
                ),
            decls_view(out@) == unique_cands(nv, all_candidates(nv, dmv.take(i as int))).map_values(
                |c: DeclCand| decl_of(nv, cmv, c),
            ),
        decreases dm.len() - i,
    {
        let ghost cs = all_candidates(nv, dmv.take(i as int));
        assert(dmv.take(i + 1).drop_last() =~= dmv.take(i as int));
        assert(dmv.take(i + 1).last() == match_view(dm@[i as int]));
        match decl_candidate_exec(ns, &dm[i]) {
            None => {
                assert(all_candidates(nv, dmv.take(i + 1)) == cs);
            },
            Some(c) => {
                let ghost cv = exec_cand_view(c);
                let ghost cs2 = all_candidates(nv, dmv.take(i + 1));
                assert(cs2 == cs.push(cv));
                assert(cs2.drop_last() =~= cs);
                assert(nv[c.2 as int] == ns@[c.2 as int]@);
                let start = ns[c.2].start_byte;
                let mut dup = false;
                let mut j: usize = 0;
                while j < seen.len()
                    invariant
                        j <= seen@.len(),
                        seen@.len() == cs.len(),
                        forall|t: int|
                            0 <= t < seen@.len() ==> ((#[trigger] seen@[t]).0, seen@[t].1@)
                                == cand_key(nv, cs[t]),
                        dup == exists|t: int|
                            0 <= t < j && #[trigger] cand_key(nv, cs[t]) == (start, c.0@),
                    decreases seen.len() - j,
                {
                    assert(((seen@[j as int]).0, seen@[j as int].1@) == cand_key(nv, cs[j as int]));
                    if seen[j].0 == start && str_eq(seen[j].1.as_str(), c.0.as_str()) {
                        dup = true;
                    }
                    j = j + 1;
                }
                proof {
                    assert(cand_key(nv, cv) == (start, c.0@));
                    assert forall|t: int| 0 <= t < cs2.len() - 1 implies cs2[t] == cs[t] by {}
                    if dup {
                        let t = choose|t: int|
                            0 <= t < j && #[trigger] cand_key(nv, cs[t]) == (start, c.0@);
                        assert(cand_key(nv, cs2[t]) == cand_key(nv, cs2.last()));
                    } else {
                        assert(!exists|t: int|
                            0 <= t < cs2.len() - 1 && #[trigger] cand_key(nv, cs2[t])
                                == cand_key(nv, cs2.last())) by {
                            if exists|t: int|
                                0 <= t < cs2.len() - 1 && #[trigger] cand_key(nv, cs2[t])
                                    == cand_key(nv, cs2.last()) {
                                let t = choose|t: int|
                                    0 <= t < cs2.len() - 1 && #[trigger] cand_key(nv, cs2[t])
                                        == cand_key(nv, cs2.last());
                                assert(cand_key(nv, cs[t]) == (start, c.0@));
                            }
                        }
                    }
                }
                let key_name = c.0.clone();
                if !dup {
                    let body = if c.1.is_callable() {
                        function_body(ns, cm, c.2)
                    } else {
                        None
                    };
                    let d = Declaration {
                        name: c.0,
                        kind: c.1,
                        span: node_span(&ns[c.2]),
                        receiver: c.3,
                        body,
                    };
                    let ghost before = out@;
                    out.push(d);
                    proof {
                        assert(d@ == decl_of(nv, cmv, cv));
                        assert(decls_view(out@) =~= decls_view(before).push(d@));
                        assert(unique_cands(nv, cs2) == unique_cands(nv, cs).push(cv));
                        assert(unique_cands(nv, cs2).map_values(|c: DeclCand| decl_of(nv, cmv, c))
                            =~= unique_cands(nv, cs).map_values(|c: DeclCand| decl_of(nv, cmv, c)).push(
                            decl_of(nv, cmv, cv),
                        ));
                    }
                } else {
                    assert(unique_cands(nv, cs2) == unique_cands(nv, cs));
                }
                let ghost seen_before = seen@;
                seen.push((start, key_name));
                proof {
                    assert forall|t: int| 0 <= t < seen@.len() implies ((#[trigger] seen@[t]).0, seen@[t].1@)
                        == cand_key(nv, cs2[t]) by {
                        if t < seen_before.len() {
                            assert(seen@[t] == seen_before[t]);
                            assert(cs2[t] == cs[t]);
                        }
                    }
                }
            },
        }
        i = i + 1;
    }
    assert(dmv.take(dm@.len() as int) =~= dmv);
    out
}

// ---------------------------------------------------------------------------
// Imports
// ---------------------------------------------------------------------------

/// What the captures of an import match say, read in order: the path (its
/// quotes trimmed), the alias and the path's node.
pub struct ImportAcc {
    pub path: Seq<char>,
    pub alias: Option<Seq<char>>,
    pub node: Option<(usize, usize, Seq<char>)>,
}

pub open spec fn import_step(ns: Seq<NodeView>, a: ImportAcc, c: CaptureView) -> ImportAcc {
    if c.0 == "path"@ {
        ImportAcc {
            path: trim_matches_char(capture_text(ns, c), '"'),
            alias: a.alias,
            node: Some((c.1, c.2, c.3)),
        }
    } else if c.0 == "alias"@ {
        ImportAcc { path: a.path, alias: Some(capture_text(ns, c)), node: a.node }
    } else {
        a
    }
}

pub open spec fn import_acc(ns: Seq<NodeView>, m: Seq<CaptureView>) -> ImportAcc
    decreases m.len(),
{
    if m.len() == 0 {
        ImportAcc { path: Seq::empty(), alias: None, node: None }
    } else {
        import_step(ns, import_acc(ns, m.drop_last()), m.last())
    }
}

/// What an import match yields: its path, when not empty, and the import,
/// when its node is found in the tree.
pub open spec fn import_entry(ns: Seq<NodeView>, m: Seq<CaptureView>) -> Option<
    (Seq<char>, Option<ImportFactView>),
> {
    let a = import_acc(ns, m);
    if a.path.len() == 0 {
        None
    } else {
        Some(
            (
                a.path,
                match a.node {
                    None => None,
                    Some(t) => match node_index(ns, t.0, t.1, t.2) {
                        None => None,
                        Some(k) => Some(
                            ImportFactView { path: a.path, alias: a.alias, span: span_of(ns[k]) },
                        ),
                    },
                },
            ),
        )
    }
}

pub open spec fn all_import_entries(ns: Seq<NodeView>, im: Seq<Seq<CaptureView>>) -> Seq<
    (Seq<char>, Option<ImportFactView>),
> {
    crate::sorting::filter_map(im, |m: Seq<CaptureView>| import_entry(ns, m))
}

/// The imports in order, each path kept at its first occurrence.
pub open spec fn unique_imports(es: Seq<(Seq<char>, Option<ImportFactView>)>) -> Seq<ImportFactView>
    decreases es.len(),
{
    if es.len() == 0 {
        Seq::empty()
    } else if exists|j: int| 0 <= j < es.len() - 1 && (#[trigger] es[j]).0 == es.last().0 {
        unique_imports(es.drop_last())
    } else {
        match es.last().1 {
            Some(v) => unique_imports(es.drop_last()).push(v),
            None => unique_imports(es.drop_last()),
        }
    }
}

/// The imports of a Go file, in the order the matches give them.
pub open spec fn go_imports(ns: Seq<NodeView>, im: Seq<Seq<CaptureView>>) -> Seq<ImportFactView> {
    unique_imports(all_import_entries(ns, im))
}

fn import_entry_exec(ns: &Vec<SyntaxNode>, m: &Vec<Capture>) -> (r: Option<(String, Option<Import>)>)
    ensures
        match r {
            Some(e) => import_entry(nodes_view(ns@), match_view(*m)) == Some(
                (e.0@, opt_import_view(e.1)),
            ),
            None => import_entry(nodes_view(ns@), match_view(*m)) is None,
        },
{
    let ghost nv = nodes_view(ns@);
    let ghost mv = match_view(*m);
    let mut path = String::new();
    let mut alias: Option<String> = None;
    let mut node: Option<(usize, usize, String)> = None;
    let mut j: usize = 0;
    while j < m.len()
        invariant
            j <= m@.len(),
            nv == nodes_view(ns@),
            mv == match_view(*m),
            ({
                let a = import_acc(nv, mv.take(j as int));
                &&& a.path == path@
                &&& a.alias == crate::paths::opt_string_view(alias)
                &&& a.node == match node {
                    Some(t) => Some((t.0, t.1, t.2@)),
                    None => None::<(usize, usize, Seq<char>)>,
                }
            }),
        decreases m.len() - j,
    {
        let c = &m[j];
        assert(mv.take(j + 1).drop_last() =~= mv.take(j as int));
        assert(mv.take(j + 1).last() == capture_view(*c));
        if str_eq(c.0.as_str(), "path") {
            let raw = capture_text_exec(ns, c);
            let t = crate::text::trim_matches(chars_of(raw.as_str()).as_slice(), '"');
            path = crate::text::string_of(t.as_slice());
            node = Some((c.1.start, c.1.end, c.2.clone()));
        } else if str_eq(c.0.as_str(), "alias") {
            alias = Some(capture_text_exec(ns, c));
        }
        j = j + 1;
    }
    assert(mv.take(m@.len() as int) =~= mv);
    if path.as_str().is_empty() {
        return None;
    }
    let entry = match node {
        None => None,
        Some(t) => match find_node(ns, t.0, t.1, t.2.as_str()) {
            None => None,
            Some(k) => {
                assert(nv[k as int] == ns@[k as int]@);
                Some(Import { path: path.clone(), alias, span: node_span(&ns[k]) })
            },
        },
    };
    Some((path, entry))
}

/// The imports of a Go file, in the order the matches give them.
fn imports_exec(ns: &Vec<SyntaxNode>, im: &Vec<Vec<Capture>>) -> (r: Vec<Import>)
    ensures
        imports_view(r@) == go_imports(nodes_view(ns@), matches_view(im@)),
{
    let ghost nv = nodes_view(ns@);
    let ghost imv = matches_view(im@);
    let mut seen: Vec<String> = Vec::new();
    let mut out: Vec<Import> = Vec::new();
    let mut i: usize = 0;
    while i < im.len()
        invariant
            i <= im@.len(),
            nv == nodes_view(ns@),
            imv == matches_view(im@),
            seen@.len() == all_import_entries(nv, imv.take(i as int)).len(),
            forall|t: int|
                0 <= t < seen@.len() ==> (#[trigger] seen@[t])@ == all_import_entries(
                    nv,
                    imv.take(i as int),
                )[t].0,
            imports_view(out@) == unique_imports(all_import_entries(nv, imv.take(i as int))),
        decreases im.len() - i,
    {
        let ghost es = all_import_entries(nv, imv.take(i as int));
        assert(imv.take(i + 1).drop_last() =~= imv.take(i as int));
        assert(imv.take(i + 1).last() == match_view(im@[i as int]));
        match import_entry_exec(ns, &im[i]) {
            None => {
                assert(all_import_entries(nv, imv.take(i + 1)) == es);
            },
            Some(e) => {
                let ghost ev = (e.0@, opt_import_view(e.1));
                let ghost es2 = all_import_entries(nv, imv.take(i + 1));
                assert(es2 == es.push(ev));
                let mut dup = false;
                let mut j: usize = 0;
                while j < seen.len()
                    invariant
                        j <= seen@.len(),
                        seen@.len() == es.len(),
                        forall|t: int| 0 <= t < seen@.len() ==> (#[trigger] seen@[t])@ == es[t].0,
                        dup == exists|t: int| 0 <= t < j && (#[trigger] es[t]).0 == e.0@,
                    decreases seen.len() - j,
                {
                    assert(seen@[j as int]@ == es[j as int].0);
                    if str_eq(seen[j].as_str(), e.0.as_str()) {
                        dup = true;
                    }
                    j = j + 1;
                }
                proof {
                    assert forall|t: int| 0 <= t < es2.len() - 1 implies es2[t] == es[t] by {}
                    if dup {
                        let t = choose|t: int| 0 <= t < j && (#[trigger] es[t]).0 == e.0@;
                        assert(es2[t].0 == es2.last().0);
                    } else {
                        assert(!exists|t: int|
                            0 <= t < es2.len() - 1 && (#[trigger] es2[t]).0 == es2.last().0) by {
                            if exists|t: int|
                                0 <= t < es2.len() - 1 && (#[trigger] es2[t]).0 == es2.last().0 {
                                let t = choose|t: int|
                                    0 <= t < es2.len() - 1 && (#[trigger] es2[t]).0
                                        == es2.last().0;
                                assert(es[t].0 == e.0@);
                            }
                        }
                    }
                    assert(es2.drop_last() =~= es);
                }
                let key = e.0.clone();
                if !dup {
                    match e.1 {
                        Some(x) => {
                            let ghost before = out@;
                            out.push(x);
                            assert(imports_view(out@) =~= imports_view(before).push(x@));
                        },
                        None => {},
                    }
                }
                let ghost seen_before = seen@;
                seen.push(key);
                proof {
                    assert forall|t: int| 0 <= t < seen@.len() implies (#[trigger] seen@[t])@
                        == es2[t].0 by {
                        if t < seen_before.len() {
                            assert(seen@[t] == seen_before[t]);
                        }
                    }
                }
            },
        }
        i = i + 1;
    }
    assert(imv.take(im@.len() as int) =~= imv);
    out
}

// ---------------------------------------------------------------------------
// Package
// ---------------------------------------------------------------------------

/// The text of the first capture with the given name.
pub open spec fn first_named(ns: Seq<NodeView>, m: Seq<CaptureView>, name: Seq<char>) -> Option<
    Seq<char>,
>
    decreases m.len(),
{
    if m.len() == 0 {
        None
    } else if m[0].0 == name {
        Some(capture_text(ns, m[0]))
    } else {
        first_named(ns, m.drop_first(), name)
    }
}

/// The package a Go file names: the `package_name` capture of the first
/// match of the package query.
pub open spec fn go_package(ns: Seq<NodeView>, pm: Option<Seq<Seq<CaptureView>>>) -> Option<
    Seq<char>,
> {
    match pm {
        Some(ms) => if ms.len() > 0 {
            first_named(ns, ms[0], "package_name"@)
        } else {
            None
        },
        None => None,
    }
}

fn package_exec(ns: &Vec<SyntaxNode>, pm: &Option<Vec<Vec<Capture>>>) -> (r: Option<String>)
    ensures
        crate::paths::opt_string_view(r) == go_package(
            nodes_view(ns@),
            crate::analysis::syntax::opt_matches_view(*pm),
        ),
{
    let ms = match pm {
        Some(ms) => ms,
        None => return None,
    };
    if ms.len() == 0 {
        return None;
    }
    let m = &ms[0];
    let ghost mv = match_view(*m);
    assert(matches_view(ms@)[0] == mv);
    let mut j: usize = 0;
    assert(mv.skip(0) =~= mv);
    while j < m.len()
        invariant
            j <= m@.len(),
            mv == match_view(*m),
            go_package(nodes_view(ns@), crate::analysis::syntax::opt_matches_view(*pm))
                == first_named(nodes_view(ns@), mv, "package_name"@),
            first_named(nodes_view(ns@), mv, "package_name"@) == first_named(
                nodes_view(ns@),
                mv.skip(j as int),
                "package_name"@,
            ),
        decreases m.len() - j,
    {
        assert(mv.skip(j as int)[0] == capture_view(m@[j as int]));
        if str_eq(m[j].0.as_str(), "package_name") {
            return Some(capture_text_exec(ns, &m[j]));
        }
        assert(mv.skip(j as int).drop_first() =~= mv.skip(j + 1));
        j = j + 1;
    }
    assert(mv.skip(j as int) =~= Seq::<CaptureView>::empty());
    None
}

// ---------------------------------------------------------------------------
// The facts of a file
// ---------------------------------------------------------------------------

/// What the facts of a Go file are, given its syntax tree and the matches
/// of the declaration, import, package and control-flow queries: its
/// declarations and imports (each kept once, sorted), its package, and
/// whether the tree holds a syntax error.
pub open spec fn go_facts_hold(
    f: FactsView,
    path: Seq<char>,
    ns: Seq<NodeView>,
    dm: Seq<Seq<CaptureView>>,
    im: Seq<Seq<CaptureView>>,
    pm: Option<Seq<Seq<CaptureView>>>,
    cm: Seq<Seq<CaptureView>>,
) -> bool {
    let has_errors = ns.len() > 0 && ns[0].has_error;
    &&& f.path == path
    &&& f.language == "go"@
    &&& f.package == go_package(ns, pm)
    &&& f.declarations.to_multiset() == go_declarations(ns, dm, cm).to_multiset()
    &&& decls_sorted(f.declarations)
    &&& f.imports.to_multiset() == go_imports(ns, im).to_multiset()
    &&& imports_sorted(f.imports)
    &&& f.has_parse_errors == has_errors
    &&& f.parse_error == if has_errors {
        Some("Source contains syntax errors"@)
    } else {
        None
    }
}

/// Whether the parser gives a tree of the source and the declaration,
/// import and control-flow queries run over it.
pub open spec fn go_source_parses(source: &str) -> bool {
    &&& go_tree_spec(source) is Some
    &&& go_query_of(source@, DECLARATION_QUERY@) is Some
    &&& go_query_of(source@, IMPORT_QUERY@) is Some
    &&& go_query_of(source@, CONTROL_FLOW_QUERY@) is Some
}

/// What the facts of a Go source are, read off its syntax tree and the
/// matches of the queries.
pub open spec fn go_source_facts(f: FactsView, path: Seq<char>, source: &str) -> bool {
    &&& go_source_parses(source)
    &&& go_facts_hold(
        f,
        path,
        go_tree_spec(source)->0,
        go_query_of(source@, DECLARATION_QUERY@)->0,
        go_query_of(source@, IMPORT_QUERY@)->0,
        go_query_of(source@, PACKAGE_QUERY@),
        go_query_of(source@, CONTROL_FLOW_QUERY@)->0,
    )
}

/// Go language analyzer.
pub struct GoAnalyzer {}

impl GoAnalyzer {
    /// Create a new Go analyzer.
    pub fn new() -> (r: GoAnalyzer) {
        GoAnalyzer {  }
    }

    /// The language identifier.
    pub fn language_id(&self) -> (r: &'static str)
        ensures
            r@ == "go"@,
    {
        "go"
    }

    /// The globs of the files this analyzer reads.
    pub fn file_globs(&self) -> (r: Vec<&'static str>)
        ensures
            r@.len() == 1,
            r@[0]@ == "**/*.go"@,
    {
        vec!["**/*.go"]
    }

    /// The extensions of the files this analyzer reads.
    pub fn file_extensions(&self) -> (r: Vec<&'static str>)
        ensures
            r@.len() == 1,
            r@[0]@ == "go"@,
    {
        vec!["go"]
    }

    /// The facts of a Go file, from its syntax tree and the matches of the
    /// declaration, import, package and control-flow queries.
    pub fn facts_from_syntax(
        &self,
        path: &str,
        tree: &Vec<SyntaxNode>,
        decls: &Vec<Vec<Capture>>,
        imports: &Vec<Vec<Capture>>,
        package: &Option<Vec<Vec<Capture>>>,
        control: &Vec<Vec<Capture>>,
    ) -> (r: FileFacts)
        ensures
            go_facts_hold(
                r@,
                path@,
                nodes_view(tree@),
                matches_view(decls@),
                matches_view(imports@),
                crate::analysis::syntax::opt_matches_view(*package),
                matches_view(control@),
            ),
    {
        let ghost nv = nodes_view(tree@);
        let pkg = package_exec(tree, package);
        let ds = declarations_exec(tree, decls, control);
        let sorted_ds = crate::sorting::sort_by_key(ds);
        let is = imports_exec(tree, imports);
        let sorted_is = crate::sorting::sort_by_key(is);
        proof {
            crate::sorting::lemma_permutation_map(sorted_ds@, ds@, |d: Declaration| d@);
            crate::sorting::lemma_permutation_map(sorted_is@, is@, |i: Import| i@);
            let dv = decls_view(sorted_ds@);
            assert forall|i: int, j: int| 0 <= i < j < dv.len() implies triple_le(
                (Seq::empty(), dv[i].span.start_byte as int, dv[i].name),
                (Seq::empty(), dv[j].span.start_byte as int, dv[j].name),
            ) by {
                assert(sorted_ds@[i].key_le(&sorted_ds@[j]));
            }
            let iv = imports_view(sorted_is@);
            assert forall|i: int, j: int| 0 <= i < j < iv.len() implies triple_le(
                (iv[i].path, 0, Seq::empty()),
                (iv[j].path, 0, Seq::empty()),
            ) by {
                assert(sorted_is@[i].key_le(&sorted_is@[j]));
            }
        }
        let has_errors = tree.len() > 0 && tree[0].has_error;
        proof {
            if tree@.len() > 0 {
                assert(nv[0] == tree@[0]@);
            }
        }
        let parse_error = if has_errors {
            Some(String::from_str("Source contains syntax errors"))
        } else {
            None
        };
        FileFacts {
            path: String::from_str(path),
            language: String::from_str("go"),
            package: pkg,
            declarations: sorted_ds,
            imports: sorted_is,
            has_parse_errors: has_errors,
            parse_error,
        }
    }
    /// Parses a Go source file and extracts its facts. Fails when the parser
    /// gives no tree or a query cannot run; the package query failing leaves
    /// the package unknown.
    pub fn extract_facts(&self, path: &str, source: &str) -> (r: Result<FileFacts, String>)
        ensures
            match r {
                Ok(f) => go_source_facts(f@, path@, source),
                Err(e) => !go_source_parses(source) && if go_tree_spec(source) is None {
                    e@ == "failed to parse Go source: "@ + path@
                } else {
                    e@ == "failed to run a Go query on: "@ + path@
                },
            },
    {
        let tree = match go_tree(source) {
            Some(t) => t,
            None => {
                let m = crate::text::concat_str(chars_of("failed to parse Go source: ").as_slice(), path);
                return Err(crate::text::string_of(m.as_slice()));
            },
        };
        let decls = go_matches(source, DECLARATION_QUERY);
        let imports = go_matches(source, IMPORT_QUERY);
        let control = go_matches(source, CONTROL_FLOW_QUERY);
        let package = go_matches(source, PACKAGE_QUERY);
        match (decls, imports, control) {
            (Some(d), Some(i), Some(c)) => Ok(
                self.facts_from_syntax(path, &tree, &d, &i, &package, &c),
            ),
            _ => {
                let m = crate::text::concat_str(chars_of("failed to run a Go query on: ").as_slice(), path);
                Err(crate::text::string_of(m.as_slice()))
            },
        }
    }
}

} // verus!
