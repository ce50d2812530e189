//! The Python analyzer: declarations, imports and function bodies of a
//! Python source file, read off its syntax tree and query matches.
use vstd::prelude::*;

use crate::analysis::facts::{
    callable, BodyView, ControlFlowInfo, DeclView, Declaration, DeclarationKind, FactsView,
    FileFacts, FunctionBody, Import, ImportFactView,
};
use crate::analysis::languages::common::{
    as_ints, children_exec, count_all, count_captures, decls_sorted, decls_view, first_of_kind,
    first_of_kind_exec, imports_sorted, imports_view, opt_body_view, opt_import_view, sat,
};
use crate::analysis::syntax::{
    capture_text, capture_text_exec, capture_view, children, find_node, match_view, matches_view,
    node_index, node_span, nodes_view, python_matches, python_query_of, python_tree,
    python_tree_spec, span_of, Capture, CaptureView, NodeView, SyntaxNode,
};
use crate::detect::types::str_eq;
use crate::sorting::{triple_le, KeyOrder};
use crate::text::{chars_of, contains, contains_seq, trim, trim_chars, unicode_lowercase, unicode_uppercase};

verus! {

// ---------------------------------------------------------------------------
// Queries
// ---------------------------------------------------------------------------

/// Tree-sitter query for extracting Python declarations: functions and
/// classes, decorated or not.
pub const DECLARATION_QUERY: &'static str = "
(function_definition
  name: (identifier) @func_name
) @function

(class_definition
  name: (identifier) @class_name
) @class

(decorated_definition
  (function_definition
    name: (identifier) @decorated_func_name
  )
) @decorated_function

(decorated_definition
  (class_definition
    name: (identifier) @decorated_class_name
  )
) @decorated_class
";

/// Tree-sitter query for control flow nodes (complexity calculation).
pub const CONTROL_FLOW_QUERY: &'static str = "
(if_statement) @if
(for_statement) @for
(while_statement) @while
(conditional_expression) @ternary
(boolean_operator operator: \"and\") @and
(boolean_operator operator: \"or\") @or
(try_statement) @try
(except_clause) @except
(match_statement) @match
(case_clause) @case
";

/// Tree-sitter query for extracting imports: `import module`, `from module
/// import name`, and relative `from . import name`.
pub const IMPORT_QUERY: &'static str = "
(import_statement
  name: (dotted_name) @module_name
) @import

(import_from_statement
  module_name: (dotted_name) @from_module
) @import_from

(import_from_statement
  module_name: (relative_import) @relative_module
) @import_relative
";

// ---------------------------------------------------------------------------
// Function bodies
// ---------------------------------------------------------------------------

/// The statements among the nodes: those that are not comments.
pub open spec fn statements(ns: Seq<NodeView>, ks: Seq<int>) -> Seq<int>
    decreases ks.len(),
{
    if ks.len() == 0 {
        Seq::empty()
    } else if ns[ks.last()].kind != "comment"@ {
        statements(ns, ks.drop_last()).push(ks.last())
    } else {
        statements(ns, ks.drop_last())
    }
}

fn statements_exec(ns: &Vec<SyntaxNode>, ks: &Vec<usize>) -> (r: Vec<usize>)
    requires
        forall|j: int| 0 <= j < ks@.len() ==> #[trigger] ks@[j] < ns@.len(),
    ensures
        as_ints(r@) == statements(nodes_view(ns@), as_ints(ks@)),
        forall|j: int| 0 <= j < r@.len() ==> #[trigger] r@[j] < ns@.len(),
{
    let ghost nv = nodes_view(ns@);
    let mut out: Vec<usize> = Vec::new();
    let mut i: usize = 0;
    while i < ks.len()
        invariant
            i <= ks@.len(),
            nv == nodes_view(ns@),
            forall|j: int| 0 <= j < ks@.len() ==> #[trigger] ks@[j] < ns@.len(),
            forall|j: int| 0 <= j < out@.len() ==> #[trigger] out@[j] < ns@.len(),
            as_ints(out@) == statements(nv, as_ints(ks@).take(i as int)),
        decreases ks.len() - i,
    {
        let k = ks[i];
        assert(as_ints(ks@).take(i + 1).drop_last() =~= as_ints(ks@).take(i as int));
        assert(as_ints(ks@).take(i + 1).last() == k as int);
        assert(nv[k as int] == ns@[k as int]@);
        if !str_eq(ns[k].kind.as_str(), "comment") {
            let ghost before = out@;
            out.push(k);
            assert(as_ints(out@) =~= as_ints(before).push(k as int));
        }
        i = i + 1;
    }
    assert(as_ints(ks@).take(ks@.len() as int) =~= as_ints(ks@));
    out
}

/// A raise of a generic exception whose message says the work is not done
/// (raising a specific exception type is a function's real behaviour).
pub open spec fn stub_raise_text(t: Seq<char>) -> bool {
    let l = unicode_lowercase(t);
    contains_seq(l, "exception"@) && (contains_seq(l, "not implemented"@) || contains_seq(
        l,
        "todo"@,
    ) || contains_seq(l, "stub"@) || contains_seq(l, "placeholder"@) || contains_seq(
        l,
        "not yet"@,
    ))
}

/// A body whose one statement raises a generic exception as a stub.
pub open spec fn raise_only(ns: Seq<NodeView>, st: Seq<int>) -> bool {
    st.len() == 1 && ns[st[0]].kind == "raise_statement"@ && stub_raise_text(ns[st[0]].text)
}

/// A body whose one statement returns `None`, returns nothing, or passes.
pub open spec fn none_return_only(ns: Seq<NodeView>, st: Seq<int>) -> bool {
    st.len() == 1 && ((ns[st[0]].kind == "return_statement"@ && (trim(ns[st[0]].text)
        == "return None"@ || trim(ns[st[0]].text) == "return"@)) || ns[st[0]].kind
        == "pass_statement"@)
}

/// Text that marks unfinished work.
pub open spec fn todo_text(t: Seq<char>) -> bool {
    let u = unicode_uppercase(t);
    contains_seq(u, "TODO"@) || contains_seq(u, "FIXME"@)
}

/// A docstring (an expression statement whose first child is a string)
/// that marks unfinished work.
pub open spec fn todo_docstring(ns: Seq<NodeView>, k: int) -> bool {
    ns[k].kind == "expression_statement"@ && children(ns, k).len() > 0 && ns[children(
        ns,
        k,
    )[0]].kind == "string"@ && todo_text(ns[children(ns, k)[0]].text)
}

/// A child of a body that marks unfinished work: a comment or a docstring
/// that says so.
pub open spec fn todo_marker(ns: Seq<NodeView>, k: int) -> bool {
    (ns[k].kind == "comment"@ && todo_text(ns[k].text)) || todo_docstring(ns, k)
}

/// A child of a body that is code: not a comment, not `pass`, and not a
/// docstring that marks unfinished work.
pub open spec fn other_child(ns: Seq<NodeView>, k: int) -> bool {
    ns[k].kind != "comment"@ && ns[k].kind != "pass_statement"@ && !todo_docstring(ns, k)
}

/// A body of comments, `pass` and docstrings only, one of them marking
/// unfinished work.
pub open spec fn todo_only(ns: Seq<NodeView>, ks: Seq<int>) -> bool {
    (exists|j: int| 0 <= j < ks.len() && todo_marker(ns, #[trigger] ks[j])) && !(exists|j: int|
        0 <= j < ks.len() && other_child(ns, #[trigger] ks[j]))
}

fn raise_only_exec(ns: &Vec<SyntaxNode>, st: &Vec<usize>) -> (r: bool)
    requires
        forall|j: int| 0 <= j < st@.len() ==> #[trigger] st@[j] < ns@.len(),
    ensures
        r == raise_only(nodes_view(ns@), as_ints(st@)),
{
    if st.len() != 1 {
        return false;
    }
    let s0 = st[0];
    assert(as_ints(st@)[0] == s0 as int);
    assert(nodes_view(ns@)[s0 as int] == ns@[s0 as int]@);
    if !str_eq(ns[s0].kind.as_str(), "raise_statement") {
        return false;
    }
    let l = crate::text::to_lowercase(chars_of(ns[s0].text.as_str()).as_slice());
    contains(l.as_slice(), chars_of("exception").as_slice()) && (contains(
        l.as_slice(),
        chars_of("not implemented").as_slice(),
    ) || contains(l.as_slice(), chars_of("todo").as_slice()) || contains(
        l.as_slice(),
        chars_of("stub").as_slice(),
    ) || contains(l.as_slice(), chars_of("placeholder").as_slice()) || contains(
        l.as_slice(),
        chars_of("not yet").as_slice(),
    ))
}

fn none_return_only_exec(ns: &Vec<SyntaxNode>, st: &Vec<usize>) -> (r: bool)
    requires
        forall|j: int| 0 <= j < st@.len() ==> #[trigger] st@[j] < ns@.len(),
    ensures
        r == none_return_only(nodes_view(ns@), as_ints(st@)),
{
    if st.len() != 1 {
        return false;
    }
    let s0 = st[0];
    assert(as_ints(st@)[0] == s0 as int);
    assert(nodes_view(ns@)[s0 as int] == ns@[s0 as int]@);
    if str_eq(ns[s0].kind.as_str(), "return_statement") {
        proof {
            reveal_strlit("return_statement");
            reveal_strlit("pass_statement");
            assert("return_statement"@.len() != "pass_statement"@.len());
            assert(nodes_view(ns@)[s0 as int].kind != "pass_statement"@);
        }
        let t = trim_chars(chars_of(ns[s0].text.as_str()).as_slice());
        let a = chars_of("return None");
        let b = chars_of("return");
        let r1 = crate::text::chars_equal(t.as_slice(), a.as_slice());
        let r2 = crate::text::chars_equal(t.as_slice(), b.as_slice());
        return r1 || r2;
    }
    str_eq(ns[s0].kind.as_str(), "pass_statement")
}

fn todo_text_exec(t: &str) -> (r: bool)
    ensures
        r == todo_text(t@),
{
    let u = crate::text::to_uppercase(chars_of(t).as_slice());
    contains(u.as_slice(), chars_of("TODO").as_slice()) || contains(
        u.as_slice(),
        chars_of("FIXME").as_slice(),
    )
}

fn todo_docstring_exec(ns: &Vec<SyntaxNode>, k: usize) -> (r: bool)
    requires
        k < ns@.len(),
    ensures
        r == todo_docstring(nodes_view(ns@), k as int),
{
    let ghost nv = nodes_view(ns@);
    assert(nv[k as int] == ns@[k as int]@);
    if !str_eq(ns[k].kind.as_str(), "expression_statement") {
        return false;
    }
    let ch = children_exec(ns, k);
    if ch.len() == 0 {
        return false;
    }
    let c = ch[0];
    assert(as_ints(ch@)[0] == c as int);
    assert(nv[c as int] == ns@[c as int]@);
    str_eq(ns[c].kind.as_str(), "string") && todo_text_exec(ns[c].text.as_str())
}

fn todo_only_exec(ns: &Vec<SyntaxNode>, ks: &Vec<usize>) -> (r: bool)
    requires
        forall|j: int| 0 <= j < ks@.len() ==> #[trigger] ks@[j] < ns@.len(),
    ensures
        r == todo_only(nodes_view(ns@), as_ints(ks@)),
{
    let ghost nv = nodes_view(ns@);
    let mut has_todo = false;
    let mut has_other = false;
    let mut i: usize = 0;
    while i < ks.len()
        invariant
            i <= ks@.len(),
            nv == nodes_view(ns@),
            forall|j: int| 0 <= j < ks@.len() ==> #[trigger] ks@[j] < ns@.len(),
            has_todo == exists|j: int| 0 <= j < i && todo_marker(nv, #[trigger] as_ints(ks@)[j]),
            has_other == exists|j: int| 0 <= j < i && other_child(nv, #[trigger] as_ints(ks@)[j]),
        decreases ks.len() - i,
    {
        let k = ks[i];
        assert(as_ints(ks@)[i as int] == k as int);
        assert(nv[k as int] == ns@[k as int]@);
        let is_comment = str_eq(ns[k].kind.as_str(), "comment");
        let marks = if is_comment {
            todo_text_exec(ns[k].text.as_str())
        } else {
            false
        };
        let doc = todo_docstring_exec(ns, k);
        if marks || doc {
            has_todo = true;
        }
        if !is_comment && !str_eq(ns[k].kind.as_str(), "pass_statement") && !doc {
            has_other = true;
        }
        i = i + 1;
    }
    proof {
        assert(as_ints(ks@).len() == ks@.len());
    }
    has_todo && !has_other
}

// ---------------------------------------------------------------------------
// Control flow
// ---------------------------------------------------------------------------

/// The control flow within the given bytes.
pub open spec fn control_flow_of(cm: Seq<Seq<CaptureView>>, lo: usize, hi: usize) -> ControlFlowInfo {
    ControlFlowInfo {
        if_count: sat(count_all(cm, "if"@, lo, hi)),
        loop_count: sat(count_all(cm, "for"@, lo, hi) + count_all(cm, "while"@, lo, hi)),
        switch_count: sat(count_all(cm, "match"@, lo, hi)),
        case_count: sat(count_all(cm, "case"@, lo, hi)),
        select_count: 0,
        and_count: sat(count_all(cm, "and"@, lo, hi)),
        or_count: sat(count_all(cm, "or"@, lo, hi)),
        ternary_count: sat(count_all(cm, "ternary"@, lo, hi)),
        catch_count: sat(count_all(cm, "except"@, lo, hi)),
    }
}

fn control_flow_exec(cm: &Vec<Vec<Capture>>, lo: usize, hi: usize) -> (r: ControlFlowInfo)
    ensures
        r == control_flow_of(matches_view(cm@), lo, hi),
{
    let loops = count_captures(cm, "for", lo, hi).saturating_add(count_captures(cm, "while", lo, hi));
    ControlFlowInfo {
        if_count: count_captures(cm, "if", lo, hi),
        loop_count: loops,
        switch_count: count_captures(cm, "match", lo, hi),
        case_count: count_captures(cm, "case", lo, hi),
        select_count: 0,
        and_count: count_captures(cm, "and", lo, hi),
        or_count: count_captures(cm, "or", lo, hi),
        ternary_count: count_captures(cm, "ternary", lo, hi),
        catch_count: count_captures(cm, "except", lo, hi),
    }
}

// ---------------------------------------------------------------------------
// The body of a function
// ---------------------------------------------------------------------------

proof fn lemma_statements_len(ns: Seq<NodeView>, ks: Seq<int>)
    ensures
        statements(ns, ks).len() <= ks.len(),
    decreases ks.len(),
{
    if ks.len() > 0 {
        lemma_statements_len(ns, ks.drop_last());
    }
}

/// The body of the function at node `k`: its block, with the statements,
/// the stub markers and the control flow within it.
pub open spec fn body_of(ns: Seq<NodeView>, cm: Seq<Seq<CaptureView>>, k: int) -> Option<BodyView> {
    match first_of_kind(ns, children(ns, k), "block"@) {
        None => None,
        Some(b) => {
            let ks = children(ns, b);
            let st = statements(ns, ks);
            Some(
                BodyView {
                    span: span_of(ns[b]),
                    statement_count: st.len() as usize,
                    is_empty: st.len() == 0,
                    is_panic_only: raise_only(ns, st),
                    is_nil_return_only: none_return_only(ns, st),
                    has_only_todo_comment: todo_only(ns, ks),
                    text: ns[b].text,
                    control_flow: control_flow_of(cm, ns[b].start_byte, ns[b].end_byte),
                },
            )
        },
    }
}

fn function_body(ns: &Vec<SyntaxNode>, cm: &Vec<Vec<Capture>>, k: usize) -> (r: Option<
    FunctionBody,
>)
    requires
        k < ns@.len(),
    ensures
        opt_body_view(r) == body_of(nodes_view(ns@), matches_view(cm@), k as int),
{
    let ghost nv = nodes_view(ns@);
    let ch = children_exec(ns, k);
    let b = match first_of_kind_exec(ns, &ch, "block") {
        Some(b) => b,
        None => return None,
    };
    assert(nv[b as int] == ns@[b as int]@);
    let ks = children_exec(ns, b);
    let st = statements_exec(ns, &ks);
    proof {
        lemma_statements_len(nv, as_ints(ks@));
    }
    let body = FunctionBody {
        span: node_span(&ns[b]),
        statement_count: st.len(),
        is_empty: st.len() == 0,
        is_panic_only: raise_only_exec(ns, &st),
        is_nil_return_only: none_return_only_exec(ns, &st),
        has_only_todo_comment: todo_only_exec(ns, &ks),
        text: ns[b].text.clone(),
        control_flow: control_flow_exec(cm, ns[b].start_byte, ns[b].end_byte),
    };
    Some(body)
}

// ---------------------------------------------------------------------------
// Declarations
// ---------------------------------------------------------------------------

/// What the captures of a declaration match say, read in order: the name,
/// the kind and the declaration's node (Python declarations have no
/// receiver).
pub struct DeclAcc {
    pub name: Seq<char>,
    pub kind: DeclarationKind,
    pub node: Option<(usize, usize, Seq<char>)>,
    pub receiver: Option<Seq<char>>,
}

pub open spec fn decl_step(ns: Seq<NodeView>, a: DeclAcc, c: CaptureView) -> DeclAcc {
    let t = capture_text(ns, c);
    if c.0 == "func_name"@ || c.0 == "decorated_func_name"@ {
        DeclAcc { name: t, kind: DeclarationKind::Function, node: a.node, receiver: a.receiver }
    } else if c.0 == "class_name"@ || c.0 == "decorated_class_name"@ {
        DeclAcc { name: t, kind: DeclarationKind::Type, node: a.node, receiver: a.receiver }
    } else if c.0 == "function"@ || c.0 == "decorated_function"@ || c.0 == "class"@ || c.0
        == "decorated_class"@ {
        DeclAcc { name: a.name, kind: a.kind, node: Some((c.1, c.2, c.3)), receiver: a.receiver }
    } else {
        a
    }
}

pub open spec fn decl_acc(ns: Seq<NodeView>, m: Seq<CaptureView>) -> DeclAcc
    decreases m.len(),
{
    if m.len() == 0 {
        DeclAcc { name: Seq::empty(), kind: DeclarationKind::Function, node: None, receiver: None }
    } else {
        decl_step(ns, decl_acc(ns, m.drop_last()), m.last())
    }
}

/// A declaration that a match yields: its name, kind, node and receiver.
pub struct DeclCand {
    pub name: Seq<char>,
    pub kind: DeclarationKind,
    pub node: int,
    pub receiver: Option<Seq<char>>,
}

/// The declaration a match yields: one with a name and a declaration node
/// (found in the tree).
pub open spec fn decl_candidate(ns: Seq<NodeView>, m: Seq<CaptureView>) -> Option<DeclCand> {
    let a = decl_acc(ns, m);
    if a.name.len() == 0 {
        None
    } else {
        match a.node {
            None => None,
            Some(t) => match node_index(ns, t.0, t.1, t.2) {
                None => None,
                Some(k) => Some(DeclCand { name: a.name, kind: a.kind, node: k, receiver: a.receiver }),
            },
        }
    }
}

/// A declaration is known by its start offset and name.
pub open spec fn cand_key(ns: Seq<NodeView>, c: DeclCand) -> (usize, Seq<char>) {
    (ns[c.node].start_byte, c.name)
}

/// The declarations in order, each key kept at its first occurrence.
pub open spec fn unique_cands(ns: Seq<NodeView>, cs: Seq<DeclCand>) -> Seq<DeclCand>
    decreases cs.len(),
{
    if cs.len() == 0 {
        Seq::empty()
    } else if exists|j: int|
        0 <= j < cs.len() - 1 && #[trigger] cand_key(ns, cs[j]) == cand_key(ns, cs.last()) {
        unique_cands(ns, cs.drop_last())
    } else {
        unique_cands(ns, cs.drop_last()).push(cs.last())
    }
}

/// The declaration a candidate stands for.
pub open spec fn decl_of(ns: Seq<NodeView>, cm: Seq<Seq<CaptureView>>, c: DeclCand) -> DeclView {
    DeclView {
        name: c.name,
        kind: c.kind,
        span: span_of(ns[c.node]),
        receiver: c.receiver,
        body: if callable(c.kind) {
            body_of(ns, cm, c.node)
        } else {
            None
        },
    }
}

pub open spec fn all_candidates(ns: Seq<NodeView>, dm: Seq<Seq<CaptureView>>) -> Seq<DeclCand> {
    crate::sorting::filter_map(dm, |m: Seq<CaptureView>| decl_candidate(ns, m))
}

/// The declarations of a Python file, in the order the matches give them.
pub open spec fn python_declarations(
    ns: Seq<NodeView>,
    dm: Seq<Seq<CaptureView>>,
    cm: Seq<Seq<CaptureView>>,
) -> Seq<DeclView> {
    unique_cands(ns, all_candidates(ns, dm)).map_values(|c: DeclCand| decl_of(ns, cm, c))
}

/// A candidate as executable values: name, kind, node and receiver.
type ExecCand = (String, DeclarationKind, usize, Option<String>);

pub open spec fn exec_cand_view(c: ExecCand) -> DeclCand {
    DeclCand { name: c.0@, kind: c.1, node: c.2 as int, receiver: crate::paths::opt_string_view(c.3) }
}

fn decl_candidate_exec(ns: &Vec<SyntaxNode>, m: &Vec<Capture>) -> (r: Option<ExecCand>)
    ensures
        match r {
            Some(c) => decl_candidate(nodes_view(ns@), match_view(*m)) == Some(exec_cand_view(c))
                && c.2 < ns@.len(),
            None => decl_candidate(nodes_view(ns@), match_view(*m)) is None,
        },
{
    let ghost nv = nodes_view(ns@);
    let ghost mv = match_view(*m);
    let mut name = String::new();
    let mut kind = DeclarationKind::Function;
    let mut node: Option<(usize, usize, String)> = None;
    let mut receiver: Option<String> = None;
    let mut j: usize = 0;
    while j < m.len()
        invariant
            j <= m@.len(),
            nv == nodes_view(ns@),
            mv == match_view(*m),
            ({
                let a = decl_acc(nv, mv.take(j as int));
                &&& a.name == name@
                &&& a.kind == kind
                &&& a.receiver == crate::paths::opt_string_view(receiver)
                &&& a.node == match node {
                    Some(t) => Some((t.0, t.1, t.2@)),
                    None => None::<(usize, usize, Seq<char>)>,
                }
            }),
        decreases m.len() - j,
    {
        let c = &m[j];
        assert(mv.take(j + 1).drop_last() =~= mv.take(j as int));
        assert(mv.take(j + 1).last() == capture_view(*c));
        let cn = c.0.as_str();
        if str_eq(cn, "func_name") || str_eq(cn, "decorated_func_name") {
            name = capture_text_exec(ns, c);
            kind = DeclarationKind::Function;
        } else if str_eq(cn, "class_name") || str_eq(cn, "decorated_class_name") {
            name = capture_text_exec(ns, c);
            kind = DeclarationKind::Type;
        } else if str_eq(cn, "function") || str_eq(cn, "decorated_function") || str_eq(cn, "class")
            || str_eq(cn, "decorated_class") {
            node = Some((c.1.start, c.1.end, c.2.clone()));
        }
        j = j + 1;
    }
    assert(mv.take(m@.len() as int) =~= mv);
    if name.as_str().is_empty() {
        return None;
    }
    match node {
        None => None,
        Some(t) => match find_node(ns, t.0, t.1, t.2.as_str()) {
            None => None,
            Some(k) => Some((name, kind, k, receiver)),
        },
    }
}

/// The declarations of a Python file, in the order the matches give them.
fn declarations_exec(ns: &Vec<SyntaxNode>, dm: &Vec<Vec<Capture>>, cm: &Vec<Vec<Capture>>) -> (r: Vec<
    Declaration,
>)
    ensures
        decls_view(r@) == python_declarations(nodes_view(ns@), matches_view(dm@), matches_view(cm@)),
{
    let ghost nv = nodes_view(ns@);
    let ghost dmv = matches_view(dm@);
    let ghost cmv = matches_view(cm@);
    let mut seen: Vec<(usize, String)> = Vec::new();
    let mut out: Vec<Declaration> = Vec::new();
    let mut i: usize = 0;
    while i < dm.len()
        invariant
            i <= dm@.len(),
            nv == nodes_view(ns@),
            dmv == matches_view(dm@),
            cmv == matches_view(cm@),
            seen@.len() == all_candidates(nv, dmv.take(i as int)).len(),
            forall|t: int|
                0 <= t < seen@.len() ==> ((#[trigger] seen@[t]).0, seen@[t].1@) == cand_key(
                    nv,
                    all_candidates(nv, dmv.take(i as int))[t],
                ),
            decls_view(out@) == unique_cands(nv, all_candidates(nv, dmv.take(i as int))).map_values(
                |c: DeclCand| decl_of(nv, cmv, c),
            ),
        decreases dm.len() - i,
    {
        let ghost cs = all_candidates(nv, dmv.take(i as int));
        assert(dmv.take(i + 1).drop_last() =~= dmv.take(i as int));
        assert(dmv.take(i + 1).last() == match_view(dm@[i as int]));
        match decl_candidate_exec(ns, &dm[i]) {
            None => {
                assert(all_candidates(nv, dmv.take(i + 1)) == cs);
            },
            Some(c) => {
                let ghost cv = exec_cand_view(c);
                let ghost cs2 = all_candidates(nv, dmv.take(i + 1));
                assert(cs2 == cs.push(cv));
                assert(cs2.drop_last() =~= cs);
                assert(nv[c.2 as int] == ns@[c.2 as int]@);
                let start = ns[c.2].start_byte;
                let mut dup = false;
                let mut j: usize = 0;
                while j < seen.len()
                    invariant
                        j <= seen@.len(),
                        seen@.len() == cs.len(),
                        forall|t: int|
                            0 <= t < seen@.len() ==> ((#[trigger] seen@[t]).0, seen@[t].1@)
                                == cand_key(nv, cs[t]),
                        dup == exists|t: int|
                            0 <= t < j && #[trigger] cand_key(nv, cs[t]) == (start, c.0@),
                    decreases seen.len() - j,
                {
                    assert(((seen@[j as int]).0, seen@[j as int].1@) == cand_key(nv, cs[j as int]));
                    if seen[j].0 == start && str_eq(seen[j].1.as_str(), c.0.as_str()) {
                        dup = true;
                    }
                    j = j + 1;
                }
                proof {
                    assert(cand_key(nv, cv) == (start, c.0@));
                    assert forall|t: int| 0 <= t < cs2.len() - 1 implies cs2[t] == cs[t] by {}
                    if dup {
                        let t = choose|t: int|
                            0 <= t < j && #[trigger] cand_key(nv, cs[t]) == (start, c.0@);
                        assert(cand_key(nv, cs2[t]) == cand_key(nv, cs2.last()));
                    } else {
                        assert(!exists|t: int|
                            0 <= t < cs2.len() - 1 && #[trigger] cand_key(nv, cs2[t])
                                == cand_key(nv, cs2.last())) by {
                            if exists|t: int|
                                0 <= t < cs2.len() - 1 && #[trigger] cand_key(nv, cs2[t])
                                    == cand_key(nv, cs2.last()) {
                                let t = choose|t: int|
                                    0 <= t < cs2.len() - 1 && #[trigger] cand_key(nv, cs2[t])
                                        == cand_key(nv, cs2.last());
                                assert(cand_key(nv, cs[t]) == (start, c.0@));
                            }
                        }
                    }
                }
                let key_name = c.0.clone();
                if !dup {
                    let body = if c.1.is_callable() {
                        function_body(ns, cm, c.2)
                    } else {
                        None
                    };
                    let d = Declaration {
                        name: c.0,
                        kind: c.1,
                        span: node_span(&ns[c.2]),
                        receiver: c.3,
                        body,
                    };
                    let ghost before = out@;
                    out.push(d);
                    proof {
                        assert(d@ == decl_of(nv, cmv, cv));
                        assert(decls_view(out@) =~= decls_view(before).push(d@));
                        assert(unique_cands(nv, cs2) == unique_cands(nv, cs).push(cv));
                        assert(unique_cands(nv, cs2).map_values(|c: DeclCand| decl_of(nv, cmv, c))
                            =~= unique_cands(nv, cs).map_values(|c: DeclCand| decl_of(nv, cmv, c)).push(
                            decl_of(nv, cmv, cv),
                        ));
                    }
                } else {
                    assert(unique_cands(nv, cs2) == unique_cands(nv, cs));
                }
                let ghost seen_before = seen@;
                seen.push((start, key_name));
                proof {
                    assert forall|t: int| 0 <= t < seen@.len() implies ((#[trigger] seen@[t]).0, seen@[t].1@)
                        == cand_key(nv, cs2[t]) by {
                        if t < seen_before.len() {
                            assert(seen@[t] == seen_before[t]);
                            assert(cs2[t] == cs[t]);
                        }
                    }
                }
            },
        }
        i = i + 1;
    }
    assert(dmv.take(dm@.len() as int) =~= dmv);
    out
}

// ---------------------------------------------------------------------------
// Imports
// ---------------------------------------------------------------------------

/// What the captures of an import match say, read in order: the module
/// path, the alias (Python imports carry none here) and the path's node.
pub struct ImportAcc {
    pub path: Seq<char>,
    pub alias: Option<Seq<char>>,
    pub node: Option<(usize, usize, Seq<char>)>,
}

pub open spec fn import_step(ns: Seq<NodeView>, a: ImportAcc, c: CaptureView) -> ImportAcc {
    if c.0 == "module_name"@ || c.0 == "from_module"@ || c.0 == "relative_module"@ {
        ImportAcc { path: capture_text(ns, c), alias: a.alias, node: Some((c.1, c.2, c.3)) }
    } else {
        a
    }
}

pub open spec fn import_acc(ns: Seq<NodeView>, m: Seq<CaptureView>) -> ImportAcc
    decreases m.len(),
{
    if m.len() == 0 {
        ImportAcc { path: Seq::empty(), alias: None, node: None }
    } else {
        import_step(ns, import_acc(ns, m.drop_last()), m.last())
    }
}

/// What an import match yields: its path, when not empty, and the import,
/// when its node is found in the tree.
pub open spec fn import_entry(ns: Seq<NodeView>, m: Seq<CaptureView>) -> Option<
    (Seq<char>, Option<ImportFactView>),
> {
    let a = import_acc(ns, m);
    if a.path.len() == 0 {
        None
    } else {
        Some(
            (
                a.path,
                match a.node {
                    None => None,
                    Some(t) => match node_index(ns, t.0, t.1, t.2) {
                        None => None,
                        Some(k) => Some(
                            ImportFactView { path: a.path, alias: a.alias, span: span_of(ns[k]) },
                        ),
                    },
                },
            ),
        )
    }
}

pub open spec fn all_import_entries(ns: Seq<NodeView>, im: Seq<Seq<CaptureView>>) -> Seq<
    (Seq<char>, Option<ImportFactView>),
> {
    crate::sorting::filter_map(im, |m: Seq<CaptureView>| import_entry(ns, m))
}

/// The imports in order, each path kept at its first occurrence.
pub open spec fn unique_imports(es: Seq<(Seq<char>, Option<ImportFactView>)>) -> Seq<ImportFactView>
    decreases es.len(),
{
    if es.len() == 0 {
        Seq::empty()
    } else if exists|j: int| 0 <= j < es.len() - 1 && (#[trigger] es[j]).0 == es.last().0 {
        unique_imports(es.drop_last())
    } else {
        match es.last().1 {
            Some(v) => unique_imports(es.drop_last()).push(v),
            None => unique_imports(es.drop_last()),
        }
    }
}

/// The imports of a Python file, in the order the matches give them.
pub open spec fn python_imports(ns: Seq<NodeView>, im: Seq<Seq<CaptureView>>) -> Seq<ImportFactView> {
    unique_imports(all_import_entries(ns, im))
}

fn import_entry_exec(ns: &Vec<SyntaxNode>, m: &Vec<Capture>) -> (r: Option<(String, Option<Import>)>)
    ensures
        match r {
            Some(e) => import_entry(nodes_view(ns@), match_view(*m)) == Some(
                (e.0@, opt_import_view(e.1)),
            ),
            None => import_entry(nodes_view(ns@), match_view(*m)) is None,
        },
{
    let ghost nv = nodes_view(ns@);
    let ghost mv = match_view(*m);
    let mut path = String::new();
    let mut alias: Option<String> = None;
    let mut node: Option<(usize, usize, String)> = None;
    let mut j: usize = 0;
    while j < m.len()
        invariant
            j <= m@.len(),
            nv == nodes_view(ns@),
            mv == match_view(*m),
            ({
                let a = import_acc(nv, mv.take(j as int));
                &&& a.path == path@
                &&& a.alias == crate::paths::opt_string_view(alias)
                &&& a.node == match node {
                    Some(t) => Some((t.0, t.1, t.2@)),
                    None => None::<(usize, usize, Seq<char>)>,
                }
            }),
        decreases m.len() - j,
    {
        let c = &m[j];
        assert(mv.take(j + 1).drop_last() =~= mv.take(j as int));
        assert(mv.take(j + 1).last() == capture_view(*c));
        if str_eq(c.0.as_str(), "module_name") || str_eq(c.0.as_str(), "from_module") || str_eq(
            c.0.as_str(),
            "relative_module",
        ) {
            path = capture_text_exec(ns, c);
            node = Some((c.1.start, c.1.end, c.2.clone()));
        }
        j = j + 1;
    }
    assert(mv.take(m@.len() as int) =~= mv);
    if path.as_str().is_empty() {
        return None;
    }
    let entry = match node {
        None => None,
        Some(t) => match find_node(ns, t.0, t.1, t.2.as_str()) {
            None => None,
            Some(k) => {
                assert(nv[k as int] == ns@[k as int]@);
                Some(Import { path: path.clone(), alias, span: node_span(&ns[k]) })
            },
        },
    };
    Some((path, entry))
}

/// The imports of a Python file, in the order the matches give them.
fn imports_exec(ns: &Vec<SyntaxNode>, im: &Vec<Vec<Capture>>) -> (r: Vec<Import>)
    ensures
        imports_view(r@) == python_imports(nodes_view(ns@), matches_view(im@)),
{
    let ghost nv = nodes_view(ns@);
    let ghost imv = matches_view(im@);
    let mut seen: Vec<String> = Vec::new();
    let mut out: Vec<Import> = Vec::new();
    let mut i: usize = 0;
    while i < im.len()
        invariant
            i <= im@.len(),
            nv == nodes_view(ns@),
            imv == matches_view(im@),
            seen@.len() == all_import_entries(nv, imv.take(i as int)).len(),
            forall|t: int|
                0 <= t < seen@.len() ==> (#[trigger] seen@[t])@ == all_import_entries(
                    nv,
                    imv.take(i as int),
                )[t].0,
            imports_view(out@) == unique_imports(all_import_entries(nv, imv.take(i as int))),
        decreases im.len() - i,
    {
        let ghost es = all_import_entries(nv, imv.take(i as int));
        assert(imv.take(i + 1).drop_last() =~= imv.take(i as int));
        assert(imv.take(i + 1).last() == match_view(im@[i as int]));
        match import_entry_exec(ns, &im[i]) {
            None => {
                assert(all_import_entries(nv, imv.take(i + 1)) == es);
            },
            Some(e) => {
                let ghost ev = (e.0@, opt_import_view(e.1));
                let ghost es2 = all_import_entries(nv, imv.take(i + 1));
                assert(es2 == es.push(ev));
                let mut dup = false;
                let mut j: usize = 0;
                while j < seen.len()
                    invariant
                        j <= seen@.len(),
                        seen@.len() == es.len(),
                        forall|t: int| 0 <= t < seen@.len() ==> (#[trigger] seen@[t])@ == es[t].0,
                        dup == exists|t: int| 0 <= t < j && (#[trigger] es[t]).0 == e.0@,
                    decreases seen.len() - j,
                {
                    assert(seen@[j as int]@ == es[j as int].0);
                    if str_eq(seen[j].as_str(), e.0.as_str()) {
                        dup = true;
                    }
                    j = j + 1;
                }
                proof {
                    assert forall|t: int| 0 <= t < es2.len() - 1 implies es2[t] == es[t] by {}
                    if dup {
                        let t = choose|t: int| 0 <= t < j && (#[trigger] es[t]).0 == e.0@;
                        assert(es2[t].0 == es2.last().0);
                    } else {
                        assert(!exists|t: int|
                            0 <= t < es2.len() - 1 && (#[trigger] es2[t]).0 == es2.last().0) by {
                            if exists|t: int|
                                0 <= t < es2.len() - 1 && (#[trigger] es2[t]).0 == es2.last().0 {
                                let t = choose|t: int|
                                    0 <= t < es2.len() - 1 && (#[trigger] es2[t]).0
                                        == es2.last().0;
                                assert(es[t].0 == e.0@);
                            }
                        }
                    }
                    assert(es2.drop_last() =~= es);
                }
                let key = e.0.clone();
                if !dup {
                    match e.1 {
                        Some(x) => {
                            let ghost before = out@;
                            out.push(x);
                            assert(imports_view(out@) =~= imports_view(before).push(x@));
                        },
                        None => {},
                    }
                }
                let ghost seen_before = seen@;
                seen.push(key);
                proof {
                    assert forall|t: int| 0 <= t < seen@.len() implies (#[trigger] seen@[t])@
                        == es2[t].0 by {
                        if t < seen_before.len() {
                            assert(seen@[t] == seen_before[t]);
                        }
                    }
                }
            },
        }
        i = i + 1;
    }
    assert(imv.take(im@.len() as int) =~= imv);
    out
}

// ---------------------------------------------------------------------------
// The facts of a file
// ---------------------------------------------------------------------------

/// What the facts of a Python file are, given its syntax tree and the
/// matches of the declaration, import and control-flow queries: its
/// declarations and imports (each kept once, sorted), and whether the tree
/// holds a syntax error. Python files carry no package.
pub open spec fn python_facts_hold(
    f: FactsView,
    path: Seq<char>,
    ns: Seq<NodeView>,
    dm: Seq<Seq<CaptureView>>,
    im: Seq<Seq<CaptureView>>,
    cm: Seq<Seq<CaptureView>>,
) -> bool {
    &&& f.path == path
    &&& f.language == "python"@
    &&& f.package is None
    &&& f.declarations.to_multiset() == python_declarations(ns, dm, cm).to_multiset()
    &&& decls_sorted(f.declarations)
    &&& f.imports.to_multiset() == python_imports(ns, im).to_multiset()
    &&& imports_sorted(f.imports)
    &&& f.has_parse_errors == (ns.len() > 0 && ns[0].has_error)
    &&& f.parse_error is None
}

/// Whether the parser gives a tree of the source and the declaration,
/// import and control-flow queries run over it.
pub open spec fn python_source_parses(source: &str) -> bool {
    &&& python_tree_spec(source) is Some
    &&& python_query_of(source@, DECLARATION_QUERY@) is Some
    &&& python_query_of(source@, IMPORT_QUERY@) is Some
    &&& python_query_of(source@, CONTROL_FLOW_QUERY@) is Some
}

/// What the facts of a Python source are, read off its syntax tree and the
/// matches of the queries.
pub open spec fn python_source_facts(f: FactsView, path: Seq<char>, source: &str) -> bool {
    &&& python_source_parses(source)
    &&& python_facts_hold(
        f,
        path,
        python_tree_spec(source)->0,
        python_query_of(source@, DECLARATION_QUERY@)->0,
        python_query_of(source@, IMPORT_QUERY@)->0,
        python_query_of(source@, CONTROL_FLOW_QUERY@)->0,
    )
}

/// Python language analyzer.
pub struct PythonAnalyzer {}

impl PythonAnalyzer {
    /// Create a new Python analyzer.
    pub fn new() -> (r: PythonAnalyzer) {
        PythonAnalyzer {  }
    }

    /// The language identifier.
    pub fn language_id(&self) -> (r: &'static str)
        ensures
            r@ == "python"@,
    {
        "python"
    }

    /// The globs of the files this analyzer reads.
    pub fn file_globs(&self) -> (r: Vec<&'static str>)
        ensures
            r@.len() == 1,
            r@[0]@ == "**/*.py"@,
    {
        vec!["**/*.py"]
    }

    /// The extensions of the files this analyzer reads.
    pub fn file_extensions(&self) -> (r: Vec<&'static str>)
        ensures
            r@.len() == 1,
            r@[0]@ == "py"@,
    {
        vec!["py"]
    }

    /// The facts of a Python file, from its syntax tree and the matches of
    /// the declaration, import and control-flow queries.
    pub fn facts_from_syntax(
        &self,
        path: &str,
        tree: &Vec<SyntaxNode>,
        decls: &Vec<Vec<Capture>>,
        imports: &Vec<Vec<Capture>>,
        control: &Vec<Vec<Capture>>,
    ) -> (r: FileFacts)
        ensures
            python_facts_hold(
                r@,
                path@,
                nodes_view(tree@),
                matches_view(decls@),
                matches_view(imports@),
                matches_view(control@),
            ),
    {
        let ghost nv = nodes_view(tree@);
        let ds = declarations_exec(tree, decls, control);
        let sorted_ds = crate::sorting::sort_by_key(ds);
        let is = imports_exec(tree, imports);
        let sorted_is = crate::sorting::sort_by_key(is);
        proof {
            crate::sorting::lemma_permutation_map(sorted_ds@, ds@, |d: Declaration| d@);
            crate::sorting::lemma_permutation_map(sorted_is@, is@, |i: Import| i@);
            let dv = decls_view(sorted_ds@);
            assert forall|i: int, j: int| 0 <= i < j < dv.len() implies triple_le(
                (Seq::empty(), dv[i].span.start_byte as int, dv[i].name),
                (Seq::empty(), dv[j].span.start_byte as int, dv[j].name),
            ) by {
                assert(sorted_ds@[i].key_le(&sorted_ds@[j]));
            }
            let iv = imports_view(sorted_is@);
            assert forall|i: int, j: int| 0 <= i < j < iv.len() implies triple_le(
                (iv[i].path, 0, Seq::empty()),
                (iv[j].path, 0, Seq::empty()),
            ) by {
                assert(sorted_is@[i].key_le(&sorted_is@[j]));
            }
        }
        let has_errors = tree.len() > 0 && tree[0].has_error;
        proof {
            if tree@.len() > 0 {
                assert(nv[0] == tree@[0]@);
            }
        }
        FileFacts {
            path: String::from_str(path),
            language: String::from_str("python"),
            package: None,
            declarations: sorted_ds,
            imports: sorted_is,
            has_parse_errors: has_errors,
            parse_error: None,
        }
    }

    /// Parses a Python source file and extracts its facts. Fails when the
    /// parser gives no tree or a query cannot run.
    pub fn extract_facts(&self, path: &str, source: &str) -> (r: Result<FileFacts, String>)
        ensures
            match r {
                Ok(f) => python_source_facts(f@, path@, source),
                Err(e) => !python_source_parses(source) && if python_tree_spec(source) is None {
                    e@ == "failed to parse Python source: "@ + path@
                } else {
                    e@ == "failed to run a Python query on: "@ + path@
                },
            },
    {
        let tree = match python_tree(source) {
            Some(t) => t,
            None => {
                let m = crate::text::concat_str(
                    chars_of("failed to parse Python source: ").as_slice(),
                    path,
                );
                return Err(crate::text::string_of(m.as_slice()));
            },
        };
        let decls = python_matches(source, DECLARATION_QUERY);
        let imports = python_matches(source, IMPORT_QUERY);
        let control = python_matches(source, CONTROL_FLOW_QUERY);
        match (decls, imports, control) {
            (Some(d), Some(i), Some(c)) => Ok(self.facts_from_syntax(path, &tree, &d, &i, &c)),
            _ => {
                let m = crate::text::concat_str(
                    chars_of("failed to run a Python query on: ").as_slice(),
                    path,
                );
                Err(crate::text::string_of(m.as_slice()))
            },
        }
    }
}

} // verus!
