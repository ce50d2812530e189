//! Syntax trees and query matches of source files, as plain values.
//!
//! tree-sitter parses the source and runs the queries; what it finds is
//! handed over as a list of nodes in pre-order (each with its depth below the
//! root, so that the list is the tree) and as lists of query captures. The
//! walks over them are verified here.
use streaming_iterator::StreamingIterator;
use tree_sitter::{Language, Parser, Query, QueryCursor};
use std::ops::Range;
use vstd::prelude::*;
use vstd::string::StringSliceAdditionalSpecFns;
use vstd::utf8::{decode_utf8, encode_utf8, is_char_boundary};

use crate::analysis::facts::Span;
use crate::detect::types::str_eq;

verus! {

/// A node of a syntax tree.
#[derive(Debug, Clone)]
pub struct SyntaxNode {
    /// The node's kind (the grammar's name for it, or the token itself).
    pub kind: String,
    /// The name of the field under which the node hangs in its parent.
    pub field: Option<String>,
    /// The depth below the root (0 for the root).
    pub depth: u32,
    pub start_byte: usize,
    pub end_byte: usize,
    /// Row and column where the node starts (both from 0).
    pub start_row: usize,
    pub start_column: usize,
    /// Row and column where the node ends (both from 0).
    pub end_row: usize,
    pub end_column: usize,
    /// The source text the node covers.
    pub text: String,
    /// Whether the node or one below it is a syntax error.
    pub has_error: bool,
}

/// The content of a syntax node.
pub struct NodeView {
    pub kind: Seq<char>,
    pub field: Option<Seq<char>>,
    pub depth: u32,
    pub start_byte: usize,
    pub end_byte: usize,
    pub start_row: usize,
    pub start_column: usize,
    pub end_row: usize,
    pub end_column: usize,
    pub text: Seq<char>,
    pub has_error: bool,
}

impl View for SyntaxNode {
    type V = NodeView;

    open spec fn view(&self) -> NodeView {
        NodeView {
            kind: self.kind@,
            field: match self.field {
                Some(f) => Some(f@),
                None => None,
            },
            depth: self.depth,
            start_byte: self.start_byte,
            end_byte: self.end_byte,
            start_row: self.start_row,
            start_column: self.start_column,
            end_row: self.end_row,
            end_column: self.end_column,
            text: self.text@,
            has_error: self.has_error,
        }
    }
}

pub open spec fn nodes_view(v: Seq<SyntaxNode>) -> Seq<NodeView> {
    v.map_values(|n: SyntaxNode| n@)
}

/// A capture of a query match: the capture's name, and the byte range and
/// kind of the captured node.
pub type Capture = (String, Range<usize>, String);

pub type CaptureView = (Seq<char>, usize, usize, Seq<char>);

pub open spec fn capture_view(c: Capture) -> CaptureView {
    (c.0@, c.1.start, c.1.end, c.2@)
}

pub open spec fn match_view(m: Vec<Capture>) -> Seq<CaptureView> {
    m@.map_values(|c: Capture| capture_view(c))
}

pub open spec fn matches_view(v: Seq<Vec<Capture>>) -> Seq<Seq<CaptureView>> {
    v.map_values(|m: Vec<Capture>| match_view(m))
}

/// A node as the parser reports it: kind, field name, depth, start byte,
/// end byte, and whether it holds a syntax error.
pub type RawNode = (String, Option<String>, u32, usize, usize, bool);

pub type RawNodeView = (Seq<char>, Option<Seq<char>>, u32, usize, usize, bool);

pub open spec fn raw_view(n: RawNode) -> RawNodeView {
    (
        n.0@,
        match n.1 {
            Some(f) => Some(f@),
            None => None,
        },
        n.2,
        n.3,
        n.4,
        n.5,
    )
}

pub open spec fn opt_raw_view(o: Option<Vec<RawNode>>) -> Option<Seq<RawNodeView>> {
    match o {
        Some(v) => Some(v@.map_values(|n: RawNode| raw_view(n))),
        None => None,
    }
}

/// The nodes, in pre-order, of the tree that the tree-sitter Go grammar
/// parses from the source (`None` when the parser gives no tree).
pub uninterp spec fn go_tree_of(source: Seq<char>) -> Option<Seq<RawNodeView>>;

/// The matches, in the order tree-sitter's query cursor finds them, of the
/// query over the Go tree of the source (`None` when the query or the
/// parse fails).
pub uninterp spec fn go_query_of(source: Seq<char>, query: Seq<char>) -> Option<
    Seq<Seq<CaptureView>>,
>;

/// The nodes, in pre-order, of the tree that the tree-sitter Python grammar
/// parses from the source (`None` when the parser gives no tree).
pub uninterp spec fn python_tree_of(source: Seq<char>) -> Option<Seq<RawNodeView>>;

/// The matches of the query over the Python tree of the source, as the
/// query cursor finds them (`None` when the query or the parse fails).
pub uninterp spec fn python_query_of(source: Seq<char>, query: Seq<char>) -> Option<
    Seq<Seq<CaptureView>>,
>;

/// The nodes, in pre-order, of the tree that the tree-sitter Rust grammar
/// parses from the source (`None` when the parser gives no tree).
pub uninterp spec fn rust_tree_of(source: Seq<char>) -> Option<Seq<RawNodeView>>;

/// The matches of the query over the Rust tree of the source, as the query
/// cursor finds them (`None` when the query or the parse fails).
pub uninterp spec fn rust_query_of(source: Seq<char>, query: Seq<char>) -> Option<
    Seq<Seq<CaptureView>>,
>;

/// The nodes, in pre-order, of the tree that the tree-sitter JavaScript grammar
/// parses from the source (`None` when the parser gives no tree).
pub uninterp spec fn javascript_tree_of(source: Seq<char>) -> Option<Seq<RawNodeView>>;

/// The matches of the query over the JavaScript tree of the source, as the query
/// cursor finds them (`None` when the query or the parse fails).
pub uninterp spec fn javascript_query_of(source: Seq<char>, query: Seq<char>) -> Option<
    Seq<Seq<CaptureView>>,
>;

/// The nodes, in pre-order, of the tree that the tree-sitter TypeScript grammar
/// parses from the source (`None` when the parser gives no tree).
pub uninterp spec fn typescript_tree_of(source: Seq<char>) -> Option<Seq<RawNodeView>>;

/// The matches of the query over the TypeScript tree of the source, as the query
/// cursor finds them (`None` when the query or the parse fails).
pub uninterp spec fn typescript_query_of(source: Seq<char>, query: Seq<char>) -> Option<
    Seq<Seq<CaptureView>>,
>;

/// The nodes, in pre-order, of the tree that the tree-sitter TSX grammar
/// parses from the source (`None` when the parser gives no tree).
pub uninterp spec fn tsx_tree_of(source: Seq<char>) -> Option<Seq<RawNodeView>>;

/// The matches of the query over the TSX tree of the source, as the query
/// cursor finds them (`None` when the query or the parse fails).
pub uninterp spec fn tsx_query_of(source: Seq<char>, query: Seq<char>) -> Option<
    Seq<Seq<CaptureView>>,
>;

/// The nodes, in pre-order, of the tree that the tree-sitter Java grammar
/// parses from the source (`None` when the parser gives no tree).
pub uninterp spec fn java_tree_of(source: Seq<char>) -> Option<Seq<RawNodeView>>;

/// The matches of the query over the Java tree of the source, as the query
/// cursor finds them (`None` when the query or the parse fails).
pub uninterp spec fn java_query_of(source: Seq<char>, query: Seq<char>) -> Option<
    Seq<Seq<CaptureView>>,
>;

/// The nodes, in pre-order, of the tree that the tree-sitter C grammar
/// parses from the source (`None` when the parser gives no tree).
pub uninterp spec fn c_tree_of(source: Seq<char>) -> Option<Seq<RawNodeView>>;

/// The matches of the query over the C tree of the source, as the query
/// cursor finds them (`None` when the query or the parse fails).
pub uninterp spec fn c_query_of(source: Seq<char>, query: Seq<char>) -> Option<
    Seq<Seq<CaptureView>>,
>;

/// The nodes, in pre-order, of the tree that the tree-sitter C++ grammar
/// parses from the source (`None` when the parser gives no tree).
pub uninterp spec fn cpp_tree_of(source: Seq<char>) -> Option<Seq<RawNodeView>>;

/// The matches of the query over the C++ tree of the source, as the query
/// cursor finds them (`None` when the query or the parse fails).
pub uninterp spec fn cpp_query_of(source: Seq<char>, query: Seq<char>) -> Option<
    Seq<Seq<CaptureView>>,
>;

/// The nodes, in pre-order, of the tree that the tree-sitter Scala grammar
/// parses from the source (`None` when the parser gives no tree).
pub uninterp spec fn scala_tree_of(source: Seq<char>) -> Option<Seq<RawNodeView>>;

/// The matches of the query over the Scala tree of the source, as the query
/// cursor finds them (`None` when the query or the parse fails).
pub uninterp spec fn scala_query_of(source: Seq<char>, query: Seq<char>) -> Option<
    Seq<Seq<CaptureView>>,
>;

/// The nodes, in pre-order, of the tree that the tree-sitter Swift grammar
/// parses from the source (`None` when the parser gives no tree).
pub uninterp spec fn swift_tree_of(source: Seq<char>) -> Option<Seq<RawNodeView>>;

/// The matches of the query over the Swift tree of the source, as the query
/// cursor finds them (`None` when the query or the parse fails).
pub uninterp spec fn swift_query_of(source: Seq<char>, query: Seq<char>) -> Option<
    Seq<Seq<CaptureView>>,
>;

pub open spec fn opt_matches_view(o: Option<Vec<Vec<Capture>>>) -> Option<Seq<Seq<CaptureView>>> {
    match o {
        Some(v) => Some(matches_view(v@)),
        None => None,
    }
}

/// Parses the source with `tree_sitter::Parser` and the Go grammar
/// (`tree_sitter_go::LANGUAGE`), and walks the tree with a
/// `tree_sitter::TreeCursor`, handing back each node in pre-order.
#[verifier::external_body]
fn go_nodes(source: &str) -> (r: Option<Vec<RawNode>>)
    ensures
        opt_raw_view(r) == go_tree_of(source@),
{
    let mut parser = Parser::new();
    parser.set_language(&tree_sitter_go::LANGUAGE.into()).ok()?;
    let tree = parser.parse(source, None)?;
    let (mut c, mut out) = (tree.walk(), Vec::new());
    loop {
        let n = c.node();
        out.push((n.kind().to_string(), c.field_name().map(String::from), c.depth(), n.start_byte(), n.end_byte(), n.has_error()));
        if c.goto_first_child() { continue; }
        while !c.goto_next_sibling() { if !c.goto_parent() { return Some(out); } }
    }
}

/// The row of byte position `i` of the source: the newlines before it.
pub open spec fn row_at(b: Seq<u8>, i: int) -> int
    decreases i,
{
    if i <= 0 {
        0
    } else {
        row_at(b, i - 1) + if b[i - 1] == 10u8 {
            1int
        } else {
            0int
        }
    }
}

/// The column of byte position `i` of the source: the bytes since the last
/// newline before it.
pub open spec fn col_at(b: Seq<u8>, i: int) -> int
    decreases i,
{
    if i <= 0 {
        0
    } else if b[i - 1] == 10u8 {
        0
    } else {
        col_at(b, i - 1) + 1
    }
}

/// The row of a byte position, or 0 past the end of the source.
pub open spec fn row_of(b: Seq<u8>, i: usize) -> usize {
    if i <= b.len() {
        row_at(b, i as int) as usize
    } else {
        0
    }
}

/// The column of a byte position, or 0 past the end of the source.
pub open spec fn col_of(b: Seq<u8>, i: usize) -> usize {
    if i <= b.len() {
        col_at(b, i as int) as usize
    } else {
        0
    }
}

/// The source text between two byte positions; empty where they do not
/// mark a stretch of whole characters.
pub open spec fn text_of(b: Seq<u8>, start: usize, end: usize) -> Seq<char> {
    if start <= end <= b.len() && is_char_boundary(b, start as int) && is_char_boundary(
        b,
        end as int,
    ) {
        decode_utf8(b.subrange(start as int, end as int))
    } else {
        Seq::empty()
    }
}

/// The node that a raw node of the source stands for.
pub open spec fn node_of(b: Seq<u8>, n: RawNodeView) -> NodeView {
    NodeView {
        kind: n.0,
        field: n.1,
        depth: n.2,
        start_byte: n.3,
        end_byte: n.4,
        start_row: row_of(b, n.3),
        start_column: col_of(b, n.3),
        end_row: row_of(b, n.4),
        end_column: col_of(b, n.4),
        text: text_of(b, n.3, n.4),
        has_error: n.5,
    }
}

/// The tree that raw nodes of a source stand for.
pub open spec fn built_tree(raws: Option<Seq<RawNodeView>>, source: &str) -> Option<Seq<NodeView>> {
    match raws {
        Some(rs) => Some(rs.map_values(|n: RawNodeView| node_of(source.spec_bytes(), n))),
        None => None,
    }
}

/// The tree of a Go source, as nodes in pre-order.
pub open spec fn go_tree_spec(source: &str) -> Option<Seq<NodeView>> {
    built_tree(go_tree_of(source@), source)
}

/// The tree of a Python source, as nodes in pre-order.
pub open spec fn python_tree_spec(source: &str) -> Option<Seq<NodeView>> {
    built_tree(python_tree_of(source@), source)
}

/// The tree of a Rust source, as nodes in pre-order.
pub open spec fn rust_tree_spec(source: &str) -> Option<Seq<NodeView>> {
    built_tree(rust_tree_of(source@), source)
}

/// The tree of a JavaScript source, as nodes in pre-order.
pub open spec fn javascript_tree_spec(source: &str) -> Option<Seq<NodeView>> {
    built_tree(javascript_tree_of(source@), source)
}

/// The tree of a TypeScript source, as nodes in pre-order.
pub open spec fn typescript_tree_spec(source: &str) -> Option<Seq<NodeView>> {
    built_tree(typescript_tree_of(source@), source)
}

/// The tree of a TSX source, as nodes in pre-order.
pub open spec fn tsx_tree_spec(source: &str) -> Option<Seq<NodeView>> {
    built_tree(tsx_tree_of(source@), source)
}

/// The tree of a Java source, as nodes in pre-order.
pub open spec fn java_tree_spec(source: &str) -> Option<Seq<NodeView>> {
    built_tree(java_tree_of(source@), source)
}

/// The tree of a C source, as nodes in pre-order.
pub open spec fn c_tree_spec(source: &str) -> Option<Seq<NodeView>> {
    built_tree(c_tree_of(source@), source)
}

/// The tree of a C++ source, as nodes in pre-order.
pub open spec fn cpp_tree_spec(source: &str) -> Option<Seq<NodeView>> {
    built_tree(cpp_tree_of(source@), source)
}

/// The tree of a Scala source, as nodes in pre-order.
pub open spec fn scala_tree_spec(source: &str) -> Option<Seq<NodeView>> {
    built_tree(scala_tree_of(source@), source)
}

/// The tree of a Swift source, as nodes in pre-order.
pub open spec fn swift_tree_spec(source: &str) -> Option<Seq<NodeView>> {
    built_tree(swift_tree_of(source@), source)
}

proof fn lemma_row_col_bounds(b: Seq<u8>, i: int)
    ensures
        0 <= row_at(b, i) <= if i < 0 {
            0
        } else {
            i
        },
        0 <= col_at(b, i) <= if i < 0 {
            0
        } else {
            i
        },
    decreases i,
{
    if i > 0 {
        lemma_row_col_bounds(b, i - 1);
    }
}

/// The row and column of every byte position of the source, from 0 to its
/// length.
fn positions(bytes: &[u8]) -> (r: (Vec<usize>, Vec<usize>))
    ensures
        r.0@.len() == bytes@.len() + 1,
        r.1@.len() == bytes@.len() + 1,
        forall|i: int| 0 <= i <= bytes@.len() ==> #[trigger] r.0@[i] == row_at(bytes@, i),
        forall|i: int| 0 <= i <= bytes@.len() ==> #[trigger] r.1@[i] == col_at(bytes@, i),
{
    let mut rows: Vec<usize> = Vec::new();
    let mut cols: Vec<usize> = Vec::new();
    let mut row: usize = 0;
    let mut col: usize = 0;
    let mut i: usize = 0;
    while i < bytes.len()
        invariant
            i <= bytes@.len(),
            rows@.len() == i,
            cols@.len() == i,
            row == row_at(bytes@, i as int),
            col == col_at(bytes@, i as int),
            forall|k: int| 0 <= k < i ==> #[trigger] rows@[k] == row_at(bytes@, k),
            forall|k: int| 0 <= k < i ==> #[trigger] cols@[k] == col_at(bytes@, k),
        decreases bytes.len() - i,
    {
        proof {
            lemma_row_col_bounds(bytes@, i as int);
        }
        rows.push(row);
        cols.push(col);
        if bytes[i] == 10u8 {
            row = row + 1;
            col = 0;
        } else {
            col = col + 1;
        }
        i = i + 1;
    }
    rows.push(row);
    cols.push(col);
    (rows, cols)
}

/// The source text between two byte positions (see `text_of`).
fn slice_text(source: &str, start: usize, end: usize) -> (r: String)
    ensures
        r@ == text_of(source.spec_bytes(), start, end),
{
    broadcast use vstd::utf8::encode_utf8_valid_utf8, vstd::utf8::encode_utf8_decode_utf8;

    let ghost b = source.spec_bytes();
    let blen = source.as_bytes().len();
    if start <= end && end <= blen && source.is_char_boundary(start)
        && source.is_char_boundary(end) {
        let (_, rest) = source.split_at(start);
        proof {
            let rb = rest.spec_bytes();
            assert(rb =~= b.subrange(start as int, b.len() as int));
            if end < b.len() {
                vstd::utf8::is_char_boundary_iff_not_is_continuation_byte(b, end as int);
                vstd::utf8::is_char_boundary_iff_not_is_continuation_byte(rb, end - start);
                assert(rb[end - start] == b[end as int]);
            } else {
                vstd::utf8::is_char_boundary_start_end_of_seq(rb);
            }
        }
        let (mid, _) = rest.split_at(end - start);
        proof {
            assert(mid.spec_bytes() =~= b.subrange(start as int, end as int));
            assert(decode_utf8(encode_utf8(mid@)) == mid@);
        }
        let r = mid.to_owned();
        assert(r@ == text_of(b, start, end));
        r
    } else {
        let r = String::new();
        assert(r@ == text_of(b, start, end));
        r
    }
}

/// The nodes of the source that the raw nodes stand for.
pub fn build_nodes(source: &str, raws: &Vec<RawNode>) -> (r: Vec<SyntaxNode>)
    ensures
        nodes_view(r@) == raws@.map_values(|n: RawNode| node_of(source.spec_bytes(), raw_view(n))),
{
    let ghost b = source.spec_bytes();
    let bytes = source.as_bytes();
    let blen = bytes.len();
    let (rows, cols) = positions(bytes);
    let mut out: Vec<SyntaxNode> = Vec::new();
    let mut i: usize = 0;
    while i < raws.len()
        invariant
            i <= raws@.len(),
            b == source.spec_bytes(),
            blen == b.len(),
            rows@.len() == b.len() + 1,
            cols@.len() == b.len() + 1,
            forall|k: int| 0 <= k <= b.len() ==> #[trigger] rows@[k] == row_at(b, k),
            forall|k: int| 0 <= k <= b.len() ==> #[trigger] cols@[k] == col_at(b, k),
            nodes_view(out@) == raws@.take(i as int).map_values(
                |n: RawNode| node_of(b, raw_view(n)),
            ),
        decreases raws.len() - i,
    {
        let raw = &raws[i];
        let (sr, sc) = if raw.3 <= blen {
            (rows[raw.3], cols[raw.3])
        } else {
            (0, 0)
        };
        let (er, ec) = if raw.4 <= blen {
            (rows[raw.4], cols[raw.4])
        } else {
            (0, 0)
        };
        proof {
            lemma_row_col_bounds(b, raw.3 as int);
            lemma_row_col_bounds(b, raw.4 as int);
        }
        let node = SyntaxNode {
            kind: raw.0.clone(),
            field: match &raw.1 {
                Some(f) => Some(f.clone()),
                None => None,
            },
            depth: raw.2,
            start_byte: raw.3,
            end_byte: raw.4,
            start_row: sr,
            start_column: sc,
            end_row: er,
            end_column: ec,
            text: slice_text(source, raw.3, raw.4),
            has_error: raw.5,
        };
        let ghost before = out@;
        out.push(node);
        proof {
            assert(raws@.take(i + 1) =~= raws@.take(i as int).push(raws@[i as int]));
            assert(nodes_view(out@) =~= nodes_view(before).push(node@));
            assert(node@ == node_of(b, raw_view(raws@[i as int])));
        }
        i = i + 1;
    }
    assert(raws@.take(raws@.len() as int) =~= raws@);
    out
}

/// The nodes of a source that the raw nodes, if any, stand for.
fn tree_from(source: &str, raws: Option<Vec<RawNode>>) -> (r: Option<Vec<SyntaxNode>>)
    ensures
        match r {
            Some(v) => built_tree(opt_raw_view(raws), source) == Some(nodes_view(v@)),
            None => built_tree(opt_raw_view(raws), source) is None,
        },
{
    match raws {
        Some(raws) => {
            let v = build_nodes(source, &raws);
            proof {
                assert(raws@.map_values(|n: RawNode| node_of(source.spec_bytes(), raw_view(n)))
                    =~= raws@.map_values(|n: RawNode| raw_view(n)).map_values(
                    |n: RawNodeView| node_of(source.spec_bytes(), n),
                ));
            }
            Some(v)
        },
        None => None,
    }
}

/// Parses Go source into its syntax tree, as nodes in pre-order (`None`
/// when the parser gives no tree).
pub fn go_tree(source: &str) -> (r: Option<Vec<SyntaxNode>>)
    ensures
        match r {
            Some(v) => go_tree_spec(source) == Some(nodes_view(v@)),
            None => go_tree_spec(source) is None,
        },
{
    tree_from(source, go_nodes(source))
}

/// Parses Python source into its syntax tree, as nodes in pre-order (`None`
/// when the parser gives no tree).
pub fn python_tree(source: &str) -> (r: Option<Vec<SyntaxNode>>)
    ensures
        match r {
            Some(v) => python_tree_spec(source) == Some(nodes_view(v@)),
            None => python_tree_spec(source) is None,
        },
{
    tree_from(source, python_nodes(source))
}

/// Parses Rust source into its syntax tree, as nodes in pre-order (`None`
/// when the parser gives no tree).
pub fn rust_tree(source: &str) -> (r: Option<Vec<SyntaxNode>>)
    ensures
        match r {
            Some(v) => rust_tree_spec(source) == Some(nodes_view(v@)),
            None => rust_tree_spec(source) is None,
        },
{
    tree_from(source, rust_nodes(source))
}

/// Runs a query over the syntax tree of Go source, handing back each match's
/// captures (`None` when the query or the parse fails).
pub fn go_matches(source: &str, query: &str) -> (r: Option<Vec<Vec<Capture>>>)
    ensures
        opt_matches_view(r) == go_query_of(source@, query@),
{
    go_query(source, query)
}

/// Runs a query over the syntax tree of Python source, handing back each
/// match's captures (`None` when the query or the parse fails).
pub fn python_matches(source: &str, query: &str) -> (r: Option<Vec<Vec<Capture>>>)
    ensures
        opt_matches_view(r) == python_query_of(source@, query@),
{
    python_query(source, query)
}

/// Runs a query over the syntax tree of Rust source, handing back each
/// match's captures (`None` when the query or the parse fails).
pub fn rust_matches(source: &str, query: &str) -> (r: Option<Vec<Vec<Capture>>>)
    ensures
        opt_matches_view(r) == rust_query_of(source@, query@),
{
    rust_query(source, query)
}

/// Parses JavaScript source into its syntax tree, as nodes in pre-order (`None`
/// when the parser gives no tree).
pub fn javascript_tree(source: &str) -> (r: Option<Vec<SyntaxNode>>)
    ensures
        match r {
            Some(v) => javascript_tree_spec(source) == Some(nodes_view(v@)),
            None => javascript_tree_spec(source) is None,
        },
{
    tree_from(source, javascript_nodes(source))
}

/// Runs a query over the syntax tree of JavaScript source, handing back each
/// match's captures (`None` when the query or the parse fails).
pub fn javascript_matches(source: &str, query: &str) -> (r: Option<Vec<Vec<Capture>>>)
    ensures
        opt_matches_view(r) == javascript_query_of(source@, query@),
{
    javascript_query(source, query)
}

/// Parses TypeScript source into its syntax tree, as nodes in pre-order (`None`
/// when the parser gives no tree).
pub fn typescript_tree(source: &str) -> (r: Option<Vec<SyntaxNode>>)
    ensures
        match r {
            Some(v) => typescript_tree_spec(source) == Some(nodes_view(v@)),
            None => typescript_tree_spec(source) is None,
        },
{
    tree_from(source, typescript_nodes(source))
}

/// Runs a query over the syntax tree of TypeScript source, handing back each
/// match's captures (`None` when the query or the parse fails).
pub fn typescript_matches(source: &str, query: &str) -> (r: Option<Vec<Vec<Capture>>>)
    ensures
        opt_matches_view(r) == typescript_query_of(source@, query@),
{
    typescript_query(source, query)
}

/// Parses TSX source into its syntax tree, as nodes in pre-order (`None`
/// when the parser gives no tree).
pub fn tsx_tree(source: &str) -> (r: Option<Vec<SyntaxNode>>)
    ensures
        match r {
            Some(v) => tsx_tree_spec(source) == Some(nodes_view(v@)),
            None => tsx_tree_spec(source) is None,
        },
{
    tree_from(source, tsx_nodes(source))
}

/// Runs a query over the syntax tree of TSX source, handing back each
/// match's captures (`None` when the query or the parse fails).
pub fn tsx_matches(source: &str, query: &str) -> (r: Option<Vec<Vec<Capture>>>)
    ensures
        opt_matches_view(r) == tsx_query_of(source@, query@),
{
    tsx_query(source, query)
}

/// Parses Java source into its syntax tree, as nodes in pre-order (`None`
/// when the parser gives no tree).
pub fn java_tree(source: &str) -> (r: Option<Vec<SyntaxNode>>)
    ensures
        match r {
            Some(v) => java_tree_spec(source) == Some(nodes_view(v@)),
            None => java_tree_spec(source) is None,
        },
{
    tree_from(source, java_nodes(source))
}

/// Runs a query over the syntax tree of Java source, handing back each
/// match's captures (`None` when the query or the parse fails).
pub fn java_matches(source: &str, query: &str) -> (r: Option<Vec<Vec<Capture>>>)
    ensures
        opt_matches_view(r) == java_query_of(source@, query@),
{
    java_query(source, query)
}

/// Parses C source into its syntax tree, as nodes in pre-order (`None`
/// when the parser gives no tree).
pub fn c_tree(source: &str) -> (r: Option<Vec<SyntaxNode>>)
    ensures
        match r {
            Some(v) => c_tree_spec(source) == Some(nodes_view(v@)),
            None => c_tree_spec(source) is None,
        },
{
    tree_from(source, c_nodes(source))
}

/// Runs a query over the syntax tree of C source, handing back each
/// match's captures (`None` when the query or the parse fails).
pub fn c_matches(source: &str, query: &str) -> (r: Option<Vec<Vec<Capture>>>)
    ensures
        opt_matches_view(r) == c_query_of(source@, query@),
{
    c_query(source, query)
}

/// Parses C++ source into its syntax tree, as nodes in pre-order (`None`
/// when the parser gives no tree).
pub fn cpp_tree(source: &str) -> (r: Option<Vec<SyntaxNode>>)
    ensures
        match r {
            Some(v) => cpp_tree_spec(source) == Some(nodes_view(v@)),
            None => cpp_tree_spec(source) is None,
        },
{
    tree_from(source, cpp_nodes(source))
}

/// Runs a query over the syntax tree of C++ source, handing back each
/// match's captures (`None` when the query or the parse fails).
pub fn cpp_matches(source: &str, query: &str) -> (r: Option<Vec<Vec<Capture>>>)
    ensures
        opt_matches_view(r) == cpp_query_of(source@, query@),
{
    cpp_query(source, query)
}

/// Parses Scala source into its syntax tree, as nodes in pre-order (`None`
/// when the parser gives no tree).
pub fn scala_tree(source: &str) -> (r: Option<Vec<SyntaxNode>>)
    ensures
        match r {
            Some(v) => scala_tree_spec(source) == Some(nodes_view(v@)),
            None => scala_tree_spec(source) is None,
        },
{
    tree_from(source, scala_nodes(source))
}

/// Runs a query over the syntax tree of Scala source, handing back each
/// match's captures (`None` when the query or the parse fails).
pub fn scala_matches(source: &str, query: &str) -> (r: Option<Vec<Vec<Capture>>>)
    ensures
        opt_matches_view(r) == scala_query_of(source@, query@),
{
    scala_query(source, query)
}

/// Parses Swift source into its syntax tree, as nodes in pre-order (`None`
/// when the parser gives no tree).
pub fn swift_tree(source: &str) -> (r: Option<Vec<SyntaxNode>>)
    ensures
        match r {
            Some(v) => swift_tree_spec(source) == Some(nodes_view(v@)),
            None => swift_tree_spec(source) is None,
        },
{
    tree_from(source, swift_nodes(source))
}

/// Runs a query over the syntax tree of Swift source, handing back each
/// match's captures (`None` when the query or the parse fails).
pub fn swift_matches(source: &str, query: &str) -> (r: Option<Vec<Vec<Capture>>>)
    ensures
        opt_matches_view(r) == swift_query_of(source@, query@),
{
    swift_query(source, query)
}

/// Compiles the query with `tree_sitter::Query::new` for the Go grammar,
/// parses the source, and runs `tree_sitter::QueryCursor::matches` over the
/// whole tree, handing back each match's captures.
#[verifier::external_body]
fn go_query(source: &str, query: &str) -> (r: Option<Vec<Vec<Capture>>>)
    ensures
        opt_matches_view(r) == go_query_of(source@, query@),
{
    let lang = Language::new(tree_sitter_go::LANGUAGE);
    let (q, mut parser) = (Query::new(&lang, query).ok()?, Parser::new());
    parser.set_language(&lang).ok()?;
    let tree = parser.parse(source, None)?;
    let (mut cursor, mut out) = (QueryCursor::new(), Vec::new());
    let mut it = cursor.matches(&q, tree.root_node(), source.as_bytes());
    while let Some(m) = it.next() {
        out.push(m.captures.iter().map(|c| (q.capture_names()[c.index as usize].to_string(), c.node.byte_range(), c.node.kind().to_string())).collect());
    }
    Some(out)
}

/// Parses the source with `tree_sitter::Parser` and the Python grammar
/// (`tree_sitter_python::LANGUAGE`), and walks the tree with a
/// `tree_sitter::TreeCursor`, handing back each node in pre-order.
#[verifier::external_body]
fn python_nodes(source: &str) -> (r: Option<Vec<RawNode>>)
    ensures
        opt_raw_view(r) == python_tree_of(source@),
{
    let mut parser = Parser::new();
    parser.set_language(&tree_sitter_python::LANGUAGE.into()).ok()?;
    let tree = parser.parse(source, None)?;
    let (mut c, mut out) = (tree.walk(), Vec::new());
    loop {
        let n = c.node();
        out.push((n.kind().to_string(), c.field_name().map(String::from), c.depth(), n.start_byte(), n.end_byte(), n.has_error()));
        if c.goto_first_child() { continue; }
        while !c.goto_next_sibling() { if !c.goto_parent() { return Some(out); } }
    }
}

/// Compiles the query with `tree_sitter::Query::new` for the Python grammar,
/// parses the source, and runs `tree_sitter::QueryCursor::matches` over the
/// whole tree, handing back each match's captures.
#[verifier::external_body]
fn python_query(source: &str, query: &str) -> (r: Option<Vec<Vec<Capture>>>)
    ensures
        opt_matches_view(r) == python_query_of(source@, query@),
{
    let lang = Language::new(tree_sitter_python::LANGUAGE);
    let (q, mut parser) = (Query::new(&lang, query).ok()?, Parser::new());
    parser.set_language(&lang).ok()?;
    let tree = parser.parse(source, None)?;
    let (mut cursor, mut out) = (QueryCursor::new(), Vec::new());
    let mut it = cursor.matches(&q, tree.root_node(), source.as_bytes());
    while let Some(m) = it.next() {
        out.push(m.captures.iter().map(|c| (q.capture_names()[c.index as usize].to_string(), c.node.byte_range(), c.node.kind().to_string())).collect());
    }
    Some(out)
}

/// Parses the source with `tree_sitter::Parser` and the JavaScript grammar
/// (`tree_sitter_javascript::LANGUAGE`), and walks the tree with a
/// `tree_sitter::TreeCursor`, handing back each node in pre-order.
#[verifier::external_body]
fn javascript_nodes(source: &str) -> (r: Option<Vec<RawNode>>)
    ensures
        opt_raw_view(r) == javascript_tree_of(source@),
{
    let mut parser = Parser::new();
    parser.set_language(&tree_sitter_javascript::LANGUAGE.into()).ok()?;
    let tree = parser.parse(source, None)?;
    let (mut c, mut out) = (tree.walk(), Vec::new());
    loop {
        let n = c.node();
        out.push((n.kind().to_string(), c.field_name().map(String::from), c.depth(), n.start_byte(), n.end_byte(), n.has_error()));
        if c.goto_first_child() { continue; }
        while !c.goto_next_sibling() { if !c.goto_parent() { return Some(out); } }
    }
}

/// Compiles the query with `tree_sitter::Query::new` for the JavaScript grammar,
/// parses the source, and runs `tree_sitter::QueryCursor::matches` over the
/// whole tree, handing back each match's captures.
#[verifier::external_body]
fn javascript_query(source: &str, query: &str) -> (r: Option<Vec<Vec<Capture>>>)
    ensures
        opt_matches_view(r) == javascript_query_of(source@, query@),
{
    let lang = Language::new(tree_sitter_javascript::LANGUAGE);
    let (q, mut parser) = (Query::new(&lang, query).ok()?, Parser::new());
    parser.set_language(&lang).ok()?;
    let tree = parser.parse(source, None)?;
    let (mut cursor, mut out) = (QueryCursor::new(), Vec::new());
    let mut it = cursor.matches(&q, tree.root_node(), source.as_bytes());
    while let Some(m) = it.next() {
        out.push(m.captures.iter().map(|c| (q.capture_names()[c.index as usize].to_string(), c.node.byte_range(), c.node.kind().to_string())).collect());
    }
    Some(out)
}

/// Parses the source with `tree_sitter::Parser` and the TypeScript grammar
/// (`tree_sitter_typescript::LANGUAGE_TYPESCRIPT`), and walks the tree with a
/// `tree_sitter::TreeCursor`, handing back each node in pre-order.
#[verifier::external_body]
fn typescript_nodes(source: &str) -> (r: Option<Vec<RawNode>>)
    ensures
        opt_raw_view(r) == typescript_tree_of(source@),
{
    let mut parser = Parser::new();
    parser.set_language(&tree_sitter_typescript::LANGUAGE_TYPESCRIPT.into()).ok()?;
    let tree = parser.parse(source, None)?;
    let (mut c, mut out) = (tree.walk(), Vec::new());
    loop {
        let n = c.node();
        out.push((n.kind().to_string(), c.field_name().map(String::from), c.depth(), n.start_byte(), n.end_byte(), n.has_error()));
        if c.goto_first_child() { continue; }
        while !c.goto_next_sibling() { if !c.goto_parent() { return Some(out); } }
    }
}

/// Compiles the query with `tree_sitter::Query::new` for the TypeScript grammar,
/// parses the source, and runs `tree_sitter::QueryCursor::matches` over the
/// whole tree, handing back each match's captures.
#[verifier::external_body]
fn typescript_query(source: &str, query: &str) -> (r: Option<Vec<Vec<Capture>>>)
    ensures
        opt_matches_view(r) == typescript_query_of(source@, query@),
{
    let lang = Language::new(tree_sitter_typescript::LANGUAGE_TYPESCRIPT);
    let (q, mut parser) = (Query::new(&lang, query).ok()?, Parser::new());
    parser.set_language(&lang).ok()?;
    let tree = parser.parse(source, None)?;
    let (mut cursor, mut out) = (QueryCursor::new(), Vec::new());
    let mut it = cursor.matches(&q, tree.root_node(), source.as_bytes());
    while let Some(m) = it.next() {
        out.push(m.captures.iter().map(|c| (q.capture_names()[c.index as usize].to_string(), c.node.byte_range(), c.node.kind().to_string())).collect());
    }
    Some(out)
}

/// Parses the source with `tree_sitter::Parser` and the TSX grammar
/// (`tree_sitter_typescript::LANGUAGE_TSX`), and walks the tree with a
/// `tree_sitter::TreeCursor`, handing back each node in pre-order.
#[verifier::external_body]
fn tsx_nodes(source: &str) -> (r: Option<Vec<RawNode>>)
    ensures
        opt_raw_view(r) == tsx_tree_of(source@),
{
    let mut parser = Parser::new();
    parser.set_language(&tree_sitter_typescript::LANGUAGE_TSX.into()).ok()?;
    let tree = parser.parse(source, None)?;
    let (mut c, mut out) = (tree.walk(), Vec::new());
    loop {
        let n = c.node();
        out.push((n.kind().to_string(), c.field_name().map(String::from), c.depth(), n.start_byte(), n.end_byte(), n.has_error()));
        if c.goto_first_child() { continue; }
        while !c.goto_next_sibling() { if !c.goto_parent() { return Some(out); } }
    }
}

/// Compiles the query with `tree_sitter::Query::new` for the TSX grammar,
/// parses the source, and runs `tree_sitter::QueryCursor::matches` over the
/// whole tree, handing back each match's captures.
#[verifier::external_body]
fn tsx_query(source: &str, query: &str) -> (r: Option<Vec<Vec<Capture>>>)
    ensures
        opt_matches_view(r) == tsx_query_of(source@, query@),
{
    let lang = Language::new(tree_sitter_typescript::LANGUAGE_TSX);
    let (q, mut parser) = (Query::new(&lang, query).ok()?, Parser::new());
    parser.set_language(&lang).ok()?;
    let tree = parser.parse(source, None)?;
    let (mut cursor, mut out) = (QueryCursor::new(), Vec::new());
    let mut it = cursor.matches(&q, tree.root_node(), source.as_bytes());
    while let Some(m) = it.next() {
        out.push(m.captures.iter().map(|c| (q.capture_names()[c.index as usize].to_string(), c.node.byte_range(), c.node.kind().to_string())).collect());
    }
    Some(out)
}

/// Parses the source with `tree_sitter::Parser` and the Java grammar
/// (`tree_sitter_java::LANGUAGE`), and walks the tree with a
/// `tree_sitter::TreeCursor`, handing back each node in pre-order.
#[verifier::external_body]
fn java_nodes(source: &str) -> (r: Option<Vec<RawNode>>)
    ensures
        opt_raw_view(r) == java_tree_of(source@),
{
    let mut parser = Parser::new();
    parser.set_language(&tree_sitter_java::LANGUAGE.into()).ok()?;
    let tree = parser.parse(source, None)?;
    let (mut c, mut out) = (tree.walk(), Vec::new());
    loop {
        let n = c.node();
        out.push((n.kind().to_string(), c.field_name().map(String::from), c.depth(), n.start_byte(), n.end_byte(), n.has_error()));
        if c.goto_first_child() { continue; }
        while !c.goto_next_sibling() { if !c.goto_parent() { return Some(out); } }
    }
}

/// Compiles the query with `tree_sitter::Query::new` for the Java grammar,
/// parses the source, and runs `tree_sitter::QueryCursor::matches` over the
/// whole tree, handing back each match's captures.
#[verifier::external_body]
fn java_query(source: &str, query: &str) -> (r: Option<Vec<Vec<Capture>>>)
    ensures
        opt_matches_view(r) == java_query_of(source@, query@),
{
    let lang = Language::new(tree_sitter_java::LANGUAGE);
    let (q, mut parser) = (Query::new(&lang, query).ok()?, Parser::new());
    parser.set_language(&lang).ok()?;
    let tree = parser.parse(source, None)?;
    let (mut cursor, mut out) = (QueryCursor::new(), Vec::new());
    let mut it = cursor.matches(&q, tree.root_node(), source.as_bytes());
    while let Some(m) = it.next() {
        out.push(m.captures.iter().map(|c| (q.capture_names()[c.index as usize].to_string(), c.node.byte_range(), c.node.kind().to_string())).collect());
    }
    Some(out)
}

/// Parses the source with `tree_sitter::Parser` and the C grammar
/// (`tree_sitter_c::LANGUAGE`), and walks the tree with a
/// `tree_sitter::TreeCursor`, handing back each node in pre-order.
#[verifier::external_body]
fn c_nodes(source: &str) -> (r: Option<Vec<RawNode>>)
    ensures
        opt_raw_view(r) == c_tree_of(source@),
{
    let mut parser = Parser::new();
    parser.set_language(&tree_sitter_c::LANGUAGE.into()).ok()?;
    let tree = parser.parse(source, None)?;
    let (mut c, mut out) = (tree.walk(), Vec::new());
    loop {
        let n = c.node();
        out.push((n.kind().to_string(), c.field_name().map(String::from), c.depth(), n.start_byte(), n.end_byte(), n.has_error()));
        if c.goto_first_child() { continue; }
        while !c.goto_next_sibling() { if !c.goto_parent() { return Some(out); } }
    }
}

/// Compiles the query with `tree_sitter::Query::new` for the C grammar,
/// parses the source, and runs `tree_sitter::QueryCursor::matches` over the
/// whole tree, handing back each match's captures.
#[verifier::external_body]
fn c_query(source: &str, query: &str) -> (r: Option<Vec<Vec<Capture>>>)
    ensures
        opt_matches_view(r) == c_query_of(source@, query@),
{
    let lang = Language::new(tree_sitter_c::LANGUAGE);
    let (q, mut parser) = (Query::new(&lang, query).ok()?, Parser::new());
    parser.set_language(&lang).ok()?;
    let tree = parser.parse(source, None)?;
    let (mut cursor, mut out) = (QueryCursor::new(), Vec::new());
    let mut it = cursor.matches(&q, tree.root_node(), source.as_bytes());
    while let Some(m) = it.next() {
        out.push(m.captures.iter().map(|c| (q.capture_names()[c.index as usize].to_string(), c.node.byte_range(), c.node.kind().to_string())).collect());
    }
    Some(out)
}

/// Parses the source with `tree_sitter::Parser` and the C++ grammar
/// (`tree_sitter_cpp::LANGUAGE`), and walks the tree with a
/// `tree_sitter::TreeCursor`, handing back each node in pre-order.
#[verifier::external_body]
fn cpp_nodes(source: &str) -> (r: Option<Vec<RawNode>>)
    ensures
        opt_raw_view(r) == cpp_tree_of(source@),
{
    let mut parser = Parser::new();
    parser.set_language(&tree_sitter_cpp::LANGUAGE.into()).ok()?;
    let tree = parser.parse(source, None)?;
    let (mut c, mut out) = (tree.walk(), Vec::new());
    loop {
        let n = c.node();
        out.push((n.kind().to_string(), c.field_name().map(String::from), c.depth(), n.start_byte(), n.end_byte(), n.has_error()));
        if c.goto_first_child() { continue; }
        while !c.goto_next_sibling() { if !c.goto_parent() { return Some(out); } }
    }
}

/// Compiles the query with `tree_sitter::Query::new` for the C++ grammar,
/// parses the source, and runs `tree_sitter::QueryCursor::matches` over the
/// whole tree, handing back each match's captures.
#[verifier::external_body]
fn cpp_query(source: &str, query: &str) -> (r: Option<Vec<Vec<Capture>>>)
    ensures
        opt_matches_view(r) == cpp_query_of(source@, query@),
{
    let lang = Language::new(tree_sitter_cpp::LANGUAGE);
    let (q, mut parser) = (Query::new(&lang, query).ok()?, Parser::new());
    parser.set_language(&lang).ok()?;
    let tree = parser.parse(source, None)?;
    let (mut cursor, mut out) = (QueryCursor::new(), Vec::new());
    let mut it = cursor.matches(&q, tree.root_node(), source.as_bytes());
    while let Some(m) = it.next() {
        out.push(m.captures.iter().map(|c| (q.capture_names()[c.index as usize].to_string(), c.node.byte_range(), c.node.kind().to_string())).collect());
    }
    Some(out)
}

/// Parses the source with `tree_sitter::Parser` and the Scala grammar
/// (`tree_sitter_scala::LANGUAGE`), and walks the tree with a
/// `tree_sitter::TreeCursor`, handing back each node in pre-order.
#[verifier::external_body]
fn scala_nodes(source: &str) -> (r: Option<Vec<RawNode>>)
    ensures
        opt_raw_view(r) == scala_tree_of(source@),
{
    let mut parser = Parser::new();
    parser.set_language(&tree_sitter_scala::LANGUAGE.into()).ok()?;
    let tree = parser.parse(source, None)?;
    let (mut c, mut out) = (tree.walk(), Vec::new());
    loop {
        let n = c.node();
        out.push((n.kind().to_string(), c.field_name().map(String::from), c.depth(), n.start_byte(), n.end_byte(), n.has_error()));
        if c.goto_first_child() { continue; }
        while !c.goto_next_sibling() { if !c.goto_parent() { return Some(out); } }
    }
}

/// Compiles the query with `tree_sitter::Query::new` for the Scala grammar,
/// parses the source, and runs `tree_sitter::QueryCursor::matches` over the
/// whole tree, handing back each match's captures.
#[verifier::external_body]
fn scala_query(source: &str, query: &str) -> (r: Option<Vec<Vec<Capture>>>)
    ensures
        opt_matches_view(r) == scala_query_of(source@, query@),
{
    let lang = Language::new(tree_sitter_scala::LANGUAGE);
    let (q, mut parser) = (Query::new(&lang, query).ok()?, Parser::new());
    parser.set_language(&lang).ok()?;
    let tree = parser.parse(source, None)?;
    let (mut cursor, mut out) = (QueryCursor::new(), Vec::new());
    let mut it = cursor.matches(&q, tree.root_node(), source.as_bytes());
    while let Some(m) = it.next() {
        out.push(m.captures.iter().map(|c| (q.capture_names()[c.index as usize].to_string(), c.node.byte_range(), c.node.kind().to_string())).collect());
    }
    Some(out)
}

/// Parses the source with `tree_sitter::Parser` and the Swift grammar
/// (`tree_sitter_swift::LANGUAGE`), and walks the tree with a
/// `tree_sitter::TreeCursor`, handing back each node in pre-order.
#[verifier::external_body]
fn swift_nodes(source: &str) -> (r: Option<Vec<RawNode>>)
    ensures
        opt_raw_view(r) == swift_tree_of(source@),
{
    let mut parser = Parser::new();
    parser.set_language(&tree_sitter_swift::LANGUAGE.into()).ok()?;
    let tree = parser.parse(source, None)?;
    let (mut c, mut out) = (tree.walk(), Vec::new());
    loop {
        let n = c.node();
        out.push((n.kind().to_string(), c.field_name().map(String::from), c.depth(), n.start_byte(), n.end_byte(), n.has_error()));
        if c.goto_first_child() { continue; }
        while !c.goto_next_sibling() { if !c.goto_parent() { return Some(out); } }
    }
}

/// Compiles the query with `tree_sitter::Query::new` for the Swift grammar,
/// parses the source, and runs `tree_sitter::QueryCursor::matches` over the
/// whole tree, handing back each match's captures.
#[verifier::external_body]
fn swift_query(source: &str, query: &str) -> (r: Option<Vec<Vec<Capture>>>)
    ensures
        opt_matches_view(r) == swift_query_of(source@, query@),
{
    let lang = Language::new(tree_sitter_swift::LANGUAGE);
    let (q, mut parser) = (Query::new(&lang, query).ok()?, Parser::new());
    parser.set_language(&lang).ok()?;
    let tree = parser.parse(source, None)?;
    let (mut cursor, mut out) = (QueryCursor::new(), Vec::new());
    let mut it = cursor.matches(&q, tree.root_node(), source.as_bytes());
    while let Some(m) = it.next() {
        out.push(m.captures.iter().map(|c| (q.capture_names()[c.index as usize].to_string(), c.node.byte_range(), c.node.kind().to_string())).collect());
    }
    Some(out)
}

/// Parses the source with `tree_sitter::Parser` and the Rust grammar
/// (`tree_sitter_rust::LANGUAGE`), and walks the tree with a
/// `tree_sitter::TreeCursor`, handing back each node in pre-order.
#[verifier::external_body]
fn rust_nodes(source: &str) -> (r: Option<Vec<RawNode>>)
    ensures
        opt_raw_view(r) == rust_tree_of(source@),
{
    let mut parser = Parser::new();
    parser.set_language(&tree_sitter_rust::LANGUAGE.into()).ok()?;
    let tree = parser.parse(source, None)?;
    let (mut c, mut out) = (tree.walk(), Vec::new());
    loop {
        let n = c.node();
        out.push((n.kind().to_string(), c.field_name().map(String::from), c.depth(), n.start_byte(), n.end_byte(), n.has_error()));
        if c.goto_first_child() { continue; }
        while !c.goto_next_sibling() { if !c.goto_parent() { return Some(out); } }
    }
}

/// Compiles the query with `tree_sitter::Query::new` for the Rust grammar,
/// parses the source, and runs `tree_sitter::QueryCursor::matches` over the
/// whole tree, handing back each match's captures.
#[verifier::external_body]
fn rust_query(source: &str, query: &str) -> (r: Option<Vec<Vec<Capture>>>)
    ensures
        opt_matches_view(r) == rust_query_of(source@, query@),
{
    let lang = Language::new(tree_sitter_rust::LANGUAGE);
    let (q, mut parser) = (Query::new(&lang, query).ok()?, Parser::new());
    parser.set_language(&lang).ok()?;
    let tree = parser.parse(source, None)?;
    let (mut cursor, mut out) = (QueryCursor::new(), Vec::new());
    let mut it = cursor.matches(&q, tree.root_node(), source.as_bytes());
    while let Some(m) = it.next() {
        out.push(m.captures.iter().map(|c| (q.capture_names()[c.index as usize].to_string(), c.node.byte_range(), c.node.kind().to_string())).collect());
    }
    Some(out)
}

// ---------------------------------------------------------------------------
// Walking the tree
// ---------------------------------------------------------------------------

/// The end of node `i`'s subtree: the first later node that is not below it.
pub open spec fn subtree_end(ns: Seq<NodeView>, i: int, j: int) -> int
    decreases ns.len() - j,
{
    if j >= ns.len() || j < 0 {
        ns.len() as int
    } else if ns[j].depth <= ns[i].depth {
        j
    } else {
        subtree_end(ns, i, j + 1)
    }
}

/// The children of node `i`, in order: the nodes of its subtree one level
/// below it (looking from `j` on).
pub open spec fn children_from(ns: Seq<NodeView>, i: int, j: int) -> Seq<int>
    decreases ns.len() - j,
{
    if j >= ns.len() || j < 0 || ns[j].depth <= ns[i].depth {
        Seq::empty()
    } else if ns[j].depth == ns[i].depth + 1 {
        seq![j] + children_from(ns, i, j + 1)
    } else {
        children_from(ns, i, j + 1)
    }
}

pub open spec fn children(ns: Seq<NodeView>, i: int) -> Seq<int> {
    children_from(ns, i, i + 1)
}

proof fn lemma_children_from_bounds(ns: Seq<NodeView>, i: int, j: int)
    requires
        0 <= i < ns.len(),
        i < j,
    ensures
        forall|k: int|
            0 <= k < children_from(ns, i, j).len() ==> j <= #[trigger] children_from(ns, i, j)[k]
                < ns.len(),
    decreases ns.len() - j,
{
    if !(j >= ns.len() || j < 0 || ns[j].depth <= ns[i].depth) {
        lemma_children_from_bounds(ns, i, j + 1);
        let rest = children_from(ns, i, j + 1);
        if ns[j].depth == ns[i].depth + 1 {
            assert forall|k: int| 0 <= k < children_from(ns, i, j).len() implies j
                <= #[trigger] children_from(ns, i, j)[k] < ns.len() by {
                if k > 0 {
                    assert(children_from(ns, i, j)[k] == rest[k - 1]);
                }
            }
        }
    }
}

/// The indices of the children of node `i`.
pub fn child_indices(ns: &Vec<SyntaxNode>, i: usize) -> (r: Vec<usize>)
    requires
        i < ns@.len(),
    ensures
        r@.map_values(|k: usize| k as int) == children(nodes_view(ns@), i as int),
        forall|k: int| 0 <= k < r@.len() ==> i < #[trigger] r@[k] < ns@.len(),
{
    let ghost nv = nodes_view(ns@);
    let d = ns[i].depth;
    let mut out: Vec<usize> = Vec::new();
    let len = ns.len();
    let mut j = i + 1;
    proof {
        lemma_children_from_bounds(nv, i as int, i as int + 1);
    }
    while j < ns.len() && ns[j].depth > d
        invariant
            i < j <= ns@.len(),
            nv == nodes_view(ns@),
            d == nv[i as int].depth,
            children(nv, i as int) == out@.map_values(|k: usize| k as int) + children_from(
                nv,
                i as int,
                j as int,
            ),
            forall|k: int| 0 <= k < out@.len() ==> i < #[trigger] out@[k] < j,
        decreases ns.len() - j,
    {
        assert(nv[j as int] == ns@[j as int]@);
        if d < u32::MAX && ns[j].depth == d + 1 {
            let ghost before = out@.map_values(|k: usize| k as int);
            out.push(j);
            assert(out@.map_values(|k: usize| k as int) =~= before.push(j as int));
            assert(children_from(nv, i as int, j as int) == seq![j as int] + children_from(
                nv,
                i as int,
                j + 1,
            ));
            assert(before + children_from(nv, i as int, j as int) =~= before.push(j as int)
                + children_from(nv, i as int, j + 1));
        }
        j = j + 1;
    }
    proof {
        if j < ns@.len() {
            assert(nv[j as int] == ns@[j as int]@);
        }
        assert(children_from(nv, i as int, j as int) =~= Seq::<int>::empty());
        assert(out@.map_values(|k: usize| k as int) + Seq::<int>::empty() =~= out@.map_values(
            |k: usize| k as int,
        ));
    }
    out
}

/// The index of the first node with the given start, end and kind.
pub open spec fn node_index(ns: Seq<NodeView>, start: usize, end: usize, kind: Seq<char>) -> Option<
    int,
>
    decreases ns.len(),
{
    if ns.len() == 0 {
        None
    } else {
        match node_index(ns.drop_last(), start, end, kind) {
            Some(k) => Some(k),
            None => if ns.last().start_byte == start && ns.last().end_byte == end && ns.last().kind
                == kind {
                Some(ns.len() - 1)
            } else {
                None
            },
        }
    }
}

proof fn lemma_node_index_prefix(ns: Seq<NodeView>, n: int, start: usize, end: usize, kind: Seq<char>)
    requires
        0 <= n <= ns.len(),
        node_index(ns.take(n), start, end, kind) is Some,
    ensures
        node_index(ns, start, end, kind) == node_index(ns.take(n), start, end, kind),
    decreases ns.len(),
{
    if n < ns.len() {
        assert(ns.drop_last().take(n) =~= ns.take(n));
        lemma_node_index_prefix(ns.drop_last(), n, start, end, kind);
    } else {
        assert(ns.take(n) =~= ns);
    }
}

/// Find the node that a capture names.
pub fn find_node(ns: &Vec<SyntaxNode>, start: usize, end: usize, kind: &str) -> (r: Option<usize>)
    ensures
        match r {
            Some(k) => node_index(nodes_view(ns@), start, end, kind@) == Some(k as int) && k
                < ns@.len(),
            None => node_index(nodes_view(ns@), start, end, kind@) is None,
        },
{
    let ghost nv = nodes_view(ns@);
    let mut k: usize = 0;
    while k < ns.len()
        invariant
            k <= ns@.len(),
            nv == nodes_view(ns@),
            node_index(nv.take(k as int), start, end, kind@) is None,
        decreases ns.len() - k,
    {
        assert(nv.take(k + 1).drop_last() =~= nv.take(k as int));
        assert(nv.take(k + 1).last() == ns@[k as int]@);
        if ns[k].start_byte == start && ns[k].end_byte == end && str_eq(ns[k].kind.as_str(), kind) {
            proof {
                lemma_node_index_prefix(nv, k as int + 1, start, end, kind@);
            }
            return Some(k);
        }
        k = k + 1;
    }
    assert(nv.take(nv.len() as int) =~= nv);
    None
}

/// The text of the node a capture names (empty when the tree has no such
/// node).
pub open spec fn capture_text(ns: Seq<NodeView>, c: CaptureView) -> Seq<char> {
    match node_index(ns, c.1, c.2, c.3) {
        Some(k) => ns[k].text,
        None => Seq::empty(),
    }
}

pub fn capture_text_exec(ns: &Vec<SyntaxNode>, c: &Capture) -> (r: String)
    ensures
        r@ == capture_text(nodes_view(ns@), capture_view(*c)),
{
    match find_node(ns, c.1.start, c.1.end, c.2.as_str()) {
        Some(k) => {
            assert(nodes_view(ns@)[k as int] == ns@[k as int]@);
            ns[k].text.clone()
        },
        None => String::new(),
    }
}

/// `usize` addition that stops at the largest value.
pub open spec fn plus_one(x: usize) -> usize {
    if x == usize::MAX {
        x
    } else {
        (x + 1) as usize
    }
}

/// The span of a node: its bytes, and its lines and columns counted from 1.
pub open spec fn span_of(n: NodeView) -> Span {
    Span {
        start_byte: n.start_byte,
        end_byte: n.end_byte,
        start_line: plus_one(n.start_row),
        start_col: plus_one(n.start_column),
        end_line: plus_one(n.end_row),
        end_col: plus_one(n.end_column),
    }
}

pub fn node_span(n: &SyntaxNode) -> (r: Span)
    ensures
        r == span_of(n@),
{
    Span {
        start_byte: n.start_byte,
        end_byte: n.end_byte,
        start_line: n.start_row.saturating_add(1),
        start_col: n.start_column.saturating_add(1),
        end_line: n.end_row.saturating_add(1),
        end_col: n.end_column.saturating_add(1),
    }
}

} // verus!
