//! Symbols and cyclomatic complexity read off query matches over a syntax
//! tree, configured per language by queries.
use vstd::prelude::*;

use crate::analysis::syntax::{
    capture_text, capture_text_exec, capture_view, find_node, go_matches, go_query_of, go_tree,
    go_tree_spec, python_matches, python_query_of, python_tree, python_tree_spec, rust_matches,
    rust_query_of, rust_tree, rust_tree_spec, match_view, c_matches, c_query_of, c_tree, c_tree_spec, cpp_matches, cpp_query_of, cpp_tree, cpp_tree_spec, java_matches, java_query_of, java_tree, java_tree_spec, javascript_matches, javascript_query_of, javascript_tree, javascript_tree_spec, tsx_matches, tsx_query_of, tsx_tree, tsx_tree_spec, scala_matches, scala_query_of, scala_tree, scala_tree_spec, swift_matches, swift_query_of, swift_tree, swift_tree_spec, typescript_matches, typescript_query_of, typescript_tree, typescript_tree_spec, matches_view, node_index, nodes_view, opt_matches_view, plus_one,
    Capture, CaptureView, NodeView, SyntaxNode,
};
use crate::detect::types::str_eq;
use crate::parser::{ParserLanguage, Symbol, SymbolWithComplexity};

verus! {

/// Defines how to extract symbol info from query captures.
#[derive(Debug, Clone)]
pub struct SymbolCapture {
    /// Capture name for the symbol name (e.g., "func_name")
    pub name_capture: &'static str,
    /// Symbol kind (e.g., "function", "type")
    pub kind: &'static str,
}

/// Configuration for a tree-sitter language parser.
#[derive(Debug, Clone)]
pub struct Config {
    /// Language name (e.g., "python", "go")
    pub language_name: &'static str,
    /// Tree-sitter query for finding symbols
    pub symbol_query: &'static str,
    /// How to map captures to symbols
    pub symbol_captures: Vec<SymbolCapture>,
    /// Query for counting complexity branch points
    pub complexity_query: &'static str,
    /// Query for finding function nodes by name
    pub function_query: &'static str,
    /// Capture name for function node in function_query
    pub function_capture: &'static str,
    /// Capture name for function name within function_query
    pub func_name_capture: &'static str,
}

pub open spec fn captures_view(v: Seq<SymbolCapture>) -> Seq<(Seq<char>, Seq<char>)> {
    v.map_values(|c: SymbolCapture| (c.name_capture@, c.kind@))
}

/// The content of a symbol.
pub struct SymView {
    pub name: Seq<char>,
    pub kind: Seq<char>,
    pub file: Seq<char>,
    pub line: usize,
}

pub open spec fn sym_view(s: Symbol) -> SymView {
    SymView { name: s.name@, kind: s.kind@, file: s.file@, line: s.line }
}

pub open spec fn syms_view(v: Seq<Symbol>) -> Seq<SymView> {
    v.map_values(|s: Symbol| sym_view(s))
}

// ---------------------------------------------------------------------------
// Symbols
// ---------------------------------------------------------------------------

/// The line (from 1) where the node a capture names starts.
pub open spec fn capture_line(ns: Seq<NodeView>, c: CaptureView) -> usize {
    match node_index(ns, c.1, c.2, c.3) {
        Some(k) => plus_one(ns[k].start_row),
        None => 1,
    }
}

/// The symbols that the captures of a match with the given name give (those
/// with a name), in order.
pub open spec fn syms_for(ns: Seq<NodeView>, m: Seq<CaptureView>, name_capture: Seq<char>, kind: Seq<
    char,
>) -> Seq<SymView>
    decreases m.len(),
{
    if m.len() == 0 {
        Seq::empty()
    } else {
        let r = syms_for(ns, m.drop_last(), name_capture, kind);
        let c = m.last();
        if c.0 == name_capture && capture_text(ns, c).len() > 0 {
            r.push(
                SymView {
                    name: capture_text(ns, c),
                    kind: kind,
                    file: Seq::empty(),
                    line: capture_line(ns, c),
                },
            )
        } else {
            r
        }
    }
}

/// The symbols of a match: for each configured capture in order, those of
/// the match's captures with its name.
pub open spec fn match_syms(ns: Seq<NodeView>, m: Seq<CaptureView>, scs: Seq<(Seq<char>, Seq<char>)>) -> Seq<
    SymView,
>
    decreases scs.len(),
{
    if scs.len() == 0 {
        Seq::empty()
    } else {
        match_syms(ns, m, scs.drop_last()) + syms_for(ns, m, scs.last().0, scs.last().1)
    }
}

/// The symbols of all matches, in order.
pub open spec fn all_syms(ns: Seq<NodeView>, ms: Seq<Seq<CaptureView>>, scs: Seq<(Seq<char>, Seq<char>)>) -> Seq<
    SymView,
>
    decreases ms.len(),
{
    if ms.len() == 0 {
        Seq::empty()
    } else {
        all_syms(ns, ms.drop_last(), scs) + match_syms(ns, ms.last(), scs)
    }
}

fn capture_line_exec(ns: &Vec<SyntaxNode>, c: &Capture) -> (r: usize)
    ensures
        r == capture_line(nodes_view(ns@), capture_view(*c)),
{
    match find_node(ns, c.1.start, c.1.end, c.2.as_str()) {
        Some(k) => {
            assert(nodes_view(ns@)[k as int] == ns@[k as int]@);
            ns[k].start_row.saturating_add(1)
        },
        None => 1,
    }
}

fn push_syms_for(
    ns: &Vec<SyntaxNode>,
    m: &Vec<Capture>,
    sc: &SymbolCapture,
    out: &mut Vec<Symbol>,
)
    ensures
        syms_view(final(out)@) == syms_view(old(out)@) + syms_for(
            nodes_view(ns@),
            match_view(*m),
            sc.name_capture@,
            sc.kind@,
        ),
{
    let ghost nv = nodes_view(ns@);
    let ghost mv = match_view(*m);
    let ghost start = syms_view(out@);
    let mut j: usize = 0;
    while j < m.len()
        invariant
            j <= m@.len(),
            nv == nodes_view(ns@),
            mv == match_view(*m),
            syms_view(out@) == start + syms_for(nv, mv.take(j as int), sc.name_capture@, sc.kind@),
        decreases m.len() - j,
    {
        let c = &m[j];
        assert(mv.take(j + 1).drop_last() =~= mv.take(j as int));
        assert(mv.take(j + 1).last() == capture_view(*c));
        if str_eq(c.0.as_str(), sc.name_capture) {
            let name = capture_text_exec(ns, c);
            if !name.as_str().is_empty() {
                let s = Symbol {
                    name,
                    kind: String::from_str(sc.kind),
                    file: String::new(),
                    line: capture_line_exec(ns, c),
                };
                let ghost before = out@;
                out.push(s);
                proof {
                    assert(syms_view(out@) =~= syms_view(before).push(sym_view(s)));
                    assert(syms_for(nv, mv.take(j + 1), sc.name_capture@, sc.kind@) == syms_for(
                        nv,
                        mv.take(j as int),
                        sc.name_capture@,
                        sc.kind@,
                    ).push(sym_view(s)));
                    assert(start + syms_for(nv, mv.take(j as int), sc.name_capture@, sc.kind@).push(
                        sym_view(s),
                    ) =~= (start + syms_for(nv, mv.take(j as int), sc.name_capture@, sc.kind@)).push(
                        sym_view(s),
                    ));
                }
            }
        }
        j = j + 1;
    }
    assert(mv.take(m@.len() as int) =~= mv);
}

/// The symbols that the matches of the symbol query give, for the
/// configured captures.
pub fn symbols_from_matches(
    tree: &Vec<SyntaxNode>,
    matches: &Vec<Vec<Capture>>,
    captures: &Vec<SymbolCapture>,
) -> (r: Vec<Symbol>)
    ensures
        syms_view(r@) == all_syms(nodes_view(tree@), matches_view(matches@), captures_view(captures@)),
{
    let ghost nv = nodes_view(tree@);
    let ghost msv = matches_view(matches@);
    let ghost scs = captures_view(captures@);
    let mut out: Vec<Symbol> = Vec::new();
    let mut i: usize = 0;
    while i < matches.len()
        invariant
            i <= matches@.len(),
            nv == nodes_view(tree@),
            msv == matches_view(matches@),
            scs == captures_view(captures@),
            syms_view(out@) == all_syms(nv, msv.take(i as int), scs),
        decreases matches.len() - i,
    {
        let m = &matches[i];
        let ghost base = syms_view(out@);
        assert(msv[i as int] == match_view(*m));
        let mut k: usize = 0;
        while k < captures.len()
            invariant
                k <= captures@.len(),
                nv == nodes_view(tree@),
                scs == captures_view(captures@),
                syms_view(out@) == base + match_syms(nv, match_view(*m), scs.take(k as int)),
            decreases captures.len() - k,
        {
            let ghost before = syms_view(out@);
            push_syms_for(tree, m, &captures[k], &mut out);
            proof {
                assert(scs.take(k + 1).drop_last() =~= scs.take(k as int));
                assert(scs.take(k + 1).last() == (captures@[k as int].name_capture@, captures@[
                    k as int
                ].kind@));
                assert(base + match_syms(nv, match_view(*m), scs.take(k + 1)) =~= before
                    + syms_for(
                    nv,
                    match_view(*m),
                    captures@[k as int].name_capture@,
                    captures@[k as int].kind@,
                ));
            }
            k = k + 1;
        }
        proof {
            assert(scs.take(captures@.len() as int) =~= scs);
            assert(msv.take(i + 1).drop_last() =~= msv.take(i as int));
            assert(msv.take(i + 1).last() == match_view(*m));
        }
        i = i + 1;
    }
    assert(msv.take(matches@.len() as int) =~= msv);
    out
}

// ---------------------------------------------------------------------------
// Complexity
// ---------------------------------------------------------------------------

/// The last capture of a match with the given name.
pub open spec fn last_named(m: Seq<CaptureView>, name: Seq<char>) -> Option<CaptureView>
    decreases m.len(),
{
    if m.len() == 0 {
        None
    } else if m.last().0 == name {
        Some(m.last())
    } else {
        last_named(m.drop_last(), name)
    }
}

/// The bytes of the function with the given name: those of the function
/// capture of the first function-query match whose name capture reads that
/// name.
pub open spec fn function_bytes(
    ns: Seq<NodeView>,
    fm: Seq<Seq<CaptureView>>,
    function_capture: Seq<char>,
    name_capture: Seq<char>,
    name: Seq<char>,
) -> Option<(usize, usize)>
    decreases fm.len(),
{
    if fm.len() == 0 {
        None
    } else {
        match (last_named(fm[0], function_capture), last_named(fm[0], name_capture)) {
            (Some(f), Some(n)) => if capture_text(ns, n) == name {
                Some((f.1, f.2))
            } else {
                function_bytes(ns, fm.drop_first(), function_capture, name_capture, name)
            },
            _ => function_bytes(ns, fm.drop_first(), function_capture, name_capture, name),
        }
    }
}

/// The complexity-query matches whose (first) capture lies within the bytes.
pub open spec fn matches_within(cm: Seq<Seq<CaptureView>>, lo: usize, hi: usize) -> nat
    decreases cm.len(),
{
    if cm.len() == 0 {
        0
    } else {
        matches_within(cm.drop_last(), lo, hi) + if cm.last().len() > 0 && lo <= cm.last()[0].1
            && cm.last()[0].2 <= hi {
            1nat
        } else {
            0nat
        }
    }
}

/// One plus the branch points, stopped at the largest `i32`.
pub open spec fn complexity_value(n: nat) -> i32 {
    if n + 1 > i32::MAX {
        i32::MAX
    } else {
        (n + 1) as i32
    }
}

/// The cyclomatic complexity of the named function: one plus the branch
/// points within it, or 0 when no function has that name.
pub open spec fn symbol_complexity(
    ns: Seq<NodeView>,
    fm: Seq<Seq<CaptureView>>,
    cm: Seq<Seq<CaptureView>>,
    function_capture: Seq<char>,
    name_capture: Seq<char>,
    name: Seq<char>,
) -> i32 {
    match function_bytes(ns, fm, function_capture, name_capture, name) {
        None => 0,
        Some(b) => complexity_value(matches_within(cm, b.0, b.1)),
    }
}

fn last_named_exec(m: &Vec<Capture>, name: &str) -> (r: Option<usize>)
    ensures
        match r {
            Some(k) => k < m@.len() && last_named(match_view(*m), name@) == Some(
                capture_view(m@[k as int]),
            ),
            None => last_named(match_view(*m), name@) is None,
        },
{
    let ghost mv = match_view(*m);
    let mut k = m.len();
    assert(mv.take(k as int) =~= mv);
    while k > 0
        invariant
            k <= m@.len(),
            mv == match_view(*m),
            last_named(mv, name@) == last_named(mv.take(k as int), name@),
        decreases k,
    {
        assert(mv.take(k as int).drop_last() =~= mv.take(k - 1));
        assert(mv.take(k as int).last() == capture_view(m@[k - 1]));
        if str_eq(m[k - 1].0.as_str(), name) {
            return Some(k - 1);
        }
        k = k - 1;
    }
    None
}

fn function_bytes_exec(
    ns: &Vec<SyntaxNode>,
    fm: &Vec<Vec<Capture>>,
    function_capture: &str,
    name_capture: &str,
    name: &str,
) -> (r: Option<(usize, usize)>)
    ensures
        r == function_bytes(nodes_view(ns@), matches_view(fm@), function_capture@, name_capture@, name@),
{
    let ghost nv = nodes_view(ns@);
    let ghost fmv = matches_view(fm@);
    let mut i: usize = 0;
    assert(fmv.skip(0) =~= fmv);
    while i < fm.len()
        invariant
            i <= fm@.len(),
            nv == nodes_view(ns@),
            fmv == matches_view(fm@),
            function_bytes(nv, fmv, function_capture@, name_capture@, name@) == function_bytes(
                nv,
                fmv.skip(i as int),
                function_capture@,
                name_capture@,
                name@,
            ),
        decreases fm.len() - i,
    {
        let m = &fm[i];
        assert(fmv.skip(i as int)[0] == match_view(*m));
        assert(fmv.skip(i as int).drop_first() =~= fmv.skip(i + 1));
        match (last_named_exec(m, function_capture), last_named_exec(m, name_capture)) {
            (Some(f), Some(n)) => {
                let text = capture_text_exec(ns, &m[n]);
                if str_eq(text.as_str(), name) {
                    return Some((m[f].1.start, m[f].1.end));
                }
            },
            _ => {},
        }
        i = i + 1;
    }
    assert(fmv.skip(i as int) =~= Seq::<Seq<CaptureView>>::empty());
    None
}

fn count_within(cm: &Vec<Vec<Capture>>, lo: usize, hi: usize) -> (r: i32)
    ensures
        r == complexity_value(matches_within(matches_view(cm@), lo, hi)),
{
    let ghost cmv = matches_view(cm@);
    let mut n: i32 = 1;
    let mut i: usize = 0;
    while i < cm.len()
        invariant
            i <= cm@.len(),
            cmv == matches_view(cm@),
            n == complexity_value(matches_within(cmv.take(i as int), lo, hi)),
        decreases cm.len() - i,
    {
        let m = &cm[i];
        assert(cmv.take(i + 1).drop_last() =~= cmv.take(i as int));
        assert(cmv.take(i + 1).last() == match_view(*m));
        if m.len() > 0 && lo <= m[0].1.start && m[0].1.end <= hi && n < i32::MAX {
            assert(match_view(*m)[0] == capture_view(m@[0]));
            n = n + 1;
        } else if m.len() > 0 {
            assert(match_view(*m)[0] == capture_view(m@[0]));
        }
        i = i + 1;
    }
    assert(cmv.take(cm@.len() as int) =~= cmv);
    n
}

/// The cyclomatic complexity of the named function, from the matches of the
/// function and complexity queries: one plus the branch points within it,
/// or 0 when no function has that name.
pub fn complexity_from_matches(
    tree: &Vec<SyntaxNode>,
    function_matches: &Vec<Vec<Capture>>,
    complexity_matches: &Vec<Vec<Capture>>,
    function_capture: &str,
    name_capture: &str,
    name: &str,
) -> (r: i32)
    ensures
        r == symbol_complexity(
            nodes_view(tree@),
            matches_view(function_matches@),
            matches_view(complexity_matches@),
            function_capture@,
            name_capture@,
            name@,
        ),
{
    match function_bytes_exec(tree, function_matches, function_capture, name_capture, name) {
        None => 0,
        Some(b) => count_within(complexity_matches, b.0, b.1),
    }
}

/// Functions and methods have a complexity.
pub open spec fn has_complexity(kind: Seq<char>) -> bool {
    kind == "function"@ || kind == "method"@
}

// ---------------------------------------------------------------------------
// The parser
// ---------------------------------------------------------------------------

/// The syntax tree of a source in a language's grammar (`None` where the
/// parser gives no tree).
pub open spec fn grammar_tree(language: ParserLanguage, source: &str) -> Option<Seq<NodeView>> {
    match language {
        ParserLanguage::Go => go_tree_spec(source),
        ParserLanguage::Python => python_tree_spec(source),
        ParserLanguage::Rust => rust_tree_spec(source),
        ParserLanguage::C => c_tree_spec(source),
        ParserLanguage::Cpp => cpp_tree_spec(source),
        ParserLanguage::Java => java_tree_spec(source),
        ParserLanguage::JavaScript => javascript_tree_spec(source),
        ParserLanguage::JavaScriptTsx => tsx_tree_spec(source),
        ParserLanguage::Scala => scala_tree_spec(source),
        ParserLanguage::Swift => swift_tree_spec(source),
        ParserLanguage::TypeScript => typescript_tree_spec(source),
    }
}

/// The matches of a query over the syntax tree of a source in a language's
/// grammar (`None` where the query or the parse fails).
pub open spec fn grammar_query(language: ParserLanguage, source: Seq<char>, query: Seq<char>) -> Option<
    Seq<Seq<CaptureView>>,
> {
    match language {
        ParserLanguage::Go => go_query_of(source, query),
        ParserLanguage::Python => python_query_of(source, query),
        ParserLanguage::Rust => rust_query_of(source, query),
        ParserLanguage::C => c_query_of(source, query),
        ParserLanguage::Cpp => cpp_query_of(source, query),
        ParserLanguage::Java => java_query_of(source, query),
        ParserLanguage::JavaScript => javascript_query_of(source, query),
        ParserLanguage::JavaScriptTsx => tsx_query_of(source, query),
        ParserLanguage::Scala => scala_query_of(source, query),
        ParserLanguage::Swift => swift_query_of(source, query),
        ParserLanguage::TypeScript => typescript_query_of(source, query),
    }
}

pub open spec fn opt_tree_view(o: Option<Vec<SyntaxNode>>) -> Option<Seq<NodeView>> {
    match o {
        Some(v) => Some(nodes_view(v@)),
        None => None,
    }
}

fn tree_for(language: ParserLanguage, source: &str) -> (r: Option<Vec<SyntaxNode>>)
    ensures
        opt_tree_view(r) == grammar_tree(language, source),
{
    match language {
        ParserLanguage::Go => go_tree(source),
        ParserLanguage::Python => python_tree(source),
        ParserLanguage::Rust => rust_tree(source),
        ParserLanguage::C => c_tree(source),
        ParserLanguage::Cpp => cpp_tree(source),
        ParserLanguage::Java => java_tree(source),
        ParserLanguage::JavaScript => javascript_tree(source),
        ParserLanguage::JavaScriptTsx => tsx_tree(source),
        ParserLanguage::Scala => scala_tree(source),
        ParserLanguage::Swift => swift_tree(source),
        ParserLanguage::TypeScript => typescript_tree(source),
    }
}

fn query_for(language: ParserLanguage, source: &str, query: &str) -> (r: Option<Vec<Vec<Capture>>>)
    ensures
        opt_matches_view(r) == grammar_query(language, source@, query@),
{
    match language {
        ParserLanguage::Go => go_matches(source, query),
        ParserLanguage::Python => python_matches(source, query),
        ParserLanguage::Rust => rust_matches(source, query),
        ParserLanguage::C => c_matches(source, query),
        ParserLanguage::Cpp => cpp_matches(source, query),
        ParserLanguage::Java => java_matches(source, query),
        ParserLanguage::JavaScript => javascript_matches(source, query),
        ParserLanguage::JavaScriptTsx => tsx_matches(source, query),
        ParserLanguage::Scala => scala_matches(source, query),
        ParserLanguage::Swift => swift_matches(source, query),
        ParserLanguage::TypeScript => typescript_matches(source, query),
    }
}

/// Tree-sitter based parser.
pub struct TreeSitterParser {
    /// The grammar it parses with.
    pub language: ParserLanguage,
    /// Its queries.
    pub config: Config,
}

/// What `parse_symbols` gives: the symbols of the symbol-query matches (none
/// when the configuration has no symbol query).
pub open spec fn parsed_symbols(p: TreeSitterParser, source: &str) -> Option<Seq<SymView>> {
    match grammar_tree(p.language, source) {
        None => None,
        Some(ns) => if p.config.symbol_query@.len() == 0 {
            Some(Seq::empty())
        } else {
            match grammar_query(p.language, source@, p.config.symbol_query@) {
                None => None,
                Some(ms) => Some(all_syms(ns, ms, captures_view(p.config.symbol_captures@))),
            }
        },
    }
}

/// What `complexity` gives for a name: 0 without a function query, 1
/// without a complexity query, else the complexity of the named function.
pub open spec fn parsed_complexity(p: TreeSitterParser, source: &str, name: Seq<char>) -> Option<i32> {
    match grammar_tree(p.language, source) {
        None => None,
        Some(ns) => if p.config.function_query@.len() == 0 {
            Some(0)
        } else {
            match grammar_query(p.language, source@, p.config.function_query@) {
                None => None,
                Some(fm) => match function_bytes(
                    ns,
                    fm,
                    p.config.function_capture@,
                    p.config.func_name_capture@,
                    name,
                ) {
                    None => Some(0),
                    Some(b) => if p.config.complexity_query@.len() == 0 {
                        Some(1)
                    } else {
                        match grammar_query(p.language, source@, p.config.complexity_query@) {
                            None => None,
                            Some(cm) => Some(complexity_value(matches_within(cm, b.0, b.1))),
                        }
                    },
                },
            }
        },
    }
}

/// What extracting the symbols with their complexity gives: the symbols of
/// `parse_symbols`, functions and methods with what `complexity` gives for
/// their name and others with none; an error where the symbols or the
/// complexity of a function could not be read.
pub open spec fn symbols_outcome(
    p: TreeSitterParser,
    source: &str,
    r: Result<Vec<SymbolWithComplexity>, String>,
) -> bool {
    match r {
        Ok(v) => parsed_symbols(p, source) matches Some(syms) && v@.len() == syms.len() && forall|
            i: int,
        |
            0 <= i < v@.len() ==> sym_view((#[trigger] v@[i]).symbol) == syms[i] && v@[i].complexity
                == if has_complexity(syms[i].kind) {
                parsed_complexity(p, source, syms[i].name)
            } else {
                None
            },
        Err(_) => parsed_symbols(p, source) is None || exists|i: int|
            0 <= i < parsed_symbols(p, source)->0.len() && has_complexity(
                (#[trigger] parsed_symbols(p, source)->0[i]).kind,
            ) && parsed_complexity(p, source, parsed_symbols(p, source)->0[i].name) is None,
    }
}

impl TreeSitterParser {
    /// Create a new tree-sitter parser with the given grammar and queries.
    pub fn new(language: ParserLanguage, config: Config) -> (r: TreeSitterParser)
        ensures
            r.language == language,
            r.config == config,
    {
        TreeSitterParser { language, config }
    }

    /// Return the language this parser handles (e.g., "go", "python").
    pub fn language(&self) -> (r: &str)
        ensures
            r@ == self.config.language_name@,
    {
        self.config.language_name
    }

    /// Extract all symbols from source code.
    pub fn parse_symbols(&self, source: &str) -> (r: Result<Vec<Symbol>, String>)
        ensures
            match r {
                Ok(v) => parsed_symbols(*self, source) == Some(syms_view(v@)),
                Err(_) => parsed_symbols(*self, source) is None,
            },
    {
        let tree = match tree_for(self.language, source) {
            Some(t) => t,
            None => return Err(String::from_str("failed to parse source")),
        };
        if self.config.symbol_query.is_empty() {
            let v: Vec<Symbol> = Vec::new();
            assert(syms_view(v@) =~= Seq::<SymView>::empty());
            return Ok(v);
        }
        match query_for(self.language, source, self.config.symbol_query) {
            Some(ms) => Ok(symbols_from_matches(&tree, &ms, &self.config.symbol_captures)),
            None => Err(String::from_str("invalid symbol query")),
        }
    }

    /// Calculate cyclomatic complexity for a named symbol; 0 if the symbol
    /// is not found (not an error).
    pub fn complexity(&self, source: &str, symbol_name: &str) -> (r: Result<i32, String>)
        ensures
            match r {
                Ok(c) => parsed_complexity(*self, source, symbol_name@) == Some(c),
                Err(_) => parsed_complexity(*self, source, symbol_name@) is None,
            },
    {
        let tree = match tree_for(self.language, source) {
            Some(t) => t,
            None => return Err(String::from_str("failed to parse source")),
        };
        if self.config.function_query.is_empty() {
            return Ok(0);
        }
        let fm = match query_for(self.language, source, self.config.function_query) {
            Some(fm) => fm,
            None => return Err(String::from_str("invalid function query")),
        };
        let bytes = function_bytes_exec(
            &tree,
            &fm,
            self.config.function_capture,
            self.config.func_name_capture,
            symbol_name,
        );
        match bytes {
            None => Ok(0),
            Some(b) => {
                if self.config.complexity_query.is_empty() {
                    return Ok(1);
                }
                match query_for(self.language, source, self.config.complexity_query) {
                    Some(cm) => Ok(count_within(&cm, b.0, b.1)),
                    None => Err(String::from_str("invalid complexity query")),
                }
            },
        }
    }

    /// Extract all symbols with their complexity: for each symbol of
    /// `parse_symbols`, functions and methods with what `complexity` gives
    /// for their name, others with none.
    pub fn parse_symbols_with_complexity(&self, source: &str) -> (r: Result<
        Vec<SymbolWithComplexity>,
        String,
    >)
        ensures
            symbols_outcome(*self, source, r),
    {
        let symbols = match self.parse_symbols(source) {
            Ok(s) => s,
            Err(e) => return Err(e),
        };
        let ghost syms = syms_view(symbols@);
        let mut out: Vec<SymbolWithComplexity> = Vec::new();
        let mut rest = symbols;
        while rest.len() > 0
            invariant
                parsed_symbols(*self, source) == Some(syms),
                out@.len() + rest@.len() == syms.len(),
                syms_view(rest@) == syms.skip(out@.len() as int),
                forall|i: int|
                    0 <= i < out@.len() ==> sym_view((#[trigger] out@[i]).symbol) == syms[i]
                        && out@[i].complexity == if has_complexity(syms[i].kind) {
                        parsed_complexity(*self, source, syms[i].name)
                    } else {
                        None
                    },
            decreases rest.len(),
        {
            let ghost rest_before = rest@;
            let ghost k = out@.len() as int;
            let s = rest.remove(0);
            assert(sym_view(s) == syms[k]) by {
                assert(syms_view(rest_before)[0] == sym_view(s));
            }
            let is_fn = str_eq(s.kind.as_str(), "function") || str_eq(s.kind.as_str(), "method");
            let complexity = if is_fn {
                match self.complexity(source, s.name.as_str()) {
                    Ok(c) => Some(c),
                    Err(e) => return Err(e),
                }
            } else {
                None
            };
            out.push(SymbolWithComplexity { symbol: s, complexity });
            assert(syms_view(rest@) =~= syms_view(rest_before).skip(1));
            assert(syms.skip(k).skip(1) =~= syms.skip(k + 1));
        }
        Ok(out)
    }
}

} // verus!
