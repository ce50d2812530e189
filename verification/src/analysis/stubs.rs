//! Stub/hollow function detection over the facts of function bodies.
//!
//! Detects functions that appear to be stubs or placeholder implementations:
//! - Empty function bodies
//! - Bodies containing only panic/unimplemented/todo! calls
//! - Bodies returning only nil/None/null
//! - Bodies containing only TODO comments
use vstd::prelude::*;

use crate::analysis::facts::{
    callable, qualified_name_of, Declaration, FileFacts, FunctionBody, Span,
};
use crate::detect::types::str_eq;
use crate::sorting::{
    lemma_permutation_map, lemma_triple_le_total, lemma_triple_le_transitive, sort_by_key,
    sorted_by_key, triple_le, triple_le_exec, KeyOrder,
};

verus! {

broadcast use vstd::seq_lib::group_to_multiset_ensures;

/// Kind of hollow/stub body detected.
#[derive(Debug, Clone, Copy, PartialEq, Eq, Structural)]
pub enum HollowBodyKind {
    /// Empty function body (no statements).
    Empty,
    /// Body only contains panic/unimplemented/todo! call.
    PanicOnly,
    /// Body only returns nil/None/null.
    NilReturnOnly,
    /// Body only contains TODO/FIXME comment.
    TodoCommentOnly,
}

pub open spec fn hollow_description(k: HollowBodyKind) -> Seq<char> {
    match k {
        HollowBodyKind::Empty => "empty function body"@,
        HollowBodyKind::PanicOnly => "only contains panic/unimplemented/todo! call"@,
        HollowBodyKind::NilReturnOnly => "only returns nil/None"@,
        HollowBodyKind::TodoCommentOnly => "only contains TODO comment"@,
    }
}

pub open spec fn hollow_severity_level(k: HollowBodyKind) -> u8 {
    match k {
        HollowBodyKind::Empty => 0,
        HollowBodyKind::PanicOnly => 1,
        HollowBodyKind::TodoCommentOnly => 2,
        HollowBodyKind::NilReturnOnly => 3,
    }
}

impl HollowBodyKind {
    /// Get a human-readable description.
    pub fn description(&self) -> (r: &'static str)
        ensures
            r@ == hollow_description(*self),
    {
        match self {
            HollowBodyKind::Empty => "empty function body",
            HollowBodyKind::PanicOnly => "only contains panic/unimplemented/todo! call",
            HollowBodyKind::NilReturnOnly => "only returns nil/None",
            HollowBodyKind::TodoCommentOnly => "only contains TODO comment",
        }
    }

    /// Get severity level (0 = most severe).
    pub fn severity_level(&self) -> (r: u8)
        ensures
            r == hollow_severity_level(*self),
    {
        match self {
            HollowBodyKind::Empty => 0,
            HollowBodyKind::PanicOnly => 1,
            HollowBodyKind::TodoCommentOnly => 2,
            HollowBodyKind::NilReturnOnly => 3,
        }
    }
}

/// A finding from stub detection.
#[derive(Debug, Clone)]
pub struct StubFinding {
    /// The function/method name.
    pub name: String,
    /// Qualified name (receiver.name for methods).
    pub qualified_name: String,
    /// The file path.
    pub file: String,
    /// The span of the function declaration.
    pub span: Span,
    /// The kind of stub detected.
    pub kind: HollowBodyKind,
    /// The function body text (for context).
    pub body_text: String,
}

pub struct StubFindingView {
    pub name: Seq<char>,
    pub qualified_name: Seq<char>,
    pub file: Seq<char>,
    pub span: Span,
    pub kind: HollowBodyKind,
    pub body_text: Seq<char>,
}

impl View for StubFinding {
    type V = StubFindingView;

    open spec fn view(&self) -> StubFindingView {
        StubFindingView {
            name: self.name@,
            qualified_name: self.qualified_name@,
            file: self.file@,
            span: self.span,
            kind: self.kind,
            body_text: self.body_text@,
        }
    }
}

pub open spec fn finding_key(f: StubFinding) -> (Seq<char>, int, Seq<char>) {
    (f.file@, f.span.start_byte as int, f.name@)
}

impl KeyOrder for StubFinding {
    /// By file, then start offset, then name.
    open spec fn key_le(&self, other: &Self) -> bool {
        triple_le(finding_key(*self), finding_key(*other))
    }

    proof fn lemma_key_le_total(a: &Self, b: &Self) {
        lemma_triple_le_total(finding_key(*a), finding_key(*b));
    }

    proof fn lemma_key_le_transitive(a: &Self, b: &Self, c: &Self) {
        lemma_triple_le_transitive(finding_key(*a), finding_key(*b), finding_key(*c));
    }

    fn key_le_exec(&self, other: &Self) -> (r: bool) {
        triple_le_exec(
            self.file.as_str(),
            self.span.start_byte,
            self.name.as_str(),
            other.file.as_str(),
            other.span.start_byte,
            other.name.as_str(),
        )
    }
}

/// Configuration for stub detection.
#[derive(Debug, Clone)]
pub struct StubDetectorConfig {
    /// Report empty function bodies.
    pub detect_empty: bool,
    /// Report panic-only bodies.
    pub detect_panic: bool,
    /// Report nil-return-only bodies.
    pub detect_nil_return: bool,
    /// Report TODO-comment-only bodies.
    pub detect_todo_comment: bool,
    /// Minimum complexity threshold (0 disables complexity-based detection).
    pub min_complexity: i32,
    /// Skip functions with these exact names.
    pub skip_functions: Vec<String>,
    /// Skip methods on these receiver types.
    pub skip_receivers: Vec<String>,
}

/// A detector configuration with its name lists as plain text.
pub struct StubDetectorConfigView {
    pub detect_empty: bool,
    pub detect_panic: bool,
    pub detect_nil_return: bool,
    pub detect_todo_comment: bool,
    pub min_complexity: i32,
    pub skip_functions: Seq<Seq<char>>,
    pub skip_receivers: Seq<Seq<char>>,
}

pub open spec fn names_view(v: Seq<String>) -> Seq<Seq<char>> {
    v.map_values(|s: String| s@)
}

impl View for StubDetectorConfig {
    type V = StubDetectorConfigView;

    open spec fn view(&self) -> StubDetectorConfigView {
        StubDetectorConfigView {
            detect_empty: self.detect_empty,
            detect_panic: self.detect_panic,
            detect_nil_return: self.detect_nil_return,
            detect_todo_comment: self.detect_todo_comment,
            min_complexity: self.min_complexity,
            skip_functions: names_view(self.skip_functions@),
            skip_receivers: names_view(self.skip_receivers@),
        }
    }
}

impl Default for StubDetectorConfig {
    /// Empty, panic-only and TODO-only bodies are reported (nil returns are
    /// not: many legitimate functions return nil), `main` and `init` are skipped.
    fn default() -> (r: StubDetectorConfig)
        ensures
            r.detect_empty && r.detect_panic && !r.detect_nil_return && r.detect_todo_comment,
            r.min_complexity == 0,
            r.skip_functions@.len() == 2,
            r.skip_functions@[0]@ == "main"@,
            r.skip_functions@[1]@ == "init"@,
            r.skip_receivers@.len() == 0,
    {
        let mut skip: Vec<String> = Vec::new();
        skip.push(String::from_str("main"));
        skip.push(String::from_str("init"));
        StubDetectorConfig {
            detect_empty: true,
            detect_panic: true,
            detect_nil_return: false,
            detect_todo_comment: true,
            min_complexity: 0,
            skip_functions: skip,
            skip_receivers: Vec::new(),
        }
    }
}

/// The stub kind of a body, checked in order: TODO-only, empty, panic-only,
/// nil-return-only (each only when enabled).
pub open spec fn classify(c: StubDetectorConfigView, b: FunctionBody) -> Option<HollowBodyKind> {
    if c.detect_todo_comment && b.has_only_todo_comment {
        Some(HollowBodyKind::TodoCommentOnly)
    } else if c.detect_empty && b.is_empty {
        Some(HollowBodyKind::Empty)
    } else if c.detect_panic && b.is_panic_only {
        Some(HollowBodyKind::PanicOnly)
    } else if c.detect_nil_return && b.is_nil_return_only {
        Some(HollowBodyKind::NilReturnOnly)
    } else {
        None
    }
}

pub open spec fn listed(names: Seq<Seq<char>>, name: Seq<char>) -> bool {
    exists|i: int| 0 <= i < names.len() && #[trigger] names[i] == name
}

/// The finding a declaration gives, if any.
pub open spec fn finding_for(c: StubDetectorConfigView, path: Seq<char>, d: Declaration) -> Option<
    StubFindingView,
> {
    if !callable(d.kind) || listed(c.skip_functions, d.name@) || (d.receiver matches Some(r)
        && listed(c.skip_receivers, r@)) {
        None
    } else {
        match d.body {
            Some(b) => match classify(c, b) {
                Some(k) => Some(
                    StubFindingView {
                        name: d.name@,
                        qualified_name: qualified_name_of(d),
                        file: path,
                        span: d.span,
                        kind: k,
                        body_text: b.text@,
                    },
                ),
                None => None,
            },
            None => None,
        }
    }
}

/// The findings of the declarations, in declaration order.
pub open spec fn findings_of(c: StubDetectorConfigView, path: Seq<char>, ds: Seq<Declaration>) -> Seq<
    StubFindingView,
>
    decreases ds.len(),
{
    if ds.len() == 0 {
        Seq::empty()
    } else {
        let prev = findings_of(c, path, ds.drop_last());
        match finding_for(c, path, ds.last()) {
            Some(f) => prev.push(f),
            None => prev,
        }
    }
}

/// The findings of several files, file after file.
pub open spec fn findings_of_all(c: StubDetectorConfigView, fs: Seq<FileFacts>) -> Seq<StubFindingView>
    decreases fs.len(),
{
    if fs.len() == 0 {
        Seq::empty()
    } else {
        findings_of_all(c, fs.drop_last()) + findings_of(
            c,
            fs.last().path@,
            fs.last().declarations@,
        )
    }
}

pub open spec fn findings_view(v: Seq<StubFinding>) -> Seq<StubFindingView> {
    v.map_values(|f: StubFinding| f@)
}

fn is_listed(names: &Vec<String>, name: &str) -> (r: bool)
    ensures
        r == listed(names_view(names@), name@),
{
    let mut i: usize = 0;
    while i < names.len()
        invariant
            i <= names@.len(),
            forall|j: int| 0 <= j < i ==> (#[trigger] names@[j])@ != name@,
            names_view(names@).len() == names@.len(),
        decreases names.len() - i,
    {
        if str_eq(names[i].as_str(), name) {
            assert(names_view(names@)[i as int] == name@);
            return true;
        }
        i = i + 1;
    }
    false
}

/// Stub detector that analyzes function bodies for hollow implementations.
pub struct StubDetector {
    config: StubDetectorConfig,
}

impl StubDetector {
    pub closed spec fn config(&self) -> StubDetectorConfig {
        self.config
    }

    /// Create a new stub detector with default configuration.
    pub fn new() -> (r: StubDetector)
        ensures
            r.config().detect_empty && r.config().detect_panic && !r.config().detect_nil_return
                && r.config().detect_todo_comment,
            r.config().skip_functions@.len() == 2,
            r.config().skip_functions@[0]@ == "main"@,
            r.config().skip_functions@[1]@ == "init"@,
            r.config().skip_receivers@.len() == 0,
    {
        StubDetector { config: StubDetectorConfig::default() }
    }

    /// Create a stub detector with custom configuration.
    pub fn with_config(config: StubDetectorConfig) -> (r: StubDetector)
        ensures
            r.config() == config,
    {
        StubDetector { config }
    }

    /// Classify a function body as a stub type, if applicable.
    pub fn classify_body(&self, body: &FunctionBody) -> (r: Option<HollowBodyKind>)
        ensures
            r == classify(self.config()@, *body),
    {
        if self.config.detect_todo_comment && body.has_only_todo_comment {
            return Some(HollowBodyKind::TodoCommentOnly);
        }
        if self.config.detect_empty && body.is_empty {
            return Some(HollowBodyKind::Empty);
        }
        if self.config.detect_panic && body.is_panic_only {
            return Some(HollowBodyKind::PanicOnly);
        }
        if self.config.detect_nil_return && body.is_nil_return_only {
            return Some(HollowBodyKind::NilReturnOnly);
        }
        None
    }

    /// The findings of one file, in declaration order.
    fn collect(&self, facts: &FileFacts, out: &mut Vec<StubFinding>)
        ensures
            findings_view(final(out)@) == findings_view(old(out)@) + findings_of(
                self.config()@,
                facts.path@,
                facts.declarations@,
            ),
    {
        let ghost ds = facts.declarations@;
        let ghost start = findings_view(out@);
        let mut i: usize = 0;
        while i < facts.declarations.len()
            invariant
                i <= ds.len(),
                ds == facts.declarations@,
                findings_view(out@) == start + findings_of(self.config()@, facts.path@, ds.take(i as int)),
            decreases facts.declarations.len() - i,
        {
            let decl = &facts.declarations[i];
            assert(ds.take(i + 1).drop_last() =~= ds.take(i as int));
            assert(ds.take(i + 1).last() == *decl);
            let skipped = !decl.kind.is_callable() || is_listed(
                &self.config.skip_functions,
                decl.name.as_str(),
            ) || match &decl.receiver {
                Some(recv) => is_listed(&self.config.skip_receivers, recv.as_str()),
                None => false,
            };
            if !skipped {
                match &decl.body {
                    Some(body) => match self.classify_body(body) {
                        Some(kind) => {
                            let ghost before = out@;
                            out.push(
                                StubFinding {
                                    name: decl.name.clone(),
                                    qualified_name: decl.qualified_name(),
                                    file: facts.path.clone(),
                                    span: decl.span,
                                    kind,
                                    body_text: body.text.clone(),
                                },
                            );
                            assert(findings_view(out@) =~= findings_view(before).push(out@.last()@));
                        },
                        None => {},
                    },
                    None => {},
                }
            }
            i = i + 1;
        }
        assert(ds.take(ds.len() as int) =~= ds);
    }

    /// Detect stubs in a single file's facts, ordered by position then name.
    pub fn detect(&self, facts: &FileFacts) -> (r: Vec<StubFinding>)
        ensures
            sorted_by_key(r@),
            findings_view(r@).to_multiset() == findings_of(
                self.config()@,
                facts.path@,
                facts.declarations@,
            ).to_multiset(),
    {
        let mut found: Vec<StubFinding> = Vec::new();
        self.collect(facts, &mut found);
        assert(findings_view(found@) =~= findings_of(self.config()@, facts.path@, facts.declarations@));
        let ghost unsorted = found@;
        let r = sort_by_key(found);
        proof {
            lemma_permutation_map(r@, unsorted, |f: StubFinding| f@);
        }
        r
    }

    /// Detect stubs across multiple files, ordered by file, position and name.
    pub fn detect_all(&self, facts: &[FileFacts]) -> (r: Vec<StubFinding>)
        ensures
            sorted_by_key(r@),
            findings_view(r@).to_multiset() == findings_of_all(self.config()@, facts@).to_multiset(),
    {
        let mut found: Vec<StubFinding> = Vec::new();
        let mut i: usize = 0;
        while i < facts.len()
            invariant
                i <= facts@.len(),
                findings_view(found@) == findings_of_all(self.config()@, facts@.take(i as int)),
            decreases facts.len() - i,
        {
            assert(facts@.take(i + 1).drop_last() =~= facts@.take(i as int));
            assert(facts@.take(i + 1).last() == facts@[i as int]);
            self.collect(&facts[i], &mut found);
            i = i + 1;
        }
        assert(facts@.take(facts@.len() as int) =~= facts@);
        let ghost unsorted = found@;
        let r = sort_by_key(found);
        proof {
            lemma_permutation_map(r@, unsorted, |f: StubFinding| f@);
        }
        r
    }
}

impl Default for StubDetector {
    fn default() -> (r: StubDetector)
        ensures
            r.config().detect_empty && r.config().detect_panic && !r.config().detect_nil_return
                && r.config().detect_todo_comment,
    {
        StubDetector::new()
    }
}

/// The findings of several files, put one after the other.
pub open spec fn joined(per_file: Seq<Seq<StubFinding>>) -> Seq<StubFinding>
    decreases per_file.len(),
{
    if per_file.len() == 0 {
        Seq::empty()
    } else {
        joined(per_file.drop_last()) + per_file.last()
    }
}

/// `detect_all` gives the findings that `detect` gives for each file, put
/// together: whatever lists `detect` gave for the files (each a permutation
/// of that file's findings), what `detect_all` gives for all of them is a
/// permutation of their concatenation (and it is sorted by file, position
/// and name).
pub proof fn lemma_detect_all_joins_detect(
    c: StubDetectorConfigView,
    facts: Seq<FileFacts>,
    per_file: Seq<Seq<StubFinding>>,
    all: Seq<StubFinding>,
)
    requires
        per_file.len() == facts.len(),
        forall|i: int|
            0 <= i < facts.len() ==> findings_view(#[trigger] per_file[i]).to_multiset() == findings_of(
                c,
                facts[i].path@,
                facts[i].declarations@,
            ).to_multiset(),
        findings_view(all).to_multiset() == findings_of_all(c, facts).to_multiset(),
    ensures
        findings_view(all).to_multiset() == findings_view(joined(per_file)).to_multiset(),
    decreases facts.len(),
{
    lemma_joined_findings(c, facts, per_file);
}

proof fn lemma_joined_findings(c: StubDetectorConfigView, facts: Seq<FileFacts>, per_file: Seq<Seq<StubFinding>>)
    requires
        per_file.len() == facts.len(),
        forall|i: int|
            0 <= i < facts.len() ==> findings_view(#[trigger] per_file[i]).to_multiset() == findings_of(
                c,
                facts[i].path@,
                facts[i].declarations@,
            ).to_multiset(),
    ensures
        findings_view(joined(per_file)).to_multiset() == findings_of_all(c, facts).to_multiset(),
    decreases facts.len(),
{
    if facts.len() > 0 {
        let n = facts.len() - 1;
        let f0 = facts.drop_last();
        let p0 = per_file.drop_last();
        assert forall|i: int| 0 <= i < f0.len() implies findings_view(#[trigger] p0[i]).to_multiset()
            == findings_of(c, f0[i].path@, f0[i].declarations@).to_multiset() by {
            assert(p0[i] == per_file[i]);
            assert(f0[i] == facts[i]);
        }
        lemma_joined_findings(c, f0, p0);
        assert(findings_view(joined(per_file)) =~= findings_view(joined(p0)) + findings_view(
            per_file[n],
        ));
        vstd::seq_lib::lemma_multiset_commutative(findings_view(joined(p0)), findings_view(per_file[n]));
        vstd::seq_lib::lemma_multiset_commutative(
            findings_of_all(c, f0),
            findings_of(c, facts[n].path@, facts[n].declarations@),
        );
    } else {
        assert(findings_view(joined(per_file)) =~= Seq::<StubFindingView>::empty());
    }
}

} // verus!
