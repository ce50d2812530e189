//! Facts extracted from source code.
use vstd::prelude::*;

use crate::detect::types::str_eq;
use crate::paths::opt_string_view;
use crate::sorting::{lemma_triple_le_total, lemma_triple_le_transitive, triple_le, triple_le_exec, KeyOrder};
use crate::text::{chars_of, concat, concat_str, string_of};

verus! {

/// Source location span with byte offsets and line/column positions.
#[derive(Debug, Clone, Copy, PartialEq, Eq, Structural)]
pub struct Span {
    /// Start byte offset (0-indexed).
    pub start_byte: usize,
    /// End byte offset (0-indexed, exclusive).
    pub end_byte: usize,
    /// Start line (1-indexed).
    pub start_line: usize,
    /// Start column (1-indexed).
    pub start_col: usize,
    /// End line (1-indexed).
    pub end_line: usize,
    /// End column (1-indexed).
    pub end_col: usize,
}

impl Span {
    /// `line:column` of the start.
    pub fn to_text(&self) -> (r: String)
        ensures
            r@ == crate::text::decimal(self.start_line as nat) + ":"@ + crate::text::decimal(
                self.start_col as nat,
            ),
    {
        let a = crate::text::usize_to_decimal(self.start_line);
        let b = concat_str(a.as_slice(), ":");
        let c = concat(b.as_slice(), crate::text::usize_to_decimal(self.start_col).as_slice());
        string_of(c.as_slice())
    }
}

/// Kind of declaration (function, method, type, constant).
#[derive(Debug, Clone, Copy, PartialEq, Eq, Hash, Structural)]
pub enum DeclarationKind {
    Function,
    Method,
    Type,
    Const,
    Interface,
    Struct,
    Enum,
    Trait,
}

pub open spec fn declaration_kind_name(k: DeclarationKind) -> Seq<char> {
    match k {
        DeclarationKind::Function => "function"@,
        DeclarationKind::Method => "method"@,
        DeclarationKind::Type => "type"@,
        DeclarationKind::Const => "const"@,
        DeclarationKind::Interface => "interface"@,
        DeclarationKind::Struct => "struct"@,
        DeclarationKind::Enum => "enum"@,
        DeclarationKind::Trait => "trait"@,
    }
}

pub open spec fn callable(k: DeclarationKind) -> bool {
    k is Function || k is Method
}

impl DeclarationKind {
    /// Convert to a string representation.
    pub fn as_str(&self) -> (r: &'static str)
        ensures
            r@ == declaration_kind_name(*self),
    {
        match self {
            DeclarationKind::Function => "function",
            DeclarationKind::Method => "method",
            DeclarationKind::Type => "type",
            DeclarationKind::Const => "const",
            DeclarationKind::Interface => "interface",
            DeclarationKind::Struct => "struct",
            DeclarationKind::Enum => "enum",
            DeclarationKind::Trait => "trait",
        }
    }

    /// Check if this is a callable (function or method).
    pub fn is_callable(&self) -> (r: bool)
        ensures
            r == callable(*self),
    {
        match self {
            DeclarationKind::Function | DeclarationKind::Method => true,
            _ => false,
        }
    }
}

/// Control flow information for cyclomatic complexity calculation.
#[derive(Debug, Clone, Copy, PartialEq, Eq, Structural)]
pub struct ControlFlowInfo {
    /// Number of if statements.
    pub if_count: usize,
    /// Number of for/while/loop statements.
    pub loop_count: usize,
    /// Number of switch/match statements.
    pub switch_count: usize,
    /// Number of case clauses.
    pub case_count: usize,
    /// Number of select statements (Go).
    pub select_count: usize,
    /// Number of && operators.
    pub and_count: usize,
    /// Number of || operators.
    pub or_count: usize,
    /// Number of ternary ?: operators.
    pub ternary_count: usize,
    /// Number of catch/except clauses.
    pub catch_count: usize,
}

impl Default for ControlFlowInfo {
    fn default() -> (r: ControlFlowInfo)
        ensures
            decision_points(r) == 0,
            r.switch_count == 0,
    {
        ControlFlowInfo {
            if_count: 0,
            loop_count: 0,
            switch_count: 0,
            case_count: 0,
            select_count: 0,
            and_count: 0,
            or_count: 0,
            ternary_count: 0,
            catch_count: 0,
        }
    }
}

/// Decision points: if, loops, cases, `&&`, `||`, `?:` and catches (switch
/// and select statements themselves are not counted; their cases are).
pub open spec fn decision_points(c: ControlFlowInfo) -> int {
    c.if_count + c.loop_count + c.case_count + c.and_count + c.or_count + c.ternary_count
        + c.catch_count
}

/// Cyclomatic complexity: one plus the decision points.
pub open spec fn complexity_of(c: ControlFlowInfo) -> int {
    1 + decision_points(c)
}

impl ControlFlowInfo {
    /// Calculate cyclomatic complexity (1 + decision points).
    pub fn cyclomatic_complexity(&self) -> (r: i32)
        requires
            decision_points(*self) < i32::MAX,
        ensures
            r == complexity_of(*self),
    {
        let decision_points = self.if_count + self.loop_count + self.case_count
            + self.and_count + self.or_count + self.ternary_count + self.catch_count;
        1 + decision_points as i32
    }
}

/// Information about a function/method body for stub detection.
#[derive(Debug, Clone)]
pub struct FunctionBody {
    /// Span of the body block.
    pub span: Span,
    /// Number of statements in the body.
    pub statement_count: usize,
    /// Whether the body is empty (no statements).
    pub is_empty: bool,
    /// Whether the body only contains a panic/unimplemented call.
    pub is_panic_only: bool,
    /// Whether the body only returns nil/None/null.
    pub is_nil_return_only: bool,
    /// Whether the body only contains a TODO comment.
    pub has_only_todo_comment: bool,
    /// Raw text of the body (for detailed analysis).
    pub text: String,
    /// Control flow information for complexity.
    pub control_flow: ControlFlowInfo,
}

/// A declaration extracted from source code.
#[derive(Debug, Clone)]
pub struct Declaration {
    /// The declaration name.
    pub name: String,
    /// The kind of declaration.
    pub kind: DeclarationKind,
    /// Source span for the entire declaration.
    pub span: Span,
    /// For methods: the receiver type (e.g., "Config" for `func (c *Config) Validate()`).
    pub receiver: Option<String>,
    /// Function body information (only for functions/methods).
    pub body: Option<FunctionBody>,
}

/// `receiver.name` for methods with a receiver, else the name.
pub open spec fn qualified_name_of(d: Declaration) -> Seq<char> {
    match d.receiver {
        Some(r) => r@ + "."@ + d.name@,
        None => d.name@,
    }
}

impl Declaration {
    /// Get the fully qualified name (receiver.name for methods).
    pub fn qualified_name(&self) -> (r: String)
        ensures
            r@ == qualified_name_of(*self),
    {
        match &self.receiver {
            Some(recv) => {
                let a = concat_str(chars_of(recv.as_str()).as_slice(), ".");
                let b = concat_str(a.as_slice(), self.name.as_str());
                string_of(b.as_slice())
            },
            None => self.name.clone(),
        }
    }
}

/// An import/dependency declaration.
#[derive(Debug, Clone)]
pub struct Import {
    /// The import path or module name.
    pub path: String,
    /// Optional alias (e.g., `import foo "bar"` -> alias is "foo").
    pub alias: Option<String>,
    /// Source span.
    pub span: Span,
}

/// All facts extracted from a single file.
#[derive(Debug, Clone)]
pub struct FileFacts {
    /// File path.
    pub path: String,
    /// Language identifier.
    pub language: String,
    /// Package/module name (if applicable).
    pub package: Option<String>,
    /// All declarations in the file.
    pub declarations: Vec<Declaration>,
    /// All imports in the file.
    pub imports: Vec<Import>,
    /// Whether the file had parse errors.
    pub has_parse_errors: bool,
    /// Parse error message (if any).
    pub parse_error: Option<String>,
}

/// The content of a function body.
pub struct BodyView {
    pub span: Span,
    pub statement_count: usize,
    pub is_empty: bool,
    pub is_panic_only: bool,
    pub is_nil_return_only: bool,
    pub has_only_todo_comment: bool,
    pub text: Seq<char>,
    pub control_flow: ControlFlowInfo,
}

impl View for FunctionBody {
    type V = BodyView;

    open spec fn view(&self) -> BodyView {
        BodyView {
            span: self.span,
            statement_count: self.statement_count,
            is_empty: self.is_empty,
            is_panic_only: self.is_panic_only,
            is_nil_return_only: self.is_nil_return_only,
            has_only_todo_comment: self.has_only_todo_comment,
            text: self.text@,
            control_flow: self.control_flow,
        }
    }
}

/// The content of a declaration.
pub struct DeclView {
    pub name: Seq<char>,
    pub kind: DeclarationKind,
    pub span: Span,
    pub receiver: Option<Seq<char>>,
    pub body: Option<BodyView>,
}

impl View for Declaration {
    type V = DeclView;

    open spec fn view(&self) -> DeclView {
        DeclView {
            name: self.name@,
            kind: self.kind,
            span: self.span,
            receiver: opt_string_view(self.receiver),
            body: match self.body {
                Some(b) => Some(b@),
                None => None,
            },
        }
    }
}

/// The content of an import.
pub struct ImportFactView {
    pub path: Seq<char>,
    pub alias: Option<Seq<char>>,
    pub span: Span,
}

impl View for Import {
    type V = ImportFactView;

    open spec fn view(&self) -> ImportFactView {
        ImportFactView { path: self.path@, alias: opt_string_view(self.alias), span: self.span }
    }
}

/// The content of the facts of a file.
pub struct FactsView {
    pub path: Seq<char>,
    pub language: Seq<char>,
    pub package: Option<Seq<char>>,
    pub declarations: Seq<DeclView>,
    pub imports: Seq<ImportFactView>,
    pub has_parse_errors: bool,
    pub parse_error: Option<Seq<char>>,
}

impl View for FileFacts {
    type V = FactsView;

    open spec fn view(&self) -> FactsView {
        FactsView {
            path: self.path@,
            language: self.language@,
            package: opt_string_view(self.package),
            declarations: self.declarations@.map_values(|d: Declaration| d@),
            imports: self.imports@.map_values(|i: Import| i@),
            has_parse_errors: self.has_parse_errors,
            parse_error: opt_string_view(self.parse_error),
        }
    }
}

/// The order of declarations: by start offset, then name.
pub open spec fn decl_key(d: Declaration) -> (Seq<char>, int, Seq<char>) {
    (Seq::empty(), d.span.start_byte as int, d.name@)
}

impl KeyOrder for Declaration {
    open spec fn key_le(&self, other: &Self) -> bool {
        triple_le(decl_key(*self), decl_key(*other))
    }

    proof fn lemma_key_le_total(a: &Self, b: &Self) {
        lemma_triple_le_total(decl_key(*a), decl_key(*b));
    }

    proof fn lemma_key_le_transitive(a: &Self, b: &Self, c: &Self) {
        lemma_triple_le_transitive(decl_key(*a), decl_key(*b), decl_key(*c));
    }

    fn key_le_exec(&self, other: &Self) -> (r: bool) {
        proof {
            reveal_strlit("");
        }
        triple_le_exec("", self.span.start_byte, self.name.as_str(), "", other.span.start_byte, other.name.as_str())
    }
}

/// The order of imports: by path.
pub open spec fn import_key(i: Import) -> (Seq<char>, int, Seq<char>) {
    (i.path@, 0, Seq::empty())
}

impl KeyOrder for Import {
    open spec fn key_le(&self, other: &Self) -> bool {
        triple_le(import_key(*self), import_key(*other))
    }

    proof fn lemma_key_le_total(a: &Self, b: &Self) {
        lemma_triple_le_total(import_key(*a), import_key(*b));
    }

    proof fn lemma_key_le_transitive(a: &Self, b: &Self, c: &Self) {
        lemma_triple_le_transitive(import_key(*a), import_key(*b), import_key(*c));
    }

    fn key_le_exec(&self, other: &Self) -> (r: bool) {
        proof {
            reveal_strlit("");
        }
        triple_le_exec(self.path.as_str(), 0, "", other.path.as_str(), 0, "")
    }
}

/// The declarations of a kind, in order.
pub open spec fn decls_of_kind(ds: Seq<Declaration>, kind: DeclarationKind) -> Seq<Declaration>
    decreases ds.len(),
{
    if ds.len() == 0 {
        Seq::empty()
    } else {
        let prev = decls_of_kind(ds.drop_last(), kind);
        if ds.last().kind == kind {
            prev.push(ds.last())
        } else {
            prev
        }
    }
}

/// The functions and methods, in order.
pub open spec fn callable_decls(ds: Seq<Declaration>) -> Seq<Declaration>
    decreases ds.len(),
{
    if ds.len() == 0 {
        Seq::empty()
    } else {
        let prev = callable_decls(ds.drop_last());
        if callable(ds.last().kind) {
            prev.push(ds.last())
        } else {
            prev
        }
    }
}

/// The sum of the complexities of the callables that have a body.
pub open spec fn total_complexity_of(ds: Seq<Declaration>) -> int
    decreases ds.len(),
{
    if ds.len() == 0 {
        0
    } else {
        total_complexity_of(ds.drop_last()) + match ds.last().body {
            Some(b) => if callable(ds.last().kind) {
                complexity_of(b.control_flow)
            } else {
                0
            },
            None => 0,
        }
    }
}

pub open spec fn refs_view(v: Seq<&Declaration>) -> Seq<Declaration> {
    v.map_values(|d: &Declaration| *d)
}

impl FileFacts {
    /// Create empty facts for a file.
    pub fn empty(path: &str, language: &str) -> (r: FileFacts)
        ensures
            r.path@ == path@,
            r.language@ == language@,
            r.package is None,
            r.declarations@.len() == 0,
            r.imports@.len() == 0,
            !r.has_parse_errors,
            r.parse_error is None,
    {
        FileFacts {
            path: string_of(chars_of(path).as_slice()),
            language: string_of(chars_of(language).as_slice()),
            package: None,
            declarations: Vec::new(),
            imports: Vec::new(),
            has_parse_errors: false,
            parse_error: None,
        }
    }

    /// Find the first declaration with the given name.
    pub fn find_declaration(&self, name: &str) -> (r: Option<&Declaration>)
        ensures
            match r {
                Some(d) => exists|i: int|
                    0 <= i < self.declarations@.len() && self.declarations@[i] == *d && d.name@ == name@
                        && forall|j: int| 0 <= j < i ==> self.declarations@[j].name@ != name@,
                None => forall|j: int|
                    0 <= j < self.declarations@.len() ==> self.declarations@[j].name@ != name@,
            },
    {
        let mut i: usize = 0;
        while i < self.declarations.len()
            invariant
                i <= self.declarations@.len(),
                forall|j: int| 0 <= j < i ==> self.declarations@[j].name@ != name@,
            decreases self.declarations.len() - i,
        {
            if str_eq(self.declarations[i].name.as_str(), name) {
                return Some(&self.declarations[i]);
            }
            i = i + 1;
        }
        None
    }

    /// Find declarations by kind, in order.
    pub fn declarations_by_kind(&self, kind: DeclarationKind) -> (r: Vec<&Declaration>)
        ensures
            refs_view(r@) == decls_of_kind(self.declarations@, kind),
    {
        let mut r: Vec<&Declaration> = Vec::new();
        let mut i: usize = 0;
        while i < self.declarations.len()
            invariant
                i <= self.declarations@.len(),
                refs_view(r@) == decls_of_kind(self.declarations@.take(i as int), kind),
            decreases self.declarations.len() - i,
        {
            assert(self.declarations@.take(i + 1).drop_last() =~= self.declarations@.take(i as int));
            let ghost before = r@;
            if self.declarations[i].kind == kind {
                r.push(&self.declarations[i]);
                assert(refs_view(r@) =~= refs_view(before).push(self.declarations@[i as int]));
            }
            i = i + 1;
        }
        assert(self.declarations@.take(self.declarations@.len() as int) =~= self.declarations@);
        r
    }

    /// Get all functions and methods, in order.
    pub fn callables(&self) -> (r: Vec<&Declaration>)
        ensures
            refs_view(r@) == callable_decls(self.declarations@),
    {
        let mut r: Vec<&Declaration> = Vec::new();
        let mut i: usize = 0;
        while i < self.declarations.len()
            invariant
                i <= self.declarations@.len(),
                refs_view(r@) == callable_decls(self.declarations@.take(i as int)),
            decreases self.declarations.len() - i,
        {
            assert(self.declarations@.take(i + 1).drop_last() =~= self.declarations@.take(i as int));
            let ghost before = r@;
            if self.declarations[i].kind.is_callable() {
                r.push(&self.declarations[i]);
                assert(refs_view(r@) =~= refs_view(before).push(self.declarations@[i as int]));
            }
            i = i + 1;
        }
        assert(self.declarations@.take(self.declarations@.len() as int) =~= self.declarations@);
        r
    }

    /// Get total cyclomatic complexity of all functions.
    pub fn total_complexity(&self) -> (r: i32)
        requires
            total_complexity_of(self.declarations@) <= i32::MAX,
        ensures
            r == total_complexity_of(self.declarations@),
    {
        let ghost ds = self.declarations@;
        let mut total: i32 = 0;
        let mut i: usize = 0;
        while i < self.declarations.len()
            invariant
                i <= ds.len(),
                ds == self.declarations@,
                total_complexity_of(ds) <= i32::MAX,
                total == total_complexity_of(ds.take(i as int)),
            decreases self.declarations.len() - i,
        {
            let d = &self.declarations[i];
            assert(ds.take(i + 1).drop_last() =~= ds.take(i as int));
            assert(ds.take(i + 1).last() == ds[i as int]);
            proof {
                lemma_total_prefix_le(ds, i + 1);
                lemma_total_nonneg(ds.take(i as int));
            }
            if d.kind.is_callable() {
                match &d.body {
                    Some(b) => {
                        assert(ds[i as int].body == Some(*b));
                        total = total + b.control_flow.cyclomatic_complexity();
                    },
                    None => {},
                }
            }
            i = i + 1;
        }
        assert(ds.take(ds.len() as int) =~= ds);
        total
    }
}

pub proof fn lemma_total_nonneg(ds: Seq<Declaration>)
    ensures
        total_complexity_of(ds) >= 0,
    decreases ds.len(),
{
    if ds.len() > 0 {
        lemma_total_nonneg(ds.drop_last());
    }
}

/// The total of a prefix is at most the total of the whole.
pub proof fn lemma_total_prefix_le(ds: Seq<Declaration>, k: int)
    requires
        0 <= k <= ds.len(),
    ensures
        total_complexity_of(ds.take(k)) <= total_complexity_of(ds),
    decreases ds.len(),
{
    if k < ds.len() {
        assert(ds.drop_last().take(k) =~= ds.take(k));
        lemma_total_prefix_le(ds.drop_last(), k);
        if ds.last().body is Some {
            assert(decision_points(ds.last().body->0.control_flow) >= 0);
        }
    } else {
        assert(ds.take(k) =~= ds);
    }
}

} // verus!
