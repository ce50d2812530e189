//! Symbols that the language parsers report, and the registry that picks a
//! parser by file extension.
pub mod languages;
pub mod treesitter;

use vstd::prelude::*;

use crate::detect::types::str_eq;
use crate::text::{chars_of, string_of};

verus! {

/// A symbol represents a named code element (function, method, type, const).
#[derive(Debug, Clone, PartialEq, Eq)]
pub struct Symbol {
    /// The symbol name (e.g., "main", "Config", "MAX_SIZE")
    pub name: String,
    /// The symbol kind: "function", "method", "type", "const", "class", "interface"
    pub kind: String,
    /// The source file path
    pub file: String,
    /// Line number (1-indexed)
    pub line: usize,
}

/// A symbol with complexity information.
#[derive(Debug, Clone)]
pub struct SymbolWithComplexity {
    /// The base symbol
    pub symbol: Symbol,
    /// Cyclomatic complexity (only computed for functions/methods)
    pub complexity: Option<i32>,
}

/// The languages that have a parser, by the grammar each parses with.
#[derive(Debug, Clone, Copy, PartialEq, Eq, Structural)]
pub enum ParserLanguage {
    C,
    Cpp,
    Go,
    Java,
    /// JavaScript, with the JavaScript grammar.
    JavaScript,
    /// JavaScript, with the TSX grammar of the TypeScript module.
    JavaScriptTsx,
    Python,
    Rust,
    Scala,
    Swift,
    TypeScript,
}

/// Parsers by file extension (with the dot): a later registration for an
/// extension replaces an earlier one.
pub struct ParserRegistry {
    entries: Vec<(String, ParserLanguage)>,
}

/// The language registered last for the extension, if any.
pub open spec fn registered(entries: Seq<(Seq<char>, ParserLanguage)>, ext: Seq<char>) -> Option<
    ParserLanguage,
>
    decreases entries.len(),
{
    if entries.len() == 0 {
        None
    } else if entries.last().0 == ext {
        Some(entries.last().1)
    } else {
        registered(entries.drop_last(), ext)
    }
}

/// Whether some registration is for the extension.
pub open spec fn has_extension(entries: Seq<(Seq<char>, ParserLanguage)>, ext: Seq<char>) -> bool {
    exists|t: int| 0 <= t < entries.len() && (#[trigger] entries[t]).0 == ext
}

/// The registrations that initialization makes, in order (JavaScript files
/// end up with the parser that the TypeScript module registers for them,
/// which reads them with the TSX grammar).
pub open spec fn default_registrations() -> Seq<(Seq<char>, ParserLanguage)> {
    seq![
        (".c"@, ParserLanguage::C), (".h"@, ParserLanguage::C), (".cpp"@, ParserLanguage::Cpp),
        (".cc"@, ParserLanguage::Cpp), (".cxx"@, ParserLanguage::Cpp), (".hpp"@, ParserLanguage::Cpp),
        (".go"@, ParserLanguage::Go), (".java"@, ParserLanguage::Java),
        (".js"@, ParserLanguage::JavaScript), (".jsx"@, ParserLanguage::JavaScript),
        (".py"@, ParserLanguage::Python), (".rs"@, ParserLanguage::Rust),
        (".scala"@, ParserLanguage::Scala), (".sc"@, ParserLanguage::Scala),
        (".swift"@, ParserLanguage::Swift), (".ts"@, ParserLanguage::TypeScript),
        (".tsx"@, ParserLanguage::TypeScript), (".js"@, ParserLanguage::JavaScriptTsx),
        (".jsx"@, ParserLanguage::JavaScriptTsx),
    ]
}

/// The latest registration for an extension decides its parser; other
/// extensions keep theirs.
pub proof fn lemma_registration_wins(
    entries: Seq<(Seq<char>, ParserLanguage)>,
    ext: Seq<char>,
    language: ParserLanguage,
    other: Seq<char>,
)
    ensures
        registered(entries.push((ext, language)), ext) == Some(language),
        other != ext ==> registered(entries.push((ext, language)), other) == registered(entries, other),
{
    assert(entries.push((ext, language)).drop_last() =~= entries);
}

impl ParserRegistry {
    pub closed spec fn entries_view(&self) -> Seq<(Seq<char>, ParserLanguage)> {
        self.entries@.map_values(|e: (String, ParserLanguage)| (e.0@, e.1))
    }

    /// An empty registry.
    pub fn new() -> (r: ParserRegistry)
        ensures
            r.entries_view().len() == 0,
    {
        ParserRegistry { entries: Vec::new() }
    }

    /// Register a parser for a file extension (with the dot, e.g. `.go`).
    pub fn register(&mut self, ext: &str, language: ParserLanguage)
        ensures
            final(self).entries_view() == old(self).entries_view().push((ext@, language)),
    {
        let ghost before = self.entries_view();
        self.entries.push((string_of(chars_of(ext).as_slice()), language));
        assert(self.entries_view() =~= before.push((ext@, language)));
    }

    /// The registry with every available language registered.
    pub fn with_all_languages() -> (r: ParserRegistry)
        ensures
            r.entries_view() == default_registrations(),
    {
        let mut r = ParserRegistry::new();
        r.register(".c", ParserLanguage::C);
        r.register(".h", ParserLanguage::C);
        r.register(".cpp", ParserLanguage::Cpp);
        r.register(".cc", ParserLanguage::Cpp);
        r.register(".cxx", ParserLanguage::Cpp);
        r.register(".hpp", ParserLanguage::Cpp);
        r.register(".go", ParserLanguage::Go);
        r.register(".java", ParserLanguage::Java);
        r.register(".js", ParserLanguage::JavaScript);
        r.register(".jsx", ParserLanguage::JavaScript);
        r.register(".py", ParserLanguage::Python);
        r.register(".rs", ParserLanguage::Rust);
        r.register(".scala", ParserLanguage::Scala);
        r.register(".sc", ParserLanguage::Scala);
        r.register(".swift", ParserLanguage::Swift);
        r.register(".ts", ParserLanguage::TypeScript);
        r.register(".tsx", ParserLanguage::TypeScript);
        r.register(".js", ParserLanguage::JavaScriptTsx);
        r.register(".jsx", ParserLanguage::JavaScriptTsx);
        assert(r.entries_view() =~= default_registrations());
        r
    }

    /// The extensions that have a parser, each once, in the order of their
    /// first registration.
    pub fn supported_extensions(&self) -> (r: Vec<String>)
        ensures
            forall|x: Seq<char>|
                #![trigger has_extension(self.entries_view(), x)]
                has_extension(self.entries_view(), x) <==> exists|i: int|
                    0 <= i < r@.len() && (#[trigger] r@[i])@ == x,
            forall|i: int, j: int| 0 <= i < j < r@.len() ==> (#[trigger] r@[i])@ != (#[trigger] r@[j])@,
    {
        let ghost ev = self.entries_view();
        let mut out: Vec<String> = Vec::new();
        let mut i: usize = 0;
        while i < self.entries.len()
            invariant
                i <= self.entries@.len(),
                ev == self.entries_view(),
                forall|x: Seq<char>|
                    #![trigger has_extension(ev.take(i as int), x)]
                    has_extension(ev.take(i as int), x) <==> exists|k: int|
                        0 <= k < out@.len() && (#[trigger] out@[k])@ == x,
                forall|a: int, b: int|
                    0 <= a < b < out@.len() ==> (#[trigger] out@[a])@ != (#[trigger] out@[b])@,
            decreases self.entries.len() - i,
        {
            let e = self.entries[i].0.as_str();
            assert(ev[i as int].0 == e@);
            let mut seen = false;
            let mut j: usize = 0;
            while j < out.len()
                invariant
                    j <= out@.len(),
                    seen == exists|k: int| 0 <= k < j && (#[trigger] out@[k])@ == e@,
                decreases out.len() - j,
            {
                if str_eq(out[j].as_str(), e) {
                    seen = true;
                }
                j = j + 1;
            }
            let ghost before = out@;
            if !seen {
                out.push(string_of(chars_of(e).as_slice()));
            }
            proof {
                assert forall|x: Seq<char>| #[trigger] has_extension(ev.take(i + 1), x) <==> exists|k: int|
                    0 <= k < out@.len() && (#[trigger] out@[k])@ == x by {
                    if has_extension(ev.take(i + 1), x) {
                        let t = choose|t: int| 0 <= t < i + 1 && (#[trigger] ev.take(i + 1)[t]).0 == x;
                        if t < i {
                            assert(ev.take(i as int)[t].0 == x);
                            assert(has_extension(ev.take(i as int), x));
                            let k = choose|k: int| 0 <= k < before.len() && (#[trigger] before[k])@ == x;
                            assert(out@[k] == before[k]);
                        } else if !seen {
                            assert(out@[before.len() as int]@ == x);
                        }
                    }
                    if exists|k: int| 0 <= k < out@.len() && (#[trigger] out@[k])@ == x {
                        let k = choose|k: int| 0 <= k < out@.len() && (#[trigger] out@[k])@ == x;
                        if k < before.len() {
                            assert(before[k]@ == x);
                            assert(has_extension(ev.take(i as int), x));
                            let t = choose|t: int| 0 <= t < i && (#[trigger] ev.take(i as int)[t]).0 == x;
                            assert(ev.take(i + 1)[t].0 == x);
                        } else {
                            assert(ev.take(i + 1)[i as int].0 == x);
                        }
                    }
                }
            }
            i = i + 1;
        }
        assert(ev.take(ev.len() as int) =~= ev);
        out
    }

    /// The parser language registered for the extension, if any.
    pub fn for_extension(&self, ext: &str) -> (r: Option<ParserLanguage>)
        ensures
            r == registered(self.entries_view(), ext@),
    {
        let ghost ev = self.entries_view();
        let mut k = self.entries.len();
        assert(ev.take(k as int) =~= ev);
        while k > 0
            invariant
                k <= self.entries@.len(),
                ev == self.entries_view(),
                registered(ev.take(k as int), ext@) == registered(ev, ext@),
            decreases k,
        {
            assert(ev.take(k as int).drop_last() =~= ev.take(k - 1));
            assert(ev.take(k as int).last() == ev[k - 1]);
            if str_eq(self.entries[k - 1].0.as_str(), ext) {
                return Some(self.entries[k - 1].1);
            }
            k = k - 1;
        }
        None
    }
}

/// Get the parser language for the given file extension, from the
/// registry as initialization fills it.
pub fn for_extension(ext: &str) -> (r: Option<ParserLanguage>)
    ensures
        r == registered(default_registrations(), ext@),
{
    ParserRegistry::with_all_languages().for_extension(ext)
}

/// The extensions that have a parser once initialization registered them
/// all, each once.
pub fn supported_extensions() -> (r: Vec<String>)
    ensures
        forall|x: Seq<char>|
            #![trigger has_extension(default_registrations(), x)]
            has_extension(default_registrations(), x) <==> exists|i: int|
                0 <= i < r@.len() && (#[trigger] r@[i])@ == x,
        forall|i: int, j: int| 0 <= i < j < r@.len() ==> (#[trigger] r@[i])@ != (#[trigger] r@[j])@,
{
    ParserRegistry::with_all_languages().supported_extensions()
}

} // verus!
