//! Language analyzers: what each language's syntax tree says about a file,
//! and which analyzer reads which file extension.
pub mod c;
pub mod common;
pub mod go;
pub mod java;
pub mod python;
pub mod rust_lang;
pub mod scala;
pub mod swift;
pub mod tables;
pub mod typescript;

use vstd::prelude::*;

use crate::detect::types::str_eq;

verus! {

/// The language analyzer that reads files with the given extension.
pub open spec fn language_of_extension(ext: Seq<char>) -> Option<Seq<char>> {
    if ext == "c"@ || ext == "h"@ {
        Some("c"@)
    } else if ext == "cpp"@ || ext == "cc"@ || ext == "cxx"@ || ext == "hpp"@ || ext == "hh"@ {
        Some("cpp"@)
    } else if ext == "go"@ {
        Some("go"@)
    } else if ext == "java"@ {
        Some("java"@)
    } else if ext == "js"@ || ext == "jsx"@ || ext == "mjs"@ {
        Some("javascript"@)
    } else if ext == "py"@ {
        Some("python"@)
    } else if ext == "rs"@ {
        Some("rust"@)
    } else if ext == "scala"@ || ext == "sc"@ {
        Some("scala"@)
    } else if ext == "swift"@ {
        Some("swift"@)
    } else if ext == "ts"@ || ext == "tsx"@ || ext == "mts"@ {
        Some("typescript"@)
    } else {
        None
    }
}

/// The language identifiers of the analyzers, in order.
pub open spec fn language_ids() -> Seq<Seq<char>> {
    seq![
        "c"@,
        "cpp"@,
        "go"@,
        "java"@,
        "javascript"@,
        "python"@,
        "rust"@,
        "scala"@,
        "swift"@,
        "typescript"@,
    ]
}

/// The file extensions the analyzers read, in order.
pub open spec fn analyzed_extensions() -> Seq<Seq<char>> {
    seq![
        "c"@,
        "h"@,
        "cpp"@,
        "cc"@,
        "cxx"@,
        "hpp"@,
        "hh"@,
        "go"@,
        "java"@,
        "js"@,
        "jsx"@,
        "mjs"@,
        "py"@,
        "rs"@,
        "scala"@,
        "sc"@,
        "swift"@,
        "ts"@,
        "tsx"@,
        "mts"@,
    ]
}

pub open spec fn strings_view(v: Seq<String>) -> Seq<Seq<char>> {
    v.map_values(|s: String| s@)
}

/// Get the identifier of the analyzer for the given file extension, if any.
pub fn analyzer_language(ext: &str) -> (r: Option<&'static str>)
    ensures
        match r {
            Some(l) => language_of_extension(ext@) == Some(l@),
            None => language_of_extension(ext@) is None,
        },
{
    if str_eq(ext, "c") || str_eq(ext, "h") {
        Some("c")
    } else if str_eq(ext, "cpp") || str_eq(ext, "cc") || str_eq(ext, "cxx") || str_eq(ext, "hpp")
        || str_eq(ext, "hh") {
        Some("cpp")
    } else if str_eq(ext, "go") {
        Some("go")
    } else if str_eq(ext, "java") {
        Some("java")
    } else if str_eq(ext, "js") || str_eq(ext, "jsx") || str_eq(ext, "mjs") {
        Some("javascript")
    } else if str_eq(ext, "py") {
        Some("python")
    } else if str_eq(ext, "rs") {
        Some("rust")
    } else if str_eq(ext, "scala") || str_eq(ext, "sc") {
        Some("scala")
    } else if str_eq(ext, "swift") {
        Some("swift")
    } else if str_eq(ext, "ts") || str_eq(ext, "tsx") || str_eq(ext, "mts") {
        Some("typescript")
    } else {
        None
    }
}

/// Get all registered language IDs.
pub fn registered_languages() -> (r: Vec<String>)
    ensures
        strings_view(r@) == language_ids(),
{
    let ids = [
        "c",
        "cpp",
        "go",
        "java",
        "javascript",
        "python",
        "rust",
        "scala",
        "swift",
        "typescript",
    ];
    let mut out: Vec<String> = Vec::new();
    let mut i: usize = 0;
    while i < ids.len()
        invariant
            i <= ids@.len(),
            ids@.len() == 10,
            strings_view(out@) == ids@.take(i as int).map_values(|s: &str| s@),
        decreases ids.len() - i,
    {
        let ghost before = out@;
        out.push(String::from_str(ids[i]));
        assert(strings_view(out@) =~= strings_view(before).push(ids@[i as int]@));
        assert(ids@.take(i + 1) =~= ids@.take(i as int).push(ids@[i as int]));
        i = i + 1;
    }
    assert(ids@.take(10) =~= ids@);
    assert(strings_view(out@) =~= language_ids());
    out
}

/// Get all registered file extensions.
pub fn registered_extensions() -> (r: Vec<String>)
    ensures
        strings_view(r@) == analyzed_extensions(),
{
    let exts = [
        "c",
        "h",
        "cpp",
        "cc",
        "cxx",
        "hpp",
        "hh",
        "go",
        "java",
        "js",
        "jsx",
        "mjs",
        "py",
        "rs",
        "scala",
        "sc",
        "swift",
        "ts",
        "tsx",
        "mts",
    ];
    let mut out: Vec<String> = Vec::new();
    let mut i: usize = 0;
    while i < exts.len()
        invariant
            i <= exts@.len(),
            exts@.len() == 20,
            strings_view(out@) == exts@.take(i as int).map_values(|s: &str| s@),
        decreases exts.len() - i,
    {
        let ghost before = out@;
        out.push(String::from_str(exts[i]));
        assert(strings_view(out@) =~= strings_view(before).push(exts@[i as int]@));
        assert(exts@.take(i + 1) =~= exts@.take(i as int).push(exts@[i as int]));
        i = i + 1;
    }
    assert(exts@.take(20) =~= exts@);
    assert(strings_view(out@) =~= analyzed_extensions());
    out
}

/// Every registered extension is read by an analyzer, and that analyzer's
/// language is registered.
pub proof fn lemma_extensions_have_languages(i: int)
    requires
        0 <= i < analyzed_extensions().len(),
    ensures
        language_of_extension(analyzed_extensions()[i]) is Some,
        language_ids().contains(language_of_extension(analyzed_extensions()[i])->0),
{
    reveal_strlit("c");
    reveal_strlit("h");
    reveal_strlit("cpp");
    reveal_strlit("cc");
    reveal_strlit("cxx");
    reveal_strlit("hpp");
    reveal_strlit("hh");
    reveal_strlit("go");
    reveal_strlit("java");
    reveal_strlit("js");
    reveal_strlit("jsx");
    reveal_strlit("mjs");
    reveal_strlit("py");
    reveal_strlit("rs");
    reveal_strlit("scala");
    reveal_strlit("sc");
    reveal_strlit("swift");
    reveal_strlit("ts");
    reveal_strlit("tsx");
    reveal_strlit("mts");
    reveal_strlit("cpp");
    reveal_strlit("javascript");
    reveal_strlit("python");
    reveal_strlit("rust");
    reveal_strlit("typescript");
    let l = language_of_extension(analyzed_extensions()[i])->0;
    assert(language_ids()[0] == "c"@);
    assert(language_ids()[1] == "cpp"@);
    assert(language_ids()[2] == "go"@);
    assert(language_ids()[3] == "java"@);
    assert(language_ids()[4] == "javascript"@);
    assert(language_ids()[5] == "python"@);
    assert(language_ids()[6] == "rust"@);
    assert(language_ids()[7] == "scala"@);
    assert(language_ids()[8] == "swift"@);
    assert(language_ids()[9] == "typescript"@);
}

/// The registered extensions are exactly those that an analyzer reads, each
/// listed once.
pub proof fn lemma_registered_extensions_exact(e: Seq<char>)
    ensures
        analyzed_extensions().contains(e) <==> language_of_extension(e) is Some,
        forall|i: int, j: int|
            0 <= i < j < analyzed_extensions().len() ==> analyzed_extensions()[i]
                != analyzed_extensions()[j],
{
    reveal_strlit("c");
    reveal_strlit("h");
    reveal_strlit("cpp");
    reveal_strlit("cc");
    reveal_strlit("cxx");
    reveal_strlit("hpp");
    reveal_strlit("hh");
    reveal_strlit("go");
    reveal_strlit("java");
    reveal_strlit("js");
    reveal_strlit("jsx");
    reveal_strlit("mjs");
    reveal_strlit("py");
    reveal_strlit("rs");
    reveal_strlit("scala");
    reveal_strlit("sc");
    reveal_strlit("swift");
    reveal_strlit("ts");
    reveal_strlit("tsx");
    reveal_strlit("mts");
    let a = analyzed_extensions();
    assert(a[0] == "c"@);
    assert(a[1] == "h"@);
    assert(a[2] == "cpp"@);
    assert(a[3] == "cc"@);
    assert(a[4] == "cxx"@);
    assert(a[5] == "hpp"@);
    assert(a[6] == "hh"@);
    assert(a[7] == "go"@);
    assert(a[8] == "java"@);
    assert(a[9] == "js"@);
    assert(a[10] == "jsx"@);
    assert(a[11] == "mjs"@);
    assert(a[12] == "py"@);
    assert(a[13] == "rs"@);
    assert(a[14] == "scala"@);
    assert(a[15] == "sc"@);
    assert(a[16] == "swift"@);
    assert(a[17] == "ts"@);
    assert(a[18] == "tsx"@);
    assert(a[19] == "mts"@);
    if a.contains(e) {
        let i = choose|i: int| 0 <= i < a.len() && a[i] == e;
        lemma_extensions_have_languages(i);
    }
    assert forall|i: int, j: int| 0 <= i < j < a.len() implies a[i] != a[j] by {
        assert(a[i].len() != a[j].len() || a[i][0] != a[j][0] || a[i][1] != a[j][1] || a[i][2]
            != a[j][2] || a[i][3] != a[j][3] || a[i][4] != a[j][4]);
    }
}

} // verus!
