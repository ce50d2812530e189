//! The language configurations of the symbol parser.
pub mod c;
pub mod cpp;
pub mod go;
pub mod java;
pub mod javascript;
pub mod python;
pub mod rust_lang;
pub mod scala;
pub mod swift;
pub mod typescript;

use vstd::prelude::*;

use crate::parser::treesitter::TreeSitterParser;
use crate::parser::ParserLanguage;

verus! {

/// The parser for a language, with that language's configuration.
pub fn language_parser(language: ParserLanguage) -> (r: TreeSitterParser)
    ensures
        r.language == language,
{
    match language {
        ParserLanguage::C => c::new_parser(),
        ParserLanguage::Cpp => cpp::new_parser(),
        ParserLanguage::Go => go::new_parser(),
        ParserLanguage::Java => java::new_parser(),
        ParserLanguage::JavaScript => javascript::new_parser(),
        ParserLanguage::JavaScriptTsx => typescript::new_javascript_parser(),
        ParserLanguage::Python => python::new_parser(),
        ParserLanguage::Rust => rust_lang::new_parser(),
        ParserLanguage::Scala => scala::new_parser(),
        ParserLanguage::Swift => swift::new_parser(),
        ParserLanguage::TypeScript => typescript::new_typescript_parser(),
    }
}

} // verus!
