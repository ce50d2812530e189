//! Facts about source code and the analyses over them.
//!
//! tree-sitter parses a source file and runs the queries; its trees and
//! matches come here as plain values (`syntax`), and the language analyzers
//! (`languages`) read declarations, imports, function bodies and
//! control-flow counts off them. Stub detection and the cached analysis
//! context work on those facts.
pub mod context;
pub mod facts;
pub mod languages;
pub mod stubs;
pub mod syntax;
