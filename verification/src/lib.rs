//! Hollowcheck: a quality gate that detects "hollow" code — stubs, TODOs,
//! mock data, hallucinated dependencies and similar signs of unfinished work.
pub mod analysis;
pub mod cli;
pub mod contract;
pub mod detect;
pub mod matching;
pub mod parser;
pub mod paths;
pub mod registry;
pub mod report;
pub mod sorting;
pub mod strmap;
pub mod text;
