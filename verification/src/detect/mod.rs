//! Detection rules and their shared types.
pub mod complexity;
pub mod dependencies;
pub mod files;
pub mod god_objects;
pub mod imports;
pub mod manifest;
pub mod mocks;
pub mod patterns;
pub mod runner;
pub mod stdlib;
pub mod stubs;
pub mod suppress;
pub mod symbols;
pub mod todos;
pub mod types;
