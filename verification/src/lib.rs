//! Core of a debugger-side expression service: a strictly typed evaluator
//! for a small subset of Rust expressions, together with the supporting
//! pieces around it (value model, restricted AST, parse-tree narrowing,
//! source-fragment scanning, debug-info type names, wire protocol types).

pub mod ast;
pub mod convert;
pub mod dwarf;
pub mod error;
pub mod eval;
pub mod laws;
pub mod libgen;
pub mod lsp;
pub mod protocol;
pub mod scan;
pub mod text;
pub mod value;
