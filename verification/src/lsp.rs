//! Language-server completion types.
//!
//! The plain data carried back from a completion query; the client that
//! talks to the language server lives with the embedding program.

use vstd::prelude::*;

verus! {

/// A completion item offered to the user.
#[derive(Debug, Clone)]
pub struct CompletionItem {
    pub label: String,
    pub kind: CompletionKind,
    pub detail: Option<String>,
    pub documentation: Option<String>,
}

/// The kind of thing a completion item names.
#[derive(Debug, Clone, Copy, PartialEq, Eq, Structural)]
pub enum CompletionKind {
    Field,
    Method,
    Function,
    Variable,
    Struct,
    Enum,
    Module,
    Keyword,
    Snippet,
    Property,
    Constant,
    Other,
}

} // verus!
