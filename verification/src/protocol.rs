//! Wire protocol types.
//!
//! Requests and responses exchanged between the embedding front end and
//! the expression service, plus the message wrapper that frames them.
//! The (de)serialization itself lives with the embedding program; these
//! are the plain payload types.

use vstd::prelude::*;

use crate::dwarf::VariableInfo;
use crate::lsp::CompletionItem;

verus! {

/// Frame information from the debugger.
#[derive(Debug, Clone)]
pub struct FrameInfo {
    /// Function name.
    pub function: String,
    /// Source file path.
    pub file: Option<String>,
    /// Line number.
    pub line: Option<u32>,
    /// Local variables.
    pub locals: Vec<VariableInfo>,
}

/// Request from the front end to the expression service.
#[derive(Debug, Clone)]
pub enum Request {
    /// Initialize the service for a project.
    Initialize { project_root: String },
    /// Request completions.
    Complete { frame: FrameInfo, input: String, cursor: usize },
    /// Request type information.
    TypeInfo { frame: FrameInfo, expr: String },
    /// Evaluate an expression.
    Eval { frame: FrameInfo, expr: String },
    /// Request hover documentation.
    Hover { frame: FrameInfo, path: String },
    /// Shut the service down.
    Shutdown,
}

/// Response from the expression service to the front end.
#[derive(Debug, Clone)]
pub enum Response {
    Completions { completions: Vec<CompletionItem> },
    TypeInfo { type_label: String },
    EvalResult { value: String, value_type: String },
    Hover { content: Option<String> },
    Success { ok: bool },
    Error { error: String },
}

impl Response {
    pub fn success() -> (r: Self)
        ensures
            r == (Response::Success { ok: true }),
    {
        Response::Success { ok: true }
    }

    pub fn error(msg: &str) -> (r: Self)
        ensures
            r matches Response::Error { error } && error@ == msg@,
    {
        Response::Error { error: msg.to_owned() }
    }

    pub fn completions(items: Vec<CompletionItem>) -> (r: Self)
        ensures
            r == (Response::Completions { completions: items }),
    {
        Response::Completions { completions: items }
    }

    pub fn eval_result(value: &str, value_type: &str) -> (r: Self)
        ensures
            r matches Response::EvalResult { value: v, value_type: t } && v@ == value@ && t@
                == value_type@,
    {
        Response::EvalResult { value: value.to_owned(), value_type: value_type.to_owned() }
    }
}

/// Message wrapper framing a request or response.
#[derive(Debug, Clone)]
pub struct RpcMessage<T> {
    pub jsonrpc: String,
    pub id: Option<u64>,
    pub content: T,
}

impl<T> RpcMessage<T> {
    pub fn new(id: u64, content: T) -> (r: Self)
        ensures
            r.jsonrpc@ == "2.0"@,
            r.id == Some(id),
            r.content == content,
    {
        RpcMessage { jsonrpc: "2.0".to_owned(), id: Some(id), content }
    }
}

} // verus!
