//! Protocol constructors and library-generation configuration.

use ferrumpy_core::libgen::LibGenConfig;
use ferrumpy_core::lsp::{CompletionItem, CompletionKind};
use ferrumpy_core::protocol::{Response, RpcMessage};

#[test]
fn test_generate_lib_config_default() {
    let config = LibGenConfig::default();
    assert!(config.add_serde_derives);
    assert!(config.output_dir.is_none());
}

#[test]
fn test_response_success() {
    assert!(matches!(Response::success(), Response::Success { ok: true }));
}

#[test]
fn test_response_error() {
    match Response::error("boom") {
        Response::Error { error } => assert_eq!(error, "boom"),
        other => panic!("expected Error, got {:?}", other),
    }
}

#[test]
fn test_response_completions() {
    let items = vec![CompletionItem {
        label: "name".to_string(),
        kind: CompletionKind::Field,
        detail: Some("String".to_string()),
        documentation: None,
    }];
    match Response::completions(items) {
        Response::Completions { completions } => {
            assert_eq!(completions.len(), 1);
            assert_eq!(completions[0].label, "name");
            assert_eq!(completions[0].kind, CompletionKind::Field);
        }
        other => panic!("expected Completions, got {:?}", other),
    }
}

#[test]
fn test_response_eval_result() {
    match Response::eval_result("42", "i32") {
        Response::EvalResult { value, value_type } => {
            assert_eq!(value, "42");
            assert_eq!(value_type, "i32");
        }
        other => panic!("expected EvalResult, got {:?}", other),
    }
}

#[test]
fn test_rpc_message_new() {
    let msg = RpcMessage::new(7, Response::success());
    assert_eq!(msg.jsonrpc, "2.0");
    assert_eq!(msg.id, Some(7));
    assert!(matches!(msg.content, Response::Success { ok: true }));
}
