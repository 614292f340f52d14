//! Converter behavior: narrowing the full-grammar parse tree into the
//! restricted AST.

use ferrumpy_core::ast::{Expr, Literal, PathSegment};
use ferrumpy_core::convert::{
    Member, ParseBinOp, ParseLit, ParseTree, ParseUnOp, convert_expr,
};
use ferrumpy_core::error::EvalError;

#[test]
fn test_parse_simple_path() {
    let expr = convert_expr(&ParseTree::Path(vec!["foo".to_string()])).unwrap();
    assert!(matches!(expr, Expr::Path(_)));
}

#[test]
fn test_parse_field_access() {
    let tree = ParseTree::Field {
        base: Box::new(ParseTree::Path(vec!["foo".to_string()])),
        member: Member::Named("bar".to_string()),
    };
    let expr = convert_expr(&tree).unwrap();
    if let Expr::Path(segments) = expr {
        assert_eq!(segments.len(), 2);
    } else {
        panic!("Expected Path");
    }
}

#[test]
fn test_parse_binary() {
    let tree = ParseTree::Binary {
        op: ParseBinOp::Add,
        left: Box::new(ParseTree::Path(vec!["a".to_string()])),
        right: Box::new(ParseTree::Path(vec!["b".to_string()])),
    };
    let expr = convert_expr(&tree).unwrap();
    assert!(matches!(expr, Expr::Binary { .. }));
}

#[test]
fn test_parse_literal() {
    let expr = convert_expr(&ParseTree::Lit(ParseLit::Int(42))).unwrap();
    assert!(matches!(expr, Expr::Literal(Literal::Int(42))));
}

#[test]
fn test_unsupported_function_call() {
    let result = convert_expr(&ParseTree::Call);
    assert!(matches!(
        result,
        Err(EvalError::UnsupportedExpression { .. })
    ));
}

#[test]
fn test_unsupported_method_call() {
    let result = convert_expr(&ParseTree::MethodCall);
    assert!(matches!(
        result,
        Err(EvalError::UnsupportedExpression { .. })
    ));
}

#[test]
fn test_call_kind_text() {
    match convert_expr(&ParseTree::Call) {
        Err(EvalError::UnsupportedExpression { kind }) => {
            assert_eq!(kind, "function calls");
        }
        other => panic!("expected UnsupportedExpression, got {:?}", other),
    }
}

#[test]
fn test_assignment_operator_rejected() {
    let tree = ParseTree::Binary {
        op: ParseBinOp::Assignment,
        left: Box::new(ParseTree::Path(vec!["a".to_string()])),
        right: Box::new(ParseTree::Lit(ParseLit::Int(1))),
    };
    match convert_expr(&tree) {
        Err(EvalError::UnsupportedExpression { kind }) => {
            assert_eq!(kind, "assignment operators");
        }
        other => panic!("expected UnsupportedExpression, got {:?}", other),
    }
}

#[test]
fn test_index_literal_becomes_segment() {
    let tree = ParseTree::Index {
        base: Box::new(ParseTree::Path(vec!["xs".to_string()])),
        index: Box::new(ParseTree::Lit(ParseLit::Int(3))),
    };
    let expr = convert_expr(&tree).unwrap();
    if let Expr::Path(segments) = expr {
        assert_eq!(segments.len(), 2);
        assert!(matches!(segments[1], PathSegment::Index(3)));
    } else {
        panic!("Expected Path");
    }
}

#[test]
fn test_dynamic_index_rejected() {
    let tree = ParseTree::Index {
        base: Box::new(ParseTree::Path(vec!["xs".to_string()])),
        index: Box::new(ParseTree::Path(vec!["i".to_string()])),
    };
    match convert_expr(&tree) {
        Err(EvalError::UnsupportedExpression { kind }) => {
            assert_eq!(kind, "dynamic index expressions");
        }
        other => panic!("expected UnsupportedExpression, got {:?}", other),
    }
}

#[test]
fn test_deref_prefixes_path() {
    let tree = ParseTree::Field {
        base: Box::new(ParseTree::Unary {
            op: ParseUnOp::Deref,
            operand: Box::new(ParseTree::Path(vec!["p".to_string()])),
        }),
        member: Member::Named("x".to_string()),
    };
    let expr = convert_expr(&tree).unwrap();
    if let Expr::Path(segments) = expr {
        assert_eq!(segments.len(), 3);
        assert!(matches!(segments[0], PathSegment::Deref));
    } else {
        panic!("Expected Path");
    }
}

#[test]
fn test_cast_keeps_type_text() {
    let tree = ParseTree::Cast {
        base: Box::new(ParseTree::Lit(ParseLit::Int(1))),
        ty: "i64".to_string(),
    };
    let expr = convert_expr(&tree).unwrap();
    if let Expr::Cast { ty, .. } = expr {
        assert_eq!(ty, "i64");
    } else {
        panic!("Expected Cast");
    }
}

#[test]
fn test_reference_becomes_unary() {
    let tree = ParseTree::Reference {
        operand: Box::new(ParseTree::Path(vec!["a".to_string()])),
    };
    let expr = convert_expr(&tree).unwrap();
    assert!(matches!(
        expr,
        Expr::Unary {
            op: ferrumpy_core::ast::UnaryOp::Ref,
            ..
        }
    ));
}

#[test]
fn test_byte_literal_rejected() {
    match convert_expr(&ParseTree::Lit(ParseLit::Other)) {
        Err(EvalError::UnsupportedExpression { kind }) => {
            assert_eq!(kind, "byte literals");
        }
        other => panic!("expected UnsupportedExpression, got {:?}", other),
    }
}

#[test]
fn test_other_node_carries_debug_name() {
    match convert_expr(&ParseTree::Other("Loop".to_string())) {
        Err(EvalError::UnsupportedExpression { kind }) => assert_eq!(kind, "Loop"),
        other => panic!("expected UnsupportedExpression, got {:?}", other),
    }
}
