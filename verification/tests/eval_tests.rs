//! Evaluator behavior: literals, arithmetic, comparison, variables,
//! strict typing, division, casts, floats.

use ferrumpy_core::ast::{BinOp, Expr, Literal, UnaryOp};
use ferrumpy_core::convert::{ParseBinOp, ParseLit, ParseTree, convert_expr};
use ferrumpy_core::error::EvalError;
use ferrumpy_core::eval::{Evaluator, FloatOps, NoFloatOps};
use ferrumpy_core::value::{IntType, Value};

/// Float unit backed by the host's native IEEE arithmetic.
struct HostFloats;

impl FloatOps for HostFloats {
    // the model items coincide with the executable ones: this unit's
    // mathematical model is exactly what the host computes
    fn arith_model(&self, op: BinOp, a: u64, b: u64) -> u64 {
        self.f64_arith(op, a, b)
    }

    fn cmp_model(&self, op: BinOp, a: u64, b: u64) -> bool {
        self.f64_compare(op, a, b)
    }

    fn neg_model(&self, a: u64) -> u64 {
        self.f64_neg(a)
    }

    fn widen_model(&self, a: u32) -> u64 {
        self.f32_to_f64(a)
    }

    fn narrow_model(&self, a: u64) -> u32 {
        self.f64_to_f32(a)
    }

    fn of_int_f64_model(&self, v: i128) -> u64 {
        self.i128_to_f64(v)
    }

    fn of_int_f32_model(&self, v: i128) -> u32 {
        self.i128_to_f32(v)
    }

    fn to_int_model(&self, a: u64, target: IntType) -> i128 {
        self.f64_to_int(a, target)
    }

    fn to_u128_model(&self, a: u64) -> u128 {
        self.f64_to_u128(a)
    }

    fn f64_arith(&self, op: BinOp, a: u64, b: u64) -> u64 {
        let x = f64::from_bits(a);
        let y = f64::from_bits(b);
        let r = match op {
            BinOp::Add => x + y,
            BinOp::Sub => x - y,
            BinOp::Mul => x * y,
            BinOp::Div => x / y,
            BinOp::Rem => x % y,
            _ => x,
        };
        r.to_bits()
    }

    fn f64_compare(&self, op: BinOp, a: u64, b: u64) -> bool {
        let x = f64::from_bits(a);
        let y = f64::from_bits(b);
        match op {
            BinOp::Eq => x == y,
            BinOp::Ne => x != y,
            BinOp::Lt => x < y,
            BinOp::Le => x <= y,
            BinOp::Gt => x > y,
            BinOp::Ge => x >= y,
            _ => false,
        }
    }

    fn f64_neg(&self, a: u64) -> u64 {
        (-f64::from_bits(a)).to_bits()
    }

    fn f32_to_f64(&self, a: u32) -> u64 {
        (f32::from_bits(a) as f64).to_bits()
    }

    fn f64_to_f32(&self, a: u64) -> u32 {
        (f64::from_bits(a) as f32).to_bits()
    }

    fn i128_to_f64(&self, v: i128) -> u64 {
        (v as f64).to_bits()
    }

    fn i128_to_f32(&self, v: i128) -> u32 {
        (v as f32).to_bits()
    }

    fn f64_to_int(&self, a: u64, target: IntType) -> i128 {
        let x = f64::from_bits(a);
        match target {
            IntType::I8 => x as i8 as i128,
            IntType::I16 => x as i16 as i128,
            IntType::I32 => x as i32 as i128,
            IntType::I64 => x as i64 as i128,
            IntType::I128 => x as i128,
            IntType::Isize => x as isize as i128,
            IntType::U8 => x as u8 as i128,
            IntType::U16 => x as u16 as i128,
            IntType::U32 => x as u32 as i128,
            IntType::U64 => x as u64 as i128,
            IntType::U128 => 0,
            IntType::Usize => x as usize as i128,
        }
    }

    fn f64_to_u128(&self, a: u64) -> u128 {
        f64::from_bits(a) as u128
    }
}

fn lit(n: i128) -> ParseTree {
    ParseTree::Lit(ParseLit::Int(n))
}

fn bin(op: ferrumpy_core::convert::ParseBinOp, l: ParseTree, r: ParseTree) -> ParseTree {
    ParseTree::Binary {
        op,
        left: Box::new(l),
        right: Box::new(r),
    }
}

#[test]
fn test_literal_eval() {
    let eval = Evaluator::new();

    let expr = convert_expr(&lit(42)).unwrap();
    let result = eval.eval(&expr, &HostFloats).unwrap();
    assert!(matches!(result, Value::I32(42)));

    let expr = convert_expr(&ParseTree::Lit(ParseLit::Bool(true))).unwrap();
    let result = eval.eval(&expr, &HostFloats).unwrap();
    assert!(matches!(result, Value::Bool(true)));
}

#[test]
fn test_arithmetic() {
    let eval = Evaluator::new();

    let expr = convert_expr(&bin(ParseBinOp::Add, lit(10), lit(5))).unwrap();
    let result = eval.eval(&expr, &HostFloats).unwrap();
    assert!(matches!(result, Value::I32(15)));

    let expr = convert_expr(&bin(ParseBinOp::Sub, lit(10), lit(5))).unwrap();
    let result = eval.eval(&expr, &HostFloats).unwrap();
    assert!(matches!(result, Value::I32(5)));

    let expr = convert_expr(&bin(ParseBinOp::Mul, lit(10), lit(5))).unwrap();
    let result = eval.eval(&expr, &HostFloats).unwrap();
    assert!(matches!(result, Value::I32(50)));
}

#[test]
fn test_comparison() {
    let eval = Evaluator::new();

    let expr = convert_expr(&bin(ParseBinOp::Gt, lit(10), lit(5))).unwrap();
    let result = eval.eval(&expr, &HostFloats).unwrap();
    assert!(matches!(result, Value::Bool(true)));

    let expr = convert_expr(&bin(ParseBinOp::Eq, lit(10), lit(10))).unwrap();
    let result = eval.eval(&expr, &HostFloats).unwrap();
    assert!(matches!(result, Value::Bool(true)));
}

#[test]
fn test_variable_lookup() {
    let mut eval = Evaluator::new();
    eval.set_variable("x", Value::I32(42));

    let expr = convert_expr(&ParseTree::Path(vec!["x".to_string()])).unwrap();
    let result = eval.eval(&expr, &HostFloats).unwrap();
    assert!(matches!(result, Value::I32(42)));
}

#[test]
fn test_type_mismatch() {
    let mut eval = Evaluator::new();
    eval.set_variable("a", Value::I32(10));
    eval.set_variable("b", Value::F64(3.14f64.to_bits()));

    let expr = convert_expr(&bin(
        ParseBinOp::Add,
        ParseTree::Path(vec!["a".to_string()]),
        ParseTree::Path(vec!["b".to_string()]),
    ))
    .unwrap();
    let result = eval.eval(&expr, &HostFloats);
    assert!(matches!(result, Err(EvalError::InvalidOperation { .. })));
}

#[test]
fn test_division_by_zero() {
    let eval = Evaluator::new();

    let expr = convert_expr(&bin(ParseBinOp::Div, lit(10), lit(0))).unwrap();
    let result = eval.eval(&expr, &HostFloats);
    assert!(matches!(result, Err(EvalError::DivisionByZero)));
}

#[test]
fn test_mismatch_reports_both_type_names() {
    let eval = {
        let mut e = Evaluator::new();
        e.set_variable("x", Value::I32(10));
        e.set_variable("y", Value::F64(3.14f64.to_bits()));
        e
    };
    let expr = Expr::Binary {
        left: Box::new(Expr::Path(vec![ferrumpy_core::ast::PathSegment::Ident(
            "x".to_string(),
        )])),
        op: BinOp::Add,
        right: Box::new(Expr::Path(vec![ferrumpy_core::ast::PathSegment::Ident(
            "y".to_string(),
        )])),
    };
    match eval.eval(&expr, &HostFloats) {
        Err(EvalError::InvalidOperation { op, left, right }) => {
            assert_eq!(op, "+");
            assert_eq!(left, "i32");
            assert_eq!(right, "f64");
        }
        other => panic!("expected InvalidOperation, got {:?}", other),
    }
}

#[test]
fn test_unknown_variable() {
    let eval = Evaluator::new();
    let expr = Expr::Path(vec![ferrumpy_core::ast::PathSegment::Ident(
        "missing".to_string(),
    )]);
    match eval.eval(&expr, &HostFloats) {
        Err(EvalError::UnknownVariable { name }) => assert_eq!(name, "missing"),
        other => panic!("expected UnknownVariable, got {:?}", other),
    }
}

#[test]
fn test_field_access_unsupported() {
    let mut eval = Evaluator::new();
    eval.set_variable("x", Value::I32(42));
    let expr = Expr::Path(vec![
        ferrumpy_core::ast::PathSegment::Ident("x".to_string()),
        ferrumpy_core::ast::PathSegment::Ident("field".to_string()),
    ]);
    let result = eval.eval(&expr, &HostFloats);
    assert!(matches!(
        result,
        Err(EvalError::UnsupportedExpression { .. })
    ));
}

#[test]
fn test_division_identity_sample() {
    // quotient times divisor plus remainder gives back the dividend
    let eval = Evaluator::new();
    let a: i128 = -17;
    let b: i128 = 5;
    let q = match eval
        .eval(
            &Expr::Binary {
                left: Box::new(Expr::Literal(Literal::Int(a))),
                op: BinOp::Div,
                right: Box::new(Expr::Literal(Literal::Int(b))),
            },
            &HostFloats,
        )
        .unwrap()
    {
        Value::I32(v) => v,
        other => panic!("unexpected {:?}", other),
    };
    let m = match eval
        .eval(
            &Expr::Binary {
                left: Box::new(Expr::Literal(Literal::Int(a))),
                op: BinOp::Rem,
                right: Box::new(Expr::Literal(Literal::Int(b))),
            },
            &HostFloats,
        )
        .unwrap()
    {
        Value::I32(v) => v,
        other => panic!("unexpected {:?}", other),
    };
    assert_eq!(q, -3);
    assert_eq!(m, -2);
    assert_eq!(q as i128 * b + m as i128, a);
}

#[test]
fn test_float_division_by_zero_is_infinite() {
    // (x as f64) / 0.0 succeeds and follows IEEE rules
    let eval = Evaluator::new();
    let expr = Expr::Binary {
        left: Box::new(Expr::Cast {
            expr: Box::new(Expr::Literal(Literal::Int(10))),
            ty: "f64".to_string(),
        }),
        op: BinOp::Div,
        right: Box::new(Expr::Literal(Literal::Float(0.0f64.to_bits()))),
    };
    match eval.eval(&expr, &HostFloats).unwrap() {
        Value::F64(bits) => {
            let f = f64::from_bits(bits);
            assert!(f.is_infinite() && f > 0.0);
        }
        other => panic!("expected F64, got {:?}", other),
    }
}

#[test]
fn test_float_arithmetic() {
    let eval = Evaluator::new();
    let expr = Expr::Binary {
        left: Box::new(Expr::Literal(Literal::Float(1.5f64.to_bits()))),
        op: BinOp::Add,
        right: Box::new(Expr::Literal(Literal::Float(2.25f64.to_bits()))),
    };
    match eval.eval(&expr, &HostFloats).unwrap() {
        Value::F64(bits) => assert_eq!(f64::from_bits(bits), 3.75),
        other => panic!("expected F64, got {:?}", other),
    }
}

#[test]
fn test_literal_width_boundaries() {
    let eval = Evaluator::new();
    let r = eval
        .eval(&Expr::Literal(Literal::Int(2147483647)), &HostFloats)
        .unwrap();
    assert!(matches!(r, Value::I32(2147483647)));
    let r = eval
        .eval(&Expr::Literal(Literal::Int(2147483648)), &HostFloats)
        .unwrap();
    assert!(matches!(r, Value::I64(2147483648)));
    let r = eval
        .eval(
            &Expr::Literal(Literal::Int(9223372036854775808)),
            &HostFloats,
        )
        .unwrap();
    assert!(matches!(r, Value::I128(9223372036854775808)));
}

#[test]
fn test_cast_roundtrip_u8() {
    // widening to u32 and back preserves the u8 maximum
    let mut eval = Evaluator::new();
    eval.set_variable("v", Value::U8(255));
    let widened = Expr::Cast {
        expr: Box::new(Expr::Path(vec![ferrumpy_core::ast::PathSegment::Ident(
            "v".to_string(),
        )])),
        ty: "u32".to_string(),
    };
    let back = Expr::Cast {
        expr: Box::new(widened),
        ty: "u8".to_string(),
    };
    let r = eval.eval(&back, &HostFloats).unwrap();
    assert!(matches!(r, Value::U8(255)));
}

#[test]
fn test_cast_truncates_high_bits() {
    let eval = Evaluator::new();
    let expr = Expr::Cast {
        expr: Box::new(Expr::Literal(Literal::Int(300))),
        ty: "u8".to_string(),
    };
    let r = eval.eval(&expr, &HostFloats).unwrap();
    assert!(matches!(r, Value::U8(44)));
}

#[test]
fn test_cast_unknown_target() {
    let eval = Evaluator::new();
    let expr = Expr::Cast {
        expr: Box::new(Expr::Literal(Literal::Int(1))),
        ty: "String".to_string(),
    };
    match eval.eval(&expr, &HostFloats) {
        Err(EvalError::UnsupportedExpression { kind }) => {
            assert_eq!(kind, "cast to String");
        }
        other => panic!("expected UnsupportedExpression, got {:?}", other),
    }
}

#[test]
fn test_unary_negation_and_not() {
    let eval = Evaluator::new();
    let neg = Expr::Unary {
        op: UnaryOp::Neg,
        expr: Box::new(Expr::Literal(Literal::Int(5))),
    };
    assert!(matches!(
        eval.eval(&neg, &HostFloats).unwrap(),
        Value::I32(-5)
    ));
    let not = Expr::Unary {
        op: UnaryOp::Not,
        expr: Box::new(Expr::Literal(Literal::Bool(true))),
    };
    assert!(matches!(
        eval.eval(&not, &HostFloats).unwrap(),
        Value::Bool(false)
    ));
}

#[test]
fn test_negate_minimum_fails() {
    let mut eval = Evaluator::new();
    eval.set_variable("m", Value::I8(i8::MIN));
    let neg = Expr::Unary {
        op: UnaryOp::Neg,
        expr: Box::new(Expr::Path(vec![ferrumpy_core::ast::PathSegment::Ident(
            "m".to_string(),
        )])),
    };
    assert!(matches!(
        eval.eval(&neg, &HostFloats),
        Err(EvalError::Internal(_))
    ));
}

#[test]
fn test_overflow_is_internal_error() {
    let mut eval = Evaluator::new();
    eval.set_variable("a", Value::I128(i128::MAX));
    eval.set_variable("b", Value::I128(1));
    let expr = Expr::Binary {
        left: Box::new(Expr::Path(vec![ferrumpy_core::ast::PathSegment::Ident(
            "a".to_string(),
        )])),
        op: BinOp::Add,
        right: Box::new(Expr::Path(vec![ferrumpy_core::ast::PathSegment::Ident(
            "b".to_string(),
        )])),
    };
    assert!(matches!(
        eval.eval(&expr, &HostFloats),
        Err(EvalError::Internal(_))
    ));
}

#[test]
fn test_narrow_arithmetic_truncates() {
    // 200 + 100 over u8 wraps through the 128-bit intermediate
    let mut eval = Evaluator::new();
    eval.set_variable("a", Value::U8(200));
    eval.set_variable("b", Value::U8(100));
    let expr = Expr::Binary {
        left: Box::new(Expr::Path(vec![ferrumpy_core::ast::PathSegment::Ident(
            "a".to_string(),
        )])),
        op: BinOp::Add,
        right: Box::new(Expr::Path(vec![ferrumpy_core::ast::PathSegment::Ident(
            "b".to_string(),
        )])),
    };
    assert!(matches!(
        eval.eval(&expr, &HostFloats).unwrap(),
        Value::U8(44)
    ));
}

#[test]
fn test_bitwise_and_shift() {
    let eval = Evaluator::new();
    let and = Expr::Binary {
        left: Box::new(Expr::Literal(Literal::Int(12))),
        op: BinOp::BitAnd,
        right: Box::new(Expr::Literal(Literal::Int(10))),
    };
    assert!(matches!(
        eval.eval(&and, &HostFloats).unwrap(),
        Value::I32(8)
    ));
    let shl = Expr::Binary {
        left: Box::new(Expr::Literal(Literal::Int(1))),
        op: BinOp::Shl,
        right: Box::new(Expr::Literal(Literal::Int(4))),
    };
    assert!(matches!(
        eval.eval(&shl, &HostFloats).unwrap(),
        Value::I32(16)
    ));
}

#[test]
fn test_logical_operators() {
    let eval = Evaluator::new();
    let or = Expr::Binary {
        left: Box::new(Expr::Literal(Literal::Bool(false))),
        op: BinOp::Or,
        right: Box::new(Expr::Literal(Literal::Bool(true))),
    };
    assert!(matches!(
        eval.eval(&or, &HostFloats).unwrap(),
        Value::Bool(true)
    ));
}

#[test]
fn test_deref_unsupported() {
    let eval = Evaluator::new();
    let expr = Expr::Unary {
        op: UnaryOp::Deref,
        expr: Box::new(Expr::Literal(Literal::Int(1))),
    };
    assert!(matches!(
        eval.eval(&expr, &HostFloats),
        Err(EvalError::UnsupportedExpression { .. })
    ));
}

#[test]
fn test_no_float_unit_leaves_integers_alone() {
    // the placeholder float unit changes nothing about integer work
    let eval = Evaluator::new();
    let expr = Expr::Binary {
        left: Box::new(Expr::Literal(Literal::Int(6))),
        op: BinOp::Mul,
        right: Box::new(Expr::Literal(Literal::Int(7))),
    };
    assert!(matches!(
        eval.eval(&expr, &NoFloatOps).unwrap(),
        Value::I32(42)
    ));
}

#[test]
fn test_set_variable_overwrites() {
    let mut eval = Evaluator::new();
    eval.set_variable("x", Value::I32(1));
    eval.set_variable("x", Value::I32(2));
    let expr = Expr::Path(vec![ferrumpy_core::ast::PathSegment::Ident(
        "x".to_string(),
    )]);
    assert!(matches!(
        eval.eval(&expr, &HostFloats).unwrap(),
        Value::I32(2)
    ));
}

#[test]
fn test_string_and_char_literals() {
    let eval = Evaluator::new();
    let s = Expr::Literal(Literal::String("hello".to_string()));
    match eval.eval(&s, &HostFloats).unwrap() {
        Value::String(v) => assert_eq!(v, "hello"),
        other => panic!("expected String, got {:?}", other),
    }
    let c = Expr::Literal(Literal::Char('x'));
    assert!(matches!(
        eval.eval(&c, &HostFloats).unwrap(),
        Value::Char('x')
    ));
}

#[test]
fn test_f32_arithmetic_keeps_width() {
    let mut eval = Evaluator::new();
    eval.set_variable("a", Value::F32(1.5f32.to_bits()));
    eval.set_variable("b", Value::F32(0.25f32.to_bits()));
    let expr = Expr::Binary {
        left: Box::new(Expr::Path(vec![ferrumpy_core::ast::PathSegment::Ident(
            "a".to_string(),
        )])),
        op: BinOp::Add,
        right: Box::new(Expr::Path(vec![ferrumpy_core::ast::PathSegment::Ident(
            "b".to_string(),
        )])),
    };
    match eval.eval(&expr, &HostFloats).unwrap() {
        Value::F32(bits) => assert_eq!(f32::from_bits(bits), 1.75),
        other => panic!("expected F32, got {:?}", other),
    }
}

#[test]
fn test_huge_u128_operands_are_invalid() {
    // a u128 above the 128-bit signed range cannot be widened, so
    // arithmetic on it is an invalid operation rather than a wrap
    let mut eval = Evaluator::new();
    eval.set_variable("a", Value::U128(u128::MAX));
    eval.set_variable("b", Value::U128(1));
    let expr = Expr::Binary {
        left: Box::new(Expr::Path(vec![ferrumpy_core::ast::PathSegment::Ident(
            "a".to_string(),
        )])),
        op: BinOp::Add,
        right: Box::new(Expr::Path(vec![ferrumpy_core::ast::PathSegment::Ident(
            "b".to_string(),
        )])),
    };
    assert!(matches!(
        eval.eval(&expr, &HostFloats),
        Err(EvalError::InvalidOperation { .. })
    ));
}

#[test]
fn test_paren_preserves_value() {
    let eval = Evaluator::new();
    let expr = Expr::Paren(Box::new(Expr::Literal(Literal::Int(7))));
    assert!(matches!(
        eval.eval(&expr, &HostFloats).unwrap(),
        Value::I32(7)
    ));
}
