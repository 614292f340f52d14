//! Expression evaluator.
//!
//! Evaluates a restricted AST against a variable environment, enforcing
//! strict same-type operands, checked 128-bit intermediate arithmetic,
//! and truncating re-narrowing, as a single-pass recursive tree walk.
//!
//! The evaluator is verified against `spec_eval`, a total recursive
//! specification of the walk.  IEEE float arithmetic is delegated to a
//! caller-supplied `FloatOps` unit; the specification refers to that
//! unit's own mathematical model of its operations, so everything the
//! evaluator decides — type checking, error taxonomy, integer results,
//! which float operation is applied to which bits — is pinned exactly,
//! while the float bits themselves are whatever the unit computes.

use vstd::prelude::*;
use vstd::pervasive::VecAdditionalExecFns;
use vstd::string::StringExecFns;

use crate::ast::{BinOp, Expr, Literal, PathSegment, UnaryOp, spec_binop_str};
use crate::error::{ErrSpec, EvalError};
use crate::text::{spec_trim, str_eq, trim_str};
use crate::value::{
    IntType, Value, spec_int_type, spec_is_integer, spec_is_signed, spec_same_type, spec_to_bool,
    spec_to_i128, spec_type_label,
};

verus! {

/// IEEE 754 arithmetic on raw bit patterns, supplied by the caller.
///
/// The evaluator itself works entirely in integer arithmetic; whenever an
/// operation on float values is required it delegates to this unit,
/// handing over the operands' bit patterns.  Each executable method is
/// specified only against the implementation's own model of that
/// operation (`*_model`), so the library proves how the unit is driven,
/// never what IEEE arithmetic returns.  An implementation backed by the
/// host's native floats lives with the embedding program and in the test
/// suite; `NoFloatOps` is a verified placeholder for float-free use.
pub trait FloatOps {
    /// Model of `a op b` on 64-bit floats.
    spec fn arith_model(&self, op: BinOp, a: u64, b: u64) -> u64;

    /// Model of the IEEE comparison `a op b` on 64-bit floats.
    spec fn cmp_model(&self, op: BinOp, a: u64, b: u64) -> bool;

    /// Model of the negation of a 64-bit float.
    spec fn neg_model(&self, a: u64) -> u64;

    /// Model of widening a 32-bit float to 64 bits.
    spec fn widen_model(&self, a: u32) -> u64;

    /// Model of narrowing a 64-bit float to 32 bits.
    spec fn narrow_model(&self, a: u64) -> u32;

    /// Model of converting a 128-bit signed integer to a 64-bit float.
    spec fn of_int_f64_model(&self, v: i128) -> u64;

    /// Model of converting a 128-bit signed integer to a 32-bit float.
    spec fn of_int_f32_model(&self, v: i128) -> u32;

    /// Model of the saturating conversion of a 64-bit float to the
    /// integer type `target`, widened back to 128-bit signed.
    spec fn to_int_model(&self, a: u64, target: IntType) -> i128;

    /// Model of the saturating conversion of a 64-bit float to a
    /// 128-bit unsigned integer.
    spec fn to_u128_model(&self, a: u64) -> u128;

    /// Bits of `a op b` on 64-bit floats; `op` is one of the five
    /// arithmetic operators.
    fn f64_arith(&self, op: BinOp, a: u64, b: u64) -> (r: u64)
        ensures
            r == self.arith_model(op, a, b),
    ;

    /// IEEE comparison of two 64-bit floats; `op` is one of the six
    /// comparison operators.
    fn f64_compare(&self, op: BinOp, a: u64, b: u64) -> (r: bool)
        ensures
            r == self.cmp_model(op, a, b),
    ;

    /// Bits of the negation of a 64-bit float.
    fn f64_neg(&self, a: u64) -> (r: u64)
        ensures
            r == self.neg_model(a),
    ;

    /// Exact widening of a 32-bit float to 64 bits.
    fn f32_to_f64(&self, a: u32) -> (r: u64)
        ensures
            r == self.widen_model(a),
    ;

    /// Narrowing of a 64-bit float to 32 bits, rounding to nearest.
    fn f64_to_f32(&self, a: u64) -> (r: u32)
        ensures
            r == self.narrow_model(a),
    ;

    /// Conversion of a 128-bit signed integer to a 64-bit float.
    fn i128_to_f64(&self, v: i128) -> (r: u64)
        ensures
            r == self.of_int_f64_model(v),
    ;

    /// Conversion of a 128-bit signed integer to a 32-bit float.
    fn i128_to_f32(&self, v: i128) -> (r: u32)
        ensures
            r == self.of_int_f32_model(v),
    ;

    /// Saturating conversion of a 64-bit float to the integer type
    /// `target`, widened back to 128-bit signed; `target` is never
    /// `U128`.
    fn f64_to_int(&self, a: u64, target: IntType) -> (r: i128)
        ensures
            r == self.to_int_model(a, target),
    ;

    /// Saturating conversion of a 64-bit float to a 128-bit unsigned
    /// integer.
    fn f64_to_u128(&self, a: u64) -> (r: u128)
        ensures
            r == self.to_u128_model(a),
    ;
}

/// A float unit that maps every operation to zero bits.
///
/// Useful where no host float arithmetic is wanted: evaluation of
/// float-free expressions is unaffected by the unit, and every float
/// operation deterministically yields the zero pattern.
pub struct NoFloatOps;

impl FloatOps for NoFloatOps {
    open spec fn arith_model(&self, op: BinOp, a: u64, b: u64) -> u64 {
        0
    }

    open spec fn cmp_model(&self, op: BinOp, a: u64, b: u64) -> bool {
        false
    }

    open spec fn neg_model(&self, a: u64) -> u64 {
        0
    }

    open spec fn widen_model(&self, a: u32) -> u64 {
        0
    }

    open spec fn narrow_model(&self, a: u64) -> u32 {
        0
    }

    open spec fn of_int_f64_model(&self, v: i128) -> u64 {
        0
    }

    open spec fn of_int_f32_model(&self, v: i128) -> u32 {
        0
    }

    open spec fn to_int_model(&self, a: u64, target: IntType) -> i128 {
        0
    }

    open spec fn to_u128_model(&self, a: u64) -> u128 {
        0
    }

    fn f64_arith(&self, op: BinOp, a: u64, b: u64) -> (r: u64) {
        0
    }

    fn f64_compare(&self, op: BinOp, a: u64, b: u64) -> (r: bool) {
        false
    }

    fn f64_neg(&self, a: u64) -> (r: u64) {
        0
    }

    fn f32_to_f64(&self, a: u32) -> (r: u64) {
        0
    }

    fn f64_to_f32(&self, a: u64) -> (r: u32) {
        0
    }

    fn i128_to_f64(&self, v: i128) -> (r: u64) {
        0
    }

    fn i128_to_f32(&self, v: i128) -> (r: u32) {
        0
    }

    fn f64_to_int(&self, a: u64, target: IntType) -> (r: i128) {
        0
    }

    fn f64_to_u128(&self, a: u64) -> (r: u128) {
        0
    }
}

/// Variable environment: name/value pairs, the earliest binding of a
/// name winning on lookup (the evaluator keeps names unique).
pub type VarContext = Vec<(String, Value)>;

/// The value bound to `name`, scanning pairs front to back.
pub open spec fn spec_lookup(env: Seq<(String, Value)>, name: Seq<char>) -> Option<Value>
    decreases env.len(),
{
    if env.len() == 0 {
        None
    } else if env[0].0@ == name {
        Some(env[0].1)
    } else {
        spec_lookup(env.skip(1), name)
    }
}

/// Clamp to the representable range of the 128-bit signed currency.
pub open spec fn spec_checked(v: int) -> Option<i128> {
    if i128::MIN <= v <= i128::MAX {
        Some(v as i128)
    } else {
        None
    }
}

/// Rust's truncating integer division (rounds toward zero).
pub open spec fn spec_rust_div(a: int, b: int) -> int
    recommends
        b != 0,
{
    if a >= 0 && b > 0 {
        a / b
    } else if a <= 0 && b < 0 {
        (-a) / (-b)
    } else if a < 0 {
        -((-a) / b)
    } else {
        -(a / (-b))
    }
}

/// Rust's remainder (result has the sign of the dividend).
pub open spec fn spec_rust_rem(a: int, b: int) -> int
    recommends
        b != 0,
{
    if a >= 0 && b > 0 {
        a % b
    } else if a <= 0 && b < 0 {
        -((-a) % (-b))
    } else if a < 0 {
        -((-a) % b)
    } else {
        a % (-b)
    }
}

/// Re-narrow a 128-bit intermediate to the width and signedness given by
/// `t`, truncating high-order bits.
pub open spec fn spec_narrow(t: IntType, v: i128) -> Value {
    match t {
        IntType::I8 => Value::I8(v as i8),
        IntType::I16 => Value::I16(v as i16),
        IntType::I32 => Value::I32(v as i32),
        IntType::I64 => Value::I64(v as i64),
        IntType::I128 => Value::I128(v),
        IntType::Isize => Value::Isize(v as isize),
        IntType::U8 => Value::U8(v as u8),
        IntType::U16 => Value::U16(v as u16),
        IntType::U32 => Value::U32(v as u32),
        IntType::U64 => Value::U64(v as u64),
        IntType::U128 => Value::U128(v as u128),
        IntType::Usize => Value::Usize(v as usize),
    }
}

/// The smallest representable value of a signed integer type; zero for
/// the unsigned ones.
pub open spec fn spec_int_min(t: IntType) -> int {
    match t {
        IntType::I8 => i8::MIN as int,
        IntType::I16 => i16::MIN as int,
        IntType::I32 => i32::MIN as int,
        IntType::I64 => i64::MIN as int,
        IntType::I128 => i128::MIN as int,
        IntType::Isize => isize::MIN as int,
        _ => 0,
    }
}

/// The default width of an integer literal: the narrowest of `i32`,
/// `i64`, `i128` that holds it.  Float literals are 64-bit; the other
/// literals map directly.
pub open spec fn spec_literal_value(lit: Literal) -> Value {
    match lit {
        Literal::Int(v) => if i32::MIN as i128 <= v <= i32::MAX as i128 {
            Value::I32(v as i32)
        } else if i64::MIN as i128 <= v <= i64::MAX as i128 {
            Value::I64(v as i64)
        } else {
            Value::I128(v)
        },
        Literal::Float(bits) => Value::F64(bits),
        Literal::Bool(b) => Value::Bool(b),
        Literal::Char(c) => Value::Char(c),
        Literal::String(s) => Value::String(s),
    }
}

/// True for the five arithmetic operators.
pub open spec fn spec_is_arith(op: BinOp) -> bool {
    op is Add || op is Sub || op is Mul || op is Div || op is Rem
}

/// True for the six comparison operators.
pub open spec fn spec_is_cmp(op: BinOp) -> bool {
    op is Eq || op is Ne || op is Lt || op is Le || op is Gt || op is Ge
}

/// True for the two logical operators.
pub open spec fn spec_is_logical(op: BinOp) -> bool {
    op is And || op is Or
}

/// The error reported for operand types incompatible with an operator.
pub open spec fn spec_invalid_op(op: BinOp, l: Value, r: Value) -> ErrSpec {
    ErrSpec::InvalidOperation {
        op: spec_binop_str(op),
        left: spec_type_label(l),
        right: spec_type_label(r),
    }
}

/// The internal error reported for checked-arithmetic overflow.
pub open spec fn spec_overflow() -> ErrSpec {
    ErrSpec::Internal { message: "overflow"@ }
}

/// A checked 128-bit intermediate becomes the final outcome: overflow is
/// an internal error, anything else is re-narrowed to `t`.
pub open spec fn spec_int_outcome(t: IntType, res: Option<i128>) -> Result<Value, ErrSpec> {
    match res {
        Some(v) => Ok(spec_narrow(t, v)),
        None => Err(spec_overflow()),
    }
}

/// Arithmetic on two same-typed operands: integers are computed checked
/// on the widened values and re-narrowed; floats go through the float
/// unit (32-bit floats are widened, computed at 64 bits, narrowed back).
pub open spec fn spec_arith_eval<F: FloatOps>(l: Value, op: BinOp, r: Value, fp: F) -> Result<
    Value,
    ErrSpec,
>
    recommends
        spec_same_type(l, r),
        spec_is_arith(op),
{
    match (spec_to_i128(l), spec_to_i128(r)) {
        (Some(a), Some(b)) => {
            let t = spec_int_type(l);
            match op {
                BinOp::Add => spec_int_outcome(t, spec_checked(a + b)),
                BinOp::Sub => spec_int_outcome(t, spec_checked(a - b)),
                BinOp::Mul => spec_int_outcome(t, spec_checked(a * b)),
                BinOp::Div => if b == 0 {
                    Err(ErrSpec::DivisionByZero)
                } else {
                    spec_int_outcome(t, spec_checked(spec_rust_div(a as int, b as int)))
                },
                _ => if b == 0 {
                    Err(ErrSpec::DivisionByZero)
                } else if a == i128::MIN && b == -1 {
                    Err(spec_overflow())
                } else {
                    spec_int_outcome(t, spec_checked(spec_rust_rem(a as int, b as int)))
                },
            }
        },
        _ => {
            if l is F32 && r is F32 {
                Ok(
                    Value::F32(
                        fp.narrow_model(
                            fp.arith_model(op, fp.widen_model(l->F32_0), fp.widen_model(r->F32_0)),
                        ),
                    ),
                )
            } else if l is F64 && r is F64 {
                Ok(Value::F64(fp.arith_model(op, l->F64_0, r->F64_0)))
            } else {
                Err(spec_invalid_op(op, l, r))
            }
        },
    }
}

/// Comparison on two same-typed operands: integers via the widened
/// value, floats via the float unit, booleans only for equality; all
/// yield `Bool`.
pub open spec fn spec_cmp_eval<F: FloatOps>(l: Value, op: BinOp, r: Value, fp: F) -> Result<
    Value,
    ErrSpec,
>
    recommends
        spec_same_type(l, r),
        spec_is_cmp(op),
{
    match (spec_to_i128(l), spec_to_i128(r)) {
        (Some(a), Some(b)) => Ok(
            Value::Bool(
                match op {
                    BinOp::Eq => a == b,
                    BinOp::Ne => a != b,
                    BinOp::Lt => a < b,
                    BinOp::Le => a <= b,
                    BinOp::Gt => a > b,
                    _ => a >= b,
                },
            ),
        ),
        _ => {
            if l is F32 && r is F32 {
                Ok(
                    Value::Bool(
                        fp.cmp_model(op, fp.widen_model(l->F32_0), fp.widen_model(r->F32_0)),
                    ),
                )
            } else if l is F64 && r is F64 {
                Ok(Value::Bool(fp.cmp_model(op, l->F64_0, r->F64_0)))
            } else {
                match (spec_to_bool(l), spec_to_bool(r)) {
                    (Some(x), Some(y)) => match op {
                        BinOp::Eq => Ok(Value::Bool(x == y)),
                        BinOp::Ne => Ok(Value::Bool(x != y)),
                        _ => Err(
                            ErrSpec::InvalidOperation {
                                op: spec_binop_str(op),
                                left: "bool"@,
                                right: "bool"@,
                            },
                        ),
                    },
                    _ => Err(spec_invalid_op(op, l, r)),
                }
            }
        },
    }
}

/// Logical `&&` / `||` on two same-typed operands: both must be boolean;
/// both are already evaluated, so there is no short-circuit.
pub open spec fn spec_logical_eval(l: Value, op: BinOp, r: Value) -> Result<Value, ErrSpec>
    recommends
        spec_same_type(l, r),
        spec_is_logical(op),
{
    match (spec_to_bool(l), spec_to_bool(r)) {
        (Some(a), Some(b)) => Ok(
            Value::Bool(
                match op {
                    BinOp::And => a && b,
                    _ => a || b,
                },
            ),
        ),
        _ => Err(spec_invalid_op(op, l, r)),
    }
}

/// Bitwise operations on two same-typed integer operands, computed on
/// the widened value; shift amounts are taken from the right operand's
/// low bits.
pub open spec fn spec_bitwise_eval(l: Value, op: BinOp, r: Value) -> Result<Value, ErrSpec>
    recommends
        spec_same_type(l, r),
{
    match (spec_to_i128(l), spec_to_i128(r)) {
        (Some(a), Some(b)) => {
            let t = spec_int_type(l);
            match op {
                BinOp::BitAnd => Ok(spec_narrow(t, a & b)),
                BinOp::BitOr => Ok(spec_narrow(t, a | b)),
                BinOp::BitXor => Ok(spec_narrow(t, a ^ b)),
                BinOp::Shl => Ok(spec_narrow(t, a.wrapping_shl(b as u32))),
                _ => Ok(spec_narrow(t, a.wrapping_shr(b as u32))),
            }
        },
        _ => Err(spec_invalid_op(op, l, r)),
    }
}

/// A binary operator applied to two evaluated operands: operand types
/// must match exactly, then the operator's category decides.
pub open spec fn spec_binop_eval<F: FloatOps>(l: Value, op: BinOp, r: Value, fp: F) -> Result<
    Value,
    ErrSpec,
> {
    if !spec_same_type(l, r) {
        Err(spec_invalid_op(op, l, r))
    } else if spec_is_arith(op) {
        spec_arith_eval(l, op, r, fp)
    } else if spec_is_cmp(op) {
        spec_cmp_eval(l, op, r, fp)
    } else if spec_is_logical(op) {
        spec_logical_eval(l, op, r)
    } else {
        spec_bitwise_eval(l, op, r)
    }
}

/// A unary operator applied to an evaluated operand.  Integer negation
/// is checked: the minimum representable value of the operand's width
/// fails rather than wraps.  `!` is logical on booleans and bitwise on
/// integers.  Deref and Ref always fail: they need live-process access.
pub open spec fn spec_unary_eval<F: FloatOps>(op: UnaryOp, v: Value, fp: F) -> Result<
    Value,
    ErrSpec,
> {
    match op {
        UnaryOp::Neg => match spec_to_i128(v) {
            Some(a) => if spec_is_signed(v) {
                let t = spec_int_type(v);
                if a == spec_int_min(t) {
                    Err(spec_overflow())
                } else {
                    Ok(spec_narrow(t, (-(a as int)) as i128))
                }
            } else {
                Err(
                    ErrSpec::InvalidOperation {
                        op: "-"@,
                        left: spec_type_label(v),
                        right: ""@,
                    },
                )
            },
            None => if v is F32 {
                Ok(Value::F32(fp.narrow_model(fp.neg_model(fp.widen_model(v->F32_0)))))
            } else if v is F64 {
                Ok(Value::F64(fp.neg_model(v->F64_0)))
            } else {
                Err(
                    ErrSpec::InvalidOperation {
                        op: "-"@,
                        left: spec_type_label(v),
                        right: ""@,
                    },
                )
            },
        },
        UnaryOp::Not => match spec_to_bool(v) {
            Some(b) => Ok(Value::Bool(!b)),
            None => match spec_to_i128(v) {
                Some(a) => Ok(spec_narrow(spec_int_type(v), !a)),
                None => Err(
                    ErrSpec::InvalidOperation {
                        op: "!"@,
                        left: spec_type_label(v),
                        right: ""@,
                    },
                ),
            },
        },
        UnaryOp::Deref | UnaryOp::Ref => Err(
            ErrSpec::Unsupported {
                kind: "dereference/reference operators (requires runtime integration)"@,
            },
        ),
    }
}

/// A cast applied to an evaluated operand.  Only numeric sources are
/// castable; integer-to-integer casts truncate through the 128-bit
/// intermediate; casts into or out of floats go through the float unit.
pub open spec fn spec_cast_eval<F: FloatOps>(v: Value, ty: Seq<char>, fp: F) -> Result<
    Value,
    ErrSpec,
> {
    let t = spec_trim(ty);
    match spec_to_i128(v) {
        Some(a) => {
            if t == "i8"@ {
                Ok(spec_narrow(IntType::I8, a))
            } else if t == "i16"@ {
                Ok(spec_narrow(IntType::I16, a))
            } else if t == "i32"@ {
                Ok(spec_narrow(IntType::I32, a))
            } else if t == "i64"@ {
                Ok(spec_narrow(IntType::I64, a))
            } else if t == "i128"@ {
                Ok(spec_narrow(IntType::I128, a))
            } else if t == "isize"@ {
                Ok(spec_narrow(IntType::Isize, a))
            } else if t == "u8"@ {
                Ok(spec_narrow(IntType::U8, a))
            } else if t == "u16"@ {
                Ok(spec_narrow(IntType::U16, a))
            } else if t == "u32"@ {
                Ok(spec_narrow(IntType::U32, a))
            } else if t == "u64"@ {
                Ok(spec_narrow(IntType::U64, a))
            } else if t == "u128"@ {
                Ok(spec_narrow(IntType::U128, a))
            } else if t == "usize"@ {
                Ok(spec_narrow(IntType::Usize, a))
            } else if t == "f32"@ {
                Ok(Value::F32(fp.of_int_f32_model(a)))
            } else if t == "f64"@ {
                Ok(Value::F64(fp.of_int_f64_model(a)))
            } else {
                Err(ErrSpec::Unsupported { kind: "cast to "@ + t })
            }
        },
        None => if v is F32 || v is F64 {
            let w = if v is F32 {
                fp.widen_model(v->F32_0)
            } else {
                v->F64_0
            };
            if t == "i8"@ {
                Ok(spec_narrow(IntType::I8, fp.to_int_model(w, IntType::I8)))
            } else if t == "i16"@ {
                Ok(spec_narrow(IntType::I16, fp.to_int_model(w, IntType::I16)))
            } else if t == "i32"@ {
                Ok(spec_narrow(IntType::I32, fp.to_int_model(w, IntType::I32)))
            } else if t == "i64"@ {
                Ok(spec_narrow(IntType::I64, fp.to_int_model(w, IntType::I64)))
            } else if t == "i128"@ {
                Ok(Value::I128(fp.to_int_model(w, IntType::I128)))
            } else if t == "isize"@ {
                Ok(spec_narrow(IntType::Isize, fp.to_int_model(w, IntType::Isize)))
            } else if t == "u8"@ {
                Ok(spec_narrow(IntType::U8, fp.to_int_model(w, IntType::U8)))
            } else if t == "u16"@ {
                Ok(spec_narrow(IntType::U16, fp.to_int_model(w, IntType::U16)))
            } else if t == "u32"@ {
                Ok(spec_narrow(IntType::U32, fp.to_int_model(w, IntType::U32)))
            } else if t == "u64"@ {
                Ok(spec_narrow(IntType::U64, fp.to_int_model(w, IntType::U64)))
            } else if t == "u128"@ {
                Ok(Value::U128(fp.to_u128_model(w)))
            } else if t == "usize"@ {
                Ok(spec_narrow(IntType::Usize, fp.to_int_model(w, IntType::Usize)))
            } else if t == "f32"@ {
                Ok(Value::F32(fp.narrow_model(w)))
            } else if t == "f64"@ {
                Ok(Value::F64(w))
            } else {
                Err(ErrSpec::Unsupported { kind: "cast to "@ + t })
            }
        } else {
            Err(
                ErrSpec::Unsupported {
                    kind: "cast from "@ + spec_type_label(v) + " to "@ + t,
                },
            )
        },
    }
}

/// A path expression: a lone identifier is an environment lookup; longer
/// paths need live-value introspection and are unsupported.
pub open spec fn spec_path_eval(segs: Seq<PathSegment>, env: Seq<(String, Value)>) -> Result<
    Value,
    ErrSpec,
> {
    if segs.len() == 0 {
        Err(ErrSpec::Internal { message: "empty path"@ })
    } else {
        match segs[0] {
            PathSegment::Ident(name) => match spec_lookup(env, name@) {
                None => Err(ErrSpec::UnknownVariable { name: name@ }),
                Some(v) => if segs.len() > 1 {
                    Err(
                        ErrSpec::Unsupported {
                            kind: "field access (requires runtime integration)"@,
                        },
                    )
                } else {
                    Ok(v)
                },
            },
            _ => Err(ErrSpec::Internal { message: "path must start with identifier"@ }),
        }
    }
}

/// What the evaluator returns for `e` under environment `env`, with
/// float arithmetic given by `fp`'s model: a left-to-right,
/// error-propagating recursive tree walk.
pub open spec fn spec_eval<F: FloatOps>(e: Expr, env: Seq<(String, Value)>, fp: F) -> Result<
    Value,
    ErrSpec,
>
    decreases e,
{
    match e {
        Expr::Path(segments) => spec_path_eval(segments@, env),
        Expr::Literal(lit) => Ok(spec_literal_value(lit)),
        Expr::Paren(inner) => spec_eval(*inner, env, fp),
        Expr::Binary { left, op, right } => match spec_eval(*left, env, fp) {
            Err(m) => Err(m),
            Ok(lv) => match spec_eval(*right, env, fp) {
                Err(m) => Err(m),
                Ok(rv) => spec_binop_eval(lv, op, rv, fp),
            },
        },
        Expr::Unary { op, expr } => match spec_eval(*expr, env, fp) {
            Err(m) => Err(m),
            Ok(v) => spec_unary_eval(op, v, fp),
        },
        Expr::Cast { expr, ty } => match spec_eval(*expr, env, fp) {
            Err(m) => Err(m),
            Ok(v) => spec_cast_eval(v, ty@, fp),
        },
    }
}

/// An executable outcome realizes a specified one: success carries the
/// very same value, failure an error whose model is the specified error.
pub open spec fn res_matches(r: Result<Value, EvalError>, m: Result<Value, ErrSpec>) -> bool {
    match r {
        Ok(v) => m matches Ok(w) && v == w,
        Err(e) => m matches Err(me) && e@ == me,
    }
}

/// Expression evaluator: a read-only variable environment plus the
/// recursive tree walk.
pub struct Evaluator {
    /// Variables available in scope.
    variables: VarContext,
}

impl Evaluator {
    /// The environment as a sequence of name/value pairs.
    pub closed spec fn env(self) -> Seq<(String, Value)> {
        self.variables@
    }

    pub fn new() -> (r: Self)
        ensures
            r.env().len() == 0,
    {
        Evaluator { variables: Vec::new() }
    }

    pub fn with_variables(variables: VarContext) -> (r: Self)
        ensures
            r.env() == variables@,
    {
        Evaluator { variables }
    }

    /// Add or update a variable.
    #[verifier::loop_isolation(false)]
    pub fn set_variable(&mut self, name: &str, value: Value)
        ensures
            spec_lookup(final(self).env(), name@) == Some(value),
            forall|n: Seq<char>| n != name@ ==> spec_lookup(final(self).env(), n) == spec_lookup(
                old(self).env(),
                n,
            ),
    {
        let ghost env0 = self.variables@;
        let n = self.variables.len();
        let mut i: usize = 0;
        while i < n
            invariant
                n == env0.len(),
                self.variables@ == env0,
                i <= n,
                forall|j: int| 0 <= j < i ==> env0[j].0@ != name@,
            decreases n - i,
        {
            if str_eq(self.variables[i].0.as_str(), name) {
                let key = self.variables[i].0.clone();
                let ghost p = (key, value);
                self.variables.set(i, (key, value));
                proof {
                    lemma_lookup_update(env0, i as int, p);
                }
                return;
            }
            i = i + 1;
        }
        let key = name.to_owned();
        let ghost p = (key, value);
        self.variables.push((key, value));
        proof {
            lemma_lookup_push(env0, p);
        }
    }

    /// Evaluate an expression against the environment, delegating IEEE
    /// float arithmetic to `fp`.
    pub fn eval<F: FloatOps>(&self, expr: &Expr, fp: &F) -> (r: Result<Value, EvalError>)
        ensures
            res_matches(r, spec_eval(*expr, self.env(), *fp)),
        decreases *expr,
    {
        match expr {
            Expr::Path(segments) => self.eval_path(segments),
            Expr::Binary { left, op, right } => {
                let le: &Expr = &**left;
                let lres = self.eval(le, fp);
                if lres.is_err() {
                    return lres;
                }
                let l = lres.unwrap();
                let re: &Expr = &**right;
                let rres = self.eval(re, fp);
                if rres.is_err() {
                    return rres;
                }
                let r = rres.unwrap();
                self.apply_binop(&l, *op, &r, fp)
            },
            Expr::Unary { op, expr: operand } => {
                let oe: &Expr = &**operand;
                let vres = self.eval(oe, fp);
                if vres.is_err() {
                    return vres;
                }
                let v = vres.unwrap();
                self.apply_unary(*op, &v, fp)
            },
            Expr::Literal(lit) => Ok(self.literal_to_value(lit)),
            Expr::Paren(inner) => {
                let ie: &Expr = &**inner;
                self.eval(ie, fp)
            },
            Expr::Cast { expr: operand, ty } => {
                let oe: &Expr = &**operand;
                let vres = self.eval(oe, fp);
                if vres.is_err() {
                    return vres;
                }
                let v = vres.unwrap();
                self.cast_value(&v, ty.as_str(), fp)
            },
        }
    }

    /// Evaluate a path expression: a single identifier looks up a
    /// variable; anything longer is unsupported.
    #[verifier::loop_isolation(false)]
    fn eval_path(&self, segments: &Vec<PathSegment>) -> (r: Result<Value, EvalError>)
        ensures
            res_matches(r, spec_path_eval(segments@, self.env())),
    {
        if segments.len() == 0 {
            return Err(EvalError::Internal("empty path".to_owned()));
        }
        let seg0: &PathSegment = &segments[0];
        match seg0 {
            PathSegment::Ident(name) => {
                let ghost env = self.variables@;
                let n = self.variables.len();
                let mut i: usize = 0;
                while i < n
                    invariant
                        n == env.len(),
                        self.variables@ == env,
                        i <= n,
                        forall|j: int| 0 <= j < i ==> env[j].0@ != name@,
                    decreases n - i,
                {
                    if str_eq(self.variables[i].0.as_str(), name.as_str()) {
                        proof {
                            lemma_lookup_found(env, i as int, name@);
                        }
                        if segments.len() > 1 {
                            return Err(
                                EvalError::unsupported(
                                    "field access (requires runtime integration)",
                                ),
                            );
                        }
                        return Ok(self.variables[i].1.clone());
                    }
                    i = i + 1;
                }
                proof {
                    lemma_lookup_skip(env, n as int, name@);
                }
                Err(EvalError::unknown_var(name.as_str()))
            },
            _ => Err(EvalError::Internal("path must start with identifier".to_owned())),
        }
    }

    /// Convert a literal to a value; integer literals default to the
    /// narrowest of `i32`, `i64`, `i128` that holds them.
    fn literal_to_value(&self, lit: &Literal) -> (r: Value)
        ensures
            r == spec_literal_value(*lit),
    {
        match lit {
            Literal::Int(v) => {
                if *v >= i32::MIN as i128 && *v <= i32::MAX as i128 {
                    Value::I32(*v as i32)
                } else if *v >= i64::MIN as i128 && *v <= i64::MAX as i128 {
                    Value::I64(*v as i64)
                } else {
                    Value::I128(*v)
                }
            },
            Literal::Float(bits) => Value::F64(*bits),
            Literal::Bool(b) => Value::Bool(*b),
            Literal::Char(c) => Value::Char(*c),
            Literal::String(s) => Value::String(s.clone()),
        }
    }

    /// Apply a binary operator: operand types must match exactly, then
    /// the operator's category decides.
    fn apply_binop<F: FloatOps>(&self, left: &Value, op: BinOp, right: &Value, fp: &F) -> (r:
        Result<Value, EvalError>)
        ensures
            res_matches(r, spec_binop_eval(*left, op, *right, *fp)),
    {
        if !left.same_type(right) {
            return Err(
                EvalError::InvalidOperation {
                    op: op.as_str().to_owned(),
                    left: left.type_label().to_owned(),
                    right: right.type_label().to_owned(),
                },
            );
        }
        match op {
            BinOp::Add | BinOp::Sub | BinOp::Mul | BinOp::Div | BinOp::Rem => self
                .apply_arithmetic(left, op, right, fp),
            BinOp::Eq | BinOp::Ne | BinOp::Lt | BinOp::Le | BinOp::Gt | BinOp::Ge => self
                .apply_comparison(left, op, right, fp),
            BinOp::And | BinOp::Or => self.apply_logical(left, op, right),
            BinOp::BitAnd | BinOp::BitOr | BinOp::BitXor | BinOp::Shl | BinOp::Shr => self
                .apply_bitwise(left, op, right),
        }
    }

    /// Integer arithmetic is checked on the 128-bit widened values and
    /// re-narrowed; float arithmetic is delegated to the float unit.
    fn apply_arithmetic<F: FloatOps>(&self, left: &Value, op: BinOp, right: &Value, fp: &F) -> (r:
        Result<Value, EvalError>)
        requires
            spec_same_type(*left, *right),
            spec_is_arith(op),
        ensures
            res_matches(r, spec_arith_eval(*left, op, *right, *fp)),
    {
        let li = left.to_i128();
        let ri = right.to_i128();
        if li.is_some() && ri.is_some() {
            let l = li.unwrap();
            let r = ri.unwrap();
            let result: i128 = match op {
                BinOp::Add => match l.checked_add(r) {
                    Some(v) => v,
                    None => {
                        return Err(EvalError::Internal("overflow".to_owned()));
                    },
                },
                BinOp::Sub => match l.checked_sub(r) {
                    Some(v) => v,
                    None => {
                        return Err(EvalError::Internal("overflow".to_owned()));
                    },
                },
                BinOp::Mul => match l.checked_mul(r) {
                    Some(v) => v,
                    None => {
                        return Err(EvalError::Internal("overflow".to_owned()));
                    },
                },
                BinOp::Div => {
                    if r == 0 {
                        return Err(EvalError::DivisionByZero);
                    }
                    match l.checked_div(r) {
                        Some(v) => v,
                        None => {
                            return Err(EvalError::Internal("overflow".to_owned()));
                        },
                    }
                },
                _ => {
                    if r == 0 {
                        return Err(EvalError::DivisionByZero);
                    }
                    match l.checked_rem(r) {
                        Some(v) => v,
                        None => {
                            return Err(EvalError::Internal("overflow".to_owned()));
                        },
                    }
                },
            };
            return Ok(narrow_to(left, result));
        }
        match (left, right) {
            (Value::F32(a), Value::F32(b)) => {
                let wa = fp.f32_to_f64(*a);
                let wb = fp.f32_to_f64(*b);
                let res = fp.f64_arith(op, wa, wb);
                Ok(Value::F32(fp.f64_to_f32(res)))
            },
            (Value::F64(a), Value::F64(b)) => Ok(Value::F64(fp.f64_arith(op, *a, *b))),
            _ => Err(
                EvalError::InvalidOperation {
                    op: op.as_str().to_owned(),
                    left: left.type_label().to_owned(),
                    right: right.type_label().to_owned(),
                },
            ),
        }
    }

    /// Integers compare via the widened value, floats via the float
    /// unit, booleans support only equality; all yield `Bool`.
    fn apply_comparison<F: FloatOps>(&self, left: &Value, op: BinOp, right: &Value, fp: &F) -> (r:
        Result<Value, EvalError>)
        requires
            spec_same_type(*left, *right),
            spec_is_cmp(op),
        ensures
            res_matches(r, spec_cmp_eval(*left, op, *right, *fp)),
    {
        let li = left.to_i128();
        let ri = right.to_i128();
        if li.is_some() && ri.is_some() {
            let l = li.unwrap();
            let r = ri.unwrap();
            let result = match op {
                BinOp::Eq => l == r,
                BinOp::Ne => l != r,
                BinOp::Lt => l < r,
                BinOp::Le => l <= r,
                BinOp::Gt => l > r,
                _ => l >= r,
            };
            return Ok(Value::Bool(result));
        }
        match (left, right) {
            (Value::F32(a), Value::F32(b)) => {
                let wa = fp.f32_to_f64(*a);
                let wb = fp.f32_to_f64(*b);
                Ok(Value::Bool(fp.f64_compare(op, wa, wb)))
            },
            (Value::F64(a), Value::F64(b)) => Ok(Value::Bool(fp.f64_compare(op, *a, *b))),
            (Value::Bool(l), Value::Bool(r)) => match op {
                BinOp::Eq => Ok(Value::Bool(*l == *r)),
                BinOp::Ne => Ok(Value::Bool(*l != *r)),
                _ => Err(
                    EvalError::InvalidOperation {
                        op: op.as_str().to_owned(),
                        left: "bool".to_owned(),
                        right: "bool".to_owned(),
                    },
                ),
            },
            _ => Err(
                EvalError::InvalidOperation {
                    op: op.as_str().to_owned(),
                    left: left.type_label().to_owned(),
                    right: right.type_label().to_owned(),
                },
            ),
        }
    }

    /// Both operands must be boolean; both are already evaluated, so
    /// there is no short-circuit.
    fn apply_logical(&self, left: &Value, op: BinOp, right: &Value) -> (r: Result<Value, EvalError>)
        requires
            spec_same_type(*left, *right),
            spec_is_logical(op),
        ensures
            res_matches(r, spec_logical_eval(*left, op, *right)),
    {
        match (left, right) {
            (Value::Bool(l), Value::Bool(r)) => {
                let result = match op {
                    BinOp::And => *l && *r,
                    _ => *l || *r,
                };
                Ok(Value::Bool(result))
            },
            _ => Err(
                EvalError::InvalidOperation {
                    op: op.as_str().to_owned(),
                    left: left.type_label().to_owned(),
                    right: right.type_label().to_owned(),
                },
            ),
        }
    }

    /// Bitwise operations on the widened values; the shift amount comes
    /// from the right operand's low bits.
    fn apply_bitwise(&self, left: &Value, op: BinOp, right: &Value) -> (r: Result<Value, EvalError>)
        requires
            spec_same_type(*left, *right),
            !spec_is_arith(op),
            !spec_is_cmp(op),
            !spec_is_logical(op),
        ensures
            res_matches(r, spec_bitwise_eval(*left, op, *right)),
    {
        let li = left.to_i128();
        let ri = right.to_i128();
        if li.is_some() && ri.is_some() {
            let l = li.unwrap();
            let r = ri.unwrap();
            let result: i128 = match op {
                BinOp::BitAnd => l & r,
                BinOp::BitOr => l | r,
                BinOp::BitXor => l ^ r,
                BinOp::Shl => l.wrapping_shl(#[verifier::truncate] (r as u32)),
                _ => l.wrapping_shr(#[verifier::truncate] (r as u32)),
            };
            return Ok(narrow_to(left, result));
        }
        Err(
            EvalError::InvalidOperation {
                op: op.as_str().to_owned(),
                left: left.type_label().to_owned(),
                right: right.type_label().to_owned(),
            },
        )
    }

    /// Apply a unary operator; see `spec_unary_eval`.
    fn apply_unary<F: FloatOps>(&self, op: UnaryOp, value: &Value, fp: &F) -> (r: Result<
        Value,
        EvalError,
    >)
        ensures
            res_matches(r, spec_unary_eval(op, *value, *fp)),
    {
        match op {
            UnaryOp::Neg => {
                let vi = value.to_i128();
                if vi.is_some() {
                    let v = vi.unwrap();
                    match value {
                        Value::I8(_) => if v == i8::MIN as i128 {
                            Err(EvalError::Internal("overflow".to_owned()))
                        } else {
                            Ok(Value::I8(-v as i8))
                        },
                        Value::I16(_) => if v == i16::MIN as i128 {
                            Err(EvalError::Internal("overflow".to_owned()))
                        } else {
                            Ok(Value::I16(-v as i16))
                        },
                        Value::I32(_) => if v == i32::MIN as i128 {
                            Err(EvalError::Internal("overflow".to_owned()))
                        } else {
                            Ok(Value::I32(-v as i32))
                        },
                        Value::I64(_) => if v == i64::MIN as i128 {
                            Err(EvalError::Internal("overflow".to_owned()))
                        } else {
                            Ok(Value::I64(-v as i64))
                        },
                        Value::I128(_) => if v == i128::MIN {
                            Err(EvalError::Internal("overflow".to_owned()))
                        } else {
                            Ok(Value::I128(-v))
                        },
                        Value::Isize(_) => if v == isize::MIN as i128 {
                            Err(EvalError::Internal("overflow".to_owned()))
                        } else {
                            Ok(Value::Isize(-v as isize))
                        },
                        _ => Err(
                            EvalError::InvalidOperation {
                                op: "-".to_owned(),
                                left: value.type_label().to_owned(),
                                right: "".to_owned(),
                            },
                        ),
                    }
                } else {
                    match value {
                        Value::F32(a) => {
                            let w = fp.f32_to_f64(*a);
                            Ok(Value::F32(fp.f64_to_f32(fp.f64_neg(w))))
                        },
                        Value::F64(a) => Ok(Value::F64(fp.f64_neg(*a))),
                        _ => Err(
                            EvalError::InvalidOperation {
                                op: "-".to_owned(),
                                left: value.type_label().to_owned(),
                                right: "".to_owned(),
                            },
                        ),
                    }
                }
            },
            UnaryOp::Not => {
                match value.to_bool() {
                    Some(b) => Ok(Value::Bool(!b)),
                    None => {
                        let vi = value.to_i128();
                        match vi {
                            Some(v) => Ok(narrow_to(value, !v)),
                            None => Err(
                                EvalError::InvalidOperation {
                                    op: "!".to_owned(),
                                    left: value.type_label().to_owned(),
                                    right: "".to_owned(),
                                },
                            ),
                        }
                    },
                }
            },
            UnaryOp::Deref | UnaryOp::Ref => Err(
                EvalError::unsupported("dereference/reference operators (requires runtime integration)"),
            ),
        }
    }

    /// Cast a numeric value to the named target type; see
    /// `spec_cast_eval`.
    fn cast_value<F: FloatOps>(&self, value: &Value, ty: &str, fp: &F) -> (r: Result<
        Value,
        EvalError,
    >)
        ensures
            res_matches(r, spec_cast_eval(*value, ty@, *fp)),
    {
        let t = trim_str(ty);
        let vi = value.to_i128();
        if vi.is_some() {
            let v = vi.unwrap();
            if str_eq(t, "i8") {
                return Ok(Value::I8(#[verifier::truncate] (v as i8)));
            } else if str_eq(t, "i16") {
                return Ok(Value::I16(#[verifier::truncate] (v as i16)));
            } else if str_eq(t, "i32") {
                return Ok(Value::I32(#[verifier::truncate] (v as i32)));
            } else if str_eq(t, "i64") {
                return Ok(Value::I64(#[verifier::truncate] (v as i64)));
            } else if str_eq(t, "i128") {
                return Ok(Value::I128(v));
            } else if str_eq(t, "isize") {
                return Ok(Value::Isize(#[verifier::truncate] (v as isize)));
            } else if str_eq(t, "u8") {
                return Ok(Value::U8(#[verifier::truncate] (v as u8)));
            } else if str_eq(t, "u16") {
                return Ok(Value::U16(#[verifier::truncate] (v as u16)));
            } else if str_eq(t, "u32") {
                return Ok(Value::U32(#[verifier::truncate] (v as u32)));
            } else if str_eq(t, "u64") {
                return Ok(Value::U64(#[verifier::truncate] (v as u64)));
            } else if str_eq(t, "u128") {
                return Ok(Value::U128(#[verifier::truncate] (v as u128)));
            } else if str_eq(t, "usize") {
                return Ok(Value::Usize(#[verifier::truncate] (v as usize)));
            } else if str_eq(t, "f32") {
                return Ok(Value::F32(fp.i128_to_f32(v)));
            } else if str_eq(t, "f64") {
                return Ok(Value::F64(fp.i128_to_f64(v)));
            } else {
                let msg = String::from_str("cast to ").concat(t);
                return Err(EvalError::unsupported(msg.as_str()));
            }
        }
        match value {
            Value::F32(_) | Value::F64(_) => {
                let w: u64 = match value {
                    Value::F32(a) => fp.f32_to_f64(*a),
                    Value::F64(a) => *a,
                    _ => 0,
                };
                if str_eq(t, "i8") {
                    Ok(Value::I8(#[verifier::truncate] (fp.f64_to_int(w, IntType::I8) as i8)))
                } else if str_eq(t, "i16") {
                    Ok(Value::I16(#[verifier::truncate] (fp.f64_to_int(w, IntType::I16) as i16)))
                } else if str_eq(t, "i32") {
                    Ok(Value::I32(#[verifier::truncate] (fp.f64_to_int(w, IntType::I32) as i32)))
                } else if str_eq(t, "i64") {
                    Ok(Value::I64(#[verifier::truncate] (fp.f64_to_int(w, IntType::I64) as i64)))
                } else if str_eq(t, "i128") {
                    Ok(Value::I128(fp.f64_to_int(w, IntType::I128)))
                } else if str_eq(t, "isize") {
                    Ok(
                        Value::Isize(
                            #[verifier::truncate] (fp.f64_to_int(w, IntType::Isize) as isize),
                        ),
                    )
                } else if str_eq(t, "u8") {
                    Ok(Value::U8(#[verifier::truncate] (fp.f64_to_int(w, IntType::U8) as u8)))
                } else if str_eq(t, "u16") {
                    Ok(Value::U16(#[verifier::truncate] (fp.f64_to_int(w, IntType::U16) as u16)))
                } else if str_eq(t, "u32") {
                    Ok(Value::U32(#[verifier::truncate] (fp.f64_to_int(w, IntType::U32) as u32)))
                } else if str_eq(t, "u64") {
                    Ok(Value::U64(#[verifier::truncate] (fp.f64_to_int(w, IntType::U64) as u64)))
                } else if str_eq(t, "u128") {
                    Ok(Value::U128(fp.f64_to_u128(w)))
                } else if str_eq(t, "usize") {
                    Ok(
                        Value::Usize(
                            #[verifier::truncate] (fp.f64_to_int(w, IntType::Usize) as usize),
                        ),
                    )
                } else if str_eq(t, "f32") {
                    Ok(Value::F32(fp.f64_to_f32(w)))
                } else if str_eq(t, "f64") {
                    Ok(Value::F64(w))
                } else {
                    let msg = String::from_str("cast to ").concat(t);
                    Err(EvalError::unsupported(msg.as_str()))
                }
            },
            _ => {
                let msg = String::from_str("cast from ").concat(value.type_label()).concat(
                    " to ",
                ).concat(t);
                Err(EvalError::unsupported(msg.as_str()))
            },
        }
    }
}

impl Default for Evaluator {
    /// An evaluator with an empty environment.
    fn default() -> (r: Self)
        ensures
            r.env().len() == 0,
    {
        Evaluator::new()
    }
}

impl Value {
    /// Widen a float value to 64-bit float bits through the float unit;
    /// no implicit integer-to-float coercion.
    pub fn to_f64_bits<F: FloatOps>(&self, fp: &F) -> (r: Option<u64>)
        ensures
            match *self {
                Value::F32(a) => r == Some(fp.widen_model(a)),
                Value::F64(a) => r == Some(a),
                _ => r is None,
            },
    {
        match self {
            Value::F32(a) => Some(fp.f32_to_f64(*a)),
            Value::F64(a) => Some(*a),
            _ => None,
        }
    }
}

/// Build the integer variant of `template`'s type holding the truncation
/// of `v`.
fn narrow_to(template: &Value, v: i128) -> (r: Value)
    requires
        spec_is_integer(*template),
    ensures
        r == spec_narrow(spec_int_type(*template), v),
{
    match template {
        Value::I8(_) => Value::I8(#[verifier::truncate] (v as i8)),
        Value::I16(_) => Value::I16(#[verifier::truncate] (v as i16)),
        Value::I32(_) => Value::I32(#[verifier::truncate] (v as i32)),
        Value::I64(_) => Value::I64(#[verifier::truncate] (v as i64)),
        Value::I128(_) => Value::I128(v),
        Value::Isize(_) => Value::Isize(#[verifier::truncate] (v as isize)),
        Value::U8(_) => Value::U8(#[verifier::truncate] (v as u8)),
        Value::U16(_) => Value::U16(#[verifier::truncate] (v as u16)),
        Value::U32(_) => Value::U32(#[verifier::truncate] (v as u32)),
        Value::U64(_) => Value::U64(#[verifier::truncate] (v as u64)),
        Value::U128(_) => Value::U128(#[verifier::truncate] (v as u128)),
        _ => Value::Usize(#[verifier::truncate] (v as usize)),
    }
}

proof fn lemma_lookup_skip(env: Seq<(String, Value)>, i: int, name: Seq<char>)
    requires
        0 <= i <= env.len(),
        forall|j: int| 0 <= j < i ==> env[j].0@ != name,
    ensures
        spec_lookup(env, name) == spec_lookup(env.skip(i), name),
    decreases i,
{
    if i > 0 {
        assert(env[0].0@ != name);
        lemma_lookup_skip(env.skip(1), i - 1, name);
        assert(env.skip(1).skip(i - 1) =~= env.skip(i));
    } else {
        assert(env.skip(0) =~= env);
    }
}

proof fn lemma_lookup_found(env: Seq<(String, Value)>, i: int, name: Seq<char>)
    requires
        0 <= i < env.len(),
        forall|j: int| 0 <= j < i ==> env[j].0@ != name,
        env[i].0@ == name,
    ensures
        spec_lookup(env, name) == Some(env[i].1),
    decreases i,
{
    if i > 0 {
        assert(env[0].0@ != name);
        lemma_lookup_found(env.skip(1), i - 1, name);
    }
}

proof fn lemma_lookup_update(env: Seq<(String, Value)>, i: int, p: (String, Value))
    requires
        0 <= i < env.len(),
        forall|j: int| 0 <= j < i ==> env[j].0@ != p.0@,
        env[i].0@ == p.0@,
    ensures
        spec_lookup(env.update(i, p), p.0@) == Some(p.1),
        forall|n: Seq<char>| n != p.0@ ==> spec_lookup(env.update(i, p), n) == spec_lookup(env, n),
    decreases i,
{
    let upd = env.update(i, p);
    if i == 0 {
        assert(upd[0] == p);
        assert(spec_lookup(upd, p.0@) == Some(p.1));
        assert forall|n: Seq<char>| n != p.0@ implies spec_lookup(upd, n) == spec_lookup(
            env,
            n,
        ) by {
            assert(upd.skip(1) =~= env.skip(1));
        }
    } else {
        assert(upd[0] == env[0]);
        assert(env[0].0@ != p.0@);
        lemma_lookup_update(env.skip(1), i - 1, p);
        assert(upd.skip(1) =~= env.skip(1).update(i - 1, p));
        assert(spec_lookup(upd, p.0@) == spec_lookup(upd.skip(1), p.0@));
        assert forall|n: Seq<char>| n != p.0@ implies spec_lookup(upd, n) == spec_lookup(
            env,
            n,
        ) by {
            if n == env[0].0@ {
                assert(spec_lookup(upd, n) == Some(upd[0].1));
            } else {
                assert(spec_lookup(upd, n) == spec_lookup(upd.skip(1), n));
                assert(spec_lookup(env, n) == spec_lookup(env.skip(1), n));
            }
        }
    }
}

proof fn lemma_lookup_push(env: Seq<(String, Value)>, p: (String, Value))
    requires
        forall|j: int| 0 <= j < env.len() ==> env[j].0@ != p.0@,
    ensures
        spec_lookup(env.push(p), p.0@) == Some(p.1),
        forall|n: Seq<char>| n != p.0@ ==> spec_lookup(env.push(p), n) == spec_lookup(env, n),
    decreases env.len(),
{
    let ext = env.push(p);
    if env.len() == 0 {
        assert(ext[0] == p);
        assert(spec_lookup(ext, p.0@) == Some(p.1));
        assert forall|n: Seq<char>| n != p.0@ implies spec_lookup(ext, n) == spec_lookup(
            env,
            n,
        ) by {
            assert(ext[0].0@ == p.0@);
            assert(spec_lookup(ext, n) == spec_lookup(ext.skip(1), n));
            assert(ext.skip(1) =~= Seq::<(String, Value)>::empty());
        }
    } else {
        assert(ext[0] == env[0]);
        assert(env[0].0@ != p.0@);
        lemma_lookup_push(env.skip(1), p);
        assert(ext.skip(1) =~= env.skip(1).push(p));
        assert forall|n: Seq<char>| n != p.0@ implies spec_lookup(ext, n) == spec_lookup(
            env,
            n,
        ) by {
            if n == env[0].0@ {
                assert(spec_lookup(ext, n) == Some(ext[0].1));
            } else {
                assert(spec_lookup(ext, n) == spec_lookup(ext.skip(1), n));
                assert(spec_lookup(env, n) == spec_lookup(env.skip(1), n));
            }
        }
    }
}

} // verus!
