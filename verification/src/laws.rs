//! Laws of the evaluator: properties that hold of every input, stated
//! and proved against the specifications in the evaluator module.

use vstd::prelude::*;
use vstd::arithmetic::div_mod::{
    lemma_div_nonincreasing, lemma_div_pos_is_pos, lemma_fundamental_div_mod, lemma_mod_bound,
};

use crate::ast::{BinOp, Expr, Literal};
use crate::error::ErrSpec;
use crate::eval::{
    FloatOps, spec_arith_eval, spec_binop_eval, spec_cast_eval, spec_eval, spec_int_min,
    spec_invalid_op, spec_narrow, spec_rust_div, spec_rust_rem,
};
use crate::value::{
    IntType, Value, spec_int_type, spec_int_value, spec_is_integer, spec_is_signed,
    spec_same_type, spec_to_i128,
};

verus! {

/// The type name that casts use for each integer type.
pub open spec fn spec_int_name(t: IntType) -> Seq<char> {
    match t {
        IntType::I8 => "i8"@,
        IntType::I16 => "i16"@,
        IntType::I32 => "i32"@,
        IntType::I64 => "i64"@,
        IntType::I128 => "i128"@,
        IntType::Isize => "isize"@,
        IntType::U8 => "u8"@,
        IntType::U16 => "u16"@,
        IntType::U32 => "u32"@,
        IntType::U64 => "u64"@,
        IntType::U128 => "u128"@,
        IntType::Usize => "usize"@,
    }
}

/// Signedness of an integer type.
pub open spec fn spec_tag_signed(t: IntType) -> bool {
    match t {
        IntType::I8 | IntType::I16 | IntType::I32 | IntType::I64 | IntType::I128
        | IntType::Isize => true,
        _ => false,
    }
}

/// Width in bits of the fixed-width integer types.
pub open spec fn spec_tag_bits(t: IntType) -> int
    recommends
        t != IntType::Isize,
        t != IntType::Usize,
{
    match t {
        IntType::I8 | IntType::U8 => 8,
        IntType::I16 | IntType::U16 => 16,
        IntType::I32 | IntType::U32 => 32,
        IntType::I64 | IntType::U64 => 64,
        _ => 128,
    }
}

proof fn lemma_cast_names()
    ensures
        forall|t1: IntType, t2: IntType|
            t1 != t2 ==> spec_int_name(t1) != spec_int_name(t2),
        forall|t: IntType| crate::text::spec_trim(#[trigger] spec_int_name(t)) == spec_int_name(t),
{
    reveal_strlit("i8");
    reveal_strlit("i16");
    reveal_strlit("i32");
    reveal_strlit("i64");
    reveal_strlit("i128");
    reveal_strlit("isize");
    reveal_strlit("u8");
    reveal_strlit("u16");
    reveal_strlit("u32");
    reveal_strlit("u64");
    reveal_strlit("u128");
    reveal_strlit("usize");
    assert(("i8"@).len() == 2 && ("u8"@).len() == 2);
    assert(("i16"@).len() == 3 && ("i32"@).len() == 3 && ("i64"@).len() == 3);
    assert(("u16"@).len() == 3 && ("u32"@).len() == 3 && ("u64"@).len() == 3);
    assert(("i128"@).len() == 4 && ("u128"@).len() == 4);
    assert(("isize"@).len() == 5 && ("usize"@).len() == 5);
    assert(("i8"@)[0] == 'i' && ("u8"@)[0] == 'u');
    assert(("i16"@)[0] == 'i' && ("i32"@)[0] == 'i' && ("i64"@)[0] == 'i');
    assert(("u16"@)[0] == 'u' && ("u32"@)[0] == 'u' && ("u64"@)[0] == 'u');
    assert(("i128"@)[0] == 'i' && ("u128"@)[0] == 'u');
    assert(("isize"@)[0] == 'i' && ("usize"@)[0] == 'u');
    assert(("i16"@)[1] == '1' && ("i32"@)[1] == '3' && ("i64"@)[1] == '6');
    assert(("u16"@)[1] == '1' && ("u32"@)[1] == '3' && ("u64"@)[1] == '6');
    assert(("i8"@)[1] == '8' && ("u8"@)[1] == '8');
    assert(("i128"@)[3] == '8' && ("u128"@)[3] == '8');
    assert(("isize"@)[4] == 'e' && ("usize"@)[4] == 'e');
}

/// Casting any widenable integer value to the integer type named by `t`
/// yields exactly the truncation of its widened value into `t`.
pub proof fn lemma_cast_to_int_type<F: FloatOps>(v: Value, t: IntType, fp: F)
    requires
        spec_to_i128(v) is Some,
    ensures
        spec_cast_eval(v, spec_int_name(t), fp) == Ok::<Value, ErrSpec>(
            spec_narrow(t, spec_to_i128(v)->0),
        ),
{
    lemma_cast_names();
    assert(spec_int_name(IntType::I8) == "i8"@);
    assert(spec_int_name(IntType::I16) == "i16"@);
    assert(spec_int_name(IntType::I32) == "i32"@);
    assert(spec_int_name(IntType::I64) == "i64"@);
    assert(spec_int_name(IntType::I128) == "i128"@);
    assert(spec_int_name(IntType::Isize) == "isize"@);
    assert(spec_int_name(IntType::U8) == "u8"@);
    assert(spec_int_name(IntType::U16) == "u16"@);
    assert(spec_int_name(IntType::U32) == "u32"@);
    assert(spec_int_name(IntType::U64) == "u64"@);
    assert(spec_int_name(IntType::U128) == "u128"@);
    assert(spec_int_name(IntType::Usize) == "usize"@);
    let a = spec_to_i128(v)->0;
    match t {
        IntType::I8 => assert(spec_cast_eval(v, spec_int_name(t), fp) == Ok::<Value, ErrSpec>(
            spec_narrow(t, a),
        )),
        IntType::I16 => assert(spec_cast_eval(v, spec_int_name(t), fp) == Ok::<Value, ErrSpec>(
            spec_narrow(t, a),
        )),
        IntType::I32 => assert(spec_cast_eval(v, spec_int_name(t), fp) == Ok::<Value, ErrSpec>(
            spec_narrow(t, a),
        )),
        IntType::I64 => assert(spec_cast_eval(v, spec_int_name(t), fp) == Ok::<Value, ErrSpec>(
            spec_narrow(t, a),
        )),
        IntType::I128 => assert(spec_cast_eval(v, spec_int_name(t), fp) == Ok::<Value, ErrSpec>(
            spec_narrow(t, a),
        )),
        IntType::Isize => assert(spec_cast_eval(v, spec_int_name(t), fp) == Ok::<Value, ErrSpec>(
            spec_narrow(t, a),
        )),
        IntType::U8 => assert(spec_cast_eval(v, spec_int_name(t), fp) == Ok::<Value, ErrSpec>(
            spec_narrow(t, a),
        )),
        IntType::U16 => assert(spec_cast_eval(v, spec_int_name(t), fp) == Ok::<Value, ErrSpec>(
            spec_narrow(t, a),
        )),
        IntType::U32 => assert(spec_cast_eval(v, spec_int_name(t), fp) == Ok::<Value, ErrSpec>(
            spec_narrow(t, a),
        )),
        IntType::U64 => assert(spec_cast_eval(v, spec_int_name(t), fp) == Ok::<Value, ErrSpec>(
            spec_narrow(t, a),
        )),
        IntType::U128 => assert(spec_cast_eval(v, spec_int_name(t), fp) == Ok::<Value, ErrSpec>(
            spec_narrow(t, a),
        )),
        IntType::Usize => assert(spec_cast_eval(v, spec_int_name(t), fp) == Ok::<Value, ErrSpec>(
            spec_narrow(t, a),
        )),
    }
}

/// An integer literal evaluates, in any environment, to a value of the
/// narrowest of the 32-, 64- and 128-bit signed types that holds it.
pub proof fn lemma_int_literal_width<F: FloatOps>(
    n: i128,
    env: Seq<(String, Value)>,
    fp: F,
)
    ensures
        i32::MIN <= n <= i32::MAX ==> spec_eval(Expr::Literal(Literal::Int(n)), env, fp)
            == Ok::<Value, ErrSpec>(Value::I32(n as i32)),
        !(i32::MIN <= n <= i32::MAX) && i64::MIN <= n <= i64::MAX ==> spec_eval(
            Expr::Literal(Literal::Int(n)),
            env,
            fp,
        ) == Ok::<Value, ErrSpec>(Value::I64(n as i64)),
        !(i64::MIN <= n <= i64::MAX) ==> spec_eval(Expr::Literal(Literal::Int(n)), env, fp)
            == Ok::<Value, ErrSpec>(Value::I128(n)),
{
}

/// A binary operator applied to operands of different types always
/// fails with `InvalidOperation` carrying the operator text and both
/// type names; in particular, integers of different widths are never
/// silently promoted.
pub proof fn lemma_binop_type_mismatch<F: FloatOps>(l: Value, op: BinOp, r: Value, fp: F)
    requires
        !spec_same_type(l, r),
    ensures
        spec_binop_eval(l, op, r, fp) == Err::<Value, ErrSpec>(spec_invalid_op(op, l, r)),
{
}

/// Integer division or remainder by zero fails with `DivisionByZero`,
/// whatever the dividend.
pub proof fn lemma_int_division_by_zero<F: FloatOps>(l: Value, op: BinOp, r: Value, fp: F)
    requires
        spec_same_type(l, r),
        op is Div || op is Rem,
        spec_to_i128(l) is Some,
        spec_to_i128(r) is Some,
        spec_to_i128(r) == Some(0i128),
    ensures
        spec_arith_eval(l, op, r, fp) == Err::<Value, ErrSpec>(ErrSpec::DivisionByZero),
{
}

/// Division of 64-bit floats always succeeds — a zero divisor included —
/// and yields the 64-bit float the float unit computes, per IEEE rules.
pub proof fn lemma_float_division_succeeds<F: FloatOps>(a: u64, b: u64, fp: F)
    ensures
        spec_arith_eval(Value::F64(a), BinOp::Div, Value::F64(b), fp) == Ok::<Value, ErrSpec>(
            Value::F64(fp.arith_model(BinOp::Div, a, b)),
        ),
{
}

/// The truncating division identity: for same-typed integer operands
/// with a nonzero divisor, quotient times divisor plus remainder gives
/// back the dividend.  The one excluded input is the minimum value of a
/// signed width divided by minus one, whose quotient is not
/// representable and wraps.
pub proof fn lemma_division_identity<F: FloatOps>(l: Value, r: Value, fp: F)
    requires
        spec_same_type(l, r),
        spec_to_i128(l) is Some,
        spec_to_i128(r) is Some,
        spec_int_value(r) != 0,
        !(spec_is_signed(l) && spec_int_value(l) == spec_int_min(spec_int_type(l))
            && spec_int_value(r) == -1),
    ensures
        spec_arith_eval(l, BinOp::Div, r, fp) matches Ok(q) && spec_arith_eval(
            l,
            BinOp::Rem,
            r,
            fp,
        ) matches Ok(m) && spec_int_value(q) * spec_int_value(r) + spec_int_value(m)
            == spec_int_value(l),
{
    let a = spec_int_value(l);
    let b = spec_int_value(r);
    let t = spec_int_type(l);
    let dv = spec_rust_div(a, b);
    let rv = spec_rust_rem(a, b);
    lemma_rust_div_mod_identity(a, b);
    lemma_rust_div_mod_in_value_range(l, r);
    assert(spec_arith_eval(l, BinOp::Div, r, fp) == Ok::<Value, ErrSpec>(
        spec_narrow(t, dv as i128),
    ));
    assert(spec_arith_eval(l, BinOp::Rem, r, fp) == Ok::<Value, ErrSpec>(
        spec_narrow(t, rv as i128),
    ));
    lemma_narrow_in_range(t, dv as i128);
    lemma_narrow_in_range(t, rv as i128);
}

/// The quotient and remainder of Rust's truncating division recombine
/// to the dividend.
proof fn lemma_rust_div_mod_identity(a: int, b: int)
    requires
        b != 0,
    ensures
        spec_rust_div(a, b) * b + spec_rust_rem(a, b) == a,
{
    if a >= 0 && b > 0 {
        lemma_fundamental_div_mod(a, b);
        let q = a / b;
        let r2 = a % b;
        assert(q * b == b * q) by (nonlinear_arith);
    } else if a <= 0 && b < 0 {
        lemma_fundamental_div_mod(-a, -b);
        let q = (-a) / (-b);
        let r2 = (-a) % (-b);
        assert(-a == (-b) * q + r2);
        assert(q * b + (-r2) == -((-b) * q + r2)) by (nonlinear_arith);
    } else if a < 0 {
        lemma_fundamental_div_mod(-a, b);
        let q = (-a) / b;
        let r2 = (-a) % b;
        assert(-a == b * q + r2);
        assert((-q) * b + (-r2) == -(b * q + r2)) by (nonlinear_arith);
    } else {
        lemma_fundamental_div_mod(a, -b);
        let q = a / (-b);
        let r2 = a % (-b);
        assert(a == (-b) * q + r2);
        assert((-q) * b + r2 == (-b) * q + r2) by (nonlinear_arith);
    }
}

/// For operands drawn from a value's own range (and outside the one
/// wrapping case), the quotient and remainder stay in that range.
proof fn lemma_rust_div_mod_in_value_range(l: Value, r: Value)
    requires
        spec_same_type(l, r),
        spec_to_i128(l) is Some,
        spec_to_i128(r) is Some,
        spec_int_value(r) != 0,
        !(spec_is_signed(l) && spec_int_value(l) == spec_int_min(spec_int_type(l))
            && spec_int_value(r) == -1),
    ensures
        spec_value_in_range(spec_int_type(l), spec_rust_div(spec_int_value(l), spec_int_value(r))),
        spec_value_in_range(spec_int_type(l), spec_rust_rem(spec_int_value(l), spec_int_value(r))),
{
    let a = spec_int_value(l);
    let b = spec_int_value(r);
    let t = spec_int_type(l);
    lemma_value_in_own_range(l);
    lemma_value_in_own_range(r);
    if a >= 0 && b > 0 {
        lemma_div_pos_is_pos(a, b);
        lemma_div_nonincreasing(a, b);
        lemma_mod_bound(a, b);
    } else if a <= 0 && b < 0 {
        lemma_div_pos_is_pos(-a, -b);
        lemma_div_nonincreasing(-a, -b);
        lemma_mod_bound(-a, -b);
        if a == spec_int_min(t) {
            // the divisor is at most -2 here, so the quotient magnitude
            // is at most half the range
            assert(-b >= 2);
            lemma_div_halves(-a, -b);
        }
    } else if a < 0 {
        lemma_div_pos_is_pos(-a, b);
        lemma_div_nonincreasing(-a, b);
        lemma_mod_bound(-a, b);
        if a == spec_int_min(t) {
            assert(b >= 1);
            if b == 1 {
                assert((-a) / 1 == -a) by {
                    lemma_fundamental_div_mod(-a, 1);
                    lemma_mod_bound(-a, 1);
                }
            } else {
                lemma_div_halves(-a, b);
            }
        }
    } else {
        lemma_div_pos_is_pos(a, -b);
        lemma_div_nonincreasing(a, -b);
        lemma_mod_bound(a, -b);
    }
}

/// Dividing by two or more at least halves a positive dividend.
proof fn lemma_div_halves(x: int, d: int)
    requires
        x >= 0,
        d >= 2,
    ensures
        x / d <= x / 2,
{
    vstd::arithmetic::div_mod::lemma_div_is_ordered_by_denominator(x, 2, d);
}

/// Whether `v` is representable in the integer type `t`.
pub open spec fn spec_value_in_range(t: IntType, v: int) -> bool {
    match t {
        IntType::I8 => i8::MIN <= v <= i8::MAX,
        IntType::I16 => i16::MIN <= v <= i16::MAX,
        IntType::I32 => i32::MIN <= v <= i32::MAX,
        IntType::I64 => i64::MIN <= v <= i64::MAX,
        IntType::I128 => i128::MIN <= v <= i128::MAX,
        IntType::Isize => isize::MIN <= v <= isize::MAX,
        IntType::U8 => 0 <= v <= u8::MAX,
        IntType::U16 => 0 <= v <= u16::MAX,
        IntType::U32 => 0 <= v <= u32::MAX,
        IntType::U64 => 0 <= v <= u64::MAX,
        IntType::U128 => 0 <= v <= u128::MAX,
        IntType::Usize => 0 <= v <= usize::MAX,
    }
}

/// Every integer value's payload lies in its own type's range.
proof fn lemma_value_in_own_range(v: Value)
    requires
        spec_is_integer(v),
    ensures
        spec_value_in_range(spec_int_type(v), spec_int_value(v)),
{
}

/// Re-narrowing an in-range value stores it unchanged.
proof fn lemma_narrow_in_range(t: IntType, v: i128)
    requires
        spec_value_in_range(t, v as int),
    ensures
        spec_is_integer(spec_narrow(t, v)),
        spec_int_type(spec_narrow(t, v)) == t,
        spec_int_value(spec_narrow(t, v)) == v as int,
{
}

/// Casting an integer value to a wider integer type of the same
/// signedness and back to the original type yields the original value;
/// the platform-width types are left out, their width being a property
/// of the machine.
pub proof fn lemma_cast_widen_roundtrip<F: FloatOps>(v: Value, wide: IntType, fp: F)
    requires
        spec_is_integer(v),
        spec_to_i128(v) is Some,
        spec_int_type(v) != IntType::Isize,
        spec_int_type(v) != IntType::Usize,
        wide != IntType::Isize,
        wide != IntType::Usize,
        spec_tag_signed(spec_int_type(v)) == spec_tag_signed(wide),
        spec_tag_bits(spec_int_type(v)) <= spec_tag_bits(wide),
    ensures
        spec_cast_eval(v, spec_int_name(wide), fp) matches Ok(w) && spec_cast_eval(
            w,
            spec_int_name(spec_int_type(v)),
            fp,
        ) == Ok::<Value, ErrSpec>(v),
{
    let t = spec_int_type(v);
    let a = spec_to_i128(v)->0;
    lemma_value_in_own_range(v);
    lemma_cast_to_int_type(v, wide, fp);
    assert(spec_value_in_range(wide, a as int));
    lemma_narrow_in_range(wide, a);
    let w = spec_narrow(wide, a);
    assert(spec_to_i128(w) is Some);
    assert(spec_to_i128(w)->0 == a);
    lemma_cast_to_int_type(w, t, fp);
    lemma_narrow_in_range(t, a);
    assert(spec_narrow(t, a) == v);
}

} // verus!
