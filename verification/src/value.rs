//! Runtime values with strict Rust-like typing.
//!
//! A `Value` is the result of evaluating an expression: a fixed-width
//! integer, a float (held as its IEEE bit pattern), a bool, a char, an
//! owned string, unit, or an opaque remote reference.  Floating-point
//! payloads are carried as raw bits so that the whole value model stays
//! within checked integer arithmetic; the arithmetic on those bits is
//! supplied by the caller (see `FloatOps` in the evaluator module).

use vstd::prelude::*;

verus! {

/// Tag for the integer-typed `Value` variants, one per supported width.
#[derive(Clone, Copy, Debug, PartialEq, Eq, Structural)]
pub enum IntType {
    I8,
    I16,
    I32,
    I64,
    I128,
    Isize,
    U8,
    U16,
    U32,
    U64,
    U128,
    Usize,
}

/// Runtime value with strict typing.
///
/// `F32` and `F64` hold the IEEE 754 bit pattern of the float they stand
/// for; `Ref` is an opaque handle (address plus type name) to a value the
/// evaluator cannot interpret itself.
#[derive(Debug)]
pub enum Value {
    I8(i8),
    I16(i16),
    I32(i32),
    I64(i64),
    I128(i128),
    Isize(isize),
    U8(u8),
    U16(u16),
    U32(u32),
    U64(u64),
    U128(u128),
    Usize(usize),
    F32(u32),
    F64(u64),
    Bool(bool),
    Char(char),
    String(String),
    Unit,
    Ref { address: u64, type_label: String },
}

impl Clone for Value {
    /// Cloning preserves the value exactly.
    fn clone(&self) -> (r: Self)
        ensures
            r == *self,
    {
        match self {
            Value::I8(x) => Value::I8(*x),
            Value::I16(x) => Value::I16(*x),
            Value::I32(x) => Value::I32(*x),
            Value::I64(x) => Value::I64(*x),
            Value::I128(x) => Value::I128(*x),
            Value::Isize(x) => Value::Isize(*x),
            Value::U8(x) => Value::U8(*x),
            Value::U16(x) => Value::U16(*x),
            Value::U32(x) => Value::U32(*x),
            Value::U64(x) => Value::U64(*x),
            Value::U128(x) => Value::U128(*x),
            Value::Usize(x) => Value::Usize(*x),
            Value::F32(x) => Value::F32(*x),
            Value::F64(x) => Value::F64(*x),
            Value::Bool(x) => Value::Bool(*x),
            Value::Char(x) => Value::Char(*x),
            Value::String(s) => Value::String(s.clone()),
            Value::Unit => Value::Unit,
            Value::Ref { address, type_label } => Value::Ref {
                address: *address,
                type_label: type_label.clone(),
            },
        }
    }
}

/// The type name shown for each variant, as a sequence of characters.
pub open spec fn spec_type_label(v: Value) -> Seq<char> {
    match v {
        Value::I8(_) => "i8"@,
        Value::I16(_) => "i16"@,
        Value::I32(_) => "i32"@,
        Value::I64(_) => "i64"@,
        Value::I128(_) => "i128"@,
        Value::Isize(_) => "isize"@,
        Value::U8(_) => "u8"@,
        Value::U16(_) => "u16"@,
        Value::U32(_) => "u32"@,
        Value::U64(_) => "u64"@,
        Value::U128(_) => "u128"@,
        Value::Usize(_) => "usize"@,
        Value::F32(_) => "f32"@,
        Value::F64(_) => "f64"@,
        Value::Bool(_) => "bool"@,
        Value::Char(_) => "char"@,
        Value::String(_) => "String"@,
        Value::Unit => "()"@,
        Value::Ref { .. } => "ref"@,
    }
}

/// True when the value is one of the integer variants.
pub open spec fn spec_is_integer(v: Value) -> bool {
    match v {
        Value::I8(_) | Value::I16(_) | Value::I32(_) | Value::I64(_) | Value::I128(_)
        | Value::Isize(_) | Value::U8(_) | Value::U16(_) | Value::U32(_) | Value::U64(_)
        | Value::U128(_) | Value::Usize(_) => true,
        _ => false,
    }
}

/// True when the value is a float variant.
pub open spec fn spec_is_float(v: Value) -> bool {
    match v {
        Value::F32(_) | Value::F64(_) => true,
        _ => false,
    }
}

/// True when the value is numeric (integer or float).
pub open spec fn spec_is_numeric(v: Value) -> bool {
    spec_is_integer(v) || spec_is_float(v)
}

/// True when the value is a signed integer.
pub open spec fn spec_is_signed(v: Value) -> bool {
    match v {
        Value::I8(_) | Value::I16(_) | Value::I32(_) | Value::I64(_) | Value::I128(_)
        | Value::Isize(_) => true,
        _ => false,
    }
}

/// The integer tag of an integer-typed value.
pub open spec fn spec_int_type(v: Value) -> IntType
    recommends
        spec_is_integer(v),
{
    match v {
        Value::I8(_) => IntType::I8,
        Value::I16(_) => IntType::I16,
        Value::I32(_) => IntType::I32,
        Value::I64(_) => IntType::I64,
        Value::I128(_) => IntType::I128,
        Value::Isize(_) => IntType::Isize,
        Value::U8(_) => IntType::U8,
        Value::U16(_) => IntType::U16,
        Value::U32(_) => IntType::U32,
        Value::U64(_) => IntType::U64,
        Value::U128(_) => IntType::U128,
        Value::Usize(_) => IntType::Usize,
        _ => IntType::I32,
    }
}

/// The mathematical value carried by an integer-typed `Value`.
pub open spec fn spec_int_value(v: Value) -> int
    recommends
        spec_is_integer(v),
{
    match v {
        Value::I8(x) => x as int,
        Value::I16(x) => x as int,
        Value::I32(x) => x as int,
        Value::I64(x) => x as int,
        Value::I128(x) => x as int,
        Value::Isize(x) => x as int,
        Value::U8(x) => x as int,
        Value::U16(x) => x as int,
        Value::U32(x) => x as int,
        Value::U64(x) => x as int,
        Value::U128(x) => x as int,
        Value::Usize(x) => x as int,
        _ => 0,
    }
}

/// Widening an integer value to the evaluator's common 128-bit signed
/// currency: lossless for every integer variant except a `u128` above
/// `i128::MAX`, which does not fit.
pub open spec fn spec_to_i128(v: Value) -> Option<i128> {
    match v {
        Value::I8(x) => Some(x as i128),
        Value::I16(x) => Some(x as i128),
        Value::I32(x) => Some(x as i128),
        Value::I64(x) => Some(x as i128),
        Value::I128(x) => Some(x),
        Value::Isize(x) => Some(x as i128),
        Value::U8(x) => Some(x as i128),
        Value::U16(x) => Some(x as i128),
        Value::U32(x) => Some(x as i128),
        Value::U64(x) => Some(x as i128),
        Value::U128(x) => if x <= i128::MAX as u128 {
            Some(x as i128)
        } else {
            None
        },
        Value::Usize(x) => Some(x as i128),
        _ => None,
    }
}

/// Extracting the payload of a boolean value.
pub open spec fn spec_to_bool(v: Value) -> Option<bool> {
    match v {
        Value::Bool(b) => Some(b),
        _ => None,
    }
}

/// Two values have the same type exactly when they are the same variant
/// (for integers: the same width and signedness).
pub open spec fn spec_same_type(a: Value, b: Value) -> bool {
    match (a, b) {
        (Value::I8(_), Value::I8(_)) => true,
        (Value::I16(_), Value::I16(_)) => true,
        (Value::I32(_), Value::I32(_)) => true,
        (Value::I64(_), Value::I64(_)) => true,
        (Value::I128(_), Value::I128(_)) => true,
        (Value::Isize(_), Value::Isize(_)) => true,
        (Value::U8(_), Value::U8(_)) => true,
        (Value::U16(_), Value::U16(_)) => true,
        (Value::U32(_), Value::U32(_)) => true,
        (Value::U64(_), Value::U64(_)) => true,
        (Value::U128(_), Value::U128(_)) => true,
        (Value::Usize(_), Value::Usize(_)) => true,
        (Value::F32(_), Value::F32(_)) => true,
        (Value::F64(_), Value::F64(_)) => true,
        (Value::Bool(_), Value::Bool(_)) => true,
        (Value::Char(_), Value::Char(_)) => true,
        (Value::String(_), Value::String(_)) => true,
        (Value::Unit, Value::Unit) => true,
        (Value::Ref { .. }, Value::Ref { .. }) => true,
        _ => false,
    }
}

impl Value {
    /// Get the type name of this value.
    pub fn type_label(&self) -> (r: &'static str)
        ensures
            r@ == spec_type_label(*self),
    {
        match self {
            Value::I8(_) => "i8",
            Value::I16(_) => "i16",
            Value::I32(_) => "i32",
            Value::I64(_) => "i64",
            Value::I128(_) => "i128",
            Value::Isize(_) => "isize",
            Value::U8(_) => "u8",
            Value::U16(_) => "u16",
            Value::U32(_) => "u32",
            Value::U64(_) => "u64",
            Value::U128(_) => "u128",
            Value::Usize(_) => "usize",
            Value::F32(_) => "f32",
            Value::F64(_) => "f64",
            Value::Bool(_) => "bool",
            Value::Char(_) => "char",
            Value::String(_) => "String",
            Value::Unit => "()",
            Value::Ref { .. } => "ref",
        }
    }

    /// Check if this is a numeric type.
    pub fn is_numeric(&self) -> (r: bool)
        ensures
            r == spec_is_numeric(*self),
    {
        match self {
            Value::I8(_) | Value::I16(_) | Value::I32(_) | Value::I64(_) | Value::I128(_)
            | Value::Isize(_) | Value::U8(_) | Value::U16(_) | Value::U32(_) | Value::U64(_)
            | Value::U128(_) | Value::Usize(_) | Value::F32(_) | Value::F64(_) => true,
            _ => false,
        }
    }

    /// Check if this is an integer type.
    pub fn is_integer(&self) -> (r: bool)
        ensures
            r == spec_is_integer(*self),
    {
        match self {
            Value::I8(_) | Value::I16(_) | Value::I32(_) | Value::I64(_) | Value::I128(_)
            | Value::Isize(_) | Value::U8(_) | Value::U16(_) | Value::U32(_) | Value::U64(_)
            | Value::U128(_) | Value::Usize(_) => true,
            _ => false,
        }
    }

    /// Check if this is a signed integer.
    pub fn is_signed(&self) -> (r: bool)
        ensures
            r == spec_is_signed(*self),
    {
        match self {
            Value::I8(_) | Value::I16(_) | Value::I32(_) | Value::I64(_) | Value::I128(_)
            | Value::Isize(_) => true,
            _ => false,
        }
    }

    /// Widen to the 128-bit signed arithmetic currency, if this is an
    /// integer that fits.
    pub fn to_i128(&self) -> (r: Option<i128>)
        ensures
            r == spec_to_i128(*self),
    {
        match self {
            Value::I8(x) => Some(*x as i128),
            Value::I16(x) => Some(*x as i128),
            Value::I32(x) => Some(*x as i128),
            Value::I64(x) => Some(*x as i128),
            Value::I128(x) => Some(*x),
            Value::Isize(x) => Some(*x as i128),
            Value::U8(x) => Some(*x as i128),
            Value::U16(x) => Some(*x as i128),
            Value::U32(x) => Some(*x as i128),
            Value::U64(x) => Some(*x as i128),
            Value::U128(x) => if *x <= i128::MAX as u128 {
                Some(*x as i128)
            } else {
                None
            },
            Value::Usize(x) => Some(*x as i128),
            _ => None,
        }
    }

    /// Extract the payload of a boolean value.
    pub fn to_bool(&self) -> (r: Option<bool>)
        ensures
            r == spec_to_bool(*self),
    {
        match self {
            Value::Bool(b) => Some(*b),
            _ => None,
        }
    }

    /// Compare the types of two values; equivalent to comparing their
    /// type names (see `lemma_type_label_characterizes_type`).
    pub fn same_type(&self, other: &Value) -> (r: bool)
        ensures
            r == spec_same_type(*self, *other),
    {
        match (self, other) {
            (Value::I8(_), Value::I8(_)) => true,
            (Value::I16(_), Value::I16(_)) => true,
            (Value::I32(_), Value::I32(_)) => true,
            (Value::I64(_), Value::I64(_)) => true,
            (Value::I128(_), Value::I128(_)) => true,
            (Value::Isize(_), Value::Isize(_)) => true,
            (Value::U8(_), Value::U8(_)) => true,
            (Value::U16(_), Value::U16(_)) => true,
            (Value::U32(_), Value::U32(_)) => true,
            (Value::U64(_), Value::U64(_)) => true,
            (Value::U128(_), Value::U128(_)) => true,
            (Value::Usize(_), Value::Usize(_)) => true,
            (Value::F32(_), Value::F32(_)) => true,
            (Value::F64(_), Value::F64(_)) => true,
            (Value::Bool(_), Value::Bool(_)) => true,
            (Value::Char(_), Value::Char(_)) => true,
            (Value::String(_), Value::String(_)) => true,
            (Value::Unit, Value::Unit) => true,
            (Value::Ref { .. }, Value::Ref { .. }) => true,
            _ => false,
        }
    }
}

/// Two values have equal type names exactly when they are the same
/// variant: the nineteen type names are pairwise distinct, so comparing
/// names and comparing variants agree.
#[verifier::rlimit(60)]
pub proof fn lemma_type_label_characterizes_type(a: Value, b: Value)
    ensures
        spec_same_type(a, b) <==> spec_type_label(a) == spec_type_label(b),
{
    reveal_strlit("i8");
    reveal_strlit("i16");
    reveal_strlit("i32");
    reveal_strlit("i64");
    reveal_strlit("i128");
    reveal_strlit("isize");
    reveal_strlit("u8");
    reveal_strlit("u16");
    reveal_strlit("u32");
    reveal_strlit("u64");
    reveal_strlit("u128");
    reveal_strlit("usize");
    reveal_strlit("f32");
    reveal_strlit("f64");
    reveal_strlit("bool");
    reveal_strlit("char");
    reveal_strlit("String");
    reveal_strlit("()");
    reveal_strlit("ref");
    assert(("i8"@).len() == 2 && ("u8"@).len() == 2 && ("()"@).len() == 2);
    assert(("i16"@).len() == 3 && ("i32"@).len() == 3 && ("i64"@).len() == 3);
    assert(("u16"@).len() == 3 && ("u32"@).len() == 3 && ("u64"@).len() == 3);
    assert(("f32"@).len() == 3 && ("f64"@).len() == 3 && ("ref"@).len() == 3);
    assert(("i128"@).len() == 4 && ("u128"@).len() == 4);
    assert(("bool"@).len() == 4 && ("char"@).len() == 4);
    assert(("isize"@).len() == 5 && ("usize"@).len() == 5);
    assert(("String"@).len() == 6);
    assert(("i8"@)[0] == 'i' && ("u8"@)[0] == 'u' && ("()"@)[0] == '(');
    assert(("i16"@)[0] == 'i' && ("i32"@)[0] == 'i' && ("i64"@)[0] == 'i');
    assert(("u16"@)[0] == 'u' && ("u32"@)[0] == 'u' && ("u64"@)[0] == 'u');
    assert(("f32"@)[0] == 'f' && ("f64"@)[0] == 'f' && ("ref"@)[0] == 'r');
    assert(("i128"@)[0] == 'i' && ("u128"@)[0] == 'u');
    assert(("bool"@)[0] == 'b' && ("char"@)[0] == 'c');
    assert(("isize"@)[0] == 'i' && ("usize"@)[0] == 'u');
    assert(("i16"@)[1] == '1' && ("i32"@)[1] == '3' && ("i64"@)[1] == '6');
    assert(("u16"@)[1] == '1' && ("u32"@)[1] == '3' && ("u64"@)[1] == '6');
    assert(("f32"@)[1] == '3' && ("f64"@)[1] == '6');
}

} // verus!
