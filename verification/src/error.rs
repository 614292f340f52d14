//! Evaluation errors.
//!
//! A closed taxonomy: every failure of parsing, conversion or evaluation
//! is one of these variants, and each carries enough structured detail to
//! render a one-line diagnostic.  The mathematical model of an error
//! (`ErrSpec`, the `View` of `EvalError`) carries the same structure with
//! character sequences in place of owned strings.

use vstd::prelude::*;

verus! {

/// Everything that can go wrong while parsing, converting or evaluating
/// an expression.
#[derive(Debug, Clone)]
pub enum EvalError {
    /// Malformed source text.
    ParseError { message: String },
    /// Construct recognized but deliberately unimplemented.
    UnsupportedExpression { kind: String },
    /// A variable name with no binding in the environment.
    UnknownVariable { name: String },
    /// A call site asserted an expected type that was not found.
    TypeMismatch { expected: String, found: String },
    /// Operand types incompatible with the operator.
    InvalidOperation { op: String, left: String, right: String },
    /// Integer division or remainder by zero.
    DivisionByZero,
    /// Reserved for future bounded-index support.
    IndexOutOfBounds { index: usize, length: usize },
    /// Reserved.
    NullPointer,
    /// Reserved.
    FieldNotFound { field: String, type_label: String },
    /// Checked-arithmetic overflow or an invariant violation.
    Internal(String),
}

/// The mathematical model of an `EvalError`: the same closed taxonomy
/// over character sequences.
pub enum ErrSpec {
    ParseError { message: Seq<char> },
    Unsupported { kind: Seq<char> },
    UnknownVariable { name: Seq<char> },
    TypeMismatch { expected: Seq<char>, found: Seq<char> },
    InvalidOperation { op: Seq<char>, left: Seq<char>, right: Seq<char> },
    DivisionByZero,
    IndexOutOfBounds { index: int, length: int },
    NullPointer,
    FieldNotFound { field: Seq<char>, type_label: Seq<char> },
    Internal { message: Seq<char> },
}

impl View for EvalError {
    type V = ErrSpec;

    open spec fn view(&self) -> ErrSpec {
        match self {
            EvalError::ParseError { message } => ErrSpec::ParseError { message: message@ },
            EvalError::UnsupportedExpression { kind } => ErrSpec::Unsupported { kind: kind@ },
            EvalError::UnknownVariable { name } => ErrSpec::UnknownVariable { name: name@ },
            EvalError::TypeMismatch { expected, found } => ErrSpec::TypeMismatch {
                expected: expected@,
                found: found@,
            },
            EvalError::InvalidOperation { op, left, right } => ErrSpec::InvalidOperation {
                op: op@,
                left: left@,
                right: right@,
            },
            EvalError::DivisionByZero => ErrSpec::DivisionByZero,
            EvalError::IndexOutOfBounds { index, length } => ErrSpec::IndexOutOfBounds {
                index: *index as int,
                length: *length as int,
            },
            EvalError::NullPointer => ErrSpec::NullPointer,
            EvalError::FieldNotFound { field, type_label } => ErrSpec::FieldNotFound {
                field: field@,
                type_label: type_label@,
            },
            EvalError::Internal(message) => ErrSpec::Internal { message: message@ },
        }
    }
}

impl EvalError {
    pub fn unsupported(kind: &str) -> (r: Self)
        ensures
            r@ == (ErrSpec::Unsupported { kind: kind@ }),
    {
        EvalError::UnsupportedExpression { kind: kind.to_owned() }
    }

    pub fn unknown_var(name: &str) -> (r: Self)
        ensures
            r@ == (ErrSpec::UnknownVariable { name: name@ }),
    {
        EvalError::UnknownVariable { name: name.to_owned() }
    }

    pub fn type_mismatch(expected: &str, found: &str) -> (r: Self)
        ensures
            r@ == (ErrSpec::TypeMismatch { expected: expected@, found: found@ }),
    {
        EvalError::TypeMismatch { expected: expected.to_owned(), found: found.to_owned() }
    }
}

} // verus!
