//! Restricted expression AST.
//!
//! Only the constructs the evaluator can execute are representable:
//! paths, binary and unary operations, literals, parentheses and casts.
//! The converter narrows a full-grammar parse tree into this type.

use vstd::prelude::*;

verus! {

/// Supported expression AST.
#[derive(Debug)]
pub enum Expr {
    /// Variable or path: `a`, `a.b`, `a[0].c`.
    Path(Vec<PathSegment>),
    /// Binary operation: `a + b`.
    Binary { left: Box<Expr>, op: BinOp, right: Box<Expr> },
    /// Unary operation: `-a`, `!b`, `*ptr`.
    Unary { op: UnaryOp, expr: Box<Expr> },
    /// Literal: `42`, `true`, `"hello"`.
    Literal(Literal),
    /// Parenthesized: `(a + b)`.
    Paren(Box<Expr>),
    /// Type cast: `a as i64`; the target type is kept as its source text.
    Cast { expr: Box<Expr>, ty: String },
}

/// One segment of a path expression.
#[derive(Debug, Clone)]
pub enum PathSegment {
    /// Identifier: `foo`.
    Ident(String),
    /// Index: `[0]`.
    Index(usize),
    /// Tuple index: `.0`.
    TupleIndex(usize),
    /// Dereference: `*`.
    Deref,
    /// Reference: `&`.
    Ref,
}

/// Binary operators.
#[derive(Debug, Clone, Copy, PartialEq, Eq, Structural)]
pub enum BinOp {
    Add,
    Sub,
    Mul,
    Div,
    Rem,
    Eq,
    Ne,
    Lt,
    Le,
    Gt,
    Ge,
    And,
    Or,
    BitAnd,
    BitOr,
    BitXor,
    Shl,
    Shr,
}

/// Unary operators.
#[derive(Debug, Clone, Copy, PartialEq, Eq, Structural)]
pub enum UnaryOp {
    Neg,
    Not,
    Deref,
    Ref,
}

/// Literal values.  Float literals are held as the IEEE 754 bit pattern
/// of the 64-bit float they denote.
#[derive(Debug, Clone)]
pub enum Literal {
    Int(i128),
    Float(u64),
    Bool(bool),
    Char(char),
    String(String),
}

/// The mathematical model of an expression: the same tree with
/// character sequences for strings and sequences for segment lists.
pub enum ExprSpec {
    Path(Seq<SegSpec>),
    Binary { left: Box<ExprSpec>, op: BinOp, right: Box<ExprSpec> },
    Unary { op: UnaryOp, expr: Box<ExprSpec> },
    Literal(LitSpec),
    Paren(Box<ExprSpec>),
    Cast { expr: Box<ExprSpec>, ty: Seq<char> },
}

/// The mathematical model of a path segment.
pub enum SegSpec {
    Ident(Seq<char>),
    Index(int),
    TupleIndex(int),
    Deref,
    Ref,
}

/// The mathematical model of a literal.
pub enum LitSpec {
    Int(int),
    Float(u64),
    Bool(bool),
    Char(char),
    Str(Seq<char>),
}

impl View for PathSegment {
    type V = SegSpec;

    open spec fn view(&self) -> SegSpec {
        match self {
            PathSegment::Ident(s) => SegSpec::Ident(s@),
            PathSegment::Index(i) => SegSpec::Index(*i as int),
            PathSegment::TupleIndex(i) => SegSpec::TupleIndex(*i as int),
            PathSegment::Deref => SegSpec::Deref,
            PathSegment::Ref => SegSpec::Ref,
        }
    }
}

impl View for Literal {
    type V = LitSpec;

    open spec fn view(&self) -> LitSpec {
        match self {
            Literal::Int(v) => LitSpec::Int(*v as int),
            Literal::Float(bits) => LitSpec::Float(*bits),
            Literal::Bool(b) => LitSpec::Bool(*b),
            Literal::Char(c) => LitSpec::Char(*c),
            Literal::String(s) => LitSpec::Str(s@),
        }
    }
}

/// The model of an expression tree.
pub open spec fn spec_expr_model(e: Expr) -> ExprSpec
    decreases e,
{
    match e {
        Expr::Path(segments) => ExprSpec::Path(
            segments@.map_values(|s: PathSegment| s@),
        ),
        Expr::Binary { left, op, right } => ExprSpec::Binary {
            left: Box::new(spec_expr_model(*left)),
            op,
            right: Box::new(spec_expr_model(*right)),
        },
        Expr::Unary { op, expr } => ExprSpec::Unary {
            op,
            expr: Box::new(spec_expr_model(*expr)),
        },
        Expr::Literal(lit) => ExprSpec::Literal(lit@),
        Expr::Paren(inner) => ExprSpec::Paren(Box::new(spec_expr_model(*inner))),
        Expr::Cast { expr, ty } => ExprSpec::Cast {
            expr: Box::new(spec_expr_model(*expr)),
            ty: ty@,
        },
    }
}

impl View for Expr {
    type V = ExprSpec;

    open spec fn view(&self) -> ExprSpec {
        spec_expr_model(*self)
    }
}

/// The operator text shown in diagnostics for each binary operator.
pub open spec fn spec_binop_str(op: BinOp) -> Seq<char> {
    match op {
        BinOp::Add => "+"@,
        BinOp::Sub => "-"@,
        BinOp::Mul => "*"@,
        BinOp::Div => "/"@,
        BinOp::Rem => "%"@,
        BinOp::Eq => "=="@,
        BinOp::Ne => "!="@,
        BinOp::Lt => "<"@,
        BinOp::Le => "<="@,
        BinOp::Gt => ">"@,
        BinOp::Ge => ">="@,
        BinOp::And => "&&"@,
        BinOp::Or => "||"@,
        BinOp::BitAnd => "&"@,
        BinOp::BitOr => "|"@,
        BinOp::BitXor => "^"@,
        BinOp::Shl => "<<"@,
        BinOp::Shr => ">>"@,
    }
}

/// The operator text shown in diagnostics for each unary operator.
pub open spec fn spec_unaryop_str(op: UnaryOp) -> Seq<char> {
    match op {
        UnaryOp::Neg => "-"@,
        UnaryOp::Not => "!"@,
        UnaryOp::Deref => "*"@,
        UnaryOp::Ref => "&"@,
    }
}

impl BinOp {
    pub fn as_str(&self) -> (r: &'static str)
        ensures
            r@ == spec_binop_str(*self),
    {
        match self {
            BinOp::Add => "+",
            BinOp::Sub => "-",
            BinOp::Mul => "*",
            BinOp::Div => "/",
            BinOp::Rem => "%",
            BinOp::Eq => "==",
            BinOp::Ne => "!=",
            BinOp::Lt => "<",
            BinOp::Le => "<=",
            BinOp::Gt => ">",
            BinOp::Ge => ">=",
            BinOp::And => "&&",
            BinOp::Or => "||",
            BinOp::BitAnd => "&",
            BinOp::BitOr => "|",
            BinOp::BitXor => "^",
            BinOp::Shl => "<<",
            BinOp::Shr => ">>",
        }
    }
}

impl UnaryOp {
    pub fn as_str(&self) -> (r: &'static str)
        ensures
            r@ == spec_unaryop_str(*self),
    {
        match self {
            UnaryOp::Neg => "-",
            UnaryOp::Not => "!",
            UnaryOp::Deref => "*",
            UnaryOp::Ref => "&",
        }
    }
}

} // verus!
