//! Parse-tree narrowing.
//!
//! An external grammar engine parses the source language's full
//! expression grammar into a generic `ParseTree`; the converter narrows
//! that tree into the restricted AST, rejecting every construct outside
//! the supported subset with a categorized error.  Conversion failures
//! are terminal: no partial AST is ever returned.

use vstd::prelude::*;

use crate::ast::{BinOp, Expr, ExprSpec, Literal, LitSpec, PathSegment, SegSpec, UnaryOp};
use crate::error::{ErrSpec, EvalError};

verus! {

/// A node of the full-grammar parse tree, as the grammar engine hands it
/// over: everything the converter distinguishes, with one catch-all for
/// node kinds it only ever rejects (carrying their debug name).
#[derive(Debug)]
pub enum ParseTree {
    /// A binary operation, any operator of the source grammar.
    Binary { op: ParseBinOp, left: Box<ParseTree>, right: Box<ParseTree> },
    /// A unary operation.
    Unary { op: ParseUnOp, operand: Box<ParseTree> },
    /// A literal.
    Lit(ParseLit),
    /// A (possibly qualified) path, one identifier per segment.
    Path(Vec<String>),
    /// Field access: `base.member`.
    Field { base: Box<ParseTree>, member: Member },
    /// Indexing: `base[index]`.
    Index { base: Box<ParseTree>, index: Box<ParseTree> },
    /// A parenthesized expression.
    Paren(Box<ParseTree>),
    /// A cast, with the target type kept as its source text.
    Cast { base: Box<ParseTree>, ty: String },
    /// A reference expression `&operand`.
    Reference { operand: Box<ParseTree> },
    /// A function call.
    Call,
    /// A method call.
    MethodCall,
    /// A closure.
    Closure,
    /// A block expression.
    Block,
    /// An `if` expression.
    If,
    /// A `match` expression.
    Match,
    /// Any other node kind, by its debug name.
    Other(String),
}

/// A field-access member: a named field or a tuple index.
#[derive(Debug, Clone)]
pub enum Member {
    Named(String),
    Unnamed(usize),
}

/// A literal of the full grammar.  Float literals carry the IEEE 754
/// bit pattern of the 64-bit float they denote; literal kinds the
/// evaluator never accepts (byte and C strings) are a single variant.
#[derive(Debug, Clone)]
pub enum ParseLit {
    Int(i128),
    Float(u64),
    Bool(bool),
    Char(char),
    Str(String),
    Other,
}

/// A binary operator of the full grammar: the eighteen the evaluator
/// knows, plus the assignment-flavored rest.
#[derive(Debug, Clone, Copy, PartialEq, Eq, Structural)]
pub enum ParseBinOp {
    Add,
    Sub,
    Mul,
    Div,
    Rem,
    Eq,
    Ne,
    Lt,
    Le,
    Gt,
    Ge,
    And,
    Or,
    BitAnd,
    BitOr,
    BitXor,
    Shl,
    Shr,
    Assignment,
}

/// A unary operator of the full grammar.
#[derive(Debug, Clone, Copy, PartialEq, Eq, Structural)]
pub enum ParseUnOp {
    Neg,
    Not,
    Deref,
    Other,
}

/// The mathematical model of a parse-tree node.
pub enum TreeSpec {
    Binary { op: ParseBinOp, left: Box<TreeSpec>, right: Box<TreeSpec> },
    Unary { op: ParseUnOp, operand: Box<TreeSpec> },
    Lit(ParseLitSpec),
    Path(Seq<Seq<char>>),
    Field { base: Box<TreeSpec>, member: MemberSpec },
    Index { base: Box<TreeSpec>, index: Box<TreeSpec> },
    Paren(Box<TreeSpec>),
    Cast { base: Box<TreeSpec>, ty: Seq<char> },
    Reference { operand: Box<TreeSpec> },
    Call,
    MethodCall,
    Closure,
    Block,
    If,
    Match,
    Other(Seq<char>),
}

/// The mathematical model of a member.
pub enum MemberSpec {
    Named(Seq<char>),
    Unnamed(int),
}

/// The mathematical model of a full-grammar literal.
pub enum ParseLitSpec {
    Int(int),
    Float(u64),
    Bool(bool),
    Char(char),
    Str(Seq<char>),
    Other,
}

impl View for Member {
    type V = MemberSpec;

    open spec fn view(&self) -> MemberSpec {
        match self {
            Member::Named(s) => MemberSpec::Named(s@),
            Member::Unnamed(i) => MemberSpec::Unnamed(*i as int),
        }
    }
}

impl View for ParseLit {
    type V = ParseLitSpec;

    open spec fn view(&self) -> ParseLitSpec {
        match self {
            ParseLit::Int(v) => ParseLitSpec::Int(*v as int),
            ParseLit::Float(b) => ParseLitSpec::Float(*b),
            ParseLit::Bool(b) => ParseLitSpec::Bool(*b),
            ParseLit::Char(c) => ParseLitSpec::Char(*c),
            ParseLit::Str(s) => ParseLitSpec::Str(s@),
            ParseLit::Other => ParseLitSpec::Other,
        }
    }
}

/// The model of a parse tree.
pub open spec fn spec_tree_model(t: ParseTree) -> TreeSpec
    decreases t,
{
    match t {
        ParseTree::Binary { op, left, right } => TreeSpec::Binary {
            op,
            left: Box::new(spec_tree_model(*left)),
            right: Box::new(spec_tree_model(*right)),
        },
        ParseTree::Unary { op, operand } => TreeSpec::Unary {
            op,
            operand: Box::new(spec_tree_model(*operand)),
        },
        ParseTree::Lit(l) => TreeSpec::Lit(l@),
        ParseTree::Path(idents) => TreeSpec::Path(idents@.map_values(|s: String| s@)),
        ParseTree::Field { base, member } => TreeSpec::Field {
            base: Box::new(spec_tree_model(*base)),
            member: member@,
        },
        ParseTree::Index { base, index } => TreeSpec::Index {
            base: Box::new(spec_tree_model(*base)),
            index: Box::new(spec_tree_model(*index)),
        },
        ParseTree::Paren(inner) => TreeSpec::Paren(Box::new(spec_tree_model(*inner))),
        ParseTree::Cast { base, ty } => TreeSpec::Cast {
            base: Box::new(spec_tree_model(*base)),
            ty: ty@,
        },
        ParseTree::Reference { operand } => TreeSpec::Reference {
            operand: Box::new(spec_tree_model(*operand)),
        },
        ParseTree::Call => TreeSpec::Call,
        ParseTree::MethodCall => TreeSpec::MethodCall,
        ParseTree::Closure => TreeSpec::Closure,
        ParseTree::Block => TreeSpec::Block,
        ParseTree::If => TreeSpec::If,
        ParseTree::Match => TreeSpec::Match,
        ParseTree::Other(kind) => TreeSpec::Other(kind@),
    }
}

impl View for ParseTree {
    type V = TreeSpec;

    open spec fn view(&self) -> TreeSpec {
        spec_tree_model(*self)
    }
}

/// What each full-grammar binary operator becomes: the eighteen value
/// operators map one to one; assignment operators are unsupported.
pub open spec fn spec_convert_binop(op: ParseBinOp) -> Result<BinOp, ErrSpec> {
    match op {
        ParseBinOp::Add => Ok(BinOp::Add),
        ParseBinOp::Sub => Ok(BinOp::Sub),
        ParseBinOp::Mul => Ok(BinOp::Mul),
        ParseBinOp::Div => Ok(BinOp::Div),
        ParseBinOp::Rem => Ok(BinOp::Rem),
        ParseBinOp::Eq => Ok(BinOp::Eq),
        ParseBinOp::Ne => Ok(BinOp::Ne),
        ParseBinOp::Lt => Ok(BinOp::Lt),
        ParseBinOp::Le => Ok(BinOp::Le),
        ParseBinOp::Gt => Ok(BinOp::Gt),
        ParseBinOp::Ge => Ok(BinOp::Ge),
        ParseBinOp::And => Ok(BinOp::And),
        ParseBinOp::Or => Ok(BinOp::Or),
        ParseBinOp::BitAnd => Ok(BinOp::BitAnd),
        ParseBinOp::BitOr => Ok(BinOp::BitOr),
        ParseBinOp::BitXor => Ok(BinOp::BitXor),
        ParseBinOp::Shl => Ok(BinOp::Shl),
        ParseBinOp::Shr => Ok(BinOp::Shr),
        ParseBinOp::Assignment => Err(ErrSpec::Unsupported { kind: "assignment operators"@ }),
    }
}

/// What each full-grammar unary operator becomes.
pub open spec fn spec_convert_unop(op: ParseUnOp) -> Result<UnaryOp, ErrSpec> {
    match op {
        ParseUnOp::Neg => Ok(UnaryOp::Neg),
        ParseUnOp::Not => Ok(UnaryOp::Not),
        ParseUnOp::Deref => Ok(UnaryOp::Deref),
        ParseUnOp::Other => Err(ErrSpec::Unsupported { kind: "unknown unary operator"@ }),
    }
}

/// What each full-grammar literal becomes.
pub open spec fn spec_convert_literal(l: ParseLitSpec) -> Result<LitSpec, ErrSpec> {
    match l {
        ParseLitSpec::Int(v) => Ok(LitSpec::Int(v)),
        ParseLitSpec::Float(b) => Ok(LitSpec::Float(b)),
        ParseLitSpec::Bool(b) => Ok(LitSpec::Bool(b)),
        ParseLitSpec::Char(c) => Ok(LitSpec::Char(c)),
        ParseLitSpec::Str(s) => Ok(LitSpec::Str(s)),
        ParseLitSpec::Other => Err(ErrSpec::Unsupported { kind: "byte literals"@ }),
    }
}

/// The path segment a field member appends.
pub open spec fn spec_member_seg(m: MemberSpec) -> SegSpec {
    match m {
        MemberSpec::Named(n) => SegSpec::Ident(n),
        MemberSpec::Unnamed(i) => SegSpec::TupleIndex(i),
    }
}

/// Path segments extracted from nested path, field, index and deref
/// expressions: the base's segments, refined by the new segment; a
/// leading `*` becomes a leading `Deref` segment.
pub open spec fn spec_extract(t: TreeSpec) -> Result<Seq<SegSpec>, ErrSpec>
    decreases t,
{
    match t {
        TreeSpec::Path(idents) => Ok(idents.map_values(|n: Seq<char>| SegSpec::Ident(n))),
        TreeSpec::Field { base, member } => match spec_extract(*base) {
            Err(m) => Err(m),
            Ok(segs) => Ok(segs.push(spec_member_seg(member))),
        },
        TreeSpec::Index { base, index } => match spec_extract(*base) {
            Err(m) => Err(m),
            Ok(segs) => match *index {
                TreeSpec::Lit(ParseLitSpec::Int(v)) => if 0 <= v <= usize::MAX as int {
                    Ok(segs.push(SegSpec::Index(v)))
                } else {
                    Err(ErrSpec::ParseError { message: "invalid index literal"@ })
                },
                _ => Err(ErrSpec::Unsupported { kind: "dynamic index"@ }),
            },
        },
        TreeSpec::Unary { op, operand } => if op is Deref {
            match spec_extract(*operand) {
                Err(m) => Err(m),
                Ok(segs) => Ok(seq![SegSpec::Deref] + segs),
            }
        } else {
            Err(ErrSpec::Unsupported { kind: "complex path expression"@ })
        },
        _ => Err(ErrSpec::Unsupported { kind: "complex path expression"@ }),
    }
}

/// What the converter produces for each parse tree: the mapping rules of
/// the supported subset, with every other construct rejected.
pub open spec fn spec_convert(t: TreeSpec) -> Result<ExprSpec, ErrSpec>
    decreases t,
{
    match t {
        TreeSpec::Binary { op, left, right } => match spec_convert_binop(op) {
            Err(m) => Err(m),
            Ok(bop) => match spec_convert(*left) {
                Err(m) => Err(m),
                Ok(le) => match spec_convert(*right) {
                    Err(m) => Err(m),
                    Ok(re) => Ok(
                        ExprSpec::Binary { left: Box::new(le), op: bop, right: Box::new(re) },
                    ),
                },
            },
        },
        TreeSpec::Unary { op, operand } => match spec_convert_unop(op) {
            Err(m) => Err(m),
            Ok(uop) => match spec_convert(*operand) {
                Err(m) => Err(m),
                Ok(oe) => Ok(ExprSpec::Unary { op: uop, expr: Box::new(oe) }),
            },
        },
        TreeSpec::Lit(l) => match spec_convert_literal(l) {
            Err(m) => Err(m),
            Ok(ls) => Ok(ExprSpec::Literal(ls)),
        },
        TreeSpec::Path(idents) => Ok(
            ExprSpec::Path(idents.map_values(|n: Seq<char>| SegSpec::Ident(n))),
        ),
        TreeSpec::Field { base, member } => match spec_extract(*base) {
            Err(m) => Err(m),
            Ok(segs) => Ok(ExprSpec::Path(segs.push(spec_member_seg(member)))),
        },
        TreeSpec::Index { base, index } => match spec_extract(*base) {
            Err(m) => Err(m),
            Ok(segs) => match *index {
                TreeSpec::Lit(ParseLitSpec::Int(v)) => if 0 <= v <= usize::MAX as int {
                    Ok(ExprSpec::Path(segs.push(SegSpec::Index(v))))
                } else {
                    Err(ErrSpec::ParseError { message: "invalid index literal"@ })
                },
                _ => Err(ErrSpec::Unsupported { kind: "dynamic index expressions"@ }),
            },
        },
        TreeSpec::Paren(inner) => match spec_convert(*inner) {
            Err(m) => Err(m),
            Ok(ie) => Ok(ExprSpec::Paren(Box::new(ie))),
        },
        TreeSpec::Cast { base, ty } => match spec_convert(*base) {
            Err(m) => Err(m),
            Ok(be) => Ok(ExprSpec::Cast { expr: Box::new(be), ty }),
        },
        TreeSpec::Reference { operand } => match spec_convert(*operand) {
            Err(m) => Err(m),
            Ok(oe) => Ok(ExprSpec::Unary { op: UnaryOp::Ref, expr: Box::new(oe) }),
        },
        TreeSpec::Call => Err(ErrSpec::Unsupported { kind: "function calls"@ }),
        TreeSpec::MethodCall => Err(ErrSpec::Unsupported { kind: "method calls"@ }),
        TreeSpec::Closure => Err(ErrSpec::Unsupported { kind: "closures"@ }),
        TreeSpec::Block => Err(ErrSpec::Unsupported { kind: "block expressions"@ }),
        TreeSpec::If => Err(ErrSpec::Unsupported { kind: "if expressions"@ }),
        TreeSpec::Match => Err(ErrSpec::Unsupported { kind: "match expressions"@ }),
        TreeSpec::Other(kind) => Err(ErrSpec::Unsupported { kind: kind }),
    }
}

/// An executable conversion outcome realizes a specified one.
pub open spec fn conv_matches(r: Result<Expr, EvalError>, m: Result<ExprSpec, ErrSpec>) -> bool {
    match r {
        Ok(e) => m matches Ok(es) && e@ == es,
        Err(err) => m matches Err(me) && err@ == me,
    }
}

/// An executable segment-extraction outcome realizes a specified one.
pub open spec fn segs_matches(
    r: Result<Vec<PathSegment>, EvalError>,
    m: Result<Seq<SegSpec>, ErrSpec>,
) -> bool {
    match r {
        Ok(v) => m matches Ok(s) && v@.map_values(|seg: PathSegment| seg@) == s,
        Err(err) => m matches Err(me) && err@ == me,
    }
}

/// Turn a list of path identifiers into `Ident` segments.
fn idents_to_segments(idents: &Vec<String>) -> (r: Vec<PathSegment>)
    ensures
        r@.map_values(|seg: PathSegment| seg@) == idents@.map_values(|s: String| s@).map_values(
            |n: Seq<char>| SegSpec::Ident(n),
        ),
{
    let mut out: Vec<PathSegment> = Vec::new();
    let n = idents.len();
    let mut i: usize = 0;
    while i < n
        invariant
            n == idents@.len(),
            i <= n,
            out@.len() == i,
            forall|j: int| 0 <= j < i ==> out@[j] == PathSegment::Ident(idents@[j]),
        decreases n - i,
    {
        out.push(PathSegment::Ident(idents[i].clone()));
        i = i + 1;
    }
    proof {
        assert(out@.map_values(|seg: PathSegment| seg@) =~= idents@.map_values(
            |s: String| s@,
        ).map_values(|n2: Seq<char>| SegSpec::Ident(n2)));
    }
    out
}

/// Convert a full-grammar parse tree into the restricted AST; see
/// `spec_convert` for the mapping rules.
pub fn convert_expr(tree: &ParseTree) -> (r: Result<Expr, EvalError>)
    ensures
        conv_matches(r, spec_convert(tree@)),
    decreases *tree,
{
    match tree {
        ParseTree::Binary { op, left, right } => {
            let bres = convert_binop(op);
            if bres.is_err() {
                return Err(bres.unwrap_err());
            }
            let bop = bres.unwrap();
            let lt: &ParseTree = &**left;
            let lres = convert_expr(lt);
            if lres.is_err() {
                return lres;
            }
            let le = lres.unwrap();
            let rt: &ParseTree = &**right;
            let rres = convert_expr(rt);
            if rres.is_err() {
                return rres;
            }
            let re = rres.unwrap();
            Ok(Expr::Binary { left: Box::new(le), op: bop, right: Box::new(re) })
        },
        ParseTree::Unary { op, operand } => {
            let ures = convert_unary_op(op);
            if ures.is_err() {
                return Err(ures.unwrap_err());
            }
            let uop = ures.unwrap();
            let ot: &ParseTree = &**operand;
            let ores = convert_expr(ot);
            if ores.is_err() {
                return ores;
            }
            Ok(Expr::Unary { op: uop, expr: Box::new(ores.unwrap()) })
        },
        ParseTree::Lit(l) => {
            let lres = convert_literal(l);
            if lres.is_err() {
                return Err(lres.unwrap_err());
            }
            Ok(Expr::Literal(lres.unwrap()))
        },
        ParseTree::Path(idents) => Ok(Expr::Path(idents_to_segments(idents))),
        ParseTree::Field { base, member } => {
            let bt: &ParseTree = &**base;
            let bres = extract_path_segments(bt);
            if bres.is_err() {
                return Err(bres.unwrap_err());
            }
            let mut segs = bres.unwrap();
            match member {
                Member::Named(name) => {
                    segs.push(PathSegment::Ident(name.clone()));
                },
                Member::Unnamed(i) => {
                    segs.push(PathSegment::TupleIndex(*i));
                },
            }
            let out = Ok(Expr::Path(segs));
            proof {
                assert(out->Ok_0@ is Path);
                assert(out->Ok_0@->Path_0 =~= spec_extract(
                    spec_tree_model(**base),
                )->Ok_0.push(spec_member_seg(member@)));
                assert(tree@ is Field);
                assert(conv_matches(out, spec_convert(tree@)));
            }
            out
        },
        ParseTree::Index { base, index } => {
            let bt: &ParseTree = &**base;
            let bres = extract_path_segments(bt);
            if bres.is_err() {
                return Err(bres.unwrap_err());
            }
            let mut segs = bres.unwrap();
            let it: &ParseTree = &**index;
            match it {
                ParseTree::Lit(ParseLit::Int(v)) => {
                    if *v >= 0 && *v <= usize::MAX as i128 {
                        segs.push(PathSegment::Index(*v as usize));
                        let out = Ok(Expr::Path(segs));
                        proof {
                            assert(out->Ok_0@ is Path);
                            assert(out->Ok_0@->Path_0 =~= spec_extract(
                                spec_tree_model(**base),
                            )->Ok_0.push(SegSpec::Index(*v as int)));
                            assert(**index == *it);
                            assert(spec_tree_model(**index) == TreeSpec::Lit(
                                ParseLitSpec::Int(*v as int),
                            ));
                            assert(tree@ is Index);
                            assert(conv_matches(out, spec_convert(tree@)));
                        }
                        out
                    } else {
                        let out = Err(EvalError::ParseError {
                            message: "invalid index literal".to_owned(),
                        });
                        proof {
                            assert(**index == *it);
                            assert(spec_tree_model(**index) == TreeSpec::Lit(
                                ParseLitSpec::Int(*v as int),
                            ));
                            assert(conv_matches(out, spec_convert(tree@)));
                        }
                        out
                    }
                },
                _ => {
                    let out = Err(EvalError::unsupported("dynamic index expressions"));
                    proof {
                        assert(**index == *it);
                        assert(conv_matches(out, spec_convert(tree@)));
                    }
                    out
                },
            }
        },
        ParseTree::Paren(inner) => {
            let it: &ParseTree = &**inner;
            let ires = convert_expr(it);
            if ires.is_err() {
                return ires;
            }
            Ok(Expr::Paren(Box::new(ires.unwrap())))
        },
        ParseTree::Cast { base, ty } => {
            let bt: &ParseTree = &**base;
            let bres = convert_expr(bt);
            if bres.is_err() {
                return bres;
            }
            Ok(Expr::Cast { expr: Box::new(bres.unwrap()), ty: ty.clone() })
        },
        ParseTree::Reference { operand } => {
            let ot: &ParseTree = &**operand;
            let ores = convert_expr(ot);
            if ores.is_err() {
                return ores;
            }
            Ok(Expr::Unary { op: UnaryOp::Ref, expr: Box::new(ores.unwrap()) })
        },
        ParseTree::Call => Err(EvalError::unsupported("function calls")),
        ParseTree::MethodCall => Err(EvalError::unsupported("method calls")),
        ParseTree::Closure => Err(EvalError::unsupported("closures")),
        ParseTree::Block => Err(EvalError::unsupported("block expressions")),
        ParseTree::If => Err(EvalError::unsupported("if expressions")),
        ParseTree::Match => Err(EvalError::unsupported("match expressions")),
        ParseTree::Other(kind) => Err(EvalError::unsupported(kind.as_str())),
    }
}

/// Extract path segments from nested path, field, index and deref
/// expressions; see `spec_extract`.
fn extract_path_segments(tree: &ParseTree) -> (r: Result<Vec<PathSegment>, EvalError>)
    ensures
        segs_matches(r, spec_extract(tree@)),
    decreases *tree,
{
    match tree {
        ParseTree::Path(idents) => {
            let segs = idents_to_segments(idents);
            Ok(segs)
        },
        ParseTree::Field { base, member } => {
            let bt: &ParseTree = &**base;
            let bres = extract_path_segments(bt);
            if bres.is_err() {
                return Err(bres.unwrap_err());
            }
            let mut segs = bres.unwrap();
            match member {
                Member::Named(name) => {
                    segs.push(PathSegment::Ident(name.clone()));
                },
                Member::Unnamed(i) => {
                    segs.push(PathSegment::TupleIndex(*i));
                },
            }
            let out = Ok(segs);
            proof {
                assert(out->Ok_0@.map_values(|seg: PathSegment| seg@) =~= spec_extract(
                    spec_tree_model(**base),
                )->Ok_0.push(spec_member_seg(member@)));
                assert(segs_matches(out, spec_extract(tree@)));
            }
            out
        },
        ParseTree::Index { base, index } => {
            let bt: &ParseTree = &**base;
            let bres = extract_path_segments(bt);
            if bres.is_err() {
                return Err(bres.unwrap_err());
            }
            let mut segs = bres.unwrap();
            let it: &ParseTree = &**index;
            match it {
                ParseTree::Lit(ParseLit::Int(v)) => {
                    if *v >= 0 && *v <= usize::MAX as i128 {
                        segs.push(PathSegment::Index(*v as usize));
                        let out = Ok(segs);
                        proof {
                            assert(out->Ok_0@.map_values(|seg: PathSegment| seg@) =~= spec_extract(
                                spec_tree_model(**base),
                            )->Ok_0.push(SegSpec::Index(*v as int)));
                            assert(**index == *it);
                            assert((*it) is Lit);
                            assert(spec_tree_model(**index) == TreeSpec::Lit(
                                ParseLitSpec::Int(*v as int),
                            ));
                            assert(tree@ is Index);
                            assert(segs_matches(out, spec_extract(tree@)));
                        }
                        out
                    } else {
                        let out = Err(EvalError::ParseError { message: "invalid index literal".to_owned() });
                        proof {
                            assert(segs_matches(out, spec_extract(tree@)));
                        }
                        out
                    }
                },
                _ => {
                    let out = Err(EvalError::unsupported("dynamic index"));
                    proof {
                        assert(segs_matches(out, spec_extract(tree@)));
                    }
                    out
                },
            }
        },
        ParseTree::Unary { op, operand } => {
            match op {
                ParseUnOp::Deref => {
                    let ot: &ParseTree = &**operand;
                    let ores = extract_path_segments(ot);
                    if ores.is_err() {
                        return Err(ores.unwrap_err());
                    }
                    let mut segs = ores.unwrap();
                    segs.insert(0, PathSegment::Deref);
                    let out = Ok(segs);
                    proof {
                        assert(out->Ok_0@.map_values(|seg: PathSegment| seg@) =~= seq![SegSpec::Deref]
                            + spec_extract(spec_tree_model(**operand))->Ok_0);
                        assert(segs_matches(out, spec_extract(tree@)));
                    }
                    out
                },
                _ => {
                    let out = Err(EvalError::unsupported("complex path expression"));
                    proof {
                        assert(segs_matches(out, spec_extract(tree@)));
                    }
                    out
                },
            }
        },
        _ => {
            let out = Err(EvalError::unsupported("complex path expression"));
            proof {
                assert(segs_matches(out, spec_extract(tree@)));
            }
            out
        },
    }
}

/// Convert a full-grammar binary operator; see `spec_convert_binop`.
fn convert_binop(op: &ParseBinOp) -> (r: Result<BinOp, EvalError>)
    ensures
        match r {
            Ok(b) => spec_convert_binop(*op) == Ok::<BinOp, ErrSpec>(b),
            Err(e) => spec_convert_binop(*op) matches Err(m) && e@ == m,
        },
{
    match op {
        ParseBinOp::Add => Ok(BinOp::Add),
        ParseBinOp::Sub => Ok(BinOp::Sub),
        ParseBinOp::Mul => Ok(BinOp::Mul),
        ParseBinOp::Div => Ok(BinOp::Div),
        ParseBinOp::Rem => Ok(BinOp::Rem),
        ParseBinOp::Eq => Ok(BinOp::Eq),
        ParseBinOp::Ne => Ok(BinOp::Ne),
        ParseBinOp::Lt => Ok(BinOp::Lt),
        ParseBinOp::Le => Ok(BinOp::Le),
        ParseBinOp::Gt => Ok(BinOp::Gt),
        ParseBinOp::Ge => Ok(BinOp::Ge),
        ParseBinOp::And => Ok(BinOp::And),
        ParseBinOp::Or => Ok(BinOp::Or),
        ParseBinOp::BitAnd => Ok(BinOp::BitAnd),
        ParseBinOp::BitOr => Ok(BinOp::BitOr),
        ParseBinOp::BitXor => Ok(BinOp::BitXor),
        ParseBinOp::Shl => Ok(BinOp::Shl),
        ParseBinOp::Shr => Ok(BinOp::Shr),
        ParseBinOp::Assignment => Err(EvalError::unsupported("assignment operators")),
    }
}

/// Convert a full-grammar unary operator; see `spec_convert_unop`.
fn convert_unary_op(op: &ParseUnOp) -> (r: Result<UnaryOp, EvalError>)
    ensures
        match r {
            Ok(u) => spec_convert_unop(*op) == Ok::<UnaryOp, ErrSpec>(u),
            Err(e) => spec_convert_unop(*op) matches Err(m) && e@ == m,
        },
{
    match op {
        ParseUnOp::Neg => Ok(UnaryOp::Neg),
        ParseUnOp::Not => Ok(UnaryOp::Not),
        ParseUnOp::Deref => Ok(UnaryOp::Deref),
        ParseUnOp::Other => Err(EvalError::unsupported("unknown unary operator")),
    }
}

/// Convert a full-grammar literal; see `spec_convert_literal`.
fn convert_literal(lit: &ParseLit) -> (r: Result<Literal, EvalError>)
    ensures
        match r {
            Ok(l) => spec_convert_literal(lit@) matches Ok(ls) && l@ == ls,
            Err(e) => spec_convert_literal(lit@) matches Err(m) && e@ == m,
        },
{
    match lit {
        ParseLit::Int(v) => Ok(Literal::Int(*v)),
        ParseLit::Float(b) => Ok(Literal::Float(*b)),
        ParseLit::Bool(b) => Ok(Literal::Bool(*b)),
        ParseLit::Char(c) => Ok(Literal::Char(*c)),
        ParseLit::Str(s) => Ok(Literal::String(s.clone())),
        ParseLit::Other => Err(EvalError::unsupported("byte literals")),
    }
}

} // verus!
