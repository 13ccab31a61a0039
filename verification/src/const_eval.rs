//! The constant evaluator: an AST-to-AST pass that folds known values.
//!
//! Run before code generation, it walks top-level functions, evaluates
//! expressions whose operands are statically known, and replaces the
//! corresponding subtrees with literals; calls to constant functions are
//! inlined abstractly by binding parameters to evaluated arguments and
//! walking the body.  Integer arithmetic folds with wrapping semantics.
//! Floating-point operands are carried as bit patterns and never folded, and
//! division by zero and out-of-range shifts are left for run time: in each
//! of those cases the evaluator reports the value as not known and leaves
//! the tree unchanged.

use vstd::prelude::*;

use crate::ast::{
    elsize, esize, slsize, spec_replace_stmt, spec_ty_eq, ssize, ty_eq, BinOp, Elem, Expr,
    ExprKind, FloatSuffix, Function, IntBase, IntSuffix, Name, Path, Position, Stmt, StmtKind,
    Type, UnOp,
};
use crate::list::{DeepClone, Lst, SymTable};
use crate::Context;
use crate::NodeId;

verus! {

/// A compile-time value.  Floating values carry the bit pattern of the
/// literal; `Unknown` means the evaluator cannot determine the value.
#[derive(PartialEq, Eq, Debug)]
pub enum Const {
    /// An integer immediate with the literal's suffix and base.
    Imm(i64, IntSuffix, IntBase),
    /// A floating value, as the bit pattern the lexer read.
    Float(u64, FloatSuffix),
    /// A boolean.
    Bool(bool),
    /// A struct value: its name and each field's name, value and node id.
    Struct(Name, Lst<ConstField>),
    /// The void value.
    Void,
    /// A value being returned out of a constant function.
    Ret(Box<Const>),
    /// A string value.
    Str(String),
    /// An array of values.
    Array(Box<Lst<Const>>),
    /// Not known at compile time; evaluation gives up on this value.
    Unknown,
}

/// One field of a struct constant.
#[derive(PartialEq, Eq, Debug)]
pub struct ConstField {
    pub name: Name,
    pub value: Box<Const>,
    pub id: NodeId,
}

/// Why constant evaluation aborts; each of these is fatal to a
/// compilation.
#[derive(PartialEq, Eq, Debug)]
pub enum EvalError {
    /// A statement kind the evaluator does not support inside a constant
    /// function.
    UnsupportedStmt(NodeId),
    /// No constant-function candidate matched the call.
    ConstFunctionNotFound(Name),
    /// No ordinary candidate matched the call under aggressive evaluation.
    FunctionNotFound(Name),
    /// The semantic checker left no type for this node id.
    MissingNodeType(NodeId),
    /// A value with no literal form was about to be written into the tree.
    NotConst,
    /// A constant array was indexed out of bounds.
    IndexOutOfBounds,
    /// A function selected for evaluation has no body.
    MissingBody(Name),
}

impl Const {
    /// Whether this is the void value.
    pub fn is_void(&self) -> (r: bool)
        ensures
            r == (self is Void),
    {
        matches!(self, Const::Void)
    }

    /// Whether the value is not known.
    pub fn is_none(&self) -> (r: bool)
        ensures
            r == (self is Unknown),
    {
        matches!(self, Const::Unknown)
    }

    /// Value-preserving recursive clone.
    pub fn clone_const(&self) -> (r: Const)
        ensures
            r == *self,
        decreases self,
    {
        match self {
            Const::Imm(i, s, b) => Const::Imm(*i, *s, *b),
            Const::Float(f, s) => Const::Float(*f, *s),
            Const::Bool(b) => Const::Bool(*b),
            Const::Struct(n, fields) => Const::Struct(*n, Self::clone_field_consts(fields)),
            Const::Void => Const::Void,
            Const::Ret(c) => Const::Ret(Box::new((**c).clone_const())),
            Const::Str(s) => Const::Str(s.clone()),
            Const::Array(cs) => Const::Array(Box::new(Self::clone_const_list(cs))),
            Const::Unknown => Const::Unknown,
        }
    }

    /// Value-preserving clone of a field list.
    pub fn clone_field_consts(l: &Lst<ConstField>) -> (r: Lst<ConstField>)
        ensures
            r == *l,
        decreases l,
    {
        match l {
            Lst::Nil => Lst::Nil,
            Lst::Cons(h, t) => Lst::Cons(
                ConstField { name: h.name, value: Box::new((*h.value).clone_const()), id: h.id },
                Box::new(Self::clone_field_consts(t)),
            ),
        }
    }

    /// Value-preserving clone of a value list.
    pub fn clone_const_list(l: &Lst<Const>) -> (r: Lst<Const>)
        ensures
            r == *l,
        decreases l,
    {
        match l {
            Lst::Nil => Lst::Nil,
            Lst::Cons(h, t) => Lst::Cons(h.clone_const(), Box::new(Self::clone_const_list(t))),
        }
    }

    /// The literal expression kind of a known value (spec); values with no
    /// literal form have none.
    pub open spec fn spec_to_kind(c: Const) -> Result<ExprKind, EvalError>
        decreases c,
    {
        match c {
            Const::Imm(imm, suffix, base) => Result::Ok(ExprKind::Int(imm, base, suffix)),
            Const::Float(f, suffix) => Result::Ok(ExprKind::Float(f, suffix)),
            Const::Bool(b) => Result::Ok(ExprKind::Bool(b)),
            Const::Struct(name, fields) => match Self::spec_fields_to_args(fields) {
                Result::Ok(args) => Result::Ok(ExprKind::Struct(Path { name }, args)),
                Result::Err(er) => Result::Err(er),
            },
            Const::Ret(inner) => Self::spec_to_kind(*inner),
            Const::Str(s) => Result::Ok(ExprKind::Str(s)),
            _ => Result::Err(EvalError::NotConst),
        }
    }

    /// The struct-literal arguments of a struct constant (spec).
    pub open spec fn spec_fields_to_args(fields: Lst<ConstField>) -> Result<
        Lst<crate::ast::StructArg>,
        EvalError,
    >
        decreases fields,
    {
        match fields {
            Lst::Nil => Result::Ok(Lst::Nil),
            Lst::Cons(h, t) => match Self::spec_to_kind(*h.value) {
                Result::Err(er) => Result::Err(er),
                Result::Ok(kind) => match Self::spec_fields_to_args(*t) {
                    Result::Err(er) => Result::Err(er),
                    Result::Ok(rest) => Result::Ok(
                        Lst::Cons(
                            crate::ast::StructArg {
                                id: h.id,
                                pos: Position { file: 0, line: 0, column: 0 },
                                name: h.name,
                                expr: Box::new(
                                    Expr {
                                        id: NodeId(0),
                                        pos: Position { file: 0, line: 0, column: 0 },
                                        kind,
                                    },
                                ),
                            },
                            Box::new(rest),
                        ),
                    ),
                },
            },
        }
    }

    /// Translate a known value into the literal expression kind that stands
    /// for it in the rewritten tree.
    pub fn to_kind(&self) -> (r: Result<ExprKind, EvalError>)
        ensures
            r == Self::spec_to_kind(*self),
        decreases self,
    {
        match self {
            Const::Imm(imm, suffix, base) => Result::Ok(ExprKind::Int(*imm, *base, *suffix)),
            Const::Float(f, suffix) => Result::Ok(ExprKind::Float(*f, *suffix)),
            Const::Bool(b) => Result::Ok(ExprKind::Bool(*b)),
            Const::Struct(name, fields) => match Self::fields_to_args(fields) {
                Result::Ok(args) => Result::Ok(ExprKind::Struct(Path { name: *name }, args)),
                Result::Err(er) => Result::Err(er),
            },
            Const::Ret(inner) => (**inner).to_kind(),
            Const::Str(s) => Result::Ok(ExprKind::Str(s.clone())),
            _ => Result::Err(EvalError::NotConst),
        }
    }

    fn fields_to_args(fields: &Lst<ConstField>) -> (r: Result<Lst<crate::ast::StructArg>, EvalError>)
        ensures
            r == Self::spec_fields_to_args(*fields),
        decreases fields,
    {
        match fields {
            Lst::Nil => Result::Ok(Lst::Nil),
            Lst::Cons(h, t) => {
                let kind = match (*h.value).to_kind() {
                    Result::Ok(k) => k,
                    Result::Err(er) => {
                        return Result::Err(er);
                    },
                };
                match Self::fields_to_args(t) {
                    Result::Err(er) => Result::Err(er),
                    Result::Ok(rest) => Result::Ok(
                        Lst::Cons(
                            crate::ast::StructArg {
                                id: h.id,
                                pos: Position { file: 0, line: 0, column: 0 },
                                name: h.name,
                                expr: Box::new(
                                    Expr {
                                        id: NodeId(0),
                                        pos: Position { file: 0, line: 0, column: 0 },
                                        kind,
                                    },
                                ),
                            },
                            Box::new(rest),
                        ),
                    ),
                }
            },
        }
    }
}

impl DeepClone for Const {
    fn deep_clone(&self) -> (r: Const)
        ensures
            r == *self,
    {
        self.clone_const()
    }
}

/// Folding of a binary operation on two known values (spec).  Integer
/// arithmetic wraps; the left operand's suffix and base are kept; division
/// or remainder by zero and shifts outside `0..64` are not folded; floating
/// operands are never folded.
pub open spec fn spec_fold_binop(op: BinOp, c1: Const, c2: Const) -> Const {
    match op {
        BinOp::Add => match (c1, c2) {
            (Const::Imm(i1, s, b), Const::Imm(i2, _, _)) => Const::Imm(
                vstd::wrapping::i64_specs::wrapping_add(i1, i2),
                s,
                b,
            ),
            _ => Const::Unknown,
        },
        BinOp::Sub => match (c1, c2) {
            (Const::Imm(i1, s, b), Const::Imm(i2, _, _)) => Const::Imm(
                vstd::wrapping::i64_specs::wrapping_sub(i1, i2),
                s,
                b,
            ),
            _ => Const::Unknown,
        },
        BinOp::Mul => match (c1, c2) {
            (Const::Imm(i1, s, b), Const::Imm(i2, _, _)) => Const::Imm(
                vstd::wrapping::i64_specs::wrapping_mul(i1, i2),
                s,
                b,
            ),
            _ => Const::Unknown,
        },
        BinOp::Div => match (c1, c2) {
            (Const::Imm(i1, s, b), Const::Imm(i2, _, _)) => match i1.checked_div(i2) {
                Option::Some(v) => Const::Imm(v, s, b),
                Option::None => if i2 == 0 {
                    Const::Unknown
                } else {
                    Const::Imm(i64::MIN, s, b)
                },
            },
            _ => Const::Unknown,
        },
        BinOp::Rem => match (c1, c2) {
            (Const::Imm(i1, s, b), Const::Imm(i2, _, _)) => match i1.checked_rem(i2) {
                Option::Some(v) => Const::Imm(v, s, b),
                Option::None => if i2 == 0 {
                    Const::Unknown
                } else {
                    Const::Imm(0, s, b)
                },
            },
            _ => Const::Unknown,
        },
        BinOp::Or => match (c1, c2) {
            (Const::Imm(i1, s, b), Const::Imm(i2, _, _)) => Const::Imm(i1 | i2, s, b),
            _ => Const::Unknown,
        },
        BinOp::And => match (c1, c2) {
            (Const::Imm(i1, s, b), Const::Imm(i2, _, _)) => Const::Imm(i1 & i2, s, b),
            _ => Const::Unknown,
        },
        BinOp::Xor => match (c1, c2) {
            (Const::Imm(i1, s, b), Const::Imm(i2, _, _)) => Const::Imm(i1 ^ i2, s, b),
            _ => Const::Unknown,
        },
        BinOp::Shr => match (c1, c2) {
            (Const::Imm(i1, s, b), Const::Imm(i2, _, _)) => if 0 <= i2 < 64 {
                Const::Imm(vstd::wrapping::i64_specs::wrapping_shr(i1, i2 as u32), s, b)
            } else {
                Const::Unknown
            },
            _ => Const::Unknown,
        },
        BinOp::Shl => match (c1, c2) {
            (Const::Imm(i1, s, b), Const::Imm(i2, _, _)) => if 0 <= i2 < 64 {
                Const::Imm(vstd::wrapping::i64_specs::wrapping_shl(i1, i2 as u32), s, b)
            } else {
                Const::Unknown
            },
            _ => Const::Unknown,
        },
        BinOp::OrOr => match (c1, c2) {
            (Const::Bool(b1), Const::Bool(b2)) => Const::Bool(b1 || b2),
            _ => Const::Unknown,
        },
        BinOp::AndAnd => match (c1, c2) {
            (Const::Bool(b1), Const::Bool(b2)) => Const::Bool(b1 && b2),
            _ => Const::Unknown,
        },
        BinOp::Lt => match (c1, c2) {
            (Const::Imm(i1, _, _), Const::Imm(i2, _, _)) => Const::Bool(i1 < i2),
            _ => Const::Unknown,
        },
        BinOp::Gt => match (c1, c2) {
            (Const::Imm(i1, _, _), Const::Imm(i2, _, _)) => Const::Bool(i1 > i2),
            _ => Const::Unknown,
        },
        BinOp::Eq => match (c1, c2) {
            (Const::Imm(i1, _, _), Const::Imm(i2, _, _)) => Const::Bool(i1 == i2),
            (Const::Bool(b1), Const::Bool(b2)) => Const::Bool(b1 == b2),
            _ => Const::Unknown,
        },
        BinOp::Ne => match (c1, c2) {
            (Const::Imm(i1, _, _), Const::Imm(i2, _, _)) => Const::Bool(i1 != i2),
            (Const::Bool(b1), Const::Bool(b2)) => Const::Bool(b1 != b2),
            _ => Const::Unknown,
        },
        BinOp::Ge => match (c1, c2) {
            (Const::Imm(i1, _, _), Const::Imm(i2, _, _)) => Const::Bool(i1 >= i2),
            _ => Const::Unknown,
        },
        BinOp::Le => match (c1, c2) {
            (Const::Imm(i1, _, _), Const::Imm(i2, _, _)) => Const::Bool(i1 <= i2),
            _ => Const::Unknown,
        },
    }
}

/// Folding of a binary operation on two known values.
pub fn fold_binop(op: BinOp, c1: &Const, c2: &Const) -> (r: Const)
    ensures
        r == spec_fold_binop(op, *c1, *c2),
{
    match op {
        BinOp::Add => match (c1, c2) {
            (Const::Imm(i1, s, b), Const::Imm(i2, _, _)) => Const::Imm(
                i1.wrapping_add(*i2),
                *s,
                *b,
            ),
            _ => Const::Unknown,
        },
        BinOp::Sub => match (c1, c2) {
            (Const::Imm(i1, s, b), Const::Imm(i2, _, _)) => Const::Imm(
                i1.wrapping_sub(*i2),
                *s,
                *b,
            ),
            _ => Const::Unknown,
        },
        BinOp::Mul => match (c1, c2) {
            (Const::Imm(i1, s, b), Const::Imm(i2, _, _)) => Const::Imm(
                i1.wrapping_mul(*i2),
                *s,
                *b,
            ),
            _ => Const::Unknown,
        },
        BinOp::Div => match (c1, c2) {
            (Const::Imm(i1, s, b), Const::Imm(i2, _, _)) => match i1.checked_div(*i2) {
                Option::Some(v) => Const::Imm(v, *s, *b),
                Option::None => if *i2 == 0 {
                    Const::Unknown
                } else {
                    Const::Imm(i64::MIN, *s, *b)
                },
            },
            _ => Const::Unknown,
        },
        BinOp::Rem => match (c1, c2) {
            (Const::Imm(i1, s, b), Const::Imm(i2, _, _)) => match i1.checked_rem(*i2) {
                Option::Some(v) => Const::Imm(v, *s, *b),
                Option::None => if *i2 == 0 {
                    Const::Unknown
                } else {
                    Const::Imm(0, *s, *b)
                },
            },
            _ => Const::Unknown,
        },
        BinOp::Or => match (c1, c2) {
            (Const::Imm(i1, s, b), Const::Imm(i2, _, _)) => Const::Imm(*i1 | *i2, *s, *b),
            _ => Const::Unknown,
        },
        BinOp::And => match (c1, c2) {
            (Const::Imm(i1, s, b), Const::Imm(i2, _, _)) => Const::Imm(*i1 & *i2, *s, *b),
            _ => Const::Unknown,
        },
        BinOp::Xor => match (c1, c2) {
            (Const::Imm(i1, s, b), Const::Imm(i2, _, _)) => Const::Imm(*i1 ^ *i2, *s, *b),
            _ => Const::Unknown,
        },
        BinOp::Shr => match (c1, c2) {
            (Const::Imm(i1, s, b), Const::Imm(i2, _, _)) => if 0 <= *i2 && *i2 < 64 {
                Const::Imm(i1.wrapping_shr(*i2 as u32), *s, *b)
            } else {
                Const::Unknown
            },
            _ => Const::Unknown,
        },
        BinOp::Shl => match (c1, c2) {
            (Const::Imm(i1, s, b), Const::Imm(i2, _, _)) => if 0 <= *i2 && *i2 < 64 {
                Const::Imm(i1.wrapping_shl(*i2 as u32), *s, *b)
            } else {
                Const::Unknown
            },
            _ => Const::Unknown,
        },
        BinOp::OrOr => match (c1, c2) {
            (Const::Bool(b1), Const::Bool(b2)) => Const::Bool(*b1 || *b2),
            _ => Const::Unknown,
        },
        BinOp::AndAnd => match (c1, c2) {
            (Const::Bool(b1), Const::Bool(b2)) => Const::Bool(*b1 && *b2),
            _ => Const::Unknown,
        },
        BinOp::Lt => match (c1, c2) {
            (Const::Imm(i1, _, _), Const::Imm(i2, _, _)) => Const::Bool(*i1 < *i2),
            _ => Const::Unknown,
        },
        BinOp::Gt => match (c1, c2) {
            (Const::Imm(i1, _, _), Const::Imm(i2, _, _)) => Const::Bool(*i1 > *i2),
            _ => Const::Unknown,
        },
        BinOp::Eq => match (c1, c2) {
            (Const::Imm(i1, _, _), Const::Imm(i2, _, _)) => Const::Bool(*i1 == *i2),
            (Const::Bool(b1), Const::Bool(b2)) => Const::Bool(*b1 == *b2),
            _ => Const::Unknown,
        },
        BinOp::Ne => match (c1, c2) {
            (Const::Imm(i1, _, _), Const::Imm(i2, _, _)) => Const::Bool(*i1 != *i2),
            (Const::Bool(b1), Const::Bool(b2)) => Const::Bool(*b1 != *b2),
            _ => Const::Unknown,
        },
        BinOp::Ge => match (c1, c2) {
            (Const::Imm(i1, _, _), Const::Imm(i2, _, _)) => Const::Bool(*i1 >= *i2),
            _ => Const::Unknown,
        },
        BinOp::Le => match (c1, c2) {
            (Const::Imm(i1, _, _), Const::Imm(i2, _, _)) => Const::Bool(*i1 <= *i2),
            _ => Const::Unknown,
        },
    }
}

/// Folding of a unary operation on a known value (spec): negation wraps,
/// `!` complements integers and negates booleans, `+` is the identity.
pub open spec fn spec_fold_unop(op: UnOp, c: Const) -> Const {
    match op {
        UnOp::Plus => match c {
            Const::Imm(i, s, b) => Const::Imm(i, s, b),
            Const::Float(f, s) => Const::Float(f, s),
            _ => Const::Unknown,
        },
        UnOp::Neg => match c {
            Const::Imm(i, s, b) => Const::Imm(
                vstd::wrapping::i64_specs::wrapping_sub(0, i),
                s,
                b,
            ),
            _ => Const::Unknown,
        },
        UnOp::Not => match c {
            Const::Imm(i, s, b) => Const::Imm(i ^ (-1i64), s, b),
            Const::Bool(b) => Const::Bool(!b),
            _ => Const::Unknown,
        },
    }
}

/// Folding of a unary operation on a known value.
pub fn fold_unop(op: UnOp, c: &Const) -> (r: Const)
    ensures
        r == spec_fold_unop(op, *c),
{
    match op {
        UnOp::Plus => match c {
            Const::Imm(i, s, b) => Const::Imm(*i, *s, *b),
            Const::Float(f, s) => Const::Float(*f, *s),
            _ => Const::Unknown,
        },
        UnOp::Neg => match c {
            Const::Imm(i, s, b) => Const::Imm((0i64).wrapping_sub(*i), *s, *b),
            _ => Const::Unknown,
        },
        UnOp::Not => match c {
            Const::Imm(i, s, b) => Const::Imm(*i ^ (-1i64), *s, *b),
            Const::Bool(b) => Const::Bool(!*b),
            _ => Const::Unknown,
        },
    }
}

/// Folding of an explicit conversion of a known value (spec): integer,
/// boolean and returned values convert to integers keeping their payload;
/// conversions that would need floating arithmetic are not folded.
pub open spec fn spec_fold_conv(c: Const, to_int: bool, to_float: bool) -> Const {
    if to_int {
        match c {
            Const::Imm(i, s, b) => Const::Imm(i, s, b),
            Const::Bool(b) => Const::Imm(
                if b {
                    1
                } else {
                    0
                },
                IntSuffix::Int,
                IntBase::Dec,
            ),
            Const::Ret(inner) => match *inner {
                Const::Imm(i, s, b) => Const::Imm(i, s, b),
                Const::Bool(b) => Const::Imm(
                    if b {
                        1
                    } else {
                        0
                    },
                    IntSuffix::Int,
                    IntBase::Dec,
                ),
                Const::Void => Const::Void,
                _ => Const::Unknown,
            },
            _ => Const::Unknown,
        }
    } else if to_float {
        match c {
            Const::Float(f, s) => Const::Float(f, s),
            _ => Const::Unknown,
        }
    } else {
        Const::Unknown
    }
}

/// Folding of an explicit conversion of a known value.
pub fn fold_conv(c: &Const, to_int: bool, to_float: bool) -> (r: Const)
    ensures
        r == spec_fold_conv(*c, to_int, to_float),
{
    if to_int {
        match c {
            Const::Imm(i, s, b) => Const::Imm(*i, *s, *b),
            Const::Bool(b) => Const::Imm(
                if *b {
                    1
                } else {
                    0
                },
                IntSuffix::Int,
                IntBase::Dec,
            ),
            Const::Ret(inner) => match &**inner {
                Const::Imm(i, s, b) => Const::Imm(*i, *s, *b),
                Const::Bool(b) => Const::Imm(
                    if *b {
                        1
                    } else {
                        0
                    },
                    IntSuffix::Int,
                    IntBase::Dec,
                ),
                Const::Void => Const::Void,
                _ => Const::Unknown,
            },
            _ => Const::Unknown,
        }
    } else if to_float {
        match c {
            Const::Float(f, s) => Const::Float(*f, *s),
            _ => Const::Unknown,
        }
    } else {
        Const::Unknown
    }
}

/// Byte size of a type from its written-out form alone, as the evaluator
/// folds `sizeof`: fixed primitive widths, summed struct fields, element
/// size times length for sized arrays; vectors and unknown names are left
/// for the code generator.
pub fn ty_size(ty: &Type) -> (r: Option<usize>)
    ensures
        r == ConstEval::spec_plain_ty_size(*ty),
    decreases ty,
{
    match ty {
        Type::Vector(_) => Option::None,
        Type::Ptr(_) => Option::Some(8),
        Type::Func(_) => Option::Some(8),
        Type::Void(_) => Option::Some(0),
        Type::Basic(b) => crate::gccjit::prim_size(b.name),
        Type::Struct(st) => fields_size(&st.fields),
        Type::Array(a) => match &a.len {
            Option::Some(n) => match ty_size(&a.subtype) {
                Option::Some(sz) => sz.checked_mul(*n),
                Option::None => Option::None,
            },
            Option::None => Option::Some(8),
        },
    }
}

fn fields_size(fields: &Lst<crate::ast::StructField>) -> (r: Option<usize>)
    ensures
        r == ConstEval::spec_plain_fields_size(*fields),
    decreases fields,
{
    match fields {
        Lst::Nil => Option::Some(0),
        Lst::Cons(h, t) => match ty_size(&h.data_type) {
            Option::Some(sz) => match fields_size(t) {
                Option::Some(rest) => sz.checked_add(rest),
                Option::None => Option::None,
            },
            Option::None => Option::None,
        },
    }
}

/// The depth budget the evaluator runs with: jumps through named constants,
/// constant-function calls, and loop iterations each consume one unit, and
/// the evaluator reports "not known" when the budget runs out.
pub const EVAL_FUEL: usize = 4096;

/// The constant evaluator.  It owns the compiler context and rewrites the
/// parsed file's elements in place; with `try_eval_normal` it also inlines
/// calls to ordinary (not `constexpr`) functions where it can.
#[derive(PartialEq, Eq, Debug)]
pub struct ConstEval {
    /// Variables whose values are known in the current compile-time scope.
    pub known_vars: SymTable<Const>,
    /// The compiler context being rewritten.
    pub ctx: Context,
    /// All constant functions by name.
    pub const_functions: SymTable<Lst<Function>>,
    /// Named constant expressions.
    pub constexprs: SymTable<Expr>,
    /// All ordinary functions by name, for aggressive evaluation.
    pub functions: SymTable<Lst<Function>>,
    /// Whether ordinary functions are evaluated too.
    pub try_eval_normal: bool,
    /// Index of the element currently being optimized.
    pub id: usize,
}

/// The names of a declared parameter list (spec).
pub open spec fn spec_param_names(params: Lst<(Name, Type)>) -> Lst<Name>
    decreases params,
{
    match params {
        Lst::Nil => Lst::Nil,
        Lst::Cons(p, t) => Lst::Cons(p.0, Box::new(spec_param_names(*t))),
    }
}

/// The names of a declared parameter list.
pub fn param_names(params: &Lst<(Name, Type)>) -> (r: Lst<Name>)
    ensures
        r == spec_param_names(*params),
    decreases params,
{
    match params {
        Lst::Nil => Lst::Nil,
        Lst::Cons(p, t) => Lst::Cons(p.0, Box::new(param_names(t))),
    }
}

/// The context with the expression `target` inside element `fid`'s function
/// body replaced by `new` (spec); elements that are not functions are left
/// alone.
pub open spec fn spec_rewrite_at(ctx: Context, fid: int, target: NodeId, new: Expr) -> Context {
    match ctx.file.elems.spec_nth(fid) {
        Option::Some(Elem::Func(f)) => {
            let f2 = Function {
                body: match f.body {
                    Option::Some(b) => Option::Some(
                        Box::new(spec_replace_stmt(*b, target, new)),
                    ),
                    Option::None => Option::None,
                },
                ..f
            };
            Context {
                file: crate::ast::File {
                    elems: ctx.file.elems.spec_update(fid, Elem::Func(f2)),
                    ..ctx.file
                },
                ..ctx
            }
        },
        _ => ctx,
    }
}

impl ConstEval {
    /// A fresh evaluator over `ctx`.
    pub fn new(ctx: Context, try_eval_normal: bool) -> (r: ConstEval)
        ensures
            r.ctx == ctx,
            r.try_eval_normal == try_eval_normal,
            r.known_vars.items == Lst::<(u64, Const)>::Nil,
            r.const_functions.items == Lst::<(u64, Lst<Function>)>::Nil,
            r.constexprs.items == Lst::<(u64, Expr)>::Nil,
            r.functions.items == Lst::<(u64, Lst<Function>)>::Nil,
            r.id == 0,
    {
        ConstEval {
            known_vars: SymTable::new(),
            ctx,
            const_functions: SymTable::new(),
            constexprs: SymTable::new(),
            functions: SymTable::new(),
            try_eval_normal,
            id: 0,
        }
    }

    /// The type the checker recorded for a node (spec).
    pub open spec fn spec_node_type(&self, id: NodeId) -> Result<Type, EvalError> {
        match self.ctx.types.spec_get(id.0 as u64) {
            Option::Some(t) => Result::Ok(t),
            Option::None => Result::Err(EvalError::MissingNodeType(id)),
        }
    }

    fn node_type(&self, id: NodeId) -> (r: Result<Type, EvalError>)
        ensures
            r == self.spec_node_type(id),
    {
        match self.ctx.types.get(id.0 as u64) {
            Option::Some(t) => Result::Ok(t.clone_ty()),
            Option::None => Result::Err(EvalError::MissingNodeType(id)),
        }
    }

    /// Replacement of one expression inside the element currently being
    /// optimized (spec).
    pub open spec fn spec_rewrite(s: ConstEval, target: NodeId, new: Expr) -> ConstEval {
        ConstEval { ctx: spec_rewrite_at(s.ctx, s.id as int, target, new), ..s }
    }

    fn rewrite(&mut self, target: NodeId, new: Expr)
        ensures
            *final(self) == Self::spec_rewrite(*old(self), target, new),
    {
        let fid = self.id;
        let mut elems: Lst<Elem> = Lst::Nil;
        core::mem::swap(&mut elems, &mut self.ctx.file.elems);
        self.ctx.file.elems = Self::rewrite_elems(elems, fid, target, &new);
    }

    fn rewrite_elems(elems: Lst<Elem>, fid: usize, target: NodeId, new: &Expr) -> (r: Lst<Elem>)
        ensures
            r == (match elems.spec_nth(fid as int) {
                Option::Some(Elem::Func(f)) => elems.spec_update(
                    fid as int,
                    Elem::Func(
                        Function {
                            body: match f.body {
                                Option::Some(b) => Option::Some(
                                    Box::new(spec_replace_stmt(*b, target, *new)),
                                ),
                                Option::None => Option::None,
                            },
                            ..f
                        },
                    ),
                ),
                _ => elems,
            }),
        decreases elems,
    {
        match elems {
            Lst::Nil => Lst::Nil,
            Lst::Cons(e, t) => {
                if fid == 0 {
                    match e {
                        Elem::Func(f) => {
                            let Function {
                                pos,
                                name,
                                params,
                                ret,
                                this,
                                body,
                                external,
                                internal,
                                public,
                                inline,
                                static_,
                                constant,
                                variadic,
                                ir_temp_id,
                            } = f;
                            let body2 = match body {
                                Option::Some(b) => Option::Some(
                                    Box::new((*b).replace_stmt(target, new)),
                                ),
                                Option::None => Option::None,
                            };
                            Lst::Cons(
                                Elem::Func(
                                    Function {
                                        pos,
                                        name,
                                        params,
                                        ret,
                                        this,
                                        body: body2,
                                        external,
                                        internal,
                                        public,
                                        inline,
                                        static_,
                                        constant,
                                        variadic,
                                        ir_temp_id,
                                    },
                                ),
                                t,
                            )
                        },
                        other => Lst::Cons(other, t),
                    }
                } else {
                    Lst::Cons(e, Box::new(Self::rewrite_elems(*t, fid - 1, target, new)))
                }
            },
        }
    }

    /// Looking a variable up in the compile-time scope (spec): a named
    /// constant expression is evaluated; otherwise the known-variable table
    /// decides; unknown names are not known.
    pub open spec fn spec_try_get_var(s: ConstEval, name: Name, fuel: nat) -> (ConstEval, Result<
        Const,
        EvalError,
    >)
        decreases fuel, 0nat, 0int,
    {
        match s.constexprs.spec_get(name) {
            Option::Some(cexpr) => if fuel == 0 {
                (s, Result::Ok(Const::Unknown))
            } else {
                Self::spec_eval(s, cexpr, (fuel - 1) as nat)
            },
            Option::None => match s.known_vars.spec_get(name) {
                Option::Some(c) => (s, Result::Ok(c)),
                Option::None => (s, Result::Ok(Const::Unknown)),
            },
        }
    }

    /// Evaluation of an expression to a compile-time value (spec).
    pub open spec fn spec_eval(s: ConstEval, e: Expr, fuel: nat) -> (ConstEval, Result<
        Const,
        EvalError,
    >)
        decreases fuel, esize(e), 3int,
    {
        match e.kind {
            ExprKind::Int(i, b, sx) => (s, Result::Ok(Const::Imm(i, sx, b))),
            ExprKind::Float(f, sx) => (s, Result::Ok(Const::Float(f, sx))),
            ExprKind::Bool(b) => (s, Result::Ok(Const::Bool(b))),
            ExprKind::Str(st) => (s, Result::Ok(Const::Str(st))),
            ExprKind::Conv(sub, to) => match Self::spec_eval(s, *sub, fuel) {
                (s1, Result::Err(er)) => (s1, Result::Err(er)),
                (s1, Result::Ok(v)) => if v is Unknown {
                    (s1, Result::Ok(Const::Unknown))
                } else {
                    (
                        s1,
                        Result::Ok(
                            spec_fold_conv(
                                v,
                                crate::ast::spec_is_any_int(&to),
                                crate::ast::spec_is_any_float(&to),
                            ),
                        ),
                    )
                },
            },
            ExprKind::Binary(op, lhs, rhs) => Self::spec_eval_binop(s, op, *lhs, *rhs, fuel),
            ExprKind::Unary(op, sub) => match Self::spec_eval(s, *sub, fuel) {
                (s1, Result::Err(er)) => (s1, Result::Err(er)),
                (s1, Result::Ok(v)) => if v is Unknown {
                    (s1, Result::Ok(Const::Unknown))
                } else {
                    (s1, Result::Ok(spec_fold_unop(op, v)))
                },
            },
            ExprKind::Struct(path, args) => Self::spec_eval_struct_args(s, path.name, args, fuel),
            ExprKind::Field(sub, fname) => match Self::spec_eval(s, *sub, fuel) {
                (s1, Result::Err(er)) => (s1, Result::Err(er)),
                (s1, Result::Ok(v)) => match v {
                    Const::Unknown => (s1, Result::Ok(Const::Unknown)),
                    Const::Struct(_, fields) => (
                        s1,
                        Result::Ok(Self::spec_field_value(fields, fname)),
                    ),
                    _ => (s1, Result::Ok(Const::Unknown)),
                },
            },
            ExprKind::Ident(name) => Self::spec_try_get_var(s, name, fuel),
            ExprKind::Assign(to, from) => match Self::spec_try_assign(s, *to, *from, fuel) {
                (s1, Result::Err(er)) => (s1, Result::Err(er)),
                (s1, Result::Ok(())) => Self::spec_eval(s1, *from, fuel),
            },
            ExprKind::ArrayIdx(sub, idx) => match Self::spec_eval(s, *idx, fuel) {
                (s1, Result::Err(er)) => (s1, Result::Err(er)),
                (s1, Result::Ok(iv)) => match Self::spec_eval(s1, *sub, fuel) {
                    (s2, Result::Err(er)) => (s2, Result::Err(er)),
                    (s2, Result::Ok(av)) => if av is Unknown || iv is Unknown {
                        (s2, Result::Ok(Const::Unknown))
                    } else {
                        match iv {
                            Const::Imm(imm, _, _) => match av {
                                Const::Array(items) => match items.spec_nth(imm as usize as int) {
                                    Option::Some(c) => (s2, Result::Ok(c)),
                                    Option::None => (s2, Result::Err(EvalError::IndexOutOfBounds)),
                                },
                                _ => (s2, Result::Ok(Const::Unknown)),
                            },
                            _ => (s2, Result::Err(EvalError::NotConst)),
                        }
                    },
                },
            },
            ExprKind::Call(path, this, args) => Self::spec_eval_call(s, e.pos, path, this, *args, fuel),
            ExprKind::SizeOf(t) => match Self::spec_plain_ty_size(*t) {
                Option::Some(sz) => (
                    s,
                    Result::Ok(Const::Imm(sz as i64, IntSuffix::Int, IntBase::Dec)),
                ),
                Option::None => (s, Result::Ok(Const::Unknown)),
            },
            _ => (s, Result::Ok(Const::Unknown)),
        }
    }

    /// The value of a named field of a struct constant (spec); missing
    /// fields are not known.
    pub open spec fn spec_field_value(fields: Lst<ConstField>, fname: Name) -> Const
        decreases fields,
    {
        match fields {
            Lst::Nil => Const::Unknown,
            Lst::Cons(h, t) => if h.name == fname {
                *h.value
            } else {
                Self::spec_field_value(*t, fname)
            },
        }
    }

    fn field_value(fields: &Lst<ConstField>, fname: Name) -> (r: Const)
        ensures
            r == Self::spec_field_value(*fields, fname),
        decreases fields,
    {
        match fields {
            Lst::Nil => Const::Unknown,
            Lst::Cons(h, t) => if h.name == fname {
                (*h.value).clone_const()
            } else {
                Self::field_value(t, fname)
            },
        }
    }

    /// The size the evaluator folds `sizeof` to, using the fixed primitive
    /// widths and summing struct fields; vectors and unknown names are left
    /// for the code generator (spec).
    pub open spec fn spec_plain_ty_size(ty: Type) -> Option<usize>
        decreases ty,
    {
        match ty {
            Type::Vector(_) => Option::None,
            Type::Ptr(_) => Option::Some(8usize),
            Type::Func(_) => Option::Some(8usize),
            Type::Void(_) => Option::Some(0usize),
            Type::Basic(b) => crate::gccjit::spec_prim_size(b.name),
            Type::Struct(st) => Self::spec_plain_fields_size(st.fields),
            Type::Array(a) => match a.len {
                Option::Some(n) => match Self::spec_plain_ty_size(*a.subtype) {
                    Option::Some(sz) => if sz * n <= usize::MAX {
                        Option::Some((sz * n) as usize)
                    } else {
                        Option::None
                    },
                    Option::None => Option::None,
                },
                Option::None => Option::Some(8usize),
            },
        }
    }

    /// Summed sizes of written-out struct fields (spec).
    pub open spec fn spec_plain_fields_size(fields: Lst<crate::ast::StructField>) -> Option<usize>
        decreases fields,
    {
        match fields {
            Lst::Nil => Option::Some(0usize),
            Lst::Cons(h, t) => match Self::spec_plain_ty_size(*h.data_type) {
                Option::Some(sz) => match Self::spec_plain_fields_size(*t) {
                    Option::Some(rest) => if sz + rest <= usize::MAX {
                        Option::Some((sz + rest) as usize)
                    } else {
                        Option::None
                    },
                    Option::None => Option::None,
                },
                Option::None => Option::None,
            },
        }
    }

    /// Evaluation of both operands of a binary operation, folding when both
    /// are known (spec).
    pub open spec fn spec_eval_binop(s: ConstEval, op: BinOp, lhs: Expr, rhs: Expr, fuel: nat) -> (
        ConstEval,
        Result<Const, EvalError>,
    )
        decreases fuel, 1 + esize(lhs) + esize(rhs), 1int,
    {
        match Self::spec_eval(s, lhs, fuel) {
            (s1, Result::Err(er)) => (s1, Result::Err(er)),
            (s1, Result::Ok(c1)) => match Self::spec_eval(s1, rhs, fuel) {
                (s2, Result::Err(er)) => (s2, Result::Err(er)),
                (s2, Result::Ok(c2)) => if c1 is Unknown || c2 is Unknown {
                    (s2, Result::Ok(Const::Unknown))
                } else {
                    (s2, Result::Ok(spec_fold_binop(op, c1, c2)))
                },
            },
        }
    }

    /// Evaluation of a struct literal's arguments (spec); the whole value is
    /// known only when every field is.
    pub open spec fn spec_eval_struct_args(
        s: ConstEval,
        name: Name,
        args: Lst<crate::ast::StructArg>,
        fuel: nat,
    ) -> (ConstEval, Result<Const, EvalError>)
        decreases fuel, 1 + crate::ast::alsize(args), 1int,
    {
        match Self::spec_eval_fields(s, args, fuel) {
            (s1, Result::Err(er)) => (s1, Result::Err(er)),
            (s1, Result::Ok(Option::None)) => (s1, Result::Ok(Const::Unknown)),
            (s1, Result::Ok(Option::Some(fields))) => (
                s1,
                Result::Ok(Const::Struct(name, fields)),
            ),
        }
    }

    /// Evaluation of struct-literal fields (spec); `None` when any field is
    /// not known.
    pub open spec fn spec_eval_fields(
        s: ConstEval,
        args: Lst<crate::ast::StructArg>,
        fuel: nat,
    ) -> (ConstEval, Result<Option<Lst<ConstField>>, EvalError>)
        decreases fuel, crate::ast::alsize(args), 0int,
    {
        match args {
            Lst::Nil => (s, Result::Ok(Option::Some(Lst::Nil))),
            Lst::Cons(a, t) => match Self::spec_eval(s, *a.expr, fuel) {
                (s1, Result::Err(er)) => (s1, Result::Err(er)),
                (s1, Result::Ok(v)) => if v is Unknown {
                    (s1, Result::Ok(Option::None))
                } else {
                    match Self::spec_eval_fields(s1, *t, fuel) {
                        (s2, Result::Err(er)) => (s2, Result::Err(er)),
                        (s2, Result::Ok(Option::None)) => (s2, Result::Ok(Option::None)),
                        (s2, Result::Ok(Option::Some(rest))) => (
                            s2,
                            Result::Ok(
                                Option::Some(
                                    Lst::Cons(
                                        ConstField {
                                            name: a.name,
                                            value: Box::new(v),
                                            id: a.expr.id,
                                        },
                                        Box::new(rest),
                                    ),
                                ),
                            ),
                        ),
                    }
                },
            },
        }
    }

    /// Compile-time assignment (spec): an assignment to a known variable
    /// updates or forgets it; an assignment to a field of a known struct
    /// variable rewrites that field; anything else is ignored.
    pub open spec fn spec_try_assign(s: ConstEval, to: Expr, from: Expr, fuel: nat) -> (
        ConstEval,
        Result<(), EvalError>,
    )
        decreases fuel, 1 + esize(to) + esize(from), 0int,
    {
        match to.kind {
            ExprKind::Ident(name) => if s.known_vars.spec_contains(name) {
                match Self::spec_eval(s, from, fuel) {
                    (s1, Result::Err(er)) => (s1, Result::Err(er)),
                    (s1, Result::Ok(v)) => if !(v is Unknown) {
                        (
                            ConstEval { known_vars: s1.known_vars.spec_insert(name, v), ..s1 },
                            Result::Ok(()),
                        )
                    } else {
                        (
                            ConstEval { known_vars: s1.known_vars.spec_remove(name), ..s1 },
                            Result::Ok(()),
                        )
                    },
                }
            } else {
                (s, Result::Ok(()))
            },
            ExprKind::Field(obj, fname) => match obj.kind {
                ExprKind::Ident(name) => if s.known_vars.spec_contains(name) {
                    match Self::spec_eval(s, from, fuel) {
                        (s1, Result::Err(er)) => (s1, Result::Err(er)),
                        (s1, Result::Ok(v)) => if v is Unknown {
                            (s1, Result::Ok(()))
                        } else {
                            match s1.known_vars.spec_get(name) {
                                Option::Some(Const::Struct(sn, fields)) => (
                                    ConstEval {
                                        known_vars: s1.known_vars.spec_insert(
                                            name,
                                            Const::Struct(
                                                sn,
                                                Self::spec_set_field(fields, fname, v, from.id),
                                            ),
                                        ),
                                        ..s1
                                    },
                                    Result::Ok(()),
                                ),
                                _ => (s1, Result::Ok(())),
                            }
                        },
                    }
                } else {
                    (s, Result::Ok(()))
                },
                _ => (s, Result::Ok(())),
            },
            _ => (s, Result::Ok(())),
        }
    }

    /// The field list with the first field of the given name replaced by the
    /// new value and node id (spec).
    pub open spec fn spec_set_field(
        fields: Lst<ConstField>,
        fname: Name,
        v: Const,
        id: NodeId,
    ) -> Lst<ConstField>
        decreases fields,
    {
        match fields {
            Lst::Nil => Lst::Nil,
            Lst::Cons(h, t) => if h.name == fname {
                Lst::Cons(ConstField { name: h.name, value: Box::new(v), id }, t)
            } else {
                Lst::Cons(h, Box::new(Self::spec_set_field(*t, fname, v, id)))
            },
        }
    }

    fn set_field(fields: Lst<ConstField>, fname: Name, v: Const, id: NodeId) -> (r: Lst<ConstField>)
        ensures
            r == Self::spec_set_field(fields, fname, v, id),
        decreases fields,
    {
        match fields {
            Lst::Nil => Lst::Nil,
            Lst::Cons(h, t) => if h.name == fname {
                Lst::Cons(ConstField { name: h.name, value: Box::new(v), id }, t)
            } else {
                Lst::Cons(h, Box::new(Self::set_field(*t, fname, v, id)))
            },
        }
    }

    /// Whether the last positional comparison of a candidate's parameter
    /// types against the call's argument types holds (spec).  The
    /// evaluator's resolver overwrites its match flag at each position, so
    /// only the final comparison decides.
    pub open spec fn spec_last_arg_matches(
        s: ConstEval,
        args: Lst<Expr>,
        params: Lst<(Name, Type)>,
        acc: bool,
    ) -> Result<bool, EvalError>
        decreases args,
    {
        match (args, params) {
            (Lst::Nil, Lst::Nil) => Result::Ok(acc),
            (Lst::Cons(a, at), Lst::Cons(p, pt)) => match s.spec_node_type(a.id) {
                Result::Err(er) => Result::Err(er),
                Result::Ok(ty) => Self::spec_last_arg_matches(
                    s,
                    *at,
                    *pt,
                    spec_ty_eq(&ty, &p.1),
                ),
            },
            _ => Result::Ok(false),
        }
    }

    fn last_arg_matches(&self, args: &Lst<Expr>, params: &Lst<(Name, Type)>, acc: bool) -> (r:
        Result<bool, EvalError>)
        ensures
            r == Self::spec_last_arg_matches(*self, *args, *params, acc),
        decreases args,
    {
        match (args, params) {
            (Lst::Nil, Lst::Nil) => Result::Ok(acc),
            (Lst::Cons(a, at), Lst::Cons(p, pt)) => match self.node_type(a.id) {
                Result::Err(er) => Result::Err(er),
                Result::Ok(ty) => self.last_arg_matches(at, pt, ty_eq(&ty, &p.1)),
            },
            _ => Result::Ok(false),
        }
    }

    /// The first candidate the evaluator's matcher accepts (spec): argument
    /// and parameter counts must agree, an empty signature always matches,
    /// and otherwise the last positional comparison decides.
    pub open spec fn spec_pick_candidate(
        s: ConstEval,
        funcs: Lst<Function>,
        args: Lst<Expr>,
    ) -> Result<Option<Function>, EvalError>
        decreases funcs,
    {
        match funcs {
            Lst::Nil => Result::Ok(Option::None),
            Lst::Cons(f, t) => {
                if crate::list::spec_lst_longer(&f.params, &args) || crate::list::spec_lst_longer(
                    &args,
                    &f.params,
                ) {
                    Self::spec_pick_candidate(s, *t, args)
                } else if f.params is Nil && args is Nil {
                    Result::Ok(Option::Some(f))
                } else {
                    match Self::spec_last_arg_matches(s, args, f.params, false) {
                        Result::Err(er) => Result::Err(er),
                        Result::Ok(true) => Result::Ok(Option::Some(f)),
                        Result::Ok(false) => Self::spec_pick_candidate(s, *t, args),
                    }
                }
            },
        }
    }

    fn pick_candidate(&self, funcs: &Lst<Function>, args: &Lst<Expr>) -> (r: Result<
        Option<Function>,
        EvalError,
    >)
        ensures
            r == Self::spec_pick_candidate(*self, *funcs, *args),
        decreases funcs,
    {
        match funcs {
            Lst::Nil => Result::Ok(Option::None),
            Lst::Cons(f, t) => {
                if crate::list::lst_longer(&f.params, args) || crate::list::lst_longer(
                    args,
                    &f.params,
                ) {
                    self.pick_candidate(t, args)
                } else if matches!(&f.params, Lst::Nil) && matches!(args, Lst::Nil) {
                    Result::Ok(Option::Some(f.deep_clone()))
                } else {
                    match self.last_arg_matches(args, &f.params, false) {
                        Result::Err(er) => Result::Err(er),
                        Result::Ok(true) => Result::Ok(Option::Some(f.deep_clone())),
                        Result::Ok(false) => self.pick_candidate(t, args),
                    }
                }
            },
        }
    }

    /// Evaluation of a call (spec): method calls are not evaluated; a
    /// matched constant function (or, aggressively, an ordinary one) is
    /// inlined abstractly; otherwise each known argument is rewritten to its
    /// literal and the call itself stays.
    pub open spec fn spec_eval_call(
        s: ConstEval,
        pos: Position,
        path: Path,
        this: Option<Box<Expr>>,
        args: Lst<Expr>,
        fuel: nat,
    ) -> (ConstEval, Result<Const, EvalError>)
        decreases fuel, 1 + crate::ast::osize(this) + elsize(args), 2int,
    {
        if this is Some {
            (s, Result::Ok(Const::Unknown))
        } else {
            let name = path.name;
            match s.const_functions.spec_get(name) {
                Option::Some(funcs) => match Self::spec_pick_candidate(s, funcs, args) {
                    Result::Err(er) => (s, Result::Err(er)),
                    Result::Ok(Option::None) => (
                        s,
                        Result::Err(EvalError::ConstFunctionNotFound(name)),
                    ),
                    Result::Ok(Option::Some(f)) => match f.body {
                        Option::None => (s, Result::Err(EvalError::MissingBody(name))),
                        Option::Some(b) => if fuel == 0 {
                            (s, Result::Ok(Const::Unknown))
                        } else {
                            Self::spec_eval_constfn(
                                s,
                                spec_param_names(f.params),
                                *b,
                                args,
                                (fuel - 1) as nat,
                            )
                        },
                    },
                },
                Option::None => {
                    let normal = if s.try_eval_normal {
                        s.functions.spec_get(name)
                    } else {
                        Option::None
                    };
                    match normal {
                        Option::Some(funcs) => match Self::spec_pick_candidate(s, funcs, args) {
                            Result::Err(er) => (s, Result::Err(er)),
                            Result::Ok(Option::None) => (
                                s,
                                Result::Err(EvalError::FunctionNotFound(name)),
                            ),
                            Result::Ok(Option::Some(f)) => match f.body {
                                Option::None => (s, Result::Err(EvalError::MissingBody(name))),
                                Option::Some(b) => if fuel == 0 {
                                    (s, Result::Ok(Const::Unknown))
                                } else {
                                    Self::spec_eval_constfn(
                                        s,
                                        spec_param_names(f.params),
                                        *b,
                                        args,
                                        (fuel - 1) as nat,
                                    )
                                },
                            },
                        },
                        Option::None => match Self::spec_optimize_args(s, pos, args, fuel) {
                            (s1, Result::Err(er)) => (s1, Result::Err(er)),
                            (s1, Result::Ok(())) => (s1, Result::Ok(Const::Unknown)),
                        },
                    }
                },
            }
        }
    }

    /// Rewriting of each known call argument to its literal form (spec);
    /// the walk stops at the first argument that is not known.
    pub open spec fn spec_optimize_args(
        s: ConstEval,
        pos: Position,
        args: Lst<Expr>,
        fuel: nat,
    ) -> (ConstEval, Result<(), EvalError>)
        decreases fuel, elsize(args), 0int,
    {
        match args {
            Lst::Nil => (s, Result::Ok(())),
            Lst::Cons(a, t) => match Self::spec_eval(s, a, fuel) {
                (s1, Result::Err(er)) => (s1, Result::Err(er)),
                (s1, Result::Ok(v)) => if v is Unknown {
                    (s1, Result::Ok(()))
                } else {
                    match Const::spec_to_kind(v) {
                        Result::Err(er) => (s1, Result::Err(er)),
                        Result::Ok(kind) => {
                            let s2 = Self::spec_rewrite(
                                s1,
                                a.id,
                                Expr { id: a.id, pos, kind },
                            );
                            Self::spec_optimize_args(s2, pos, *t, fuel)
                        },
                    }
                },
            },
        }
    }

    /// Binding of a constant function's parameters to evaluated arguments
    /// (spec): each known argument is also rewritten to its literal at the
    /// call site; `None` when some argument is not known.
    pub open spec fn spec_bind_args(
        s: ConstEval,
        params: Lst<Name>,
        args: Lst<Expr>,
        vars: SymTable<Const>,
        fuel: nat,
    ) -> (ConstEval, Result<Option<SymTable<Const>>, EvalError>)
        decreases fuel, elsize(args), 0int,
    {
        match params {
            Lst::Nil => (s, Result::Ok(Option::Some(vars))),
            Lst::Cons(p, pt) => match args {
                Lst::Nil => (s, Result::Err(EvalError::IndexOutOfBounds)),
                Lst::Cons(a, at) => match Self::spec_eval(s, a, fuel) {
                    (s1, Result::Err(er)) => (s1, Result::Err(er)),
                    (s1, Result::Ok(v)) => if v is Unknown {
                        (s1, Result::Ok(Option::None))
                    } else {
                        match Const::spec_to_kind(v) {
                            Result::Err(er) => (s1, Result::Err(er)),
                            Result::Ok(kind) => {
                                let s2 = Self::spec_rewrite(
                                    s1,
                                    a.id,
                                    Expr { id: a.id, pos: a.pos, kind },
                                );
                                Self::spec_bind_args(
                                    s2,
                                    *pt,
                                    *at,
                                    vars.spec_insert(p, v),
                                    fuel,
                                )
                            },
                        }
                    },
                },
            },
        }
    }

    /// Abstract inlining of a constant function (spec): parameters are bound
    /// to evaluated arguments in a fresh scope, the body is walked, and a
    /// returned value is unwrapped; the caller's scope is restored.
    pub open spec fn spec_eval_constfn(
        s: ConstEval,
        params: Lst<Name>,
        body: Stmt,
        args: Lst<Expr>,
        fuel: nat,
    ) -> (ConstEval, Result<Const, EvalError>)
        decreases fuel, 1 + elsize(args) + ssize(body), 2int,
    {
        let old_vars = s.known_vars;
        match Self::spec_bind_args(s, params, args, SymTable { items: Lst::Nil }, fuel) {
            (s1, Result::Err(er)) => (s1, Result::Err(er)),
            (s1, Result::Ok(Option::None)) => (s1, Result::Ok(Const::Unknown)),
            (s1, Result::Ok(Option::Some(new_vars))) => {
                let s2 = ConstEval { known_vars: new_vars, ..s1 };
                match Self::spec_eval_stmt(s2, body, fuel) {
                    (s3, Result::Err(er)) => (s3, Result::Err(er)),
                    (s3, Result::Ok(val)) => {
                        let s4 = ConstEval { known_vars: old_vars, ..s3 };
                        match val {
                            Option::Some(Const::Ret(inner)) => (s4, Result::Ok(*inner)),
                            Option::Some(c) => (s4, Result::Ok(c)),
                            Option::None => (s4, Result::Ok(Const::Unknown)),
                        }
                    },
                }
            },
        }
    }

    /// Evaluation of a statement inside a constant function (spec): the
    /// value of a block is its last statement's, a return wraps its value,
    /// a known `if` picks its branch, and a `while` iterates while its
    /// condition evaluates to true, giving up when the budget runs out.
    /// Unsupported statement kinds are fatal.
    pub open spec fn spec_eval_stmt(s: ConstEval, st: Stmt, fuel: nat) -> (ConstEval, Result<
        Option<Const>,
        EvalError,
    >)
        decreases fuel, ssize(st), 1int,
    {
        match st.kind {
            StmtKind::Block(ss) => Self::spec_eval_block(s, *ss, Option::None, fuel),
            StmtKind::Expr(e) => match Self::spec_eval(s, *e, fuel) {
                (s1, Result::Err(er)) => (s1, Result::Err(er)),
                (s1, Result::Ok(v)) => (s1, Result::Ok(Option::Some(v))),
            },
            StmtKind::Return(oe) => match oe {
                Option::Some(e) => match Self::spec_eval(s, *e, fuel) {
                    (s1, Result::Err(er)) => (s1, Result::Err(er)),
                    (s1, Result::Ok(v)) => if v is Unknown {
                        (s1, Result::Ok(Option::None))
                    } else {
                        (s1, Result::Ok(Option::Some(Const::Ret(Box::new(v)))))
                    },
                },
                Option::None => (
                    s,
                    Result::Ok(Option::Some(Const::Ret(Box::new(Const::Void)))),
                ),
            },
            StmtKind::Var(name, _, _, oe) => match oe {
                Option::None => (s, Result::Ok(Option::None)),
                Option::Some(e) => match Self::spec_eval(s, *e, fuel) {
                    (s1, Result::Err(er)) => (s1, Result::Err(er)),
                    (s1, Result::Ok(v)) => if v is Unknown {
                        (s1, Result::Ok(Option::None))
                    } else {
                        (
                            ConstEval { known_vars: s1.known_vars.spec_insert(name, v), ..s1 },
                            Result::Ok(Option::Some(Const::Void)),
                        )
                    },
                },
            },
            StmtKind::If(cond, then, otherwise) => match Self::spec_eval(s, *cond, fuel) {
                (s1, Result::Err(er)) => (s1, Result::Err(er)),
                (s1, Result::Ok(v)) => match v {
                    Const::Unknown => (s1, Result::Ok(Option::None)),
                    Const::Bool(true) => Self::spec_eval_stmt(s1, *then, fuel),
                    Const::Bool(false) => match otherwise {
                        Option::Some(el) => Self::spec_eval_stmt(s1, *el, fuel),
                        Option::None => (s1, Result::Ok(Option::Some(Const::Void))),
                    },
                    _ => (s1, Result::Ok(Option::Some(Const::Void))),
                },
            },
            StmtKind::While(cond, body) => Self::spec_eval_while(s, *cond, *body, fuel),
            _ => (s, Result::Err(EvalError::UnsupportedStmt(st.id))),
        }
    }

    /// Evaluation of a statement list; a returned value stops the walk
    /// (spec).
    pub open spec fn spec_eval_block(
        s: ConstEval,
        ss: Lst<Stmt>,
        last: Option<Const>,
        fuel: nat,
    ) -> (ConstEval, Result<Option<Const>, EvalError>)
        decreases fuel, slsize(ss), 0int,
    {
        match ss {
            Lst::Nil => (s, Result::Ok(last)),
            Lst::Cons(h, t) => match Self::spec_eval_stmt(s, h, fuel) {
                (s1, Result::Err(er)) => (s1, Result::Err(er)),
                (s1, Result::Ok(val)) => match val {
                    Option::Some(Const::Ret(r)) => (
                        s1,
                        Result::Ok(Option::Some(Const::Ret(r))),
                    ),
                    other => Self::spec_eval_block(s1, *t, other, fuel),
                },
            },
        }
    }

    /// Evaluation of a compile-time `while` (spec): re-evaluate the
    /// condition each iteration, run the body, stop on an unknown value, a
    /// returned value, or an exhausted budget.
    pub open spec fn spec_eval_while(s: ConstEval, cond: Expr, body: Stmt, fuel: nat) -> (
        ConstEval,
        Result<Option<Const>, EvalError>,
    )
        decreases fuel, 1 + esize(cond) + ssize(body), 0int,
    {
        if fuel == 0 {
            (s, Result::Ok(Option::None))
        } else {
            match Self::spec_eval(s, cond, fuel) {
                (s1, Result::Err(er)) => (s1, Result::Err(er)),
                (s1, Result::Ok(cv)) => match cv {
                    Const::Bool(true) => match Self::spec_eval_stmt(s1, body, fuel) {
                        (s2, Result::Err(er)) => (s2, Result::Err(er)),
                        (s2, Result::Ok(val)) => match val {
                            Option::None => (s2, Result::Ok(Option::None)),
                            Option::Some(Const::Unknown) => (s2, Result::Ok(Option::None)),
                            Option::Some(Const::Ret(r)) => (
                                s2,
                                Result::Ok(Option::Some(Const::Ret(r))),
                            ),
                            Option::Some(_) => Self::spec_eval_while(
                                s2,
                                cond,
                                body,
                                (fuel - 1) as nat,
                            ),
                        },
                    },
                    Const::Bool(false) => (s1, Result::Ok(Option::Some(Const::Void))),
                    Const::Unknown => (s1, Result::Ok(Option::None)),
                    _ => (s1, Result::Ok(Option::Some(Const::Void))),
                },
            }
        }
    }

    fn try_get_var(&mut self, name: Name, fuel: usize) -> (r: Result<Const, EvalError>)
        ensures
            (*final(self), r) == Self::spec_try_get_var(*old(self), name, fuel as nat),
        decreases fuel, 0nat, 0int,
    {
        let cexpr = match self.constexprs.get(name) {
            Option::Some(c) => Option::Some(c.clone_expr()),
            Option::None => Option::None,
        };
        match cexpr {
            Option::Some(c) => {
                if fuel == 0 {
                    return Result::Ok(Const::Unknown);
                }
                self.eval(&c, fuel - 1)
            },
            Option::None => match self.known_vars.get(name) {
                Option::Some(c) => Result::Ok(c.clone_const()),
                Option::None => Result::Ok(Const::Unknown),
            },
        }
    }

    /// Evaluate an expression to a compile-time value.
    #[verifier::rlimit(100)]
    pub(crate) fn eval(&mut self, e: &Expr, fuel: usize) -> (r: Result<Const, EvalError>)
        ensures
            (*final(self), r) == Self::spec_eval(*old(self), *e, fuel as nat),
        decreases fuel, esize(*e), 3int,
    {
        match &e.kind {
            ExprKind::Int(i, b, sx) => Result::Ok(Const::Imm(*i, *sx, *b)),
            ExprKind::Float(f, sx) => Result::Ok(Const::Float(*f, *sx)),
            ExprKind::Bool(b) => Result::Ok(Const::Bool(*b)),
            ExprKind::Str(st) => Result::Ok(Const::Str(st.clone())),
            ExprKind::Conv(sub, to) => {
                let v = match self.eval(&**sub, fuel) {
                    Result::Ok(v) => v,
                    Result::Err(er) => {
                        return Result::Err(er);
                    },
                };
                if v.is_none() {
                    Result::Ok(Const::Unknown)
                } else {
                    Result::Ok(
                        fold_conv(
                            &v,
                            crate::ast::ty_is_any_int(to),
                            crate::ast::ty_is_any_float(to),
                        ),
                    )
                }
            },
            ExprKind::Binary(op, lhs, rhs) => self.eval_binop(*op, &**lhs, &**rhs, fuel),
            ExprKind::Unary(op, sub) => {
                let v = match self.eval(&**sub, fuel) {
                    Result::Ok(v) => v,
                    Result::Err(er) => {
                        return Result::Err(er);
                    },
                };
                if v.is_none() {
                    Result::Ok(Const::Unknown)
                } else {
                    Result::Ok(fold_unop(*op, &v))
                }
            },
            ExprKind::Struct(path, args) => self.eval_struct_args(path.name, args, fuel),
            ExprKind::Field(sub, fname) => {
                let v = match self.eval(&**sub, fuel) {
                    Result::Ok(v) => v,
                    Result::Err(er) => {
                        return Result::Err(er);
                    },
                };
                match &v {
                    Const::Unknown => Result::Ok(Const::Unknown),
                    Const::Struct(_, fields) => Result::Ok(Self::field_value(fields, *fname)),
                    _ => Result::Ok(Const::Unknown),
                }
            },
            ExprKind::Ident(name) => self.try_get_var(*name, fuel),
            ExprKind::Assign(to, from) => {
                match self.try_assign(&**to, &**from, fuel) {
                    Result::Ok(()) => {},
                    Result::Err(er) => {
                        return Result::Err(er);
                    },
                };
                self.eval(&**from, fuel)
            },
            ExprKind::ArrayIdx(sub, idx) => {
                let iv = match self.eval(&**idx, fuel) {
                    Result::Ok(v) => v,
                    Result::Err(er) => {
                        return Result::Err(er);
                    },
                };
                let av = match self.eval(&**sub, fuel) {
                    Result::Ok(v) => v,
                    Result::Err(er) => {
                        return Result::Err(er);
                    },
                };
                if av.is_none() || iv.is_none() {
                    Result::Ok(Const::Unknown)
                } else {
                    match &iv {
                        Const::Imm(imm, _, _) => match &av {
                            Const::Array(items) => match items.nth(*imm as usize) {
                                Option::Some(c) => Result::Ok(c.clone_const()),
                                Option::None => Result::Err(EvalError::IndexOutOfBounds),
                            },
                            _ => Result::Ok(Const::Unknown),
                        },
                        _ => Result::Err(EvalError::NotConst),
                    }
                }
            },
            ExprKind::Call(path, this, args) => self.eval_call(e.pos, *path, this, args, fuel),
            ExprKind::SizeOf(t) => match ty_size(&**t) {
                Option::Some(sz) => Result::Ok(
                    Const::Imm(sz as i64, IntSuffix::Int, IntBase::Dec),
                ),
                Option::None => Result::Ok(Const::Unknown),
            },
            _ => Result::Ok(Const::Unknown),
        }
    }

    fn eval_binop(&mut self, op: BinOp, lhs: &Expr, rhs: &Expr, fuel: usize) -> (r: Result<
        Const,
        EvalError,
    >)
        ensures
            (*final(self), r) == Self::spec_eval_binop(*old(self), op, *lhs, *rhs, fuel as nat),
        decreases fuel, 1 + esize(*lhs) + esize(*rhs), 1int,
    {
        let c1 = match self.eval(lhs, fuel) {
            Result::Ok(v) => v,
            Result::Err(er) => {
                return Result::Err(er);
            },
        };
        let c2 = match self.eval(rhs, fuel) {
            Result::Ok(v) => v,
            Result::Err(er) => {
                return Result::Err(er);
            },
        };
        if c1.is_none() || c2.is_none() {
            Result::Ok(Const::Unknown)
        } else {
            Result::Ok(fold_binop(op, &c1, &c2))
        }
    }

    fn eval_struct_args(
        &mut self,
        name: Name,
        args: &Lst<crate::ast::StructArg>,
        fuel: usize,
    ) -> (r: Result<Const, EvalError>)
        ensures
            (*final(self), r) == Self::spec_eval_struct_args(*old(self), name, *args, fuel as nat),
        decreases fuel, 1 + crate::ast::alsize(*args), 1int,
    {
        match self.eval_fields(args, fuel) {
            Result::Err(er) => Result::Err(er),
            Result::Ok(Option::None) => Result::Ok(Const::Unknown),
            Result::Ok(Option::Some(fields)) => Result::Ok(Const::Struct(name, fields)),
        }
    }

    fn eval_fields(&mut self, args: &Lst<crate::ast::StructArg>, fuel: usize) -> (r: Result<
        Option<Lst<ConstField>>,
        EvalError,
    >)
        ensures
            (*final(self), r) == Self::spec_eval_fields(*old(self), *args, fuel as nat),
        decreases fuel, crate::ast::alsize(*args), 0int,
    {
        match args {
            Lst::Nil => Result::Ok(Option::Some(Lst::Nil)),
            Lst::Cons(a, t) => {
                let v = match self.eval(&*a.expr, fuel) {
                    Result::Ok(v) => v,
                    Result::Err(er) => {
                        return Result::Err(er);
                    },
                };
                if v.is_none() {
                    Result::Ok(Option::None)
                } else {
                    match self.eval_fields(t, fuel) {
                        Result::Err(er) => Result::Err(er),
                        Result::Ok(Option::None) => Result::Ok(Option::None),
                        Result::Ok(Option::Some(rest)) => Result::Ok(
                            Option::Some(
                                Lst::Cons(
                                    ConstField {
                                        name: a.name,
                                        value: Box::new(v),
                                        id: a.expr.id,
                                    },
                                    Box::new(rest),
                                ),
                            ),
                        ),
                    }
                }
            },
        }
    }

    fn try_assign(&mut self, to: &Expr, from: &Expr, fuel: usize) -> (r: Result<(), EvalError>)
        ensures
            (*final(self), r) == Self::spec_try_assign(*old(self), *to, *from, fuel as nat),
        decreases fuel, 1 + esize(*to) + esize(*from), 0int,
    {
        match &to.kind {
            ExprKind::Ident(name) => {
                if self.known_vars.contains_key(*name) {
                    let v = match self.eval(from, fuel) {
                        Result::Ok(v) => v,
                        Result::Err(er) => {
                            return Result::Err(er);
                        },
                    };
                    if !v.is_none() {
                        self.known_vars.insert(*name, v);
                    } else {
                        self.known_vars.remove(*name);
                    }
                }
                Result::Ok(())
            },
            ExprKind::Field(obj, fname) => {
                match &obj.kind {
                    ExprKind::Ident(name) => {
                        if self.known_vars.contains_key(*name) {
                            let v = match self.eval(from, fuel) {
                                Result::Ok(v) => v,
                                Result::Err(er) => {
                                    return Result::Err(er);
                                },
                            };
                            if !v.is_none() {
                                let cur = match self.known_vars.get(*name) {
                                    Option::Some(c) => Option::Some(c.clone_const()),
                                    Option::None => Option::None,
                                };
                                match cur {
                                    Option::Some(Const::Struct(sn, fields)) => {
                                        self.known_vars.insert(
                                            *name,
                                            Const::Struct(
                                                sn,
                                                Self::set_field(fields, *fname, v, from.id),
                                            ),
                                        );
                                    },
                                    _ => {},
                                };
                            }
                        }
                        Result::Ok(())
                    },
                    _ => Result::Ok(()),
                }
            },
            _ => Result::Ok(()),
        }
    }

    #[verifier::rlimit(100)]
    fn eval_call(
        &mut self,
        pos: Position,
        path: Path,
        this: &Option<Box<Expr>>,
        args: &Lst<Expr>,
        fuel: usize,
    ) -> (r: Result<Const, EvalError>)
        ensures
            (*final(self), r) == Self::spec_eval_call(
                *old(self),
                pos,
                path,
                *this,
                *args,
                fuel as nat,
            ),
        decreases fuel, 1 + crate::ast::osize(*this) + elsize(*args), 2int,
    {
        if this.is_some() {
            return Result::Ok(Const::Unknown);
        }
        let name = path.name;
        let cfuncs = match self.const_functions.get(name) {
            Option::Some(fs) => Option::Some(fs.deep_clone()),
            Option::None => Option::None,
        };
        match cfuncs {
            Option::Some(funcs) => {
                let picked = match self.pick_candidate(&funcs, args) {
                    Result::Ok(p) => p,
                    Result::Err(er) => {
                        return Result::Err(er);
                    },
                };
                match picked {
                    Option::None => Result::Err(EvalError::ConstFunctionNotFound(name)),
                    Option::Some(f) => match f.body {
                        Option::None => Result::Err(EvalError::MissingBody(name)),
                        Option::Some(b) => {
                            if fuel == 0 {
                                return Result::Ok(Const::Unknown);
                            }
                            let names = param_names(&f.params);
                            self.eval_constfn(&names, &*b, args, fuel - 1)
                        },
                    },
                }
            },
            Option::None => {
                let nfuncs = if self.try_eval_normal {
                    match self.functions.get(name) {
                        Option::Some(fs) => Option::Some(fs.deep_clone()),
                        Option::None => Option::None,
                    }
                } else {
                    Option::None
                };
                match nfuncs {
                    Option::Some(funcs) => {
                        let picked = match self.pick_candidate(&funcs, args) {
                            Result::Ok(p) => p,
                            Result::Err(er) => {
                                return Result::Err(er);
                            },
                        };
                        match picked {
                            Option::None => Result::Err(EvalError::FunctionNotFound(name)),
                            Option::Some(f) => match f.body {
                                Option::None => Result::Err(EvalError::MissingBody(name)),
                                Option::Some(b) => {
                                    if fuel == 0 {
                                        return Result::Ok(Const::Unknown);
                                    }
                                    let names = param_names(&f.params);
                                    self.eval_constfn(&names, &*b, args, fuel - 1)
                                },
                            },
                        }
                    },
                    Option::None => {
                        match self.optimize_args(pos, args, fuel) {
                            Result::Ok(()) => Result::Ok(Const::Unknown),
                            Result::Err(er) => Result::Err(er),
                        }
                    },
                }
            },
        }
    }

    fn optimize_args(&mut self, pos: Position, args: &Lst<Expr>, fuel: usize) -> (r: Result<
        (),
        EvalError,
    >)
        ensures
            (*final(self), r) == Self::spec_optimize_args(*old(self), pos, *args, fuel as nat),
        decreases fuel, elsize(*args), 0int,
    {
        match args {
            Lst::Nil => Result::Ok(()),
            Lst::Cons(a, t) => {
                let v = match self.eval(a, fuel) {
                    Result::Ok(v) => v,
                    Result::Err(er) => {
                        return Result::Err(er);
                    },
                };
                if v.is_none() {
                    Result::Ok(())
                } else {
                    let kind = match v.to_kind() {
                        Result::Ok(k) => k,
                        Result::Err(er) => {
                            return Result::Err(er);
                        },
                    };
                    self.rewrite(a.id, Expr { id: a.id, pos, kind });
                    self.optimize_args(pos, t, fuel)
                }
            },
        }
    }

    fn bind_args(
        &mut self,
        params: &Lst<Name>,
        args: &Lst<Expr>,
        vars: SymTable<Const>,
        fuel: usize,
    ) -> (r: Result<Option<SymTable<Const>>, EvalError>)
        ensures
            (*final(self), r) == Self::spec_bind_args(*old(self), *params, *args, vars, fuel as nat),
        decreases fuel, elsize(*args), 0int,
    {
        match params {
            Lst::Nil => Result::Ok(Option::Some(vars)),
            Lst::Cons(p, pt) => match args {
                Lst::Nil => Result::Err(EvalError::IndexOutOfBounds),
                Lst::Cons(a, at) => {
                    let v = match self.eval(a, fuel) {
                        Result::Ok(v) => v,
                        Result::Err(er) => {
                            return Result::Err(er);
                        },
                    };
                    if v.is_none() {
                        Result::Ok(Option::None)
                    } else {
                        let kind = match v.to_kind() {
                            Result::Ok(k) => k,
                            Result::Err(er) => {
                                return Result::Err(er);
                            },
                        };
                        self.rewrite(a.id, Expr { id: a.id, pos: a.pos, kind });
                        let mut vars2 = vars;
                        vars2.insert(*p, v);
                        self.bind_args(pt, at, vars2, fuel)
                    }
                },
            },
        }
    }

    fn eval_constfn(
        &mut self,
        params: &Lst<Name>,
        body: &Stmt,
        args: &Lst<Expr>,
        fuel: usize,
    ) -> (r: Result<Const, EvalError>)
        ensures
            (*final(self), r) == Self::spec_eval_constfn(
                *old(self),
                *params,
                *body,
                *args,
                fuel as nat,
            ),
        decreases fuel, 1 + elsize(*args) + ssize(*body), 2int,
    {
        let old_vars = self.known_vars.deep_clone();
        let bound = match self.bind_args(params, args, SymTable::new(), fuel) {
            Result::Ok(b) => b,
            Result::Err(er) => {
                return Result::Err(er);
            },
        };
        match bound {
            Option::None => Result::Ok(Const::Unknown),
            Option::Some(new_vars) => {
                self.known_vars = new_vars;
                let val = match self.eval_stmt(body, fuel) {
                    Result::Ok(v) => v,
                    Result::Err(er) => {
                        return Result::Err(er);
                    },
                };
                self.known_vars = old_vars;
                match val {
                    Option::Some(Const::Ret(inner)) => Result::Ok(*inner),
                    Option::Some(c) => Result::Ok(c),
                    Option::None => Result::Ok(Const::Unknown),
                }
            },
        }
    }

    #[verifier::rlimit(100)]
    fn eval_stmt(&mut self, st: &Stmt, fuel: usize) -> (r: Result<Option<Const>, EvalError>)
        ensures
            (*final(self), r) == Self::spec_eval_stmt(*old(self), *st, fuel as nat),
        decreases fuel, ssize(*st), 1int,
    {
        match &st.kind {
            StmtKind::Block(ss) => self.eval_block(&**ss, Option::None, fuel),
            StmtKind::Expr(e) => match self.eval(&**e, fuel) {
                Result::Ok(v) => Result::Ok(Option::Some(v)),
                Result::Err(er) => Result::Err(er),
            },
            StmtKind::Return(oe) => match oe {
                Option::Some(e) => {
                    let v = match self.eval(&**e, fuel) {
                        Result::Ok(v) => v,
                        Result::Err(er) => {
                            return Result::Err(er);
                        },
                    };
                    if v.is_none() {
                        Result::Ok(Option::None)
                    } else {
                        Result::Ok(Option::Some(Const::Ret(Box::new(v))))
                    }
                },
                Option::None => Result::Ok(Option::Some(Const::Ret(Box::new(Const::Void)))),
            },
            StmtKind::Var(name, _, _, oe) => match oe {
                Option::None => Result::Ok(Option::None),
                Option::Some(e) => {
                    let v = match self.eval(&**e, fuel) {
                        Result::Ok(v) => v,
                        Result::Err(er) => {
                            return Result::Err(er);
                        },
                    };
                    if v.is_none() {
                        Result::Ok(Option::None)
                    } else {
                        self.known_vars.insert(*name, v);
                        Result::Ok(Option::Some(Const::Void))
                    }
                },
            },
            StmtKind::If(cond, then, otherwise) => {
                let v = match self.eval(&**cond, fuel) {
                    Result::Ok(v) => v,
                    Result::Err(er) => {
                        return Result::Err(er);
                    },
                };
                match &v {
                    Const::Unknown => Result::Ok(Option::None),
                    Const::Bool(true) => self.eval_stmt(&**then, fuel),
                    Const::Bool(false) => match otherwise {
                        Option::Some(el) => self.eval_stmt(&**el, fuel),
                        Option::None => Result::Ok(Option::Some(Const::Void)),
                    },
                    _ => Result::Ok(Option::Some(Const::Void)),
                }
            },
            StmtKind::While(cond, body) => self.eval_while(&**cond, &**body, fuel),
            _ => Result::Err(EvalError::UnsupportedStmt(st.id)),
        }
    }

    fn eval_block(&mut self, ss: &Lst<Stmt>, last: Option<Const>, fuel: usize) -> (r: Result<
        Option<Const>,
        EvalError,
    >)
        ensures
            (*final(self), r) == Self::spec_eval_block(*old(self), *ss, last, fuel as nat),
        decreases fuel, slsize(*ss), 0int,
    {
        match ss {
            Lst::Nil => Result::Ok(last),
            Lst::Cons(h, t) => {
                let val = match self.eval_stmt(h, fuel) {
                    Result::Ok(v) => v,
                    Result::Err(er) => {
                        return Result::Err(er);
                    },
                };
                match val {
                    Option::Some(Const::Ret(r2)) => Result::Ok(Option::Some(Const::Ret(r2))),
                    other => self.eval_block(t, other, fuel),
                }
            },
        }
    }

    fn eval_while(&mut self, cond: &Expr, body: &Stmt, fuel: usize) -> (r: Result<
        Option<Const>,
        EvalError,
    >)
        ensures
            (*final(self), r) == Self::spec_eval_while(*old(self), *cond, *body, fuel as nat),
        decreases fuel, 1 + esize(*cond) + ssize(*body), 0int,
    {
        if fuel == 0 {
            return Result::Ok(Option::None);
        }
        let cv = match self.eval(cond, fuel) {
            Result::Ok(v) => v,
            Result::Err(er) => {
                return Result::Err(er);
            },
        };
        match &cv {
            Const::Bool(true) => {
                let val = match self.eval_stmt(body, fuel) {
                    Result::Ok(v) => v,
                    Result::Err(er) => {
                        return Result::Err(er);
                    },
                };
                match val {
                    Option::None => Result::Ok(Option::None),
                    Option::Some(Const::Unknown) => Result::Ok(Option::None),
                    Option::Some(Const::Ret(r2)) => Result::Ok(Option::Some(Const::Ret(r2))),
                    Option::Some(_) => self.eval_while(cond, body, fuel - 1),
                }
            },
            Const::Bool(false) => Result::Ok(Option::Some(Const::Void)),
            Const::Unknown => Result::Ok(Option::None),
            _ => Result::Ok(Option::Some(Const::Void)),
        }
    }

    /// Replacement of one expression inside the element at `fid` (spec).
    pub open spec fn spec_rewrite_fid(s: ConstEval, fid: usize, target: NodeId, new: Expr) -> ConstEval {
        ConstEval { ctx: spec_rewrite_at(s.ctx, fid as int, target, new), ..s }
    }

    fn rewrite_fid(&mut self, fid: usize, target: NodeId, new: Expr)
        ensures
            *final(self) == Self::spec_rewrite_fid(*old(self), fid, target, new),
    {
        let mut elems: Lst<Elem> = Lst::Nil;
        core::mem::swap(&mut elems, &mut self.ctx.file.elems);
        self.ctx.file.elems = Self::rewrite_elems(elems, fid, target, &new);
    }

    /// One step of the non-constant walk (spec): expressions whose values
    /// are known are rewritten to literals in place; control structures are
    /// walked, not evaluated.
    pub open spec fn spec_eval_normal_stmt(s: ConstEval, st: Stmt, fid: usize, fuel: nat) -> (
        ConstEval,
        Result<(), EvalError>,
    )
        decreases ssize(st), 1int,
    {
        match st.kind {
            StmtKind::Block(ss) => Self::spec_eval_normal_list(s, *ss, fid, fuel),
            StmtKind::Expr(e) => match Self::spec_eval(s, *e, fuel) {
                (s1, Result::Err(er)) => (s1, Result::Err(er)),
                (s1, Result::Ok(v)) => if v is Unknown {
                    (s1, Result::Ok(()))
                } else {
                    match Const::spec_to_kind(v) {
                        Result::Err(er) => (s1, Result::Err(er)),
                        Result::Ok(kind) => (
                            Self::spec_rewrite_fid(
                                s1,
                                fid,
                                e.id,
                                Expr { id: e.id, pos: e.pos, kind },
                            ),
                            Result::Ok(()),
                        ),
                    }
                },
            },
            StmtKind::If(cond, then, otherwise) => match Self::spec_eval(s, *cond, fuel) {
                (s1, Result::Err(er)) => (s1, Result::Err(er)),
                (s1, Result::Ok(v)) => {
                    let rewritten = if v is Unknown {
                        (s1, Result::Ok(()))
                    } else {
                        match Const::spec_to_kind(v) {
                            Result::Err(er) => (s1, Result::Err(er)),
                            Result::Ok(kind) => (
                                Self::spec_rewrite_fid(
                                    s1,
                                    fid,
                                    cond.id,
                                    Expr { id: cond.id, pos: cond.pos, kind },
                                ),
                                Result::Ok(()),
                            ),
                        }
                    };
                    match rewritten {
                        (s2, Result::Err(er)) => (s2, Result::Err(er)),
                        (s2, Result::Ok(())) => match Self::spec_eval_normal_stmt(
                            s2,
                            *then,
                            fid,
                            fuel,
                        ) {
                            (s3, Result::Err(er)) => (s3, Result::Err(er)),
                            (s3, Result::Ok(())) => match otherwise {
                                Option::Some(el) => Self::spec_eval_normal_stmt(
                                    s3,
                                    *el,
                                    fid,
                                    fuel,
                                ),
                                Option::None => (s3, Result::Ok(())),
                            },
                        },
                    }
                },
            },
            StmtKind::While(cond, body) => match Self::spec_eval(s, *cond, fuel) {
                (s1, Result::Err(er)) => (s1, Result::Err(er)),
                (s1, Result::Ok(v)) => {
                    let rewritten = if v is Unknown {
                        (s1, Result::Ok(()))
                    } else {
                        match Const::spec_to_kind(v) {
                            Result::Err(er) => (s1, Result::Err(er)),
                            Result::Ok(kind) => (
                                Self::spec_rewrite_fid(
                                    s1,
                                    fid,
                                    cond.id,
                                    Expr { id: cond.id, pos: cond.pos, kind },
                                ),
                                Result::Ok(()),
                            ),
                        }
                    };
                    match rewritten {
                        (s2, Result::Err(er)) => (s2, Result::Err(er)),
                        (s2, Result::Ok(())) => Self::spec_eval_normal_stmt(s2, *body, fid, fuel),
                    }
                },
            },
            StmtKind::Return(oe) => match oe {
                Option::Some(e) => match Self::spec_eval(s, *e, fuel) {
                    (s1, Result::Err(er)) => (s1, Result::Err(er)),
                    (s1, Result::Ok(v)) => if v is Unknown {
                        (s1, Result::Ok(()))
                    } else {
                        match Const::spec_to_kind(v) {
                            Result::Err(er) => (s1, Result::Err(er)),
                            Result::Ok(kind) => (
                                Self::spec_rewrite_fid(
                                    s1,
                                    fid,
                                    e.id,
                                    Expr { id: e.id, pos: e.pos, kind },
                                ),
                                Result::Ok(()),
                            ),
                        }
                    },
                },
                Option::None => (s, Result::Ok(())),
            },
            StmtKind::Var(var, _, _, oe) => match oe {
                Option::Some(e) => match Self::spec_eval(s, *e, fuel) {
                    (s1, Result::Err(er)) => (s1, Result::Err(er)),
                    (s1, Result::Ok(v)) => if v is Unknown {
                        (s1, Result::Ok(()))
                    } else {
                        let ret_not_void = match s1.ctx.file.elems.spec_nth(fid as int) {
                            Option::Some(Elem::Func(f)) => !(*f.ret is Void),
                            _ => false,
                        };
                        let rewritten = if ret_not_void {
                            match Const::spec_to_kind(v) {
                                Result::Err(er) => Result::Err(er),
                                Result::Ok(kind) => Result::Ok(
                                    Self::spec_rewrite_fid(
                                        s1,
                                        fid,
                                        e.id,
                                        Expr { id: e.id, pos: e.pos, kind },
                                    ),
                                ),
                            }
                        } else {
                            Result::Ok(s1)
                        };
                        match rewritten {
                            Result::Err(er) => (s1, Result::Err(er)),
                            Result::Ok(s2) => (
                                ConstEval {
                                    known_vars: s2.known_vars.spec_insert(var, v),
                                    ..s2
                                },
                                Result::Ok(()),
                            ),
                        }
                    },
                },
                Option::None => (s, Result::Ok(())),
            },
            StmtKind::Loop(b) => Self::spec_eval_normal_stmt(s, *b, fid, fuel),
            _ => (s, Result::Ok(())),
        }
    }

    /// The non-constant walk over a statement list (spec).
    pub open spec fn spec_eval_normal_list(s: ConstEval, ss: Lst<Stmt>, fid: usize, fuel: nat) -> (
        ConstEval,
        Result<(), EvalError>,
    )
        decreases slsize(ss), 0int,
    {
        match ss {
            Lst::Nil => (s, Result::Ok(())),
            Lst::Cons(h, t) => match Self::spec_eval_normal_stmt(s, h, fid, fuel) {
                (s1, Result::Err(er)) => (s1, Result::Err(er)),
                (s1, Result::Ok(())) => Self::spec_eval_normal_list(s1, *t, fid, fuel),
            },
        }
    }

    #[verifier::rlimit(100)]
    fn eval_normal_stmt(&mut self, st: &Stmt, fid: usize, fuel: usize) -> (r: Result<(), EvalError>)
        ensures
            (*final(self), r) == Self::spec_eval_normal_stmt(*old(self), *st, fid, fuel as nat),
        decreases ssize(*st), 1int,
    {
        match &st.kind {
            StmtKind::Block(ss) => self.eval_normal_list(&**ss, fid, fuel),
            StmtKind::Expr(e) => {
                let v = match self.eval(&**e, fuel) {
                    Result::Ok(v) => v,
                    Result::Err(er) => {
                        return Result::Err(er);
                    },
                };
                if v.is_none() {
                    Result::Ok(())
                } else {
                    let kind = match v.to_kind() {
                        Result::Ok(k) => k,
                        Result::Err(er) => {
                            return Result::Err(er);
                        },
                    };
                    self.rewrite_fid(fid, e.id, Expr { id: e.id, pos: e.pos, kind });
                    Result::Ok(())
                }
            },
            StmtKind::If(cond, then, otherwise) => {
                let v = match self.eval(&**cond, fuel) {
                    Result::Ok(v) => v,
                    Result::Err(er) => {
                        return Result::Err(er);
                    },
                };
                if !v.is_none() {
                    let kind = match v.to_kind() {
                        Result::Ok(k) => k,
                        Result::Err(er) => {
                            return Result::Err(er);
                        },
                    };
                    self.rewrite_fid(fid, cond.id, Expr { id: cond.id, pos: cond.pos, kind });
                }
                match self.eval_normal_stmt(&**then, fid, fuel) {
                    Result::Ok(()) => {},
                    Result::Err(er) => {
                        return Result::Err(er);
                    },
                };
                match otherwise {
                    Option::Some(el) => self.eval_normal_stmt(&**el, fid, fuel),
                    Option::None => Result::Ok(()),
                }
            },
            StmtKind::While(cond, body) => {
                let v = match self.eval(&**cond, fuel) {
                    Result::Ok(v) => v,
                    Result::Err(er) => {
                        return Result::Err(er);
                    },
                };
                if !v.is_none() {
                    let kind = match v.to_kind() {
                        Result::Ok(k) => k,
                        Result::Err(er) => {
                            return Result::Err(er);
                        },
                    };
                    self.rewrite_fid(fid, cond.id, Expr { id: cond.id, pos: cond.pos, kind });
                }
                self.eval_normal_stmt(&**body, fid, fuel)
            },
            StmtKind::Return(oe) => match oe {
                Option::Some(e) => {
                    let v = match self.eval(&**e, fuel) {
                        Result::Ok(v) => v,
                        Result::Err(er) => {
                            return Result::Err(er);
                        },
                    };
                    if v.is_none() {
                        Result::Ok(())
                    } else {
                        let kind = match v.to_kind() {
                            Result::Ok(k) => k,
                            Result::Err(er) => {
                                return Result::Err(er);
                            },
                        };
                        self.rewrite_fid(fid, e.id, Expr { id: e.id, pos: e.pos, kind });
                        Result::Ok(())
                    }
                },
                Option::None => Result::Ok(()),
            },
            StmtKind::Var(var, _, _, oe) => match oe {
                Option::Some(e) => {
                    let v = match self.eval(&**e, fuel) {
                        Result::Ok(v) => v,
                        Result::Err(er) => {
                            return Result::Err(er);
                        },
                    };
                    if v.is_none() {
                        Result::Ok(())
                    } else {
                        let ret_not_void = match self.ctx.file.elems.nth(fid) {
                            Option::Some(Elem::Func(f)) => !(*f.ret).is_void(),
                            _ => false,
                        };
                        if ret_not_void {
                            let kind = match v.clone_const().to_kind() {
                                Result::Ok(k) => k,
                                Result::Err(er) => {
                                    return Result::Err(er);
                                },
                            };
                            self.rewrite_fid(fid, e.id, Expr { id: e.id, pos: e.pos, kind });
                        }
                        self.known_vars.insert(*var, v);
                        Result::Ok(())
                    }
                },
                Option::None => Result::Ok(()),
            },
            StmtKind::Loop(b) => self.eval_normal_stmt(&**b, fid, fuel),
            _ => Result::Ok(()),
        }
    }

    fn eval_normal_list(&mut self, ss: &Lst<Stmt>, fid: usize, fuel: usize) -> (r: Result<
        (),
        EvalError,
    >)
        ensures
            (*final(self), r) == Self::spec_eval_normal_list(*old(self), *ss, fid, fuel as nat),
        decreases slsize(*ss), 0int,
    {
        match ss {
            Lst::Nil => Result::Ok(()),
            Lst::Cons(h, t) => match self.eval_normal_stmt(h, fid, fuel) {
                Result::Ok(()) => self.eval_normal_list(t, fid, fuel),
                Result::Err(er) => Result::Err(er),
            },
        }
    }

    /// Registration of every function into the evaluator's tables (spec):
    /// constant functions by name, and otherwise every non-external,
    /// non-built-in function for aggressive evaluation.
    pub open spec fn spec_collect(s: ConstEval, elems: Lst<Elem>) -> ConstEval
        decreases elems,
    {
        match elems {
            Lst::Nil => s,
            Lst::Cons(e, t) => {
                let s1 = match e {
                    Elem::Func(f) => if f.constant {
                        let cur = match s.const_functions.spec_get(f.name) {
                            Option::Some(l) => l,
                            Option::None => Lst::Nil,
                        };
                        ConstEval {
                            const_functions: s.const_functions.spec_insert(
                                f.name,
                                cur.spec_snoc(f),
                            ),
                            ..s
                        }
                    } else if !f.internal && !f.external {
                        let cur = match s.functions.spec_get(f.name) {
                            Option::Some(l) => l,
                            Option::None => Lst::Nil,
                        };
                        ConstEval {
                            functions: s.functions.spec_insert(f.name, cur.spec_snoc(f)),
                            ..s
                        }
                    } else {
                        s
                    },
                    _ => s,
                };
                Self::spec_collect(s1, *t)
            },
        }
    }

    fn collect(&mut self, elems: &Lst<Elem>)
        ensures
            *final(self) == Self::spec_collect(*old(self), *elems),
        decreases elems,
    {
        match elems {
            Lst::Nil => {},
            Lst::Cons(e, t) => {
                match e {
                    Elem::Func(f) => if f.constant {
                        let cur = match self.const_functions.get(f.name) {
                            Option::Some(l) => l.deep_clone(),
                            Option::None => Lst::Nil,
                        };
                        self.const_functions.insert(f.name, cur.snoc(f.deep_clone()));
                    } else if !f.internal && !f.external {
                        let cur = match self.functions.get(f.name) {
                            Option::Some(l) => l.deep_clone(),
                            Option::None => Lst::Nil,
                        };
                        self.functions.insert(f.name, cur.snoc(f.deep_clone()));
                    },
                    _ => {},
                };
                self.collect(t)
            },
        }
    }

    /// The optimization walk over the elements (spec): each function's body
    /// is walked with the evaluator pointed at its element, and each named
    /// constant expression is registered.
    pub open spec fn spec_run_elems(s: ConstEval, elems: Lst<Elem>, idx: usize, fuel: nat) -> (
        ConstEval,
        Result<(), EvalError>,
    )
        decreases elems,
    {
        match elems {
            Lst::Nil => (s, Result::Ok(())),
            Lst::Cons(e, t) => {
                let stepped = match e {
                    Elem::Func(f) => if f.external || f.internal {
                        (s, Result::Ok(()))
                    } else {
                        let s1 = ConstEval { id: idx, ..s };
                        match f.body {
                            Option::None => (s1, Result::Err(EvalError::MissingBody(f.name))),
                            Option::Some(b) => Self::spec_eval_normal_stmt(s1, *b, idx, fuel),
                        }
                    },
                    Elem::ConstExpr { name, expr, .. } => (
                        ConstEval { constexprs: s.constexprs.spec_insert(name, *expr), ..s },
                        Result::Ok(()),
                    ),
                    _ => (s, Result::Ok(())),
                };
                match stepped {
                    (s1, Result::Err(er)) => (s1, Result::Err(er)),
                    (s1, Result::Ok(())) => if idx == usize::MAX {
                        (s1, Result::Err(EvalError::IndexOutOfBounds))
                    } else {
                        Self::spec_run_elems(s1, *t, (idx + 1) as usize, fuel)
                    },
                }
            },
        }
    }

    fn run_elems(&mut self, elems: &Lst<Elem>, idx: usize, fuel: usize) -> (r: Result<
        (),
        EvalError,
    >)
        ensures
            (*final(self), r) == Self::spec_run_elems(*old(self), *elems, idx, fuel as nat),
        decreases elems,
    {
        match elems {
            Lst::Nil => Result::Ok(()),
            Lst::Cons(e, t) => {
                match e {
                    Elem::Func(f) => if !f.external && !f.internal {
                        self.id = idx;
                        match &f.body {
                            Option::None => {
                                return Result::Err(EvalError::MissingBody(f.name));
                            },
                            Option::Some(b) => {
                                match self.eval_normal_stmt(&**b, idx, fuel) {
                                    Result::Ok(()) => {},
                                    Result::Err(er) => {
                                        return Result::Err(er);
                                    },
                                };
                            },
                        };
                    },
                    Elem::ConstExpr { name, expr, .. } => {
                        self.constexprs.insert(*name, (**expr).clone_expr());
                    },
                    _ => {},
                };
                if idx == usize::MAX {
                    return Result::Err(EvalError::IndexOutOfBounds);
                }
                self.run_elems(t, idx + 1, fuel)
            },
        }
    }

    /// The whole pass (spec): register functions, then walk each element
    /// with the fixed depth budget.
    pub open spec fn spec_run(s: ConstEval) -> (ConstEval, Result<(), EvalError>) {
        let elems = s.ctx.file.elems;
        let s1 = Self::spec_collect(s, elems);
        Self::spec_run_elems(s1, elems, 0, EVAL_FUEL as nat)
    }

    /// Fold known values across the whole program: functions are registered,
    /// then every function body is walked and every expression whose value
    /// is known is replaced in place by its literal.
    pub fn run(&mut self) -> (r: Result<(), EvalError>)
        ensures
            (*final(self), r) == Self::spec_run(*old(self)),
    {
        let elems = self.ctx.file.elems.deep_clone();
        self.collect(&elems);
        self.run_elems(&elems, 0, EVAL_FUEL)
    }
}

} // verus!