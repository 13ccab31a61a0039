//! The typed abstract syntax tree handed to the code generator.
//!
//! Identifiers and string-like data are interned symbols (`Name`); symbol
//! equality is integer equality.  The symbols below `FIRST_USER_NAME` are
//! reserved: an embedder's interner must map the primitive type names and
//! `main` to these fixed ids.

use vstd::prelude::*;

use crate::list::{DeepClone, Lst};
use crate::NodeId;

verus! {

/// An interned symbol.
pub type Name = u64;

/// Reserved symbol for the primitive type name `u8`.
pub const NAME_U8: Name = 1;

/// Reserved symbol for the primitive type name `i8`.
pub const NAME_I8: Name = 2;

/// Reserved symbol for the primitive type name `u16`.
pub const NAME_U16: Name = 3;

/// Reserved symbol for the primitive type name `i16`.
pub const NAME_I16: Name = 4;

/// Reserved symbol for the primitive type name `u32`.
pub const NAME_U32: Name = 5;

/// Reserved symbol for the primitive type name `i32`.
pub const NAME_I32: Name = 6;

/// Reserved symbol for the primitive type name `u64`.
pub const NAME_U64: Name = 7;

/// Reserved symbol for the primitive type name `i64`.
pub const NAME_I64: Name = 8;

/// Reserved symbol for the primitive type name `f32`.
pub const NAME_F32: Name = 9;

/// Reserved symbol for the primitive type name `f64`.
pub const NAME_F64: Name = 10;

/// Reserved symbol for the primitive type name `bool`.
pub const NAME_BOOL: Name = 11;

/// Reserved symbol for the primitive type name `char`.
pub const NAME_CHAR: Name = 12;

/// Reserved symbol for the primitive type name `usize`.
pub const NAME_USIZE: Name = 13;

/// Reserved symbol for the primitive type name `isize`.
pub const NAME_ISIZE: Name = 14;

/// Reserved symbol for the function name `main`.
pub const NAME_MAIN: Name = 15;

/// First symbol available to user identifiers.
pub const FIRST_USER_NAME: Name = 16;

/// A source position: interned file name, line and column.
#[derive(Clone, Copy, PartialEq, Eq, Structural, Debug)]
pub struct Position {
    pub file: Name,
    pub line: u32,
    pub column: u32,
}

/// Suffix of an integer literal, fixing its type.
#[derive(Clone, Copy, PartialEq, Eq, Structural, Debug)]
pub enum IntSuffix {
    Int,
    UInt,
    Byte,
    UByte,
    Long,
    ULong,
}

/// Base an integer literal was written in.
#[derive(Clone, Copy, PartialEq, Eq, Structural, Debug)]
pub enum IntBase {
    Dec,
    Hex,
    Bin,
}

/// Suffix of a floating-point literal, fixing its type.
#[derive(Clone, Copy, PartialEq, Eq, Structural, Debug)]
pub enum FloatSuffix {
    Float,
    Double,
}

/// A named basic type: a primitive or the name of a struct or alias.
#[derive(PartialEq, Eq, Debug)]
pub struct BasicType {
    pub id: NodeId,
    pub pos: Position,
    pub name: Name,
}

/// A pointer type.
#[derive(PartialEq, Eq, Debug)]
pub struct PtrType {
    pub pos: Position,
    pub subtype: Box<Type>,
}

/// An array type; without a length it decays to a pointer.
#[derive(PartialEq, Eq, Debug)]
pub struct ArrayType {
    pub pos: Position,
    pub subtype: Box<Type>,
    pub len: Option<usize>,
}

/// A function-pointer type.
#[derive(PartialEq, Eq, Debug)]
pub struct FuncType {
    pub pos: Position,
    pub ret: Box<Type>,
    pub params: Box<Lst<Type>>,
}

/// A field of a struct or union declaration.
#[derive(PartialEq, Eq, Debug)]
pub struct StructField {
    pub pos: Position,
    pub name: Name,
    pub data_type: Box<Type>,
}

/// A struct (or union) type written out with its fields.
#[derive(PartialEq, Eq, Debug)]
pub struct StructType {
    pub pos: Position,
    pub name: Name,
    pub fields: Lst<StructField>,
    pub union: bool,
}

/// A vector type over a basic subtype.
#[derive(PartialEq, Eq, Debug)]
pub struct VectorType {
    pub pos: Position,
    pub subtype: Box<Type>,
    pub size: usize,
}

/// The source type algebra.
#[derive(PartialEq, Eq, Debug)]
pub enum Type {
    Void(Position),
    Basic(BasicType),
    Ptr(PtrType),
    Array(ArrayType),
    Func(FuncType),
    Struct(StructType),
    Vector(VectorType),
}

impl Type {
    /// The source position a type was written at.
    pub fn pos(&self) -> (p: Position)
        ensures
            p == self.spec_pos(),
    {
        match self {
            Type::Void(p) => *p,
            Type::Basic(b) => b.pos,
            Type::Ptr(p) => p.pos,
            Type::Array(a) => a.pos,
            Type::Func(f) => f.pos,
            Type::Struct(s) => s.pos,
            Type::Vector(v) => v.pos,
        }
    }

    /// The source position (spec).
    pub open spec fn spec_pos(&self) -> Position {
        match self {
            Type::Void(p) => *p,
            Type::Basic(b) => b.pos,
            Type::Ptr(p) => p.pos,
            Type::Array(a) => a.pos,
            Type::Func(f) => f.pos,
            Type::Struct(s) => s.pos,
            Type::Vector(v) => v.pos,
        }
    }

    /// A basic type with the given name.
    pub fn create_basic(id: NodeId, pos: Position, name: Name) -> (t: Type)
        ensures
            t == Type::Basic(BasicType { id, pos, name }),
    {
        Type::Basic(BasicType { id, pos, name })
    }

    /// Whether this is a pointer type.
    pub fn is_ptr(&self) -> (r: bool)
        ensures
            r == (self is Ptr),
    {
        matches!(self, Type::Ptr(_))
    }

    /// Whether this is a written-out struct type.
    pub fn is_struct(&self) -> (r: bool)
        ensures
            r == (self is Struct),
    {
        matches!(self, Type::Struct(_))
    }

    /// Whether this is an array type.
    pub fn is_array(&self) -> (r: bool)
        ensures
            r == (self is Array),
    {
        matches!(self, Type::Array(_))
    }

    /// Whether this is a basic type.
    pub fn is_basic(&self) -> (r: bool)
        ensures
            r == (self is Basic),
    {
        matches!(self, Type::Basic(_))
    }

    /// Whether this is a vector type.
    pub fn is_vec(&self) -> (r: bool)
        ensures
            r == (self is Vector),
    {
        matches!(self, Type::Vector(_))
    }

    /// Whether this is the void type.
    pub fn is_void(&self) -> (r: bool)
        ensures
            r == (self is Void),
    {
        matches!(self, Type::Void(_))
    }

    /// The basic payload, when this is a basic type.
    pub fn to_basic(&self) -> (r: Option<&BasicType>)
        ensures
            match r {
                Option::Some(b) => *self == Type::Basic(*b),
                Option::None => !(self is Basic),
            },
    {
        match self {
            Type::Basic(b) => Option::Some(b),
            _ => Option::None,
        }
    }

    /// The pointer payload, when this is a pointer type.
    pub fn to_ptr(&self) -> (r: Option<&PtrType>)
        ensures
            match r {
                Option::Some(p) => *self == Type::Ptr(*p),
                Option::None => !(self is Ptr),
            },
    {
        match self {
            Type::Ptr(p) => Option::Some(p),
            _ => Option::None,
        }
    }

    /// The struct payload, when this is a struct type.
    pub fn to_struct(&self) -> (r: Option<&StructType>)
        ensures
            match r {
                Option::Some(s) => *self == Type::Struct(*s),
                Option::None => !(self is Struct),
            },
    {
        match self {
            Type::Struct(s) => Option::Some(s),
            _ => Option::None,
        }
    }

    /// The type `*self`, at this type's own position.
    pub fn make_ptr(&self) -> (r: Type)
        ensures
            r == Type::Ptr(PtrType { pos: self.spec_pos(), subtype: Box::new(*self) }),
    {
        Type::Ptr(PtrType { pos: self.pos(), subtype: Box::new(self.deep_clone()) })
    }
}

/// Whether a type is one of the integer primitives.
pub open spec fn spec_is_any_int(t: &Type) -> bool {
    match t {
        Type::Basic(b) => b.name == NAME_U8 || b.name == NAME_I8 || b.name == NAME_U16 || b.name
            == NAME_I16 || b.name == NAME_U32 || b.name == NAME_I32 || b.name == NAME_U64 || b.name
            == NAME_I64 || b.name == NAME_USIZE || b.name == NAME_ISIZE,
        _ => false,
    }
}

/// Whether a type is one of the integer primitives.
pub fn ty_is_any_int(t: &Type) -> (r: bool)
    ensures
        r == spec_is_any_int(t),
{
    match t {
        Type::Basic(b) => b.name == NAME_U8 || b.name == NAME_I8 || b.name == NAME_U16 || b.name
            == NAME_I16 || b.name == NAME_U32 || b.name == NAME_I32 || b.name == NAME_U64 || b.name
            == NAME_I64 || b.name == NAME_USIZE || b.name == NAME_ISIZE,
        _ => false,
    }
}

/// Whether a type is one of the floating-point primitives.
pub open spec fn spec_is_any_float(t: &Type) -> bool {
    match t {
        Type::Basic(b) => b.name == NAME_F32 || b.name == NAME_F64,
        _ => false,
    }
}

/// Whether a type is one of the floating-point primitives.
pub fn ty_is_any_float(t: &Type) -> (r: bool)
    ensures
        r == spec_is_any_float(t),
{
    match t {
        Type::Basic(b) => b.name == NAME_F32 || b.name == NAME_F64,
        _ => false,
    }
}

/// Structural type equality, ignoring source positions and node ids (spec).
///
/// This is the equality the overload resolver and the implicit-cast policy
/// work with: two mentions of the same type written at different places are
/// the same type.
pub open spec fn spec_ty_eq(a: &Type, b: &Type) -> bool
    decreases a,
{
    match (a, b) {
        (Type::Void(_), Type::Void(_)) => true,
        (Type::Basic(x), Type::Basic(y)) => x.name == y.name,
        (Type::Ptr(x), Type::Ptr(y)) => spec_ty_eq(&x.subtype, &y.subtype),
        (Type::Array(x), Type::Array(y)) => x.len == y.len && spec_ty_eq(&x.subtype, &y.subtype),
        (Type::Func(x), Type::Func(y)) => spec_ty_eq(&x.ret, &y.ret) && spec_ty_list_eq(
            &x.params,
            &y.params,
        ),
        (Type::Struct(x), Type::Struct(y)) => x.name == y.name && x.union == y.union,
        (Type::Vector(x), Type::Vector(y)) => x.size == y.size && spec_ty_eq(
            &x.subtype,
            &y.subtype,
        ),
        _ => false,
    }
}

/// Structural equality of two type lists, ignoring positions (spec).
pub open spec fn spec_ty_list_eq(a: &Lst<Type>, b: &Lst<Type>) -> bool
    decreases a,
{
    match (a, b) {
        (Lst::Nil, Lst::Nil) => true,
        (Lst::Cons(x, xs), Lst::Cons(y, ys)) => spec_ty_eq(x, y) && spec_ty_list_eq(xs, ys),
        _ => false,
    }
}

/// Structural type equality, ignoring source positions and node ids.
pub fn ty_eq(a: &Type, b: &Type) -> (r: bool)
    ensures
        r == spec_ty_eq(a, b),
    decreases a,
{
    match (a, b) {
        (Type::Void(_), Type::Void(_)) => true,
        (Type::Basic(x), Type::Basic(y)) => x.name == y.name,
        (Type::Ptr(x), Type::Ptr(y)) => ty_eq(&x.subtype, &y.subtype),
        (Type::Array(x), Type::Array(y)) => {
            let len_eq = match (&x.len, &y.len) {
                (Option::Some(m), Option::Some(n)) => m == n,
                (Option::None, Option::None) => true,
                _ => false,
            };
            len_eq && ty_eq(&x.subtype, &y.subtype)
        },
        (Type::Func(x), Type::Func(y)) => ty_eq(&x.ret, &y.ret) && ty_list_eq(
            &x.params,
            &y.params,
        ),
        (Type::Struct(x), Type::Struct(y)) => x.name == y.name && x.union == y.union,
        (Type::Vector(x), Type::Vector(y)) => x.size == y.size && ty_eq(&x.subtype, &y.subtype),
        _ => false,
    }
}

/// Structural equality of two type lists, ignoring positions.
pub fn ty_list_eq(a: &Lst<Type>, b: &Lst<Type>) -> (r: bool)
    ensures
        r == spec_ty_list_eq(a, b),
    decreases a,
{
    match (a, b) {
        (Lst::Nil, Lst::Nil) => true,
        (Lst::Cons(x, xs), Lst::Cons(y, ys)) => ty_eq(x, y) && ty_list_eq(xs, ys),
        _ => false,
    }
}

impl Type {
    /// Value-preserving recursive clone.
    pub fn clone_ty(&self) -> (r: Type)
        ensures
            r == *self,
        decreases self,
    {
        match self {
            Type::Void(p) => Type::Void(*p),
            Type::Basic(b) => Type::Basic(BasicType { id: b.id, pos: b.pos, name: b.name }),
            Type::Ptr(p) => Type::Ptr(
                PtrType { pos: p.pos, subtype: Box::new((*p.subtype).clone_ty()) },
            ),
            Type::Array(a) => Type::Array(
                ArrayType { pos: a.pos, subtype: Box::new((*a.subtype).clone_ty()), len: a.len },
            ),
            Type::Func(f) => Type::Func(
                FuncType {
                    pos: f.pos,
                    ret: Box::new((*f.ret).clone_ty()),
                    params: Box::new(Self::clone_ty_list(&f.params)),
                },
            ),
            Type::Struct(st) => Type::Struct(
                StructType {
                    pos: st.pos,
                    name: st.name,
                    fields: Self::clone_field_list(&st.fields),
                    union: st.union,
                },
            ),
            Type::Vector(v) => Type::Vector(
                VectorType { pos: v.pos, subtype: Box::new((*v.subtype).clone_ty()), size: v.size },
            ),
        }
    }

    /// Value-preserving clone of a type list.
    pub fn clone_ty_list(l: &Lst<Type>) -> (r: Lst<Type>)
        ensures
            r == *l,
        decreases l,
    {
        match l {
            Lst::Nil => Lst::Nil,
            Lst::Cons(h, t) => Lst::Cons(h.clone_ty(), Box::new(Self::clone_ty_list(t))),
        }
    }

    /// Value-preserving clone of a field list.
    pub fn clone_field_list(l: &Lst<StructField>) -> (r: Lst<StructField>)
        ensures
            r == *l,
        decreases l,
    {
        match l {
            Lst::Nil => Lst::Nil,
            Lst::Cons(h, t) => Lst::Cons(
                StructField {
                    pos: h.pos,
                    name: h.name,
                    data_type: Box::new((*h.data_type).clone_ty()),
                },
                Box::new(Self::clone_field_list(t)),
            ),
        }
    }
}

impl DeepClone for Type {
    fn deep_clone(&self) -> (r: Type)
        ensures
            r == *self,
    {
        self.clone_ty()
    }
}

impl DeepClone for StructField {
    fn deep_clone(&self) -> (r: StructField)
        ensures
            r == *self,
    {
        StructField {
            pos: self.pos,
            name: self.name,
            data_type: Box::new((*self.data_type).clone_ty()),
        }
    }
}

/// A possibly qualified name at a call site; only the final segment matters
/// to the code generator.
#[derive(Clone, Copy, PartialEq, Eq, Structural, Debug)]
pub struct Path {
    pub name: Name,
}

impl Path {
    /// The final segment.
    pub fn name(&self) -> (n: Name)
        ensures
            n == self.name,
    {
        self.name
    }

    /// A path of a single segment.
    pub fn new(name: Name) -> (p: Path)
        ensures
            p == (Path { name }),
    {
        Path { name }
    }
}

/// A binary operator.
#[derive(Clone, Copy, PartialEq, Eq, Structural, Debug)]
pub enum BinOp {
    Add,
    Sub,
    Mul,
    Div,
    Rem,
    Or,
    And,
    Xor,
    Shl,
    Shr,
    Eq,
    Ne,
    Lt,
    Gt,
    Le,
    Ge,
    AndAnd,
    OrOr,
}

/// A unary operator.
#[derive(Clone, Copy, PartialEq, Eq, Structural, Debug)]
pub enum UnOp {
    Plus,
    Neg,
    Not,
}

/// A named argument of a struct literal.
#[derive(PartialEq, Eq, Debug)]
pub struct StructArg {
    pub id: NodeId,
    pub pos: Position,
    pub name: Name,
    pub expr: Box<Expr>,
}

/// An expression.
#[derive(PartialEq, Eq, Debug)]
pub struct Expr {
    pub id: NodeId,
    pub pos: Position,
    pub kind: ExprKind,
}

/// The expression kinds the code generator lowers.
///
/// Floating-point literals carry the bit pattern of the value the lexer read,
/// so that the tree itself stays free of machine floats.
#[derive(PartialEq, Eq, Debug)]
pub enum ExprKind {
    Int(i64, IntBase, IntSuffix),
    Float(u64, FloatSuffix),
    Str(String),
    Bool(bool),
    Char(char),
    Null,
    Ident(Name),
    Field(Box<Expr>, Name),
    ArrayIdx(Box<Expr>, Box<Expr>),
    Binary(BinOp, Box<Expr>, Box<Expr>),
    Unary(UnOp, Box<Expr>),
    Deref(Box<Expr>),
    AddressOf(Box<Expr>),
    Assign(Box<Expr>, Box<Expr>),
    Conv(Box<Expr>, Box<Type>),
    SizeOf(Box<Type>),
    GetFunc(Name),
    Call(Path, Option<Box<Expr>>, Box<Lst<Expr>>),
    Struct(Path, Lst<StructArg>),
    CompTime(Box<Expr>),
    New(Box<Expr>),
    Array(Box<Lst<Expr>>),
}

impl Expr {
    /// Value-preserving recursive clone.
    pub fn clone_expr(&self) -> (r: Expr)
        ensures
            r == *self,
        decreases self,
    {
        let kind = match &self.kind {
            ExprKind::Int(i, b, sx) => ExprKind::Int(*i, *b, *sx),
            ExprKind::Float(f, sx) => ExprKind::Float(*f, *sx),
            ExprKind::Str(st) => ExprKind::Str(st.clone()),
            ExprKind::Bool(b) => ExprKind::Bool(*b),
            ExprKind::Char(c) => ExprKind::Char(*c),
            ExprKind::Null => ExprKind::Null,
            ExprKind::Ident(n) => ExprKind::Ident(*n),
            ExprKind::Field(e, n) => ExprKind::Field(Box::new((**e).clone_expr()), *n),
            ExprKind::ArrayIdx(a, i) => ExprKind::ArrayIdx(
                Box::new((**a).clone_expr()),
                Box::new((**i).clone_expr()),
            ),
            ExprKind::Binary(op, l, r) => ExprKind::Binary(
                *op,
                Box::new((**l).clone_expr()),
                Box::new((**r).clone_expr()),
            ),
            ExprKind::Unary(op, e) => ExprKind::Unary(*op, Box::new((**e).clone_expr())),
            ExprKind::Deref(e) => ExprKind::Deref(Box::new((**e).clone_expr())),
            ExprKind::AddressOf(e) => ExprKind::AddressOf(Box::new((**e).clone_expr())),
            ExprKind::Assign(l, r) => ExprKind::Assign(
                Box::new((**l).clone_expr()),
                Box::new((**r).clone_expr()),
            ),
            ExprKind::Conv(e, t) => ExprKind::Conv(
                Box::new((**e).clone_expr()),
                Box::new((**t).clone_ty()),
            ),
            ExprKind::SizeOf(t) => ExprKind::SizeOf(Box::new((**t).clone_ty())),
            ExprKind::GetFunc(n) => ExprKind::GetFunc(*n),
            ExprKind::Call(p, this, args) => ExprKind::Call(
                *p,
                match this {
                    Option::Some(e) => Option::Some(Box::new((**e).clone_expr())),
                    Option::None => Option::None,
                },
                Box::new(Self::clone_expr_list(args)),
            ),
            ExprKind::Struct(p, args) => ExprKind::Struct(*p, Self::clone_arg_list(args)),
            ExprKind::CompTime(e) => ExprKind::CompTime(Box::new((**e).clone_expr())),
            ExprKind::New(e) => ExprKind::New(Box::new((**e).clone_expr())),
            ExprKind::Array(es) => ExprKind::Array(Box::new(Self::clone_expr_list(es))),
        };
        Expr { id: self.id, pos: self.pos, kind }
    }

    /// Value-preserving clone of an expression list.
    pub fn clone_expr_list(l: &Lst<Expr>) -> (r: Lst<Expr>)
        ensures
            r == *l,
        decreases l,
    {
        match l {
            Lst::Nil => Lst::Nil,
            Lst::Cons(h, t) => Lst::Cons(h.clone_expr(), Box::new(Self::clone_expr_list(t))),
        }
    }

    /// Value-preserving clone of a struct-literal argument list.
    pub fn clone_arg_list(l: &Lst<StructArg>) -> (r: Lst<StructArg>)
        ensures
            r == *l,
        decreases l,
    {
        match l {
            Lst::Nil => Lst::Nil,
            Lst::Cons(h, t) => Lst::Cons(
                StructArg {
                    id: h.id,
                    pos: h.pos,
                    name: h.name,
                    expr: Box::new((*h.expr).clone_expr()),
                },
                Box::new(Self::clone_arg_list(t)),
            ),
        }
    }
}

impl DeepClone for Expr {
    fn deep_clone(&self) -> (r: Expr)
        ensures
            r == *self,
    {
        self.clone_expr()
    }
}

/// A statement.
#[derive(PartialEq, Eq, Debug)]
pub struct Stmt {
    pub id: NodeId,
    pub pos: Position,
    pub kind: StmtKind,
}

/// The statement kinds the code generator lowers.
#[derive(PartialEq, Eq, Debug)]
pub enum StmtKind {
    Expr(Box<Expr>),
    Block(Box<Lst<Stmt>>),
    Break,
    Continue,
    Return(Option<Box<Expr>>),
    Var(Name, bool, Option<Box<Type>>, Option<Box<Expr>>),
    If(Box<Expr>, Box<Stmt>, Option<Box<Stmt>>),
    While(Box<Expr>, Box<Stmt>),
    Loop(Box<Stmt>),
    CFor(Box<Stmt>, Box<Expr>, Box<Expr>, Box<Stmt>),
    CompTime(Box<Stmt>),
}

impl Stmt {
    /// Value-preserving recursive clone.
    pub fn clone_stmt(&self) -> (r: Stmt)
        ensures
            r == *self,
        decreases self,
    {
        let kind = match &self.kind {
            StmtKind::Expr(e) => StmtKind::Expr(Box::new((**e).clone_expr())),
            StmtKind::Block(ss) => StmtKind::Block(Box::new(Self::clone_stmt_list(ss))),
            StmtKind::Break => StmtKind::Break,
            StmtKind::Continue => StmtKind::Continue,
            StmtKind::Return(e) => StmtKind::Return(
                match e {
                    Option::Some(e) => Option::Some(Box::new((**e).clone_expr())),
                    Option::None => Option::None,
                },
            ),
            StmtKind::Var(n, m, t, e) => StmtKind::Var(
                *n,
                *m,
                match t {
                    Option::Some(t) => Option::Some(Box::new((**t).clone_ty())),
                    Option::None => Option::None,
                },
                match e {
                    Option::Some(e) => Option::Some(Box::new((**e).clone_expr())),
                    Option::None => Option::None,
                },
            ),
            StmtKind::If(c, t, e) => StmtKind::If(
                Box::new((**c).clone_expr()),
                Box::new((**t).clone_stmt()),
                match e {
                    Option::Some(e) => Option::Some(Box::new((**e).clone_stmt())),
                    Option::None => Option::None,
                },
            ),
            StmtKind::While(c, b) => StmtKind::While(
                Box::new((**c).clone_expr()),
                Box::new((**b).clone_stmt()),
            ),
            StmtKind::Loop(b) => StmtKind::Loop(Box::new((**b).clone_stmt())),
            StmtKind::CFor(v, c, st, b) => StmtKind::CFor(
                Box::new((**v).clone_stmt()),
                Box::new((**c).clone_expr()),
                Box::new((**st).clone_expr()),
                Box::new((**b).clone_stmt()),
            ),
            StmtKind::CompTime(st) => StmtKind::CompTime(Box::new((**st).clone_stmt())),
        };
        Stmt { id: self.id, pos: self.pos, kind }
    }

    /// Value-preserving clone of a statement list.
    pub fn clone_stmt_list(l: &Lst<Stmt>) -> (r: Lst<Stmt>)
        ensures
            r == *l,
        decreases l,
    {
        match l {
            Lst::Nil => Lst::Nil,
            Lst::Cons(h, t) => Lst::Cons(h.clone_stmt(), Box::new(Self::clone_stmt_list(t))),
        }
    }
}

impl DeepClone for Stmt {
    fn deep_clone(&self) -> (r: Stmt)
        ensures
            r == *self,
    {
        self.clone_stmt()
    }
}

/// Node count of an expression, the termination measure of the lowering
/// engine's mutual recursion (spec).
pub open spec fn esize(e: Expr) -> nat
    decreases e,
{
    1 + ksize(e.kind)
}

/// Node count of an expression kind (spec).
pub open spec fn ksize(k: ExprKind) -> nat
    decreases k,
{
    match k {
        ExprKind::Int(_, _, _) => 0,
        ExprKind::Float(_, _) => 0,
        ExprKind::Str(_) => 0,
        ExprKind::Bool(_) => 0,
        ExprKind::Char(_) => 0,
        ExprKind::Null => 0,
        ExprKind::Ident(_) => 0,
        ExprKind::Field(e, _) => esize(*e),
        ExprKind::ArrayIdx(a, i) => esize(*a) + esize(*i),
        ExprKind::Binary(_, l, r) => esize(*l) + esize(*r),
        ExprKind::Unary(_, e) => esize(*e),
        ExprKind::Deref(e) => esize(*e),
        ExprKind::AddressOf(e) => esize(*e),
        ExprKind::Assign(l, r) => esize(*l) + esize(*r),
        ExprKind::Conv(e, _) => esize(*e),
        ExprKind::SizeOf(_) => 0,
        ExprKind::GetFunc(_) => 0,
        ExprKind::Call(_, this, args) => osize(this) + elsize(*args),
        ExprKind::Struct(_, args) => alsize(args),
        ExprKind::CompTime(e) => esize(*e),
        ExprKind::New(e) => esize(*e),
        ExprKind::Array(es) => elsize(*es),
    }
}

/// Node count of an optional receiver (spec).
pub open spec fn osize(o: Option<Box<Expr>>) -> nat
    decreases o,
{
    match o {
        Option::None => 0,
        Option::Some(e) => esize(*e),
    }
}

/// Node count of an expression list (spec).
pub open spec fn elsize(l: Lst<Expr>) -> nat
    decreases l,
{
    match l {
        Lst::Nil => 0,
        Lst::Cons(h, t) => 1 + esize(h) + elsize(*t),
    }
}

/// Node count of a struct-literal argument list (spec).
pub open spec fn alsize(l: Lst<StructArg>) -> nat
    decreases l,
{
    match l {
        Lst::Nil => 0,
        Lst::Cons(h, t) => 1 + esize(*h.expr) + alsize(*t),
    }
}

/// Node count of a statement (spec).
pub open spec fn ssize(s: Stmt) -> nat
    decreases s,
{
    1 + (match s.kind {
        StmtKind::Expr(e) => esize(*e),
        StmtKind::Block(ss) => slsize(*ss),
        StmtKind::Break => 0,
        StmtKind::Continue => 0,
        StmtKind::Return(e) => osize(e),
        StmtKind::Var(_, _, _, e) => osize(e),
        StmtKind::If(c, t, e) => esize(*c) + ssize(*t) + (match e {
            Option::Some(s2) => ssize(*s2),
            Option::None => 0,
        }),
        StmtKind::While(c, b) => esize(*c) + ssize(*b),
        StmtKind::Loop(b) => ssize(*b),
        StmtKind::CFor(v, c, st, b) => ssize(*v) + esize(*c) + esize(*st) + ssize(*b),
        StmtKind::CompTime(s2) => ssize(*s2),
    })
}

/// Node count of a statement list (spec).
pub open spec fn slsize(l: Lst<Stmt>) -> nat
    decreases l,
{
    match l {
        Lst::Nil => 0,
        Lst::Cons(h, t) => 1 + ssize(h) + slsize(*t),
    }
}

/// The expression with every subtree whose node id equals `target`
/// replaced by `new` (spec); replacement does not recurse into the
/// replacement itself.
pub open spec fn spec_replace_expr(e: Expr, target: NodeId, new: Expr) -> Expr
    decreases e,
{
    if e.id == target {
        new
    } else {
        let kind = match e.kind {
            ExprKind::Field(sub, n) => ExprKind::Field(
                Box::new(spec_replace_expr(*sub, target, new)),
                n,
            ),
            ExprKind::ArrayIdx(a, i) => ExprKind::ArrayIdx(
                Box::new(spec_replace_expr(*a, target, new)),
                Box::new(spec_replace_expr(*i, target, new)),
            ),
            ExprKind::Binary(op, l, r) => ExprKind::Binary(
                op,
                Box::new(spec_replace_expr(*l, target, new)),
                Box::new(spec_replace_expr(*r, target, new)),
            ),
            ExprKind::Unary(op, sub) => ExprKind::Unary(
                op,
                Box::new(spec_replace_expr(*sub, target, new)),
            ),
            ExprKind::Deref(sub) => ExprKind::Deref(
                Box::new(spec_replace_expr(*sub, target, new)),
            ),
            ExprKind::AddressOf(sub) => ExprKind::AddressOf(
                Box::new(spec_replace_expr(*sub, target, new)),
            ),
            ExprKind::Assign(l, r) => ExprKind::Assign(
                Box::new(spec_replace_expr(*l, target, new)),
                Box::new(spec_replace_expr(*r, target, new)),
            ),
            ExprKind::Conv(sub, t) => ExprKind::Conv(
                Box::new(spec_replace_expr(*sub, target, new)),
                t,
            ),
            ExprKind::Call(p, this, args) => ExprKind::Call(
                p,
                match this {
                    Option::Some(te) => Option::Some(
                        Box::new(spec_replace_expr(*te, target, new)),
                    ),
                    Option::None => Option::None,
                },
                Box::new(spec_replace_expr_list(*args, target, new)),
            ),
            ExprKind::Struct(p, args) => ExprKind::Struct(
                p,
                spec_replace_arg_list(args, target, new),
            ),
            ExprKind::CompTime(sub) => ExprKind::CompTime(
                Box::new(spec_replace_expr(*sub, target, new)),
            ),
            ExprKind::New(sub) => ExprKind::New(Box::new(spec_replace_expr(*sub, target, new))),
            ExprKind::Array(es) => ExprKind::Array(
                Box::new(spec_replace_expr_list(*es, target, new)),
            ),
            other => other,
        };
        Expr { id: e.id, pos: e.pos, kind }
    }
}

/// Replacement inside an expression list (spec).
pub open spec fn spec_replace_expr_list(l: Lst<Expr>, target: NodeId, new: Expr) -> Lst<Expr>
    decreases l,
{
    match l {
        Lst::Nil => Lst::Nil,
        Lst::Cons(h, t) => Lst::Cons(
            spec_replace_expr(h, target, new),
            Box::new(spec_replace_expr_list(*t, target, new)),
        ),
    }
}

/// Replacement inside a struct-literal argument list (spec).
pub open spec fn spec_replace_arg_list(l: Lst<StructArg>, target: NodeId, new: Expr) -> Lst<
    StructArg,
>
    decreases l,
{
    match l {
        Lst::Nil => Lst::Nil,
        Lst::Cons(h, t) => Lst::Cons(
            StructArg {
                id: h.id,
                pos: h.pos,
                name: h.name,
                expr: Box::new(spec_replace_expr(*h.expr, target, new)),
            },
            Box::new(spec_replace_arg_list(*t, target, new)),
        ),
    }
}

/// Replacement inside a statement (spec).
pub open spec fn spec_replace_stmt(s: Stmt, target: NodeId, new: Expr) -> Stmt
    decreases s,
{
    let kind = match s.kind {
        StmtKind::Expr(e) => StmtKind::Expr(Box::new(spec_replace_expr(*e, target, new))),
        StmtKind::Block(ss) => StmtKind::Block(
            Box::new(spec_replace_stmt_list(*ss, target, new)),
        ),
        StmtKind::Return(oe) => StmtKind::Return(
            match oe {
                Option::Some(e) => Option::Some(Box::new(spec_replace_expr(*e, target, new))),
                Option::None => Option::None,
            },
        ),
        StmtKind::Var(n, m, t, oe) => StmtKind::Var(
            n,
            m,
            t,
            match oe {
                Option::Some(e) => Option::Some(Box::new(spec_replace_expr(*e, target, new))),
                Option::None => Option::None,
            },
        ),
        StmtKind::If(c, th, el) => StmtKind::If(
            Box::new(spec_replace_expr(*c, target, new)),
            Box::new(spec_replace_stmt(*th, target, new)),
            match el {
                Option::Some(e) => Option::Some(Box::new(spec_replace_stmt(*e, target, new))),
                Option::None => Option::None,
            },
        ),
        StmtKind::While(c, b) => StmtKind::While(
            Box::new(spec_replace_expr(*c, target, new)),
            Box::new(spec_replace_stmt(*b, target, new)),
        ),
        StmtKind::Loop(b) => StmtKind::Loop(Box::new(spec_replace_stmt(*b, target, new))),
        StmtKind::CFor(v, c, st2, b) => StmtKind::CFor(
            Box::new(spec_replace_stmt(*v, target, new)),
            Box::new(spec_replace_expr(*c, target, new)),
            Box::new(spec_replace_expr(*st2, target, new)),
            Box::new(spec_replace_stmt(*b, target, new)),
        ),
        StmtKind::CompTime(b) => StmtKind::CompTime(Box::new(spec_replace_stmt(*b, target, new))),
        other => other,
    };
    Stmt { id: s.id, pos: s.pos, kind }
}

/// Replacement inside a statement list (spec).
pub open spec fn spec_replace_stmt_list(l: Lst<Stmt>, target: NodeId, new: Expr) -> Lst<Stmt>
    decreases l,
{
    match l {
        Lst::Nil => Lst::Nil,
        Lst::Cons(h, t) => Lst::Cons(
            spec_replace_stmt(h, target, new),
            Box::new(spec_replace_stmt_list(*t, target, new)),
        ),
    }
}

impl Expr {
    /// The expression with every subtree whose node id equals `target`
    /// replaced by a copy of `new`.
    pub fn replace_expr(&self, target: NodeId, new: &Expr) -> (r: Expr)
        ensures
            r == spec_replace_expr(*self, target, *new),
        decreases self,
    {
        if self.id == target {
            return new.clone_expr();
        }
        let kind = match &self.kind {
            ExprKind::Field(sub, n) => ExprKind::Field(
                Box::new((**sub).replace_expr(target, new)),
                *n,
            ),
            ExprKind::ArrayIdx(a, i) => ExprKind::ArrayIdx(
                Box::new((**a).replace_expr(target, new)),
                Box::new((**i).replace_expr(target, new)),
            ),
            ExprKind::Binary(op, l, r) => ExprKind::Binary(
                *op,
                Box::new((**l).replace_expr(target, new)),
                Box::new((**r).replace_expr(target, new)),
            ),
            ExprKind::Unary(op, sub) => ExprKind::Unary(
                *op,
                Box::new((**sub).replace_expr(target, new)),
            ),
            ExprKind::Deref(sub) => ExprKind::Deref(Box::new((**sub).replace_expr(target, new))),
            ExprKind::AddressOf(sub) => ExprKind::AddressOf(
                Box::new((**sub).replace_expr(target, new)),
            ),
            ExprKind::Assign(l, r) => ExprKind::Assign(
                Box::new((**l).replace_expr(target, new)),
                Box::new((**r).replace_expr(target, new)),
            ),
            ExprKind::Conv(sub, t) => ExprKind::Conv(
                Box::new((**sub).replace_expr(target, new)),
                Box::new((**t).clone_ty()),
            ),
            ExprKind::Call(p, this, args) => ExprKind::Call(
                *p,
                match this {
                    Option::Some(te) => Option::Some(
                        Box::new((**te).replace_expr(target, new)),
                    ),
                    Option::None => Option::None,
                },
                Box::new(Self::replace_expr_list(args, target, new)),
            ),
            ExprKind::Struct(p, args) => ExprKind::Struct(
                *p,
                Self::replace_arg_list(args, target, new),
            ),
            ExprKind::CompTime(sub) => ExprKind::CompTime(
                Box::new((**sub).replace_expr(target, new)),
            ),
            ExprKind::New(sub) => ExprKind::New(Box::new((**sub).replace_expr(target, new))),
            ExprKind::Array(es) => ExprKind::Array(
                Box::new(Self::replace_expr_list(es, target, new)),
            ),
            ExprKind::Int(i, b, sx) => ExprKind::Int(*i, *b, *sx),
            ExprKind::Float(f, sx) => ExprKind::Float(*f, *sx),
            ExprKind::Str(st) => ExprKind::Str(st.clone()),
            ExprKind::Bool(b) => ExprKind::Bool(*b),
            ExprKind::Char(c) => ExprKind::Char(*c),
            ExprKind::Null => ExprKind::Null,
            ExprKind::Ident(n) => ExprKind::Ident(*n),
            ExprKind::SizeOf(t) => ExprKind::SizeOf(Box::new((**t).clone_ty())),
            ExprKind::GetFunc(n) => ExprKind::GetFunc(*n),
        };
        Expr { id: self.id, pos: self.pos, kind }
    }

    /// Replacement inside an expression list.
    pub fn replace_expr_list(l: &Lst<Expr>, target: NodeId, new: &Expr) -> (r: Lst<Expr>)
        ensures
            r == spec_replace_expr_list(*l, target, *new),
        decreases l,
    {
        match l {
            Lst::Nil => Lst::Nil,
            Lst::Cons(h, t) => Lst::Cons(
                h.replace_expr(target, new),
                Box::new(Self::replace_expr_list(t, target, new)),
            ),
        }
    }

    /// Replacement inside a struct-literal argument list.
    pub fn replace_arg_list(l: &Lst<StructArg>, target: NodeId, new: &Expr) -> (r: Lst<StructArg>)
        ensures
            r == spec_replace_arg_list(*l, target, *new),
        decreases l,
    {
        match l {
            Lst::Nil => Lst::Nil,
            Lst::Cons(h, t) => Lst::Cons(
                StructArg {
                    id: h.id,
                    pos: h.pos,
                    name: h.name,
                    expr: Box::new((*h.expr).replace_expr(target, new)),
                },
                Box::new(Self::replace_arg_list(t, target, new)),
            ),
        }
    }
}

impl Stmt {
    /// The statement with every expression subtree whose node id equals
    /// `target` replaced by a copy of `new`.
    pub fn replace_stmt(&self, target: NodeId, new: &Expr) -> (r: Stmt)
        ensures
            r == spec_replace_stmt(*self, target, *new),
        decreases self,
    {
        let kind = match &self.kind {
            StmtKind::Expr(e) => StmtKind::Expr(Box::new((**e).replace_expr(target, new))),
            StmtKind::Block(ss) => StmtKind::Block(
                Box::new(Self::replace_stmt_list(ss, target, new)),
            ),
            StmtKind::Return(oe) => StmtKind::Return(
                match oe {
                    Option::Some(e) => Option::Some(Box::new((**e).replace_expr(target, new))),
                    Option::None => Option::None,
                },
            ),
            StmtKind::Var(n, m, t, oe) => StmtKind::Var(
                *n,
                *m,
                match t {
                    Option::Some(t2) => Option::Some(Box::new((**t2).clone_ty())),
                    Option::None => Option::None,
                },
                match oe {
                    Option::Some(e) => Option::Some(Box::new((**e).replace_expr(target, new))),
                    Option::None => Option::None,
                },
            ),
            StmtKind::If(c, th, el) => StmtKind::If(
                Box::new((**c).replace_expr(target, new)),
                Box::new((**th).replace_stmt(target, new)),
                match el {
                    Option::Some(e) => Option::Some(Box::new((**e).replace_stmt(target, new))),
                    Option::None => Option::None,
                },
            ),
            StmtKind::While(c, b) => StmtKind::While(
                Box::new((**c).replace_expr(target, new)),
                Box::new((**b).replace_stmt(target, new)),
            ),
            StmtKind::Loop(b) => StmtKind::Loop(Box::new((**b).replace_stmt(target, new))),
            StmtKind::CFor(v, c, st2, b) => StmtKind::CFor(
                Box::new((**v).replace_stmt(target, new)),
                Box::new((**c).replace_expr(target, new)),
                Box::new((**st2).replace_expr(target, new)),
                Box::new((**b).replace_stmt(target, new)),
            ),
            StmtKind::CompTime(b) => StmtKind::CompTime(Box::new((**b).replace_stmt(target, new))),
            StmtKind::Break => StmtKind::Break,
            StmtKind::Continue => StmtKind::Continue,
        };
        Stmt { id: self.id, pos: self.pos, kind }
    }

    /// Replacement inside a statement list.
    pub fn replace_stmt_list(l: &Lst<Stmt>, target: NodeId, new: &Expr) -> (r: Lst<Stmt>)
        ensures
            r == spec_replace_stmt_list(*l, target, *new),
        decreases l,
    {
        match l {
            Lst::Nil => Lst::Nil,
            Lst::Cons(h, t) => Lst::Cons(
                h.replace_stmt(target, new),
                Box::new(Self::replace_stmt_list(t, target, new)),
            ),
        }
    }
}

/// A function declaration or definition.
#[derive(PartialEq, Eq, Debug)]
pub struct Function {
    pub pos: Position,
    pub name: Name,
    pub params: Lst<(Name, Type)>,
    pub ret: Box<Type>,
    pub this: Option<(Name, Type)>,
    pub body: Option<Box<Stmt>>,
    pub external: bool,
    pub internal: bool,
    pub public: bool,
    pub inline: bool,
    pub static_: bool,
    pub constant: bool,
    pub variadic: bool,
    pub ir_temp_id: usize,
}

impl DeepClone for Function {
    fn deep_clone(&self) -> (r: Function)
        ensures
            r == *self,
    {
        Function {
            pos: self.pos,
            name: self.name,
            params: self.params.deep_clone(),
            ret: Box::new((*self.ret).clone_ty()),
            this: self.this.deep_clone(),
            body: match &self.body {
                Option::Some(b) => Option::Some(Box::new((**b).clone_stmt())),
                Option::None => Option::None,
            },
            external: self.external,
            internal: self.internal,
            public: self.public,
            inline: self.inline,
            static_: self.static_,
            constant: self.constant,
            variadic: self.variadic,
            ir_temp_id: self.ir_temp_id,
        }
    }
}

/// A struct or union declaration.
#[derive(PartialEq, Eq, Debug)]
pub struct Struct {
    pub pos: Position,
    pub name: Name,
    pub fields: Lst<StructField>,
    pub public: bool,
    pub union: bool,
}

impl DeepClone for Struct {
    fn deep_clone(&self) -> (r: Struct)
        ensures
            r == *self,
    {
        Struct {
            pos: self.pos,
            name: self.name,
            fields: self.fields.deep_clone(),
            public: self.public,
            union: self.union,
        }
    }
}

/// A global variable declaration.
#[derive(PartialEq, Eq, Debug)]
pub struct Global {
    pub pos: Position,
    pub name: Name,
    pub typ: Box<Type>,
    pub expr: Option<Box<Expr>>,
    pub external: bool,
    pub public: bool,
}

impl DeepClone for Global {
    fn deep_clone(&self) -> (r: Global)
        ensures
            r == *self,
    {
        Global {
            pos: self.pos,
            name: self.name,
            typ: Box::new((*self.typ).clone_ty()),
            expr: match &self.expr {
                Option::Some(e) => Option::Some(Box::new((**e).clone_expr())),
                Option::None => Option::None,
            },
            external: self.external,
            public: self.public,
        }
    }
}

/// A top-level element of a source file.
#[derive(PartialEq, Eq, Debug)]
pub enum Elem {
    Func(Function),
    Struct(Struct),
    ConstExpr { id: NodeId, pos: Position, name: Name, expr: Box<Expr>, public: bool },
    Alias(Name, Type),
    Global(Global),
    Link(Name),
    Import(String),
}

impl DeepClone for Elem {
    fn deep_clone(&self) -> (r: Elem)
        ensures
            r == *self,
    {
        match self {
            Elem::Func(f) => Elem::Func(f.deep_clone()),
            Elem::Struct(s) => Elem::Struct(s.deep_clone()),
            Elem::ConstExpr { id, pos, name, expr, public } => Elem::ConstExpr {
                id: *id,
                pos: *pos,
                name: *name,
                expr: Box::new((**expr).clone_expr()),
                public: *public,
            },
            Elem::Alias(n, t) => Elem::Alias(*n, t.clone_ty()),
            Elem::Global(g) => Elem::Global(g.deep_clone()),
            Elem::Link(n) => Elem::Link(*n),
            Elem::Import(p) => Elem::Import(p.clone()),
        }
    }
}

/// A parsed source file.
#[derive(PartialEq, Eq, Debug)]
pub struct File {
    pub path: String,
    pub root: String,
    pub elems: Lst<Elem>,
}

impl DeepClone for File {
    fn deep_clone(&self) -> (r: File)
        ensures
            r == *self,
    {
        File { path: self.path.clone(), root: self.root.clone(), elems: self.elems.deep_clone() }
    }
}

} // verus!
