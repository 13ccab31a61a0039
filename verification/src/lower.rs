//! The expression lowerer: rvalues, lvalues, assignments and calls.
//!
//! Every executable function here is pinned to a pure specification twin
//! over the whole generator state.  The recursion is measured by a fuel
//! bounding jumps through the named-constant table plus the node count of
//! the expression at hand; the public entry points supply one jump per
//! registered constant, struct and alias, which suffices for every program
//! whose constant and type definitions are acyclic.

use vstd::prelude::*;

use crate::ast::{
    elsize, esize, osize, spec_is_any_float, spec_is_any_int, alsize, ty_is_any_float,
    ty_is_any_int, BasicType, BinOp, Expr, ExprKind, Name, Path, Position, Type, UnOp,
    NAME_BOOL, NAME_I32, NAME_I64, NAME_I8, NAME_U32, NAME_U64, NAME_U8,
};
use crate::gccjit::{CgError, Codegen, FunctionUnit, GccStruct, VarInfo};
use crate::ir::{
    BinaryOp, CType, ComparisonOp, Ctx, GlobalKind, GlobalName, Instr, LValue, LocalName, RValue,
    UnaryOp,
};
use crate::list::{DeepClone, Lst, SymTable};
use crate::Context;
use crate::NodeId;

verus! {

/// Whether an assignment destination of this AST type takes an implicit
/// cast: struct- and array-typed destinations never do, and a basic name
/// that resolves to a registered struct counts as a struct (spec).
pub open spec fn spec_do_cast(structures: SymTable<GccStruct>, ty: Type) -> bool {
    match ty {
        Type::Basic(b) => !structures.spec_contains(b.name),
        Type::Struct(_) => false,
        Type::Ptr(_) => true,
        Type::Array(_) => false,
        _ => true,
    }
}

/// Whether an argument passed to a declared parameter of this AST type
/// takes an implicit cast: written-out struct and array parameter types do
/// not (spec).
pub open spec fn spec_arg_casts(ty: Type) -> bool {
    !(ty is Struct) && !(ty is Array)
}

/// The comparison opcode of a comparison operator, if it is one (spec).
pub open spec fn spec_cmp_op(op: BinOp) -> Option<ComparisonOp> {
    match op {
        BinOp::Eq => Option::Some(ComparisonOp::Equals),
        BinOp::Ne => Option::Some(ComparisonOp::NotEquals),
        BinOp::Lt => Option::Some(ComparisonOp::LessThan),
        BinOp::Gt => Option::Some(ComparisonOp::GreaterThan),
        BinOp::Le => Option::Some(ComparisonOp::LessThanEquals),
        BinOp::Ge => Option::Some(ComparisonOp::GreaterThanEquals),
        _ => Option::None,
    }
}

/// The integer binary opcode of an operator, if the operator is defined on
/// integer operands; `|` maps to bitwise or, `&` to bitwise and and `^` to
/// exclusive or (spec).
pub open spec fn spec_int_op(op: BinOp) -> Option<BinaryOp> {
    match op {
        BinOp::Add => Option::Some(BinaryOp::Plus),
        BinOp::Sub => Option::Some(BinaryOp::Minus),
        BinOp::Mul => Option::Some(BinaryOp::Mult),
        BinOp::Div => Option::Some(BinaryOp::Divide),
        BinOp::Rem => Option::Some(BinaryOp::Modulo),
        BinOp::Or => Option::Some(BinaryOp::BitwiseOr),
        BinOp::And => Option::Some(BinaryOp::BitwiseAnd),
        BinOp::Xor => Option::Some(BinaryOp::BitwiseXor),
        BinOp::Shr => Option::Some(BinaryOp::RShift),
        BinOp::Shl => Option::Some(BinaryOp::LShift),
        _ => Option::None,
    }
}

/// The arithmetic opcode of an operator on float or vector operands, if
/// defined there (spec).
pub open spec fn spec_arith_op(op: BinOp) -> Option<BinaryOp> {
    match op {
        BinOp::Add => Option::Some(BinaryOp::Plus),
        BinOp::Sub => Option::Some(BinaryOp::Minus),
        BinOp::Mul => Option::Some(BinaryOp::Mult),
        BinOp::Div => Option::Some(BinaryOp::Divide),
        BinOp::Rem => Option::Some(BinaryOp::Modulo),
        _ => Option::None,
    }
}

/// The IR constant and retroactive AST type of an integer literal (spec):
/// the suffix fixes both; literals without a long suffix are truncated to
/// 32 bits, as the native constant constructor takes a 32-bit value.
pub open spec fn spec_int_literal(i: i64, suffix: crate::ast::IntSuffix) -> (RValue, Name) {
    match suffix {
        crate::ast::IntSuffix::Int => (RValue::IntConst(CType::I32, (i as i32) as i64), NAME_I32),
        crate::ast::IntSuffix::UInt => (RValue::IntConst(CType::U32, (i as i32) as i64), NAME_U32),
        crate::ast::IntSuffix::Byte => (RValue::IntConst(CType::I8, (i as i32) as i64), NAME_I8),
        crate::ast::IntSuffix::UByte => (RValue::IntConst(CType::U8, (i as i32) as i64), NAME_U8),
        crate::ast::IntSuffix::Long => (RValue::IntConst(CType::I64, i), NAME_I64),
        crate::ast::IntSuffix::ULong => (RValue::IntConst(CType::U64, i), NAME_U64),
    }
}

impl Codegen {
    /// The type the semantic checker recorded for a node (spec).
    pub open spec fn spec_get_id_type(&self, id: NodeId) -> Result<Type, CgError> {
        match self.context.types.spec_get(id.0 as u64) {
            Option::Some(t) => Result::Ok(t),
            Option::None => Result::Err(CgError::MissingNodeType(id)),
        }
    }

    /// The types the checker recorded for each argument (spec).
    pub open spec fn spec_arg_types(&self, args: Lst<Expr>) -> Result<Lst<Type>, CgError>
        decreases args,
    {
        match args {
            Lst::Nil => Result::Ok(Lst::Nil),
            Lst::Cons(h, t) => match self.spec_get_id_type(h.id) {
                Result::Ok(ty) => match self.spec_arg_types(*t) {
                    Result::Ok(ts) => Result::Ok(Lst::Cons(ty, Box::new(ts))),
                    Result::Err(e) => Result::Err(e),
                },
                Result::Err(e) => Result::Err(e),
            },
        }
    }

    /// Drawing a fresh block-name number (spec).
    pub open spec fn spec_block_name_new(s: Codegen) -> (Codegen, Result<usize, CgError>) {
        if s.block_id == usize::MAX {
            (s, Result::Err(CgError::TooManyItems))
        } else {
            (Codegen { block_id: (s.block_id + 1) as usize, ..s }, Result::Ok(s.block_id))
        }
    }

    /// The IR function address the name refers to in an overload set:
    /// the first unit carrying the name (spec).
    pub open spec fn spec_getfunc_addr(units: Lst<FunctionUnit>, name: Name) -> Option<usize>
        decreases units,
    {
        match units {
            Lst::Nil => Option::None,
            Lst::Cons(u, t) => if u.f.name == name {
                Option::Some(u.c)
            } else {
                Self::spec_getfunc_addr(*t, name)
            },
        }
    }

    /// The fuel of the lowering engine: one jump per registered constant,
    /// struct and alias.
    pub open spec fn spec_gen_fuel(&self) -> nat {
        self.constants.len() + self.structures.len() + self.aliases.len() + 1
    }

    /// Whether the tables are small enough for the fuel to be a machine
    /// integer (true of every real state).
    pub open spec fn gen_fuel_fits(&self) -> bool {
        self.spec_gen_fuel() <= usize::MAX
    }

    /// Lowering of an expression to an rvalue (spec).
    pub open spec fn spec_gen_expr(s: Codegen, e: Expr, fuel: nat) -> (Codegen, Result<
        RValue,
        CgError,
    >)
        decreases fuel, esize(e), 3int,
    {
        match e.kind {
            ExprKind::ArrayIdx(a, i) => match Self::spec_gen_expr(s, *a, fuel) {
                (s1, Result::Ok(arr)) => match Self::spec_gen_expr(s1, *i, fuel) {
                    (s2, Result::Ok(idx)) => (
                        s2,
                        Result::Ok(
                            RValue::Read(
                                Box::new(LValue::ArrayAccess(Box::new(arr), Box::new(idx))),
                            ),
                        ),
                    ),
                    (s2, Result::Err(er)) => (s2, Result::Err(er)),
                },
                (s1, Result::Err(er)) => (s1, Result::Err(er)),
            },
            ExprKind::Ident(name) => match s.constants.spec_get(name) {
                Option::Some(cexpr) => if fuel == 0 {
                    (s, Result::Err(CgError::RecursionLimit))
                } else {
                    match Self::spec_expr_to_lvalue(s, cexpr, (fuel - 1) as nat) {
                        (s1, Result::Ok(Option::Some(lv))) => (
                            s1,
                            Result::Ok(RValue::Read(Box::new(lv))),
                        ),
                        (s1, Result::Ok(Option::None)) => Self::spec_gen_expr(
                            s1,
                            cexpr,
                            (fuel - 1) as nat,
                        ),
                        (s1, Result::Err(er)) => (s1, Result::Err(er)),
                    }
                },
                Option::None => match Self::spec_expr_to_lvalue(s, e, fuel) {
                    (s1, Result::Ok(Option::Some(lv))) => (
                        s1,
                        Result::Ok(RValue::Read(Box::new(lv))),
                    ),
                    (s1, Result::Ok(Option::None)) => (
                        s1,
                        Result::Err(CgError::LvalueExpected(e.id)),
                    ),
                    (s1, Result::Err(er)) => (s1, Result::Err(er)),
                },
            },
            ExprKind::Float(bits, sfx) => (
                s,
                Result::Ok(
                    RValue::DoubleConst(
                        match sfx {
                            crate::ast::FloatSuffix::Float => CType::F32,
                            crate::ast::FloatSuffix::Double => CType::F64,
                        },
                        bits,
                    ),
                ),
            ),
            ExprKind::Int(i, _, sfx) => {
                let (val, tyname) = spec_int_literal(i, sfx);
                let ty = Type::Basic(BasicType { id: e.id, pos: e.pos, name: tyname });
                let s1 = if s.context.types.spec_get(e.id.0 as u64) is None {
                    Codegen {
                        context: Context {
                            types: s.context.types.spec_insert(e.id.0 as u64, ty),
                            ..s.context
                        },
                        ..s
                    }
                } else {
                    s
                };
                (s1, Result::Ok(val))
            },
            ExprKind::Str(st) => (s, Result::Ok(RValue::StrLit(st))),
            ExprKind::Deref(sub) => match Self::spec_gen_expr(s, *sub, fuel) {
                (s1, Result::Ok(rv)) => (
                    s1,
                    Result::Ok(RValue::Read(Box::new(LValue::Deref(Box::new(rv))))),
                ),
                (s1, Result::Err(er)) => (s1, Result::Err(er)),
            },
            ExprKind::Unary(op, sub) => match Self::spec_gen_expr(s, *sub, fuel) {
                (s1, Result::Ok(rv)) => {
                    let ty = s1.ctx.spec_rvalue_type(&rv);
                    match op {
                        UnOp::Neg => (
                            s1,
                            Result::Ok(RValue::Unary(UnaryOp::Minus, ty, Box::new(rv))),
                        ),
                        UnOp::Plus => (s1, Result::Ok(rv)),
                        UnOp::Not => match s1.spec_get_id_type(e.id) {
                            Result::Ok(ast_ty) => if spec_is_any_int(&ast_ty) {
                                (
                                    s1,
                                    Result::Ok(
                                        RValue::Unary(UnaryOp::BitwiseNegate, ty, Box::new(rv)),
                                    ),
                                )
                            } else {
                                (
                                    s1,
                                    Result::Ok(
                                        RValue::Unary(UnaryOp::LogicalNegate, ty, Box::new(rv)),
                                    ),
                                )
                            },
                            Result::Err(er) => (s1, Result::Err(er)),
                        },
                    }
                },
                (s1, Result::Err(er)) => (s1, Result::Err(er)),
            },
            ExprKind::Field(_, _) => match Self::spec_expr_to_lvalue(s, e, fuel) {
                (s1, Result::Ok(Option::Some(lv))) => (s1, Result::Ok(RValue::Read(Box::new(lv)))),
                (s1, Result::Ok(Option::None)) => (s1, Result::Err(CgError::LvalueExpected(e.id))),
                (s1, Result::Err(er)) => (s1, Result::Err(er)),
            },
            ExprKind::Assign(l, r) => Self::spec_assign(s, e.pos, *l, *r, fuel),
            ExprKind::Bool(b) => (
                s,
                Result::Ok(RValue::IntConst(CType::Bool, if b { 1 } else { 0 })),
            ),
            ExprKind::AddressOf(sub) => Self::spec_gen_addressof(s, e.id, *sub, fuel),
            ExprKind::Conv(sub, to) => match Self::spec_ty_to_ctype(s, *to, fuel) {
                (s1, Result::Ok(cty)) => match Self::spec_gen_expr(s1, *sub, fuel) {
                    (s2, Result::Ok(rv)) => (s2, Result::Ok(RValue::Cast(cty, Box::new(rv)))),
                    (s2, Result::Err(er)) => (s2, Result::Err(er)),
                },
                (s1, Result::Err(er)) => (s1, Result::Err(er)),
            },
            ExprKind::Call(path, this, args) => Self::spec_gen_call(
                s,
                e.id,
                e.pos,
                path,
                this,
                *args,
                fuel,
            ),
            ExprKind::Struct(path, args) => Self::spec_gen_struct_lit(s, e.id, e.pos, path, args, fuel),
            ExprKind::SizeOf(t) => match crate::gccjit::spec_ty_size(
                s.structures,
                s.aliases,
                *t,
                fuel,
            ) {
                Result::Ok(sz) => (s, Result::Ok(RValue::IntConst(CType::USize, sz as i64))),
                Result::Err(er) => (s, Result::Err(er)),
            },
            ExprKind::GetFunc(name) => match s.functions.spec_get(name) {
                Option::Some(units) => match Self::spec_getfunc_addr(units, name) {
                    Option::Some(c) => (s, Result::Ok(RValue::FuncAddr(c))),
                    Option::None => (s, Result::Err(CgError::UnknownFunction(name))),
                },
                Option::None => match s.external_functions.spec_get(name) {
                    Option::Some(u) => (s, Result::Ok(RValue::FuncAddr(u.c))),
                    Option::None => (s, Result::Err(CgError::UnknownFunction(name))),
                },
            },
            ExprKind::Binary(op, l, r) => Self::spec_gen_binary(s, e.id, op, *l, *r, fuel),
            ExprKind::Char(c) => (
                s,
                Result::Ok(RValue::IntConst(CType::Char, (c as u32) as i64)),
            ),
            ExprKind::Null => (
                s,
                Result::Ok(RValue::NullPtr(CType::Ptr(Box::new(CType::U8)))),
            ),
            _ => (s, Result::Err(CgError::UnsupportedExpr(e.id))),
        }
    }

    /// Taking the address of an expression (spec): the address of its
    /// lvalue when it has one; otherwise the value is spilled to a fresh
    /// internal global whose address is taken.  `outer_id` is the node
    /// whose recorded type is lowered before the operand is resolved.
    pub open spec fn spec_gen_addressof(s: Codegen, outer_id: NodeId, sub: Expr, fuel: nat) -> (
        Codegen,
        Result<RValue, CgError>,
    )
        decreases fuel, esize(sub), 4int,
    {
        match s.spec_get_id_type(outer_id) {
            Result::Ok(ty) => match Self::spec_ty_to_ctype(s, ty, fuel) {
                (s1, Result::Ok(_cty)) => match Self::spec_expr_to_lvalue(s1, sub, fuel) {
                    (s2, Result::Ok(Option::Some(lv))) => (
                        s2,
                        Result::Ok(RValue::AddressOf(Box::new(lv))),
                    ),
                    (s2, Result::Ok(Option::None)) => match Self::spec_gen_expr(s2, sub, fuel) {
                        (s3, Result::Ok(rv)) => {
                            let gty = s3.ctx.spec_rvalue_type(&rv);
                            if s3.ctx.globals.len() >= usize::MAX {
                                (s3, Result::Err(CgError::TooManyItems))
                            } else {
                                let gid = s3.ctx.globals.len() as usize;
                                let s4 = Codegen {
                                    ctx: s3.ctx.spec_new_global(
                                        crate::ir::GlobalDef {
                                            kind: GlobalKind::Internal,
                                            ty: gty,
                                            name: GlobalName::Tmp(s3.tmp_id),
                                        },
                                    ),
                                    ..s3
                                };
                                match (s4.cur_func, s4.cur_block) {
                                    (Option::Some(f), Option::Some(b)) => {
                                        let s5 = Codegen {
                                            ctx: s4.ctx.spec_add_instr(
                                                f as int,
                                                b as int,
                                                Instr::Assign(LValue::Global(gid), rv),
                                            ),
                                            ..s4
                                        };
                                        if s5.tmp_id == usize::MAX {
                                            (s5, Result::Err(CgError::TooManyItems))
                                        } else {
                                            let s6 = Codegen {
                                                tmp_id: (s5.tmp_id + 1) as usize,
                                                ..s5
                                            };
                                            (
                                                s6,
                                                Result::Ok(
                                                    RValue::AddressOf(
                                                        Box::new(LValue::Global(gid)),
                                                    ),
                                                ),
                                            )
                                        }
                                    },
                                    (Option::None, _) => (
                                        s4,
                                        Result::Err(CgError::NoCurrentFunction),
                                    ),
                                    (_, Option::None) => (s4, Result::Err(CgError::NoCurrentBlock)),
                                }
                            }
                        },
                        (s3, Result::Err(er)) => (s3, Result::Err(er)),
                    },
                    (s2, Result::Err(er)) => (s2, Result::Err(er)),
                },
                (s1, Result::Err(er)) => (s1, Result::Err(er)),
            },
            Result::Err(er) => (s, Result::Err(er)),
        }
    }

    /// Assignment through an lvalue (spec): resolve the destination, lower
    /// the source, cast unless the destination's type is a struct or array,
    /// emit the store, and hand back the uncast source value.
    pub open spec fn spec_assign(s: Codegen, pos: Position, to: Expr, from: Expr, fuel: nat) -> (
        Codegen,
        Result<RValue, CgError>,
    )
        decreases fuel, 1 + esize(to) + esize(from), 0int,
    {
        match Self::spec_expr_to_lvalue(s, to, fuel) {
            (s1, Result::Ok(Option::Some(lv))) => match Self::spec_gen_expr(s1, from, fuel) {
                (s2, Result::Ok(rv)) => match s2.spec_get_id_type(to.id) {
                    Result::Ok(ty) => match s2.spec_get_id_type(from.id) {
                        Result::Ok(_) => {
                            let val = if spec_do_cast(s2.structures, ty) {
                                RValue::Cast(s2.ctx.spec_lvalue_type(&lv), Box::new(rv))
                            } else {
                                rv
                            };
                            match (s2.cur_func, s2.cur_block) {
                                (Option::Some(f), Option::Some(b)) => {
                                    let s3 = Codegen {
                                        ctx: s2.ctx.spec_add_instr(
                                            f as int,
                                            b as int,
                                            Instr::Assign(lv, val),
                                        ),
                                        ..s2
                                    };
                                    (s3, Result::Ok(rv))
                                },
                                (Option::None, _) => (s2, Result::Err(CgError::NoCurrentFunction)),
                                (_, Option::None) => (s2, Result::Err(CgError::NoCurrentBlock)),
                            }
                        },
                        Result::Err(er) => (s2, Result::Err(er)),
                    },
                    Result::Err(er) => (s2, Result::Err(er)),
                },
                (s2, Result::Err(er)) => (s2, Result::Err(er)),
            },
            (s1, Result::Ok(Option::None)) => (s1, Result::Err(CgError::LvalueExpected(to.id))),
            (s1, Result::Err(er)) => (s1, Result::Err(er)),
        }
    }

    /// Resolution of an expression to a storage cell, or `None` when it
    /// denotes a pure value (spec).
    pub open spec fn spec_expr_to_lvalue(s: Codegen, e: Expr, fuel: nat) -> (Codegen, Result<
        Option<LValue>,
        CgError,
    >)
        decreases fuel, esize(e), 1int,
    {
        match e.kind {
            ExprKind::Ident(name) => match s.variables.spec_get(name) {
                Option::Some(vi) => (s, Result::Ok(Option::Some(vi.lval))),
                Option::None => match s.globals.spec_get(name) {
                    Option::Some(gi) => (s, Result::Ok(Option::Some(gi.0.lval))),
                    Option::None => (s, Result::Ok(Option::None)),
                },
            },
            ExprKind::Binary(_, lhs, rhs) => match s.spec_get_id_type(lhs.id) {
                Result::Ok(t1) => match s.spec_get_id_type(rhs.id) {
                    Result::Ok(t2) => if t1 is Ptr && spec_is_any_int(&t2) {
                        match Self::spec_gen_expr(s, *lhs, fuel) {
                            (s1, Result::Ok(arr)) => match Self::spec_gen_expr(s1, *rhs, fuel) {
                                (s2, Result::Ok(idx)) => (
                                    s2,
                                    Result::Ok(
                                        Option::Some(
                                            LValue::ArrayAccess(Box::new(arr), Box::new(idx)),
                                        ),
                                    ),
                                ),
                                (s2, Result::Err(er)) => (s2, Result::Err(er)),
                            },
                            (s1, Result::Err(er)) => (s1, Result::Err(er)),
                        }
                    } else {
                        (s, Result::Ok(Option::None))
                    },
                    Result::Err(er) => (s, Result::Err(er)),
                },
                Result::Err(er) => (s, Result::Err(er)),
            },
            ExprKind::ArrayIdx(a, i) => match Self::spec_gen_expr(s, *a, fuel) {
                (s1, Result::Ok(arr)) => match Self::spec_gen_expr(s1, *i, fuel) {
                    (s2, Result::Ok(idx)) => (
                        s2,
                        Result::Ok(
                            Option::Some(LValue::ArrayAccess(Box::new(arr), Box::new(idx))),
                        ),
                    ),
                    (s2, Result::Err(er)) => (s2, Result::Err(er)),
                },
                (s1, Result::Err(er)) => (s1, Result::Err(er)),
            },
            ExprKind::Field(object, fname) => match s.spec_get_id_type(object.id) {
                Result::Ok(ty) => match ty {
                    Type::Ptr(p) => match *p.subtype {
                        Type::Struct(st) => match s.structures.spec_get(st.name) {
                            Option::Some(g) => match g.fields.spec_get(fname) {
                                Option::Some(fld) => match Self::spec_gen_expr(s, *object, fuel) {
                                    (s1, Result::Ok(rv)) => (
                                        s1,
                                        Result::Ok(
                                            Option::Some(LValue::DerefField(Box::new(rv), fld)),
                                        ),
                                    ),
                                    (s1, Result::Err(er)) => (s1, Result::Err(er)),
                                },
                                Option::None => (s, Result::Err(CgError::UnknownField(fname))),
                            },
                            Option::None => (s, Result::Err(CgError::StructNotFound(st.name))),
                        },
                        Type::Basic(b) => match s.structures.spec_get(b.name) {
                            Option::Some(g) => match g.fields.spec_get(fname) {
                                Option::Some(fld) => match Self::spec_gen_expr(s, *object, fuel) {
                                    (s1, Result::Ok(rv)) => (
                                        s1,
                                        Result::Ok(
                                            Option::Some(LValue::DerefField(Box::new(rv), fld)),
                                        ),
                                    ),
                                    (s1, Result::Err(er)) => (s1, Result::Err(er)),
                                },
                                Option::None => (s, Result::Err(CgError::UnknownField(fname))),
                            },
                            Option::None => (s, Result::Err(CgError::StructNotFound(b.name))),
                        },
                        _ => (s, Result::Err(CgError::UnsupportedExpr(e.id))),
                    },
                    Type::Struct(st) => match s.structures.spec_get(st.name) {
                        Option::Some(g) => match g.fields.spec_get(fname) {
                            Option::Some(fld) => match Self::spec_expr_to_lvalue(s, *object, fuel) {
                                (s1, Result::Ok(Option::Some(lv))) => (
                                    s1,
                                    Result::Ok(
                                        Option::Some(LValue::AccessField(Box::new(lv), fld)),
                                    ),
                                ),
                                (s1, Result::Ok(Option::None)) => (
                                    s1,
                                    Result::Err(CgError::LvalueExpected(object.id)),
                                ),
                                (s1, Result::Err(er)) => (s1, Result::Err(er)),
                            },
                            Option::None => (s, Result::Err(CgError::UnknownField(fname))),
                        },
                        Option::None => (s, Result::Err(CgError::StructNotFound(st.name))),
                    },
                    _ => {
                        let sname = match ty {
                            Type::Basic(b) => b.name,
                            _ => 0,
                        };
                        match Self::spec_find_struct(s.structures, s.aliases, ty, fuel) {
                            Option::Some(g) => match g.fields.spec_get(fname) {
                                Option::Some(fld) => match Self::spec_expr_to_lvalue(
                                    s,
                                    *object,
                                    fuel,
                                ) {
                                    (s1, Result::Ok(Option::Some(lv))) => (
                                        s1,
                                        Result::Ok(
                                            Option::Some(LValue::AccessField(Box::new(lv), fld)),
                                        ),
                                    ),
                                    (s1, Result::Ok(Option::None)) => (
                                        s1,
                                        Result::Err(CgError::LvalueExpected(object.id)),
                                    ),
                                    (s1, Result::Err(er)) => (s1, Result::Err(er)),
                                },
                                Option::None => (s, Result::Err(CgError::UnknownField(fname))),
                            },
                            Option::None => (s, Result::Err(CgError::StructNotFound(sname))),
                        }
                    },
                },
                Result::Err(er) => (s, Result::Err(er)),
            },
            ExprKind::Deref(sub) => match Self::spec_gen_expr(s, *sub, fuel) {
                (s1, Result::Ok(rv)) => (
                    s1,
                    Result::Ok(Option::Some(LValue::Deref(Box::new(rv)))),
                ),
                (s1, Result::Err(er)) => (s1, Result::Err(er)),
            },
            _ => (s, Result::Ok(Option::None)),
        }
    }

    /// Lowering of a binary expression (spec).  The classification of the
    /// left operand drives the IR type; comparisons cast the right operand
    /// to the left's IR type; pointer plus integer lowers as array
    /// addressing; `&&` and `||` are defined on two booleans only.
    pub open spec fn spec_gen_binary(
        s: Codegen,
        eid: NodeId,
        op: BinOp,
        e1: Expr,
        e2: Expr,
        fuel: nat,
    ) -> (Codegen, Result<RValue, CgError>)
        decreases fuel, 1 + esize(e1) + esize(e2), 2int,
    {
        match s.spec_get_id_type(e1.id) {
            Result::Ok(t1) => match s.spec_get_id_type(e2.id) {
                Result::Ok(t2) => match spec_cmp_op(op) {
                    Option::Some(cmp) => match Self::spec_ty_to_ctype(s, t1, fuel) {
                        (s1, Result::Ok(cty)) => match Self::spec_gen_expr(s1, e1, fuel) {
                            (s2, Result::Ok(l)) => match Self::spec_gen_expr(s2, e2, fuel) {
                                (s3, Result::Ok(r)) => (
                                    s3,
                                    Result::Ok(
                                        RValue::Comparison(
                                            cmp,
                                            Box::new(l),
                                            Box::new(RValue::Cast(cty, Box::new(r))),
                                        ),
                                    ),
                                ),
                                (s3, Result::Err(er)) => (s3, Result::Err(er)),
                            },
                            (s2, Result::Err(er)) => (s2, Result::Err(er)),
                        },
                        (s1, Result::Err(er)) => (s1, Result::Err(er)),
                    },
                    Option::None => if t1 is Ptr && spec_is_any_int(&t2) {
                        match Self::spec_gen_expr(s, e1, fuel) {
                            (s1, Result::Ok(arr)) => match Self::spec_gen_expr(s1, e2, fuel) {
                                (s2, Result::Ok(idx)) => (
                                    s2,
                                    Result::Ok(
                                        RValue::Read(
                                            Box::new(
                                                LValue::ArrayAccess(Box::new(arr), Box::new(idx)),
                                            ),
                                        ),
                                    ),
                                ),
                                (s2, Result::Err(er)) => (s2, Result::Err(er)),
                            },
                            (s1, Result::Err(er)) => (s1, Result::Err(er)),
                        }
                    } else if spec_is_any_int(&t1) && spec_is_any_int(&t2) {
                        match Self::spec_ty_to_ctype(s, t1, fuel) {
                            (s1, Result::Ok(cty)) => match spec_int_op(op) {
                                Option::Some(bop) => Self::spec_gen_binop_operands(
                                    s1,
                                    bop,
                                    cty,
                                    e1,
                                    e2,
                                    fuel,
                                ),
                                Option::None => (s1, Result::Err(CgError::UnsupportedExpr(eid))),
                            },
                            (s1, Result::Err(er)) => (s1, Result::Err(er)),
                        }
                    } else if spec_is_any_float(&t1) && (spec_is_any_float(&t2) || spec_is_any_int(
                        &t2,
                    )) {
                        match Self::spec_ty_to_ctype(s, t1, fuel) {
                            (s1, Result::Ok(cty)) => match spec_arith_op(op) {
                                Option::Some(bop) => Self::spec_gen_binop_operands(
                                    s1,
                                    bop,
                                    cty,
                                    e1,
                                    e2,
                                    fuel,
                                ),
                                Option::None => (s1, Result::Err(CgError::UnsupportedExpr(eid))),
                            },
                            (s1, Result::Err(er)) => (s1, Result::Err(er)),
                        }
                    } else if t1 is Vector && (spec_is_any_int(&t2) || spec_is_any_float(&t2)) {
                        match Self::spec_ty_to_ctype(s, t1, fuel) {
                            (s1, Result::Ok(cty)) => match spec_arith_op(op) {
                                Option::Some(bop) => Self::spec_gen_binop_operands(
                                    s1,
                                    bop,
                                    cty,
                                    e1,
                                    e2,
                                    fuel,
                                ),
                                Option::None => (s1, Result::Err(CgError::UnsupportedExpr(eid))),
                            },
                            (s1, Result::Err(er)) => (s1, Result::Err(er)),
                        }
                    } else {
                        let bools = match (t1, t2) {
                            (Type::Basic(b1), Type::Basic(b2)) => b1.name == NAME_BOOL && b2.name
                                == NAME_BOOL,
                            _ => false,
                        };
                        if bools {
                            let lop = match op {
                                BinOp::AndAnd => Option::Some(BinaryOp::LogicalAnd),
                                BinOp::OrOr => Option::Some(BinaryOp::LogicalOr),
                                _ => Option::None,
                            };
                            match lop {
                                Option::Some(bop) => match Self::spec_gen_expr(s, e1, fuel) {
                                    (s1, Result::Ok(l)) => match Self::spec_gen_expr(
                                        s1,
                                        e2,
                                        fuel,
                                    ) {
                                        (s2, Result::Ok(r)) => (
                                            s2,
                                            Result::Ok(
                                                RValue::Binary(
                                                    bop,
                                                    CType::Bool,
                                                    Box::new(l),
                                                    Box::new(r),
                                                ),
                                            ),
                                        ),
                                        (s2, Result::Err(er)) => (s2, Result::Err(er)),
                                    },
                                    (s1, Result::Err(er)) => (s1, Result::Err(er)),
                                },
                                Option::None => (s, Result::Err(CgError::UnsupportedExpr(eid))),
                            }
                        } else {
                            (s, Result::Err(CgError::UnsupportedExpr(eid)))
                        }
                    },
                },
                Result::Err(er) => (s, Result::Err(er)),
            },
            Result::Err(er) => (s, Result::Err(er)),
        }
    }

    /// Lowering of both operands of an arithmetic operation, casting the
    /// right one to the left's IR type (spec).
    pub open spec fn spec_gen_binop_operands(
        s: Codegen,
        bop: BinaryOp,
        cty: CType,
        e1: Expr,
        e2: Expr,
        fuel: nat,
    ) -> (Codegen, Result<RValue, CgError>)
        decreases fuel, esize(e1) + esize(e2), 1int,
    {
        match Self::spec_gen_expr(s, e1, fuel) {
            (s1, Result::Ok(l)) => match Self::spec_gen_expr(s1, e2, fuel) {
                (s2, Result::Ok(r)) => (
                    s2,
                    Result::Ok(
                        RValue::Binary(
                            bop,
                            cty,
                            Box::new(l),
                            Box::new(RValue::Cast(cty, Box::new(r))),
                        ),
                    ),
                ),
                (s2, Result::Err(er)) => (s2, Result::Err(er)),
            },
            (s1, Result::Err(er)) => (s1, Result::Err(er)),
        }
    }

    /// Lowering of a call (spec).  The name is looked up as an ordinary
    /// overload set, then as a constant function, then as an external
    /// function, then as a local or global of function-pointer type; each
    /// miss falls through to the next, and a full miss is fatal.  A matched
    /// constant function that escaped evaluation lowers to the placeholder
    /// integer zero.
    pub open spec fn spec_gen_call(
        s: Codegen,
        eid: NodeId,
        pos: Position,
        path: Path,
        this: Option<Box<Expr>>,
        args: Lst<Expr>,
        fuel: nat,
    ) -> (Codegen, Result<RValue, CgError>)
        decreases fuel, 1 + osize(this) + elsize(args), 2int,
    {
        let name = path.name;
        match s.spec_arg_types(args) {
            Result::Err(er) => (s, Result::Err(er)),
            Result::Ok(ptys) => match s.functions.spec_get(name) {
                Option::Some(units) => {
                    let thisty = match this {
                        Option::Some(te) => match s.spec_get_id_type(te.id) {
                            Result::Ok(t) => Result::Ok(Option::Some(t)),
                            Result::Err(er) => Result::Err(er),
                        },
                        Option::None => Result::Ok(Option::<Type>::None),
                    };
                    match thisty {
                        Result::Err(er) => (s, Result::Err(er)),
                        Result::Ok(tt) => match Self::spec_search_for_func(
                            s,
                            ptys,
                            tt,
                            units,
                            fuel,
                        ) {
                            (s1, Result::Err(er)) => (s1, Result::Err(er)),
                            (s1, Result::Ok(Option::None)) => (
                                s1,
                                Result::Err(CgError::FunctionNotFound(name, ptys)),
                            ),
                            (s1, Result::Ok(Option::Some((cfid, ctys, atys)))) => {
                                match Self::spec_lower_call_args(s1, args, atys, ctys, fuel) {
                                    (s2, Result::Err(er)) => (s2, Result::Err(er)),
                                    (s2, Result::Ok(params)) => match this {
                                        Option::None => (
                                            s2,
                                            Result::Ok(RValue::Call(cfid, Box::new(params))),
                                        ),
                                        Option::Some(te) => match s2.spec_get_id_type(te.id) {
                                            Result::Err(er) => (s2, Result::Err(er)),
                                            Result::Ok(tty) => if !(tty is Ptr) {
                                                match Self::spec_ty_to_ctype(s2, tty, fuel) {
                                                    (s3, Result::Err(er)) => (
                                                        s3,
                                                        Result::Err(er),
                                                    ),
                                                    (s3, Result::Ok(c0)) => {
                                                        let cty = CType::Ptr(Box::new(c0));
                                                        match Self::spec_gen_addressof(
                                                            s3,
                                                            te.id,
                                                            *te,
                                                            fuel,
                                                        ) {
                                                            (s4, Result::Err(er)) => (
                                                                s4,
                                                                Result::Err(er),
                                                            ),
                                                            (s4, Result::Ok(av)) => (
                                                                s4,
                                                                Result::Ok(
                                                                    RValue::Call(
                                                                        cfid,
                                                                        Box::new(
                                                                            params.spec_snoc(
                                                                                RValue::Cast(
                                                                                    cty,
                                                                                    Box::new(av),
                                                                                ),
                                                                            ),
                                                                        ),
                                                                    ),
                                                                ),
                                                            ),
                                                        }
                                                    },
                                                }
                                            } else {
                                                match Self::spec_gen_expr(s2, *te, fuel) {
                                                    (s3, Result::Err(er)) => (
                                                        s3,
                                                        Result::Err(er),
                                                    ),
                                                    (s3, Result::Ok(tv)) => (
                                                        s3,
                                                        Result::Ok(
                                                            RValue::Call(
                                                                cfid,
                                                                Box::new(params.spec_snoc(tv)),
                                                            ),
                                                        ),
                                                    ),
                                                }
                                            },
                                        },
                                    },
                                }
                            },
                        },
                    }
                },
                Option::None => match s.const_functions.spec_get(name) {
                    Option::Some(cfuncs) => match Self::spec_search_for_func_const(
                        ptys,
                        Option::None,
                        cfuncs,
                    ) {
                        Option::None => (
                            s,
                            Result::Err(CgError::ConstFunctionNotFound(name, ptys)),
                        ),
                        Option::Some(_) => (s, Result::Ok(RValue::IntConst(CType::I32, 0))),
                    },
                    Option::None => match s.external_functions.spec_get(name) {
                        Option::Some(unit) => match Self::spec_lower_ext_args(
                            s,
                            args,
                            unit.f.params,
                            fuel,
                        ) {
                            (s1, Result::Ok(params)) => (
                                s1,
                                Result::Ok(RValue::Call(unit.c, Box::new(params))),
                            ),
                            (s1, Result::Err(er)) => (s1, Result::Err(er)),
                        },
                        Option::None => match s.variables.spec_get(name) {
                            Option::Some(vi) => match Self::spec_lower_plain_args(s, args, fuel) {
                                (s1, Result::Ok(params)) => (
                                    s1,
                                    Result::Ok(
                                        RValue::CallPtr(
                                            Box::new(RValue::Read(Box::new(vi.lval))),
                                            Box::new(params),
                                        ),
                                    ),
                                ),
                                (s1, Result::Err(er)) => (s1, Result::Err(er)),
                            },
                            Option::None => (s, Result::Err(CgError::UnknownFunction(name))),
                        },
                    },
                },
            },
        }
    }

    /// Lowering of call arguments against the matched candidate's parameter
    /// types: each declared position is cast to the declared IR type unless
    /// that type is a struct or array; the variadic tail passes through
    /// uncast (spec).
    pub open spec fn spec_lower_call_args(
        s: Codegen,
        args: Lst<Expr>,
        atys: Lst<Type>,
        ctys: Lst<CType>,
        fuel: nat,
    ) -> (Codegen, Result<Lst<RValue>, CgError>)
        decreases fuel, elsize(args), 0int,
    {
        match args {
            Lst::Nil => (s, Result::Ok(Lst::Nil)),
            Lst::Cons(a, rest) => match Self::spec_gen_expr(s, a, fuel) {
                (s1, Result::Err(er)) => (s1, Result::Err(er)),
                (s1, Result::Ok(v)) => match (atys, ctys) {
                    (Lst::Cons(ty, tyr), Lst::Cons(cty, ctyr)) => {
                        let v2 = if spec_arg_casts(ty) {
                            RValue::Cast(cty, Box::new(v))
                        } else {
                            v
                        };
                        match Self::spec_lower_call_args(s1, *rest, *tyr, *ctyr, fuel) {
                            (s2, Result::Ok(vs)) => (
                                s2,
                                Result::Ok(Lst::Cons(v2, Box::new(vs))),
                            ),
                            (s2, Result::Err(er)) => (s2, Result::Err(er)),
                        }
                    },
                    _ => match Self::spec_lower_call_args(s1, *rest, Lst::Nil, Lst::Nil, fuel) {
                        (s2, Result::Ok(vs)) => (s2, Result::Ok(Lst::Cons(v, Box::new(vs)))),
                        (s2, Result::Err(er)) => (s2, Result::Err(er)),
                    },
                },
            },
        }
    }

    /// Lowering of arguments to an external function: declared positions are
    /// cast to the declared parameter's IR type unless it is a struct or
    /// array; the tail passes through uncast (spec).
    pub open spec fn spec_lower_ext_args(
        s: Codegen,
        args: Lst<Expr>,
        decl: Lst<(Name, Type)>,
        fuel: nat,
    ) -> (Codegen, Result<Lst<RValue>, CgError>)
        decreases fuel, elsize(args), 0int,
    {
        match args {
            Lst::Nil => (s, Result::Ok(Lst::Nil)),
            Lst::Cons(a, rest) => match Self::spec_gen_expr(s, a, fuel) {
                (s1, Result::Err(er)) => (s1, Result::Err(er)),
                (s1, Result::Ok(v)) => match decl {
                    Lst::Cons(d, dr) => match Self::spec_ty_to_ctype(s1, d.1, fuel) {
                        (s2, Result::Err(er)) => (s2, Result::Err(er)),
                        (s2, Result::Ok(cty)) => {
                            let v2 = if spec_arg_casts(d.1) {
                                RValue::Cast(cty, Box::new(v))
                            } else {
                                v
                            };
                            match Self::spec_lower_ext_args(s2, *rest, *dr, fuel) {
                                (s3, Result::Ok(vs)) => (
                                    s3,
                                    Result::Ok(Lst::Cons(v2, Box::new(vs))),
                                ),
                                (s3, Result::Err(er)) => (s3, Result::Err(er)),
                            }
                        },
                    },
                    Lst::Nil => match Self::spec_lower_ext_args(s1, *rest, Lst::Nil, fuel) {
                        (s2, Result::Ok(vs)) => (s2, Result::Ok(Lst::Cons(v, Box::new(vs)))),
                        (s2, Result::Err(er)) => (s2, Result::Err(er)),
                    },
                },
            },
        }
    }

    /// Lowering of arguments as plain rvalues, for calls through a function
    /// pointer (spec).
    pub open spec fn spec_lower_plain_args(s: Codegen, args: Lst<Expr>, fuel: nat) -> (
        Codegen,
        Result<Lst<RValue>, CgError>,
    )
        decreases fuel, elsize(args), 0int,
    {
        match args {
            Lst::Nil => (s, Result::Ok(Lst::Nil)),
            Lst::Cons(a, rest) => match Self::spec_gen_expr(s, a, fuel) {
                (s1, Result::Err(er)) => (s1, Result::Err(er)),
                (s1, Result::Ok(v)) => match Self::spec_lower_plain_args(s1, *rest, fuel) {
                    (s2, Result::Ok(vs)) => (s2, Result::Ok(Lst::Cons(v, Box::new(vs)))),
                    (s2, Result::Err(er)) => (s2, Result::Err(er)),
                },
            },
        }
    }

    /// Lowering of a struct literal (spec): a fresh temporary local of the
    /// struct's IR type, one field store per named argument in the order
    /// given, and the local's value as the result.
    pub open spec fn spec_gen_struct_lit(
        s: Codegen,
        eid: NodeId,
        pos: Position,
        path: Path,
        args: Lst<crate::ast::StructArg>,
        fuel: nat,
    ) -> (Codegen, Result<RValue, CgError>)
        decreases fuel, 1 + alsize(args), 2int,
    {
        let name = path.name;
        let probe = Type::Basic(BasicType { id: eid, pos, name });
        match Self::spec_find_struct(s.structures, s.aliases, probe, fuel) {
            Option::None => (s, Result::Err(CgError::StructNotFound(name))),
            Option::Some(g) => if s.tmp_id == usize::MAX {
                (s, Result::Err(CgError::TooManyItems))
            } else {
                let tmp = LocalName::Tmp(s.tmp_id);
                let s1 = Codegen { tmp_id: (s.tmp_id + 1) as usize, ..s };
                match s1.cur_func {
                    Option::None => (s1, Result::Err(CgError::NoCurrentFunction)),
                    Option::Some(f) => match s1.ctx.spec_func(f as int) {
                        Option::None => (s1, Result::Err(CgError::TooManyItems)),
                        Option::Some(fd) => if fd.locals.len() >= usize::MAX {
                            (s1, Result::Err(CgError::TooManyItems))
                        } else {
                            let lid = fd.locals.len() as usize;
                            let s2 = Codegen {
                                ctx: s1.ctx.spec_new_local(f as int, tmp, g.ty),
                                ..s1
                            };
                            match Self::spec_gen_struct_args(s2, f, lid, g.fields, args, fuel) {
                                (s3, Result::Ok(())) => (
                                    s3,
                                    Result::Ok(RValue::Read(Box::new(LValue::Local(f, lid)))),
                                ),
                                (s3, Result::Err(er)) => (s3, Result::Err(er)),
                            }
                        },
                    },
                }
            },
        }
    }

    /// Lowering of a struct literal's field stores (spec).
    pub open spec fn spec_gen_struct_args(
        s: Codegen,
        f: usize,
        lid: usize,
        fields: SymTable<crate::ir::Field>,
        args: Lst<crate::ast::StructArg>,
        fuel: nat,
    ) -> (Codegen, Result<(), CgError>)
        decreases fuel, alsize(args), 0int,
    {
        match args {
            Lst::Nil => (s, Result::Ok(())),
            Lst::Cons(a, rest) => match Self::spec_gen_expr(s, *a.expr, fuel) {
                (s1, Result::Err(er)) => (s1, Result::Err(er)),
                (s1, Result::Ok(v)) => match fields.spec_get(a.name) {
                    Option::None => (s1, Result::Err(CgError::UnknownField(a.name))),
                    Option::Some(fld) => match (s1.cur_func, s1.cur_block) {
                        (Option::Some(cf), Option::Some(cb)) => {
                            let s2 = Codegen {
                                ctx: s1.ctx.spec_add_instr(
                                    cf as int,
                                    cb as int,
                                    Instr::Assign(
                                        LValue::AccessField(
                                            Box::new(LValue::Local(f, lid)),
                                            fld,
                                        ),
                                        v,
                                    ),
                                ),
                                ..s1
                            };
                            Self::spec_gen_struct_args(s2, f, lid, fields, *rest, fuel)
                        },
                        (Option::None, _) => (s1, Result::Err(CgError::NoCurrentFunction)),
                        (_, Option::None) => (s1, Result::Err(CgError::NoCurrentBlock)),
                    },
                },
            },
        }
    }

    /// The type the semantic checker recorded for a node.
    pub(crate) fn get_id_type(&self, id: NodeId) -> (r: Result<Type, CgError>)
        ensures
            r == self.spec_get_id_type(id),
    {
        match self.context.types.get(id.0 as u64) {
            Option::Some(t) => Result::Ok(t.clone_ty()),
            Option::None => Result::Err(CgError::MissingNodeType(id)),
        }
    }

    /// The types the checker recorded for each argument.
    pub(crate) fn arg_types(&self, args: &Lst<Expr>) -> (r: Result<Lst<Type>, CgError>)
        ensures
            r == self.spec_arg_types(*args),
        decreases args,
    {
        match args {
            Lst::Nil => Result::Ok(Lst::Nil),
            Lst::Cons(h, t) => match self.get_id_type(h.id) {
                Result::Ok(ty) => match self.arg_types(t) {
                    Result::Ok(ts) => Result::Ok(Lst::Cons(ty, Box::new(ts))),
                    Result::Err(er) => Result::Err(er),
                },
                Result::Err(er) => Result::Err(er),
            },
        }
    }

    /// Draw a fresh block-name number.
    pub(crate) fn block_name_new(&mut self) -> (r: Result<usize, CgError>)
        ensures
            (*final(self), r) == Self::spec_block_name_new(*old(self)),
    {
        if self.block_id == usize::MAX {
            Result::Err(CgError::TooManyItems)
        } else {
            let n = self.block_id;
            self.block_id = self.block_id + 1;
            Result::Ok(n)
        }
    }

    fn getfunc_addr(units: &Lst<FunctionUnit>, name: Name) -> (r: Option<usize>)
        ensures
            r == Self::spec_getfunc_addr(*units, name),
        decreases units,
    {
        match units {
            Lst::Nil => Option::None,
            Lst::Cons(u, t) => if u.f.name == name {
                Option::Some(u.c)
            } else {
                Self::getfunc_addr(t, name)
            },
        }
    }

    /// The lowering fuel as a machine integer.
    pub(crate) fn gen_fuel(&self) -> (r: usize)
        requires
            self.gen_fuel_fits(),
        ensures
            r == self.spec_gen_fuel(),
    {
        let a = self.constants.items.length();
        let b = self.structures.items.length();
        let c = self.aliases.items.length();
        a + b + c + 1
    }

    /// Lower an expression to an rvalue.
    pub fn gen_expr(&mut self, e: &Expr) -> (r: Result<RValue, CgError>)
        requires
            old(self).gen_fuel_fits(),
        ensures
            (*final(self), r) == Self::spec_gen_expr(*old(self), *e, old(self).spec_gen_fuel()),
    {
        let fuel = self.gen_fuel();
        self.gen_expr_f(e, fuel)
    }

    /// Resolve an expression to the storage cell it denotes, if any.
    pub fn expr_to_lvalue(&mut self, e: &Expr) -> (r: Result<Option<LValue>, CgError>)
        requires
            old(self).gen_fuel_fits(),
        ensures
            (*final(self), r) == Self::spec_expr_to_lvalue(
                *old(self),
                *e,
                old(self).spec_gen_fuel(),
            ),
    {
        let fuel = self.gen_fuel();
        self.expr_to_lvalue_f(e, fuel)
    }

    /// Lower an assignment: store `from` into the cell `to` denotes.
    pub fn assign(&mut self, pos: Position, to: &Expr, from: &Expr) -> (r: Result<RValue, CgError>)
        requires
            old(self).gen_fuel_fits(),
        ensures
            (*final(self), r) == Self::spec_assign(
                *old(self),
                pos,
                *to,
                *from,
                old(self).spec_gen_fuel(),
            ),
    {
        let fuel = self.gen_fuel();
        self.assign_f(pos, to, from, fuel)
    }

    #[verifier::rlimit(100)]
    pub(crate) fn gen_expr_f(&mut self, e: &Expr, fuel: usize) -> (r: Result<RValue, CgError>)
        ensures
            (*final(self), r) == Self::spec_gen_expr(*old(self), *e, fuel as nat),
        decreases fuel, esize(*e), 3int,
    {
        match &e.kind {
            ExprKind::ArrayIdx(a, i) => {
                let arr = match self.gen_expr_f(&**a, fuel) {
                    Result::Ok(v) => v,
                    Result::Err(er) => {
                        return Result::Err(er);
                    },
                };
                let idx = match self.gen_expr_f(&**i, fuel) {
                    Result::Ok(v) => v,
                    Result::Err(er) => {
                        return Result::Err(er);
                    },
                };
                Result::Ok(
                    RValue::Read(Box::new(LValue::ArrayAccess(Box::new(arr), Box::new(idx)))),
                )
            },
            ExprKind::Ident(name) => {
                let cexpr = match self.constants.get(*name) {
                    Option::Some(c) => Option::Some(c.clone_expr()),
                    Option::None => Option::None,
                };
                match cexpr {
                    Option::Some(c) => {
                        if fuel == 0 {
                            return Result::Err(CgError::RecursionLimit);
                        }
                        match self.expr_to_lvalue_f(&c, fuel - 1) {
                            Result::Ok(Option::Some(lv)) => Result::Ok(
                                RValue::Read(Box::new(lv)),
                            ),
                            Result::Ok(Option::None) => self.gen_expr_f(&c, fuel - 1),
                            Result::Err(er) => Result::Err(er),
                        }
                    },
                    Option::None => match self.expr_to_lvalue_f(e, fuel) {
                        Result::Ok(Option::Some(lv)) => Result::Ok(RValue::Read(Box::new(lv))),
                        Result::Ok(Option::None) => Result::Err(CgError::LvalueExpected(e.id)),
                        Result::Err(er) => Result::Err(er),
                    },
                }
            },
            ExprKind::Float(bits, sfx) => Result::Ok(
                RValue::DoubleConst(
                    match sfx {
                        crate::ast::FloatSuffix::Float => CType::F32,
                        crate::ast::FloatSuffix::Double => CType::F64,
                    },
                    *bits,
                ),
            ),
            ExprKind::Int(i, _, sfx) => {
                let (val, tyname) = match sfx {
                    crate::ast::IntSuffix::Int => (
                        RValue::IntConst(CType::I32, (*i as i32) as i64),
                        NAME_I32,
                    ),
                    crate::ast::IntSuffix::UInt => (
                        RValue::IntConst(CType::U32, (*i as i32) as i64),
                        NAME_U32,
                    ),
                    crate::ast::IntSuffix::Byte => (
                        RValue::IntConst(CType::I8, (*i as i32) as i64),
                        NAME_I8,
                    ),
                    crate::ast::IntSuffix::UByte => (
                        RValue::IntConst(CType::U8, (*i as i32) as i64),
                        NAME_U8,
                    ),
                    crate::ast::IntSuffix::Long => (RValue::IntConst(CType::I64, *i), NAME_I64),
                    crate::ast::IntSuffix::ULong => (RValue::IntConst(CType::U64, *i), NAME_U64),
                };
                if !self.context.types.contains_key(e.id.0 as u64) {
                    let ty = Type::create_basic(e.id, e.pos, tyname);
                    self.context.types.insert(e.id.0 as u64, ty);
                }
                Result::Ok(val)
            },
            ExprKind::Str(st) => Result::Ok(RValue::StrLit(st.clone())),
            ExprKind::Deref(sub) => match self.gen_expr_f(&**sub, fuel) {
                Result::Ok(rv) => Result::Ok(
                    RValue::Read(Box::new(LValue::Deref(Box::new(rv)))),
                ),
                Result::Err(er) => Result::Err(er),
            },
            ExprKind::Unary(op, sub) => {
                let rv = match self.gen_expr_f(&**sub, fuel) {
                    Result::Ok(v) => v,
                    Result::Err(er) => {
                        return Result::Err(er);
                    },
                };
                let ty = self.ctx.rvalue_type(&rv);
                match op {
                    UnOp::Neg => Result::Ok(RValue::Unary(UnaryOp::Minus, ty, Box::new(rv))),
                    UnOp::Plus => Result::Ok(rv),
                    UnOp::Not => match self.get_id_type(e.id) {
                        Result::Ok(ast_ty) => if ty_is_any_int(&ast_ty) {
                            Result::Ok(RValue::Unary(UnaryOp::BitwiseNegate, ty, Box::new(rv)))
                        } else {
                            Result::Ok(RValue::Unary(UnaryOp::LogicalNegate, ty, Box::new(rv)))
                        },
                        Result::Err(er) => Result::Err(er),
                    },
                }
            },
            ExprKind::Field(_, _) => match self.expr_to_lvalue_f(e, fuel) {
                Result::Ok(Option::Some(lv)) => Result::Ok(RValue::Read(Box::new(lv))),
                Result::Ok(Option::None) => Result::Err(CgError::LvalueExpected(e.id)),
                Result::Err(er) => Result::Err(er),
            },
            ExprKind::Assign(l, r) => self.assign_f(e.pos, &**l, &**r, fuel),
            ExprKind::Bool(b) => Result::Ok(
                RValue::IntConst(CType::Bool, if *b { 1 } else { 0 }),
            ),
            ExprKind::AddressOf(sub) => self.gen_addressof_f(e.id, &**sub, fuel),
            ExprKind::Conv(sub, to) => {
                let cty = match self.ty_to_ctype_fuel(&**to, fuel) {
                    Result::Ok(c) => c,
                    Result::Err(er) => {
                        return Result::Err(er);
                    },
                };
                match self.gen_expr_f(&**sub, fuel) {
                    Result::Ok(rv) => Result::Ok(RValue::Cast(cty, Box::new(rv))),
                    Result::Err(er) => Result::Err(er),
                }
            },
            ExprKind::Call(path, this, args) => self.gen_call_f(e.id, e.pos, *path, this, args, fuel),
            ExprKind::Struct(path, args) => self.gen_struct_lit_f(e.id, e.pos, *path, args, fuel),
            ExprKind::SizeOf(t) => match self.ty_size_fuel(&**t, fuel) {
                Result::Ok(sz) => Result::Ok(RValue::IntConst(CType::USize, sz as i64)),
                Result::Err(er) => Result::Err(er),
            },
            ExprKind::GetFunc(name) => match self.functions.get(*name) {
                Option::Some(units) => match Self::getfunc_addr(units, *name) {
                    Option::Some(c) => Result::Ok(RValue::FuncAddr(c)),
                    Option::None => Result::Err(CgError::UnknownFunction(*name)),
                },
                Option::None => match self.external_functions.get(*name) {
                    Option::Some(u) => Result::Ok(RValue::FuncAddr(u.c)),
                    Option::None => Result::Err(CgError::UnknownFunction(*name)),
                },
            },
            ExprKind::Binary(op, l, r) => self.gen_binary_f(e.id, *op, &**l, &**r, fuel),
            ExprKind::Char(c) => Result::Ok(RValue::IntConst(CType::Char, (*c as u32) as i64)),
            ExprKind::Null => Result::Ok(RValue::NullPtr(CType::Ptr(Box::new(CType::U8)))),
            _ => Result::Err(CgError::UnsupportedExpr(e.id)),
        }
    }

    #[verifier::rlimit(100)]
    fn gen_addressof_f(&mut self, outer_id: NodeId, sub: &Expr, fuel: usize) -> (r: Result<
        RValue,
        CgError,
    >)
        ensures
            (*final(self), r) == Self::spec_gen_addressof(*old(self), outer_id, *sub, fuel as nat),
        decreases fuel, esize(*sub), 4int,
    {
        let ty = match self.get_id_type(outer_id) {
            Result::Ok(t) => t,
            Result::Err(er) => {
                return Result::Err(er);
            },
        };
        let _cty = match self.ty_to_ctype_fuel(&ty, fuel) {
            Result::Ok(c) => c,
            Result::Err(er) => {
                return Result::Err(er);
            },
        };
        match self.expr_to_lvalue_f(sub, fuel) {
            Result::Ok(Option::Some(lv)) => Result::Ok(RValue::AddressOf(Box::new(lv))),
            Result::Ok(Option::None) => {
                let rv = match self.gen_expr_f(sub, fuel) {
                    Result::Ok(v) => v,
                    Result::Err(er) => {
                        return Result::Err(er);
                    },
                };
                let gty = self.ctx.rvalue_type(&rv);
                let tmp_name = GlobalName::Tmp(self.tmp_id);
                let gid = match self.ctx.new_global(GlobalKind::Internal, gty, tmp_name) {
                    Option::Some(g) => g,
                    Option::None => {
                        return Result::Err(CgError::TooManyItems);
                    },
                };
                let f = match self.cur_func {
                    Option::Some(f) => f,
                    Option::None => {
                        return Result::Err(CgError::NoCurrentFunction);
                    },
                };
                let b = match self.cur_block {
                    Option::Some(b) => b,
                    Option::None => {
                        return Result::Err(CgError::NoCurrentBlock);
                    },
                };
                self.ctx.add_instr(f, b, Instr::Assign(LValue::Global(gid), rv));
                if self.tmp_id == usize::MAX {
                    return Result::Err(CgError::TooManyItems);
                }
                self.tmp_id = self.tmp_id + 1;
                Result::Ok(RValue::AddressOf(Box::new(LValue::Global(gid))))
            },
            Result::Err(er) => Result::Err(er),
        }
    }

    #[verifier::rlimit(100)]
    fn assign_f(&mut self, pos: Position, to: &Expr, from: &Expr, fuel: usize) -> (r: Result<
        RValue,
        CgError,
    >)
        ensures
            (*final(self), r) == Self::spec_assign(*old(self), pos, *to, *from, fuel as nat),
        decreases fuel, 1 + esize(*to) + esize(*from), 0int,
    {
        let lv = match self.expr_to_lvalue_f(to, fuel) {
            Result::Ok(Option::Some(lv)) => lv,
            Result::Ok(Option::None) => {
                return Result::Err(CgError::LvalueExpected(to.id));
            },
            Result::Err(er) => {
                return Result::Err(er);
            },
        };
        let rv = match self.gen_expr_f(from, fuel) {
            Result::Ok(v) => v,
            Result::Err(er) => {
                return Result::Err(er);
            },
        };
        let ty = match self.get_id_type(to.id) {
            Result::Ok(t) => t,
            Result::Err(er) => {
                return Result::Err(er);
            },
        };
        match self.get_id_type(from.id) {
            Result::Ok(_) => {},
            Result::Err(er) => {
                return Result::Err(er);
            },
        };
        let do_cast = match &ty {
            Type::Basic(b) => !self.structures.contains_key(b.name),
            Type::Struct(_) => false,
            Type::Ptr(_) => true,
            Type::Array(_) => false,
            _ => true,
        };
        let val = if do_cast {
            RValue::Cast(self.ctx.lvalue_type(&lv), Box::new(rv.clone_rvalue()))
        } else {
            rv.clone_rvalue()
        };
        let f = match self.cur_func {
            Option::Some(f) => f,
            Option::None => {
                return Result::Err(CgError::NoCurrentFunction);
            },
        };
        let b = match self.cur_block {
            Option::Some(b) => b,
            Option::None => {
                return Result::Err(CgError::NoCurrentBlock);
            },
        };
        self.ctx.add_instr(f, b, Instr::Assign(lv, val));
        Result::Ok(rv)
    }

    #[verifier::rlimit(100)]
    pub(crate) fn expr_to_lvalue_f(&mut self, e: &Expr, fuel: usize) -> (r: Result<
        Option<LValue>,
        CgError,
    >)
        ensures
            (*final(self), r) == Self::spec_expr_to_lvalue(*old(self), *e, fuel as nat),
        decreases fuel, esize(*e), 1int,
    {
        match &e.kind {
            ExprKind::Ident(name) => {
                match self.variables.get(*name) {
                    Option::Some(vi) => {
                        return Result::Ok(Option::Some(vi.lval.clone_lvalue()));
                    },
                    Option::None => {},
                };
                match self.globals.get(*name) {
                    Option::Some(gi) => Result::Ok(Option::Some(gi.0.lval.clone_lvalue())),
                    Option::None => Result::Ok(Option::None),
                }
            },
            ExprKind::Binary(_, lhs, rhs) => {
                let t1 = match self.get_id_type(lhs.id) {
                    Result::Ok(t) => t,
                    Result::Err(er) => {
                        return Result::Err(er);
                    },
                };
                let t2 = match self.get_id_type(rhs.id) {
                    Result::Ok(t) => t,
                    Result::Err(er) => {
                        return Result::Err(er);
                    },
                };
                if t1.is_ptr() && ty_is_any_int(&t2) {
                    let arr = match self.gen_expr_f(&**lhs, fuel) {
                        Result::Ok(v) => v,
                        Result::Err(er) => {
                            return Result::Err(er);
                        },
                    };
                    let idx = match self.gen_expr_f(&**rhs, fuel) {
                        Result::Ok(v) => v,
                        Result::Err(er) => {
                            return Result::Err(er);
                        },
                    };
                    Result::Ok(Option::Some(LValue::ArrayAccess(Box::new(arr), Box::new(idx))))
                } else {
                    Result::Ok(Option::None)
                }
            },
            ExprKind::ArrayIdx(a, i) => {
                let arr = match self.gen_expr_f(&**a, fuel) {
                    Result::Ok(v) => v,
                    Result::Err(er) => {
                        return Result::Err(er);
                    },
                };
                let idx = match self.gen_expr_f(&**i, fuel) {
                    Result::Ok(v) => v,
                    Result::Err(er) => {
                        return Result::Err(er);
                    },
                };
                Result::Ok(Option::Some(LValue::ArrayAccess(Box::new(arr), Box::new(idx))))
            },
            ExprKind::Field(object, fname) => {
                let ty = match self.get_id_type(object.id) {
                    Result::Ok(t) => t,
                    Result::Err(er) => {
                        return Result::Err(er);
                    },
                };
                match &ty {
                    Type::Ptr(p) => match &*p.subtype {
                        Type::Struct(st) => {
                            let fld = match self.structures.get(st.name) {
                                Option::Some(g) => match g.fields.get(*fname) {
                                    Option::Some(fld) => *fld,
                                    Option::None => {
                                        return Result::Err(CgError::UnknownField(*fname));
                                    },
                                },
                                Option::None => {
                                    return Result::Err(CgError::StructNotFound(st.name));
                                },
                            };
                            match self.gen_expr_f(&**object, fuel) {
                                Result::Ok(rv) => Result::Ok(
                                    Option::Some(LValue::DerefField(Box::new(rv), fld)),
                                ),
                                Result::Err(er) => Result::Err(er),
                            }
                        },
                        Type::Basic(bb) => {
                            let fld = match self.structures.get(bb.name) {
                                Option::Some(g) => match g.fields.get(*fname) {
                                    Option::Some(fld) => *fld,
                                    Option::None => {
                                        return Result::Err(CgError::UnknownField(*fname));
                                    },
                                },
                                Option::None => {
                                    return Result::Err(CgError::StructNotFound(bb.name));
                                },
                            };
                            match self.gen_expr_f(&**object, fuel) {
                                Result::Ok(rv) => Result::Ok(
                                    Option::Some(LValue::DerefField(Box::new(rv), fld)),
                                ),
                                Result::Err(er) => Result::Err(er),
                            }
                        },
                        _ => Result::Err(CgError::UnsupportedExpr(e.id)),
                    },
                    Type::Struct(st) => {
                        let fld = match self.structures.get(st.name) {
                            Option::Some(g) => match g.fields.get(*fname) {
                                Option::Some(fld) => *fld,
                                Option::None => {
                                    return Result::Err(CgError::UnknownField(*fname));
                                },
                            },
                            Option::None => {
                                return Result::Err(CgError::StructNotFound(st.name));
                            },
                        };
                        match self.expr_to_lvalue_f(&**object, fuel) {
                            Result::Ok(Option::Some(lv)) => Result::Ok(
                                Option::Some(LValue::AccessField(Box::new(lv), fld)),
                            ),
                            Result::Ok(Option::None) => Result::Err(
                                CgError::LvalueExpected(object.id),
                            ),
                            Result::Err(er) => Result::Err(er),
                        }
                    },
                    _ => {
                        let sname = match &ty {
                            Type::Basic(b) => b.name,
                            _ => 0,
                        };
                        let fld = match self.find_struct_fuel(&ty, fuel) {
                            Option::Some(g) => match g.fields.get(*fname) {
                                Option::Some(fld) => *fld,
                                Option::None => {
                                    return Result::Err(CgError::UnknownField(*fname));
                                },
                            },
                            Option::None => {
                                return Result::Err(CgError::StructNotFound(sname));
                            },
                        };
                        match self.expr_to_lvalue_f(&**object, fuel) {
                            Result::Ok(Option::Some(lv)) => Result::Ok(
                                Option::Some(LValue::AccessField(Box::new(lv), fld)),
                            ),
                            Result::Ok(Option::None) => Result::Err(
                                CgError::LvalueExpected(object.id),
                            ),
                            Result::Err(er) => Result::Err(er),
                        }
                    },
                }
            },
            ExprKind::Deref(sub) => match self.gen_expr_f(&**sub, fuel) {
                Result::Ok(rv) => Result::Ok(Option::Some(LValue::Deref(Box::new(rv)))),
                Result::Err(er) => Result::Err(er),
            },
            _ => Result::Ok(Option::None),
        }
    }

    #[verifier::rlimit(100)]
    fn gen_binary_f(&mut self, eid: NodeId, op: BinOp, e1: &Expr, e2: &Expr, fuel: usize) -> (r:
        Result<RValue, CgError>)
        ensures
            (*final(self), r) == Self::spec_gen_binary(*old(self), eid, op, *e1, *e2, fuel as nat),
        decreases fuel, 1 + esize(*e1) + esize(*e2), 2int,
    {
        let t1 = match self.get_id_type(e1.id) {
            Result::Ok(t) => t,
            Result::Err(er) => {
                return Result::Err(er);
            },
        };
        let t2 = match self.get_id_type(e2.id) {
            Result::Ok(t) => t,
            Result::Err(er) => {
                return Result::Err(er);
            },
        };
        let cmp = match op {
            BinOp::Eq => Option::Some(ComparisonOp::Equals),
            BinOp::Ne => Option::Some(ComparisonOp::NotEquals),
            BinOp::Lt => Option::Some(ComparisonOp::LessThan),
            BinOp::Gt => Option::Some(ComparisonOp::GreaterThan),
            BinOp::Le => Option::Some(ComparisonOp::LessThanEquals),
            BinOp::Ge => Option::Some(ComparisonOp::GreaterThanEquals),
            _ => Option::None,
        };
        match cmp {
            Option::Some(cmpop) => {
                let cty = match self.ty_to_ctype_fuel(&t1, fuel) {
                    Result::Ok(c) => c,
                    Result::Err(er) => {
                        return Result::Err(er);
                    },
                };
                let l = match self.gen_expr_f(e1, fuel) {
                    Result::Ok(v) => v,
                    Result::Err(er) => {
                        return Result::Err(er);
                    },
                };
                let r = match self.gen_expr_f(e2, fuel) {
                    Result::Ok(v) => v,
                    Result::Err(er) => {
                        return Result::Err(er);
                    },
                };
                Result::Ok(
                    RValue::Comparison(
                        cmpop,
                        Box::new(l),
                        Box::new(RValue::Cast(cty, Box::new(r))),
                    ),
                )
            },
            Option::None => {
                if t1.is_ptr() && ty_is_any_int(&t2) {
                    let arr = match self.gen_expr_f(e1, fuel) {
                        Result::Ok(v) => v,
                        Result::Err(er) => {
                            return Result::Err(er);
                        },
                    };
                    let idx = match self.gen_expr_f(e2, fuel) {
                        Result::Ok(v) => v,
                        Result::Err(er) => {
                            return Result::Err(er);
                        },
                    };
                    Result::Ok(
                        RValue::Read(
                            Box::new(LValue::ArrayAccess(Box::new(arr), Box::new(idx))),
                        ),
                    )
                } else if ty_is_any_int(&t1) && ty_is_any_int(&t2) {
                    let cty = match self.ty_to_ctype_fuel(&t1, fuel) {
                        Result::Ok(c) => c,
                        Result::Err(er) => {
                            return Result::Err(er);
                        },
                    };
                    let bop = match op {
                        BinOp::Add => Option::Some(BinaryOp::Plus),
                        BinOp::Sub => Option::Some(BinaryOp::Minus),
                        BinOp::Mul => Option::Some(BinaryOp::Mult),
                        BinOp::Div => Option::Some(BinaryOp::Divide),
                        BinOp::Rem => Option::Some(BinaryOp::Modulo),
                        BinOp::Or => Option::Some(BinaryOp::BitwiseOr),
                        BinOp::And => Option::Some(BinaryOp::BitwiseAnd),
                        BinOp::Xor => Option::Some(BinaryOp::BitwiseXor),
                        BinOp::Shr => Option::Some(BinaryOp::RShift),
                        BinOp::Shl => Option::Some(BinaryOp::LShift),
                        _ => Option::None,
                    };
                    match bop {
                        Option::Some(b) => self.gen_binop_operands_f(b, cty, e1, e2, fuel),
                        Option::None => Result::Err(CgError::UnsupportedExpr(eid)),
                    }
                } else if ty_is_any_float(&t1) && (ty_is_any_float(&t2) || ty_is_any_int(&t2)) {
                    let cty = match self.ty_to_ctype_fuel(&t1, fuel) {
                        Result::Ok(c) => c,
                        Result::Err(er) => {
                            return Result::Err(er);
                        },
                    };
                    let bop = match op {
                        BinOp::Add => Option::Some(BinaryOp::Plus),
                        BinOp::Sub => Option::Some(BinaryOp::Minus),
                        BinOp::Mul => Option::Some(BinaryOp::Mult),
                        BinOp::Div => Option::Some(BinaryOp::Divide),
                        BinOp::Rem => Option::Some(BinaryOp::Modulo),
                        _ => Option::None,
                    };
                    match bop {
                        Option::Some(b) => self.gen_binop_operands_f(b, cty, e1, e2, fuel),
                        Option::None => Result::Err(CgError::UnsupportedExpr(eid)),
                    }
                } else if t1.is_vec() && (ty_is_any_int(&t2) || ty_is_any_float(&t2)) {
                    let cty = match self.ty_to_ctype_fuel(&t1, fuel) {
                        Result::Ok(c) => c,
                        Result::Err(er) => {
                            return Result::Err(er);
                        },
                    };
                    let bop = match op {
                        BinOp::Add => Option::Some(BinaryOp::Plus),
                        BinOp::Sub => Option::Some(BinaryOp::Minus),
                        BinOp::Mul => Option::Some(BinaryOp::Mult),
                        BinOp::Div => Option::Some(BinaryOp::Divide),
                        BinOp::Rem => Option::Some(BinaryOp::Modulo),
                        _ => Option::None,
                    };
                    match bop {
                        Option::Some(b) => self.gen_binop_operands_f(b, cty, e1, e2, fuel),
                        Option::None => Result::Err(CgError::UnsupportedExpr(eid)),
                    }
                } else {
                    let bools = match (&t1, &t2) {
                        (Type::Basic(b1), Type::Basic(b2)) => b1.name == NAME_BOOL && b2.name
                            == NAME_BOOL,
                        _ => false,
                    };
                    if bools {
                        let lop = match op {
                            BinOp::AndAnd => Option::Some(BinaryOp::LogicalAnd),
                            BinOp::OrOr => Option::Some(BinaryOp::LogicalOr),
                            _ => Option::None,
                        };
                        match lop {
                            Option::Some(bop) => {
                                let l = match self.gen_expr_f(e1, fuel) {
                                    Result::Ok(v) => v,
                                    Result::Err(er) => {
                                        return Result::Err(er);
                                    },
                                };
                                let r = match self.gen_expr_f(e2, fuel) {
                                    Result::Ok(v) => v,
                                    Result::Err(er) => {
                                        return Result::Err(er);
                                    },
                                };
                                Result::Ok(
                                    RValue::Binary(bop, CType::Bool, Box::new(l), Box::new(r)),
                                )
                            },
                            Option::None => Result::Err(CgError::UnsupportedExpr(eid)),
                        }
                    } else {
                        Result::Err(CgError::UnsupportedExpr(eid))
                    }
                }
            },
        }
    }

    fn gen_binop_operands_f(
        &mut self,
        bop: BinaryOp,
        cty: CType,
        e1: &Expr,
        e2: &Expr,
        fuel: usize,
    ) -> (r: Result<RValue, CgError>)
        ensures
            (*final(self), r) == Self::spec_gen_binop_operands(
                *old(self),
                bop,
                cty,
                *e1,
                *e2,
                fuel as nat,
            ),
        decreases fuel, esize(*e1) + esize(*e2), 1int,
    {
        let l = match self.gen_expr_f(e1, fuel) {
            Result::Ok(v) => v,
            Result::Err(er) => {
                return Result::Err(er);
            },
        };
        let r = match self.gen_expr_f(e2, fuel) {
            Result::Ok(v) => v,
            Result::Err(er) => {
                return Result::Err(er);
            },
        };
        Result::Ok(
            RValue::Binary(
                bop,
                cty.clone_ctype(),
                Box::new(l),
                Box::new(RValue::Cast(cty, Box::new(r))),
            ),
        )
    }

    #[verifier::rlimit(100)]
    fn gen_call_f(
        &mut self,
        eid: NodeId,
        pos: Position,
        path: Path,
        this: &Option<Box<Expr>>,
        args: &Lst<Expr>,
        fuel: usize,
    ) -> (r: Result<RValue, CgError>)
        ensures
            (*final(self), r) == Self::spec_gen_call(
                *old(self),
                eid,
                pos,
                path,
                *this,
                *args,
                fuel as nat,
            ),
        decreases fuel, 1 + osize(*this) + elsize(*args), 2int,
    {
        let name = path.name;
        let ptys = match self.arg_types(args) {
            Result::Ok(p) => p,
            Result::Err(er) => {
                return Result::Err(er);
            },
        };
        let units = match self.functions.get(name) {
            Option::Some(us) => Option::Some(us.deep_clone()),
            Option::None => Option::None,
        };
        match units {
            Option::Some(us) => {
                let thisty = match this {
                    Option::Some(te) => match self.get_id_type(te.id) {
                        Result::Ok(t) => Option::Some(t),
                        Result::Err(er) => {
                            return Result::Err(er);
                        },
                    },
                    Option::None => Option::None,
                };
                let found = match self.search_for_func_fuel(&ptys, thisty.as_ref(), &us, fuel) {
                    Result::Ok(v) => v,
                    Result::Err(er) => {
                        return Result::Err(er);
                    },
                };
                let (cfid, ctys, atys) = match found {
                    Option::Some(m) => m,
                    Option::None => {
                        return Result::Err(CgError::FunctionNotFound(name, ptys));
                    },
                };
                let params = match self.lower_call_args_f(args, &atys, &ctys, fuel) {
                    Result::Ok(p) => p,
                    Result::Err(er) => {
                        return Result::Err(er);
                    },
                };
                match this {
                    Option::None => Result::Ok(RValue::Call(cfid, Box::new(params))),
                    Option::Some(te) => {
                        let tty = match self.get_id_type(te.id) {
                            Result::Ok(t) => t,
                            Result::Err(er) => {
                                return Result::Err(er);
                            },
                        };
                        if !tty.is_ptr() {
                            let c0 = match self.ty_to_ctype_fuel(&tty, fuel) {
                                Result::Ok(c) => c,
                                Result::Err(er) => {
                                    return Result::Err(er);
                                },
                            };
                            let cty = CType::Ptr(Box::new(c0));
                            let av = match self.gen_addressof_f(te.id, &**te, fuel) {
                                Result::Ok(v) => v,
                                Result::Err(er) => {
                                    return Result::Err(er);
                                },
                            };
                            Result::Ok(
                                RValue::Call(
                                    cfid,
                                    Box::new(params.snoc(RValue::Cast(cty, Box::new(av)))),
                                ),
                            )
                        } else {
                            let tv = match self.gen_expr_f(&**te, fuel) {
                                Result::Ok(v) => v,
                                Result::Err(er) => {
                                    return Result::Err(er);
                                },
                            };
                            Result::Ok(RValue::Call(cfid, Box::new(params.snoc(tv))))
                        }
                    },
                }
            },
            Option::None => {
                let has_const = self.const_functions.contains_key(name);
                if has_const {
                    let found = match self.const_functions.get(name) {
                        Option::Some(cfuncs) => self.search_for_func_const(
                            &ptys,
                            Option::None,
                            cfuncs,
                        ),
                        Option::None => Option::None,
                    };
                    match found {
                        Option::None => Result::Err(CgError::ConstFunctionNotFound(name, ptys)),
                        Option::Some(_) => Result::Ok(RValue::IntConst(CType::I32, 0)),
                    }
                } else {
                    let ext = match self.external_functions.get(name) {
                        Option::Some(u) => Option::Some((u.c, u.f.params.deep_clone())),
                        Option::None => Option::None,
                    };
                    match ext {
                        Option::Some((c, decl)) => {
                            let params = match self.lower_ext_args_f(args, &decl, fuel) {
                                Result::Ok(p) => p,
                                Result::Err(er) => {
                                    return Result::Err(er);
                                },
                            };
                            Result::Ok(RValue::Call(c, Box::new(params)))
                        },
                        Option::None => {
                            let lval = match self.variables.get(name) {
                                Option::Some(vi) => Option::Some(vi.lval.clone_lvalue()),
                                Option::None => Option::None,
                            };
                            match lval {
                                Option::Some(lv) => {
                                    let params = match self.lower_plain_args_f(args, fuel) {
                                        Result::Ok(p) => p,
                                        Result::Err(er) => {
                                            return Result::Err(er);
                                        },
                                    };
                                    Result::Ok(
                                        RValue::CallPtr(
                                            Box::new(RValue::Read(Box::new(lv))),
                                            Box::new(params),
                                        ),
                                    )
                                },
                                Option::None => Result::Err(CgError::UnknownFunction(name)),
                            }
                        },
                    }
                }
            },
        }
    }

    fn lower_call_args_f(
        &mut self,
        args: &Lst<Expr>,
        atys: &Lst<Type>,
        ctys: &Lst<CType>,
        fuel: usize,
    ) -> (r: Result<Lst<RValue>, CgError>)
        ensures
            (*final(self), r) == Self::spec_lower_call_args(
                *old(self),
                *args,
                *atys,
                *ctys,
                fuel as nat,
            ),
        decreases fuel, elsize(*args), 0int,
    {
        match args {
            Lst::Nil => Result::Ok(Lst::Nil),
            Lst::Cons(a, rest) => {
                let v = match self.gen_expr_f(a, fuel) {
                    Result::Ok(v) => v,
                    Result::Err(er) => {
                        return Result::Err(er);
                    },
                };
                match (atys, ctys) {
                    (Lst::Cons(ty, tyr), Lst::Cons(cty, ctyr)) => {
                        let v2 = if !ty.is_struct() && !ty.is_array() {
                            RValue::Cast(cty.clone_ctype(), Box::new(v))
                        } else {
                            v
                        };
                        match self.lower_call_args_f(rest, tyr, ctyr, fuel) {
                            Result::Ok(vs) => Result::Ok(Lst::Cons(v2, Box::new(vs))),
                            Result::Err(er) => Result::Err(er),
                        }
                    },
                    _ => {
                        let nil_t: Lst<Type> = Lst::Nil;
                        let nil_c: Lst<CType> = Lst::Nil;
                        match self.lower_call_args_f(rest, &nil_t, &nil_c, fuel) {
                            Result::Ok(vs) => Result::Ok(Lst::Cons(v, Box::new(vs))),
                            Result::Err(er) => Result::Err(er),
                        }
                    },
                }
            },
        }
    }

    fn lower_ext_args_f(&mut self, args: &Lst<Expr>, decl: &Lst<(Name, Type)>, fuel: usize) -> (r:
        Result<Lst<RValue>, CgError>)
        ensures
            (*final(self), r) == Self::spec_lower_ext_args(*old(self), *args, *decl, fuel as nat),
        decreases fuel, elsize(*args), 0int,
    {
        match args {
            Lst::Nil => Result::Ok(Lst::Nil),
            Lst::Cons(a, rest) => {
                let v = match self.gen_expr_f(a, fuel) {
                    Result::Ok(v) => v,
                    Result::Err(er) => {
                        return Result::Err(er);
                    },
                };
                match decl {
                    Lst::Cons(d, dr) => {
                        let cty = match self.ty_to_ctype_fuel(&d.1, fuel) {
                            Result::Ok(c) => c,
                            Result::Err(er) => {
                                return Result::Err(er);
                            },
                        };
                        let v2 = if !d.1.is_struct() && !d.1.is_array() {
                            RValue::Cast(cty, Box::new(v))
                        } else {
                            v
                        };
                        match self.lower_ext_args_f(rest, dr, fuel) {
                            Result::Ok(vs) => Result::Ok(Lst::Cons(v2, Box::new(vs))),
                            Result::Err(er) => Result::Err(er),
                        }
                    },
                    Lst::Nil => {
                        let nil_d: Lst<(Name, Type)> = Lst::Nil;
                        match self.lower_ext_args_f(rest, &nil_d, fuel) {
                            Result::Ok(vs) => Result::Ok(Lst::Cons(v, Box::new(vs))),
                            Result::Err(er) => Result::Err(er),
                        }
                    },
                }
            },
        }
    }

    fn lower_plain_args_f(&mut self, args: &Lst<Expr>, fuel: usize) -> (r: Result<
        Lst<RValue>,
        CgError,
    >)
        ensures
            (*final(self), r) == Self::spec_lower_plain_args(*old(self), *args, fuel as nat),
        decreases fuel, elsize(*args), 0int,
    {
        match args {
            Lst::Nil => Result::Ok(Lst::Nil),
            Lst::Cons(a, rest) => {
                let v = match self.gen_expr_f(a, fuel) {
                    Result::Ok(v) => v,
                    Result::Err(er) => {
                        return Result::Err(er);
                    },
                };
                match self.lower_plain_args_f(rest, fuel) {
                    Result::Ok(vs) => Result::Ok(Lst::Cons(v, Box::new(vs))),
                    Result::Err(er) => Result::Err(er),
                }
            },
        }
    }

    #[verifier::rlimit(100)]
    fn gen_struct_lit_f(
        &mut self,
        eid: NodeId,
        pos: Position,
        path: Path,
        args: &Lst<crate::ast::StructArg>,
        fuel: usize,
    ) -> (r: Result<RValue, CgError>)
        ensures
            (*final(self), r) == Self::spec_gen_struct_lit(
                *old(self),
                eid,
                pos,
                path,
                *args,
                fuel as nat,
            ),
        decreases fuel, 1 + alsize(*args), 2int,
    {
        let name = path.name;
        let probe = Type::create_basic(eid, pos, name);
        let g = match self.find_struct_fuel(&probe, fuel) {
            Option::Some(g) => g,
            Option::None => {
                return Result::Err(CgError::StructNotFound(name));
            },
        };
        if self.tmp_id == usize::MAX {
            return Result::Err(CgError::TooManyItems);
        }
        let tmp = LocalName::Tmp(self.tmp_id);
        self.tmp_id = self.tmp_id + 1;
        let f = match self.cur_func {
            Option::Some(f) => f,
            Option::None => {
                return Result::Err(CgError::NoCurrentFunction);
            },
        };
        let GccStruct { ty: gty, fields: gfields, types: _ } = g;
        let lid = match self.ctx.new_local(f, tmp, gty) {
            Option::Some(l) => l,
            Option::None => {
                return Result::Err(CgError::TooManyItems);
            },
        };
        match self.gen_struct_args_f(f, lid, &gfields, args, fuel) {
            Result::Ok(()) => Result::Ok(RValue::Read(Box::new(LValue::Local(f, lid)))),
            Result::Err(er) => Result::Err(er),
        }
    }

    fn gen_struct_args_f(
        &mut self,
        f: usize,
        lid: usize,
        fields: &SymTable<crate::ir::Field>,
        args: &Lst<crate::ast::StructArg>,
        fuel: usize,
    ) -> (r: Result<(), CgError>)
        ensures
            (*final(self), r) == Self::spec_gen_struct_args(
                *old(self),
                f,
                lid,
                *fields,
                *args,
                fuel as nat,
            ),
        decreases fuel, alsize(*args), 0int,
    {
        match args {
            Lst::Nil => Result::Ok(()),
            Lst::Cons(a, rest) => {
                let v = match self.gen_expr_f(&*a.expr, fuel) {
                    Result::Ok(v) => v,
                    Result::Err(er) => {
                        return Result::Err(er);
                    },
                };
                let fld = match fields.get(a.name) {
                    Option::Some(fld) => *fld,
                    Option::None => {
                        return Result::Err(CgError::UnknownField(a.name));
                    },
                };
                let cf = match self.cur_func {
                    Option::Some(cf) => cf,
                    Option::None => {
                        return Result::Err(CgError::NoCurrentFunction);
                    },
                };
                let cb = match self.cur_block {
                    Option::Some(cb) => cb,
                    Option::None => {
                        return Result::Err(CgError::NoCurrentBlock);
                    },
                };
                self.ctx.add_instr(
                    cf,
                    cb,
                    Instr::Assign(
                        LValue::AccessField(Box::new(LValue::Local(f, lid)), fld),
                        v,
                    ),
                );
                self.gen_struct_args_f(f, lid, fields, rest, fuel)
            },
        }
    }
}

} // verus!
