//! The intermediate representation the code generator emits.
//!
//! The IR is plain data: a context owns interned struct definitions,
//! functions made of basic blocks, globals, and driver options.  Handles
//! (struct ids, function ids, block ids, local ids, global ids) are indices
//! into the owning lists, so identity of an interned entity is literal
//! equality of its handle.  All mutating operations have pure specification
//! twins, so the whole build-up of a module is a function of its inputs.

use vstd::prelude::*;

use crate::ast::Name;
use crate::list::{DeepClone, Lst};

verus! {

/// An IR type.
///
/// `F32`/`F64` are type tags only; no floating-point value is ever held in
/// the IR — float constants travel as bit patterns.
#[derive(PartialEq, Eq, Debug)]
pub enum CType {
    Void,
    Bool,
    Char,
    I8,
    U8,
    I16,
    U16,
    I32,
    U32,
    I64,
    U64,
    USize,
    F32,
    F64,
    Ptr(Box<CType>),
    Array(Box<CType>, usize),
    Vector(Box<CType>, usize),
    Struct(usize),
    FnPtr(FnSig),
}

/// Signature payload of a function-pointer type.
#[derive(PartialEq, Eq, Debug)]
pub struct FnSig {
    pub ret: Box<CType>,
    pub params: Box<Lst<CType>>,
    pub variadic: bool,
}

impl CType {
    /// Value-preserving recursive clone.
    pub fn clone_ctype(&self) -> (r: CType)
        ensures
            r == *self,
        decreases self,
    {
        match self {
            CType::Void => CType::Void,
            CType::Bool => CType::Bool,
            CType::Char => CType::Char,
            CType::I8 => CType::I8,
            CType::U8 => CType::U8,
            CType::I16 => CType::I16,
            CType::U16 => CType::U16,
            CType::I32 => CType::I32,
            CType::U32 => CType::U32,
            CType::I64 => CType::I64,
            CType::U64 => CType::U64,
            CType::USize => CType::USize,
            CType::F32 => CType::F32,
            CType::F64 => CType::F64,
            CType::Ptr(t) => CType::Ptr(Box::new((**t).clone_ctype())),
            CType::Array(t, n) => CType::Array(Box::new((**t).clone_ctype()), *n),
            CType::Vector(t, n) => CType::Vector(Box::new((**t).clone_ctype()), *n),
            CType::Struct(s) => CType::Struct(*s),
            CType::FnPtr(sig) => CType::FnPtr(
                FnSig {
                    ret: Box::new((*sig.ret).clone_ctype()),
                    params: Box::new(Self::clone_ctype_list(&sig.params)),
                    variadic: sig.variadic,
                },
            ),
        }
    }

    /// Value-preserving clone of an IR type list.
    pub fn clone_ctype_list(l: &Lst<CType>) -> (r: Lst<CType>)
        ensures
            r == *l,
        decreases l,
    {
        match l {
            Lst::Nil => Lst::Nil,
            Lst::Cons(h, t) => Lst::Cons(h.clone_ctype(), Box::new(Self::clone_ctype_list(t))),
        }
    }

    /// The IR pointer type to this type.
    pub fn make_pointer(self) -> (r: CType)
        ensures
            r == CType::Ptr(Box::new(self)),
    {
        CType::Ptr(Box::new(self))
    }
}

impl DeepClone for CType {
    fn deep_clone(&self) -> (r: CType)
        ensures
            r == *self,
    {
        self.clone_ctype()
    }
}

/// Handle to a field of an interned struct: owning struct id and field index.
#[derive(Clone, Copy, PartialEq, Eq, Structural, Debug)]
pub struct Field {
    pub owner: usize,
    pub index: usize,
}

/// Linkage of a global.
#[derive(Clone, Copy, PartialEq, Eq, Structural, Debug)]
pub enum GlobalKind {
    Internal,
    Exported,
    External,
}

/// Linkage of a function.
#[derive(Clone, Copy, PartialEq, Eq, Structural, Debug)]
pub enum FunctionType {
    Extern,
    Internal,
    AlwaysInline,
    Exported,
}

/// Binary opcode.
#[derive(Clone, Copy, PartialEq, Eq, Structural, Debug)]
pub enum BinaryOp {
    Plus,
    Minus,
    Mult,
    Divide,
    Modulo,
    BitwiseAnd,
    BitwiseOr,
    BitwiseXor,
    LShift,
    RShift,
    LogicalAnd,
    LogicalOr,
}

/// Unary opcode.
#[derive(Clone, Copy, PartialEq, Eq, Structural, Debug)]
pub enum UnaryOp {
    Minus,
    BitwiseNegate,
    LogicalNegate,
}

/// Comparison opcode.
#[derive(Clone, Copy, PartialEq, Eq, Structural, Debug)]
pub enum ComparisonOp {
    Equals,
    NotEquals,
    LessThan,
    GreaterThan,
    LessThanEquals,
    GreaterThanEquals,
}

/// What kind of artifact an ahead-of-time compilation produces.
#[derive(Clone, Copy, PartialEq, Eq, Structural, Debug)]
pub enum OutputKind {
    Executable,
    ObjectFile,
    DynamicLibrary,
    Assembler,
}

/// Name of a basic block; fresh names are numbered monotonically per run.
#[derive(Clone, Copy, PartialEq, Eq, Structural, Debug)]
pub enum BlockName {
    Entry,
    L(usize),
    IfTrue(usize),
    IfFalse(usize),
    After(usize),
    ForCond(usize),
    ForBody(usize),
    AfterFor(usize),
}

/// Name of a local: a source name or a numbered temporary.
#[derive(Clone, Copy, PartialEq, Eq, Structural, Debug)]
pub enum LocalName {
    Named(Name),
    Tmp(usize),
}

/// Name of a global: a source name or a numbered temporary.
#[derive(Clone, Copy, PartialEq, Eq, Structural, Debug)]
pub enum GlobalName {
    Named(Name),
    Tmp(usize),
}

/// A mangled rendering of a type, as structured data; an embedder renders it
/// to text with its interner (`Ptr` prints as `ptr`, `VoidTag` as `v`,
/// `Vect` as `vec` followed by the subtype and lane count).
#[derive(PartialEq, Eq, Debug)]
pub enum Mangle {
    Sym(Name),
    Ptr(Box<Mangle>),
    Vect(Box<Mangle>, usize),
    VoidTag,
    Func(Box<Mangle>, Box<Lst<Mangle>>),
}

/// The IR-level name of a function.
///
/// `Mangled` concatenates the source name, the receiver's mangled type when
/// there is one, and each parameter's mangled type, in that order.
#[derive(PartialEq, Eq, Debug)]
pub enum FuncName {
    Main,
    Plain(Name),
    Mangled(Name, Option<Mangle>, Lst<Mangle>),
}

/// A linker or driver option recorded on the context.
#[derive(Clone, Copy, PartialEq, Eq, Structural, Debug)]
pub enum DriverOpt {
    LinkLib(Name),
    LinkC,
    LinkM,
}

/// An rvalue: a typed expression tree.
#[derive(PartialEq, Eq, Debug)]
pub enum RValue {
    /// Integer constant of the given IR type.
    IntConst(CType, i64),
    /// Floating constant of the given IR type, as the bit pattern of the
    /// `f64` value the front end read.
    DoubleConst(CType, u64),
    /// A string literal (type: pointer to `Char`).
    StrLit(String),
    /// A null pointer of the given pointer type.
    NullPtr(CType),
    /// A value cast to the given IR type.
    Cast(CType, Box<RValue>),
    /// Binary operation producing the given IR type.
    Binary(BinaryOp, CType, Box<RValue>, Box<RValue>),
    /// Unary operation producing the given IR type.
    Unary(UnaryOp, CType, Box<RValue>),
    /// Comparison (type: `Bool`).
    Comparison(ComparisonOp, Box<RValue>, Box<RValue>),
    /// Direct call of the function with the given id.
    Call(usize, Box<Lst<RValue>>),
    /// Call through a function-pointer value.
    CallPtr(Box<RValue>, Box<Lst<RValue>>),
    /// Read of an lvalue.
    Read(Box<LValue>),
    /// Address of an lvalue.
    AddressOf(Box<LValue>),
    /// Address of the function with the given id.
    FuncAddr(usize),
    /// The `index`-th parameter of the function with the given id.
    Param(usize, usize),
}

/// An lvalue: a typed storage location.
#[derive(PartialEq, Eq, Debug)]
pub enum LValue {
    /// A local of a function: function id and local id.
    Local(usize, usize),
    /// A global: global id.
    Global(usize),
    /// Element of an array or pointed-to buffer.
    ArrayAccess(Box<RValue>, Box<RValue>),
    /// The cell a pointer value points to.
    Deref(Box<RValue>),
    /// Field of a struct reached through a pointer.
    DerefField(Box<RValue>, Field),
    /// Field of a struct lvalue.
    AccessField(Box<LValue>, Field),
}

impl RValue {
    /// Value-preserving recursive clone.
    pub fn clone_rvalue(&self) -> (r: RValue)
        ensures
            r == *self,
        decreases self,
    {
        match self {
            RValue::IntConst(t, i) => RValue::IntConst(t.clone_ctype(), *i),
            RValue::DoubleConst(t, b) => RValue::DoubleConst(t.clone_ctype(), *b),
            RValue::StrLit(s) => RValue::StrLit(s.clone()),
            RValue::NullPtr(t) => RValue::NullPtr(t.clone_ctype()),
            RValue::Cast(t, v) => RValue::Cast(t.clone_ctype(), Box::new((**v).clone_rvalue())),
            RValue::Binary(op, t, a, b) => RValue::Binary(
                *op,
                t.clone_ctype(),
                Box::new((**a).clone_rvalue()),
                Box::new((**b).clone_rvalue()),
            ),
            RValue::Unary(op, t, v) => RValue::Unary(
                *op,
                t.clone_ctype(),
                Box::new((**v).clone_rvalue()),
            ),
            RValue::Comparison(op, a, b) => RValue::Comparison(
                *op,
                Box::new((**a).clone_rvalue()),
                Box::new((**b).clone_rvalue()),
            ),
            RValue::Call(f, args) => RValue::Call(*f, Box::new(Self::clone_rvalue_list(args))),
            RValue::CallPtr(f, args) => RValue::CallPtr(
                Box::new((**f).clone_rvalue()),
                Box::new(Self::clone_rvalue_list(args)),
            ),
            RValue::Read(lv) => RValue::Read(Box::new((**lv).clone_lvalue())),
            RValue::AddressOf(lv) => RValue::AddressOf(Box::new((**lv).clone_lvalue())),
            RValue::FuncAddr(f) => RValue::FuncAddr(*f),
            RValue::Param(f, i) => RValue::Param(*f, *i),
        }
    }

    /// Value-preserving clone of an rvalue list.
    pub fn clone_rvalue_list(l: &Lst<RValue>) -> (r: Lst<RValue>)
        ensures
            r == *l,
        decreases l,
    {
        match l {
            Lst::Nil => Lst::Nil,
            Lst::Cons(h, t) => Lst::Cons(h.clone_rvalue(), Box::new(Self::clone_rvalue_list(t))),
        }
    }
}

impl LValue {
    /// Value-preserving recursive clone.
    pub fn clone_lvalue(&self) -> (r: LValue)
        ensures
            r == *self,
        decreases self,
    {
        match self {
            LValue::Local(f, l) => LValue::Local(*f, *l),
            LValue::Global(g) => LValue::Global(*g),
            LValue::ArrayAccess(a, i) => LValue::ArrayAccess(
                Box::new((**a).clone_rvalue()),
                Box::new((**i).clone_rvalue()),
            ),
            LValue::Deref(v) => LValue::Deref(Box::new((**v).clone_rvalue())),
            LValue::DerefField(v, fld) => LValue::DerefField(
                Box::new((**v).clone_rvalue()),
                *fld,
            ),
            LValue::AccessField(lv, fld) => LValue::AccessField(
                Box::new((**lv).clone_lvalue()),
                *fld,
            ),
        }
    }
}

impl DeepClone for RValue {
    fn deep_clone(&self) -> (r: RValue)
        ensures
            r == *self,
    {
        self.clone_rvalue()
    }
}

impl DeepClone for LValue {
    fn deep_clone(&self) -> (r: LValue)
        ensures
            r == *self,
    {
        self.clone_lvalue()
    }
}

/// An instruction inside a basic block.
#[derive(PartialEq, Eq, Debug)]
pub enum Instr {
    Assign(LValue, RValue),
    Eval(RValue),
}

/// A block terminator.
#[derive(PartialEq, Eq, Debug)]
pub enum Terminator {
    Jump(usize),
    Cond(RValue, usize, usize),
    Return(RValue),
    VoidReturn,
}

/// A basic block: a name, emitted instructions, and an optional terminator.
#[derive(PartialEq, Eq, Debug)]
pub struct BlockDef {
    pub name: BlockName,
    pub instrs: Lst<Instr>,
    pub term: Option<Terminator>,
}

/// A local slot of a function.
#[derive(PartialEq, Eq, Debug)]
pub struct LocalDef {
    pub name: LocalName,
    pub ty: CType,
}

/// A function being built: signature, locals and blocks.
#[derive(PartialEq, Eq, Debug)]
pub struct CFunctionDef {
    pub name: FuncName,
    pub linkage: FunctionType,
    pub ret: CType,
    pub params: Lst<(Name, CType)>,
    pub variadic: bool,
    pub builtin: bool,
    pub locals: Lst<LocalDef>,
    pub blocks: Lst<BlockDef>,
}

/// A global definition.
#[derive(PartialEq, Eq, Debug)]
pub struct GlobalDef {
    pub kind: GlobalKind,
    pub ty: CType,
    pub name: GlobalName,
}

/// An interned struct or union definition.
#[derive(PartialEq, Eq, Debug)]
pub struct StructDef {
    pub name: Name,
    pub union: bool,
    pub fields: Lst<(Name, CType)>,
}

/// The IR context: everything the code generator hands to a native back end.
#[derive(PartialEq, Eq, Debug)]
pub struct Ctx {
    pub name: String,
    pub opt_level: u8,
    pub dump_gimple: bool,
    pub dump_code: bool,
    pub allow_unreachable: bool,
    pub command_line_options: Lst<String>,
    pub driver_options: Lst<DriverOpt>,
    pub structs: Lst<StructDef>,
    pub funcs: Lst<CFunctionDef>,
    pub globals: Lst<GlobalDef>,
}

impl Ctx {
    /// A fresh context carrying the given module name.
    pub fn with_name(name: String, dump_gimple: bool) -> (r: Ctx)
        ensures
            r.name == name,
            r.opt_level == 2,
            r.dump_gimple == dump_gimple,
            !r.dump_code,
            r.allow_unreachable,
            r.command_line_options == Lst::<String>::Nil,
            r.driver_options == Lst::<DriverOpt>::Nil,
            r.structs == Lst::<StructDef>::Nil,
            r.funcs == Lst::<CFunctionDef>::Nil,
            r.globals == Lst::<GlobalDef>::Nil,
    {
        Ctx {
            name,
            opt_level: 2,
            dump_gimple,
            dump_code: false,
            allow_unreachable: true,
            command_line_options: Lst::Nil,
            driver_options: Lst::Nil,
            structs: Lst::Nil,
            funcs: Lst::Nil,
            globals: Lst::Nil,
        }
    }

    /// The function with the given id (spec).
    pub open spec fn spec_func(&self, fid: int) -> Option<CFunctionDef> {
        self.funcs.spec_nth(fid)
    }

    /// The struct with the given id (spec).
    pub open spec fn spec_struct(&self, sid: int) -> Option<StructDef> {
        self.structs.spec_nth(sid)
    }

    /// The global with the given id (spec).
    pub open spec fn spec_global(&self, gid: int) -> Option<GlobalDef> {
        self.globals.spec_nth(gid)
    }

    /// The block `bid` of function `fid` (spec).
    pub open spec fn spec_block(&self, fid: int, bid: int) -> Option<BlockDef> {
        match self.spec_func(fid) {
            Option::Some(f) => f.blocks.spec_nth(bid),
            Option::None => Option::None,
        }
    }

    /// The context after appending `ins` to block `bid` of function `fid`;
    /// out-of-range handles leave the context unchanged (spec).
    pub open spec fn spec_add_instr(self, fid: int, bid: int, ins: Instr) -> Ctx {
        match self.spec_func(fid) {
            Option::Some(f) => match f.blocks.spec_nth(bid) {
                Option::Some(b) => {
                    let nb = BlockDef { name: b.name, instrs: b.instrs.spec_snoc(ins), term: b.term };
                    let nf = CFunctionDef { blocks: f.blocks.spec_update(bid, nb), ..f };
                    Ctx { funcs: self.funcs.spec_update(fid, nf), ..self }
                },
                Option::None => self,
            },
            Option::None => self,
        }
    }

    /// The context after setting the terminator of block `bid` of function
    /// `fid`; the last terminator set wins (spec).
    pub open spec fn spec_set_term(self, fid: int, bid: int, t: Terminator) -> Ctx {
        match self.spec_func(fid) {
            Option::Some(f) => match f.blocks.spec_nth(bid) {
                Option::Some(b) => {
                    let nb = BlockDef { name: b.name, instrs: b.instrs, term: Option::Some(t) };
                    let nf = CFunctionDef { blocks: f.blocks.spec_update(bid, nb), ..f };
                    Ctx { funcs: self.funcs.spec_update(fid, nf), ..self }
                },
                Option::None => self,
            },
            Option::None => self,
        }
    }

    /// The context after appending a fresh empty block named `name` to
    /// function `fid` (spec).
    pub open spec fn spec_new_block(self, fid: int, name: BlockName) -> Ctx {
        match self.spec_func(fid) {
            Option::Some(f) => {
                let nb = BlockDef { name, instrs: Lst::Nil, term: Option::None };
                let nf = CFunctionDef { blocks: f.blocks.spec_snoc(nb), ..f };
                Ctx { funcs: self.funcs.spec_update(fid, nf), ..self }
            },
            Option::None => self,
        }
    }

    /// The context after appending a fresh local to function `fid` (spec).
    pub open spec fn spec_new_local(self, fid: int, name: LocalName, ty: CType) -> Ctx {
        match self.spec_func(fid) {
            Option::Some(f) => {
                let nf = CFunctionDef {
                    locals: f.locals.spec_snoc(LocalDef { name, ty }),
                    ..f
                };
                Ctx { funcs: self.funcs.spec_update(fid, nf), ..self }
            },
            Option::None => self,
        }
    }

    /// Append `ins` to block `bid` of function `fid`.
    pub fn add_instr(&mut self, fid: usize, bid: usize, ins: Instr)
        ensures
            *final(self) == old(self).spec_add_instr(fid as int, bid as int, ins),
    {
        let mut funcs: Lst<CFunctionDef> = Lst::Nil;
        core::mem::swap(&mut funcs, &mut self.funcs);
        self.funcs = Self::add_instr_in(funcs, fid, bid, ins);
    }

    fn add_instr_in(funcs: Lst<CFunctionDef>, fid: usize, bid: usize, ins: Instr) -> (r: Lst<
        CFunctionDef,
    >)
        ensures
            r == (match funcs.spec_nth(fid as int) {
                Option::Some(f) => match f.blocks.spec_nth(bid as int) {
                    Option::Some(b) => {
                        let nb = BlockDef {
                            name: b.name,
                            instrs: b.instrs.spec_snoc(ins),
                            term: b.term,
                        };
                        funcs.spec_update(
                            fid as int,
                            CFunctionDef { blocks: f.blocks.spec_update(bid as int, nb), ..f },
                        )
                    },
                    Option::None => funcs,
                },
                Option::None => funcs,
            }),
        decreases funcs,
    {
        match funcs {
            Lst::Nil => Lst::Nil,
            Lst::Cons(f, t) => {
                if fid == 0 {
                    let CFunctionDef { name, linkage, ret, params, variadic, builtin, locals, blocks } =
                        f;
                    let nblocks = Self::add_instr_blocks(blocks, bid, ins);
                    Lst::Cons(
                        CFunctionDef {
                            name,
                            linkage,
                            ret,
                            params,
                            variadic,
                            builtin,
                            locals,
                            blocks: nblocks,
                        },
                        t,
                    )
                } else {
                    Lst::Cons(f, Box::new(Self::add_instr_in(*t, fid - 1, bid, ins)))
                }
            },
        }
    }

    fn add_instr_blocks(blocks: Lst<BlockDef>, bid: usize, ins: Instr) -> (r: Lst<BlockDef>)
        ensures
            r == (match blocks.spec_nth(bid as int) {
                Option::Some(b) => blocks.spec_update(
                    bid as int,
                    BlockDef { name: b.name, instrs: b.instrs.spec_snoc(ins), term: b.term },
                ),
                Option::None => blocks,
            }),
        decreases blocks,
    {
        match blocks {
            Lst::Nil => Lst::Nil,
            Lst::Cons(b, t) => {
                if bid == 0 {
                    let BlockDef { name, instrs, term } = b;
                    Lst::Cons(BlockDef { name, instrs: instrs.snoc(ins), term }, t)
                } else {
                    Lst::Cons(b, Box::new(Self::add_instr_blocks(*t, bid - 1, ins)))
                }
            },
        }
    }

    /// The terminator of block `bid` of function `fid`; last set wins.
    pub fn end_block(&mut self, fid: usize, bid: usize, t: Terminator)
        ensures
            *final(self) == old(self).spec_set_term(fid as int, bid as int, t),
    {
        let mut funcs: Lst<CFunctionDef> = Lst::Nil;
        core::mem::swap(&mut funcs, &mut self.funcs);
        self.funcs = Self::set_term_in(funcs, fid, bid, t);
    }

    fn set_term_in(funcs: Lst<CFunctionDef>, fid: usize, bid: usize, t: Terminator) -> (r: Lst<
        CFunctionDef,
    >)
        ensures
            r == (match funcs.spec_nth(fid as int) {
                Option::Some(f) => match f.blocks.spec_nth(bid as int) {
                    Option::Some(b) => funcs.spec_update(
                        fid as int,
                        CFunctionDef {
                            blocks: f.blocks.spec_update(
                                bid as int,
                                BlockDef { name: b.name, instrs: b.instrs, term: Option::Some(t) },
                            ),
                            ..f
                        },
                    ),
                    Option::None => funcs,
                },
                Option::None => funcs,
            }),
        decreases funcs,
    {
        match funcs {
            Lst::Nil => Lst::Nil,
            Lst::Cons(f, tl) => {
                if fid == 0 {
                    let CFunctionDef { name, linkage, ret, params, variadic, builtin, locals, blocks } =
                        f;
                    let nblocks = Self::set_term_blocks(blocks, bid, t);
                    Lst::Cons(
                        CFunctionDef {
                            name,
                            linkage,
                            ret,
                            params,
                            variadic,
                            builtin,
                            locals,
                            blocks: nblocks,
                        },
                        tl,
                    )
                } else {
                    Lst::Cons(f, Box::new(Self::set_term_in(*tl, fid - 1, bid, t)))
                }
            },
        }
    }

    fn set_term_blocks(blocks: Lst<BlockDef>, bid: usize, t: Terminator) -> (r: Lst<BlockDef>)
        ensures
            r == (match blocks.spec_nth(bid as int) {
                Option::Some(b) => blocks.spec_update(
                    bid as int,
                    BlockDef { name: b.name, instrs: b.instrs, term: Option::Some(t) },
                ),
                Option::None => blocks,
            }),
        decreases blocks,
    {
        match blocks {
            Lst::Nil => Lst::Nil,
            Lst::Cons(b, tl) => {
                if bid == 0 {
                    let BlockDef { name, instrs, term: _ } = b;
                    Lst::Cons(BlockDef { name, instrs, term: Option::Some(t) }, tl)
                } else {
                    Lst::Cons(b, Box::new(Self::set_term_blocks(*tl, bid - 1, t)))
                }
            },
        }
    }

    /// Append a fresh empty block named `name` to function `fid` and return
    /// its id; `None` when the handle is stale or the block count is at the
    /// machine limit.
    pub fn new_block(&mut self, fid: usize, name: BlockName) -> (r: Option<usize>)
        ensures
            match r {
                Option::Some(bid) => {
                    &&& old(self).spec_func(fid as int) is Some
                    &&& bid == old(self).spec_func(fid as int).unwrap().blocks.len()
                    &&& old(self).spec_func(fid as int).unwrap().blocks.len() < usize::MAX
                    &&& *final(self) == old(self).spec_new_block(fid as int, name)
                },
                Option::None => *final(self) == *old(self) && (old(self).spec_func(fid as int) is None
                    || old(self).spec_func(fid as int).unwrap().blocks.len() >= usize::MAX),
            },
    {
        let n = match self.funcs.nth(fid) {
            Option::Some(f) => f.blocks.length_capped(),
            Option::None => {
                return Option::None;
            },
        };
        if n == usize::MAX {
            return Option::None;
        }
        let mut funcs: Lst<CFunctionDef> = Lst::Nil;
        core::mem::swap(&mut funcs, &mut self.funcs);
        self.funcs = Self::new_block_in(funcs, fid, name);
        Option::Some(n)
    }

    fn new_block_in(funcs: Lst<CFunctionDef>, fid: usize, name: BlockName) -> (r: Lst<
        CFunctionDef,
    >)
        ensures
            r == (match funcs.spec_nth(fid as int) {
                Option::Some(f) => funcs.spec_update(
                    fid as int,
                    CFunctionDef {
                        blocks: f.blocks.spec_snoc(
                            BlockDef { name, instrs: Lst::Nil, term: Option::None },
                        ),
                        ..f
                    },
                ),
                Option::None => funcs,
            }),
        decreases funcs,
    {
        match funcs {
            Lst::Nil => Lst::Nil,
            Lst::Cons(f, tl) => {
                if fid == 0 {
                    let CFunctionDef { name: fname, linkage, ret, params, variadic, builtin, locals, blocks } =
                        f;
                    Lst::Cons(
                        CFunctionDef {
                            name: fname,
                            linkage,
                            ret,
                            params,
                            variadic,
                            builtin,
                            locals,
                            blocks: blocks.snoc(
                                BlockDef { name, instrs: Lst::Nil, term: Option::None },
                            ),
                        },
                        tl,
                    )
                } else {
                    Lst::Cons(f, Box::new(Self::new_block_in(*tl, fid - 1, name)))
                }
            },
        }
    }

    /// Append a fresh local slot to function `fid` and return its id; `None`
    /// when the handle is stale or the local count is at the machine limit.
    pub fn new_local(&mut self, fid: usize, name: LocalName, ty: CType) -> (r: Option<usize>)
        ensures
            match r {
                Option::Some(lid) => {
                    &&& old(self).spec_func(fid as int) is Some
                    &&& lid == old(self).spec_func(fid as int).unwrap().locals.len()
                    &&& old(self).spec_func(fid as int).unwrap().locals.len() < usize::MAX
                    &&& *final(self) == old(self).spec_new_local(fid as int, name, ty)
                },
                Option::None => *final(self) == *old(self) && (old(self).spec_func(fid as int) is None
                    || old(self).spec_func(fid as int).unwrap().locals.len() >= usize::MAX),
            },
    {
        let n = match self.funcs.nth(fid) {
            Option::Some(f) => f.locals.length_capped(),
            Option::None => {
                return Option::None;
            },
        };
        if n == usize::MAX {
            return Option::None;
        }
        let mut funcs: Lst<CFunctionDef> = Lst::Nil;
        core::mem::swap(&mut funcs, &mut self.funcs);
        self.funcs = Self::new_local_in(funcs, fid, name, ty);
        Option::Some(n)
    }

    fn new_local_in(funcs: Lst<CFunctionDef>, fid: usize, name: LocalName, ty: CType) -> (r: Lst<
        CFunctionDef,
    >)
        ensures
            r == (match funcs.spec_nth(fid as int) {
                Option::Some(f) => funcs.spec_update(
                    fid as int,
                    CFunctionDef { locals: f.locals.spec_snoc(LocalDef { name, ty }), ..f },
                ),
                Option::None => funcs,
            }),
        decreases funcs,
    {
        match funcs {
            Lst::Nil => Lst::Nil,
            Lst::Cons(f, tl) => {
                if fid == 0 {
                    let CFunctionDef { name: fname, linkage, ret, params, variadic, builtin, locals, blocks } =
                        f;
                    Lst::Cons(
                        CFunctionDef {
                            name: fname,
                            linkage,
                            ret,
                            params,
                            variadic,
                            builtin,
                            locals: locals.snoc(LocalDef { name, ty }),
                            blocks,
                        },
                        tl,
                    )
                } else {
                    Lst::Cons(f, Box::new(Self::new_local_in(*tl, fid - 1, name, ty)))
                }
            },
        }
    }

    /// The context after appending a function (spec).
    pub open spec fn spec_new_function(self, f: CFunctionDef) -> Ctx {
        Ctx { funcs: self.funcs.spec_snoc(f), ..self }
    }

    /// Append a function with the given signature and return its id; `None`
    /// when the function count is at the machine limit.
    pub fn new_function(
        &mut self,
        name: FuncName,
        linkage: FunctionType,
        ret: CType,
        params: Lst<(Name, CType)>,
        variadic: bool,
        builtin: bool,
    ) -> (r: Option<usize>)
        ensures
            match r {
                Option::Some(fid) => {
                    &&& fid == old(self).funcs.len()
                    &&& old(self).funcs.len() < usize::MAX
                    &&& *final(self) == old(self).spec_new_function(
                        CFunctionDef {
                            name,
                            linkage,
                            ret,
                            params,
                            variadic,
                            builtin,
                            locals: Lst::Nil,
                            blocks: Lst::Nil,
                        },
                    )
                },
                Option::None => *final(self) == *old(self) && old(self).funcs.len() >= usize::MAX,
            },
    {
        let n = self.funcs.length_capped();
        if n == usize::MAX {
            return Option::None;
        }
        let mut funcs: Lst<CFunctionDef> = Lst::Nil;
        core::mem::swap(&mut funcs, &mut self.funcs);
        self.funcs = funcs.snoc(
            CFunctionDef {
                name,
                linkage,
                ret,
                params,
                variadic,
                builtin,
                locals: Lst::Nil,
                blocks: Lst::Nil,
            },
        );
        Option::Some(n)
    }

    /// The context after appending a global (spec).
    pub open spec fn spec_new_global(self, g: GlobalDef) -> Ctx {
        Ctx { globals: self.globals.spec_snoc(g), ..self }
    }

    /// Append a global and return its id; `None` when the global count is at
    /// the machine limit.
    pub fn new_global(&mut self, kind: GlobalKind, ty: CType, name: GlobalName) -> (r: Option<
        usize,
    >)
        ensures
            match r {
                Option::Some(gid) => {
                    &&& gid == old(self).globals.len()
                    &&& old(self).globals.len() < usize::MAX
                    &&& *final(self) == old(self).spec_new_global(GlobalDef { kind, ty, name })
                },
                Option::None => *final(self) == *old(self) && old(self).globals.len() >= usize::MAX,
            },
    {
        let n = self.globals.length_capped();
        if n == usize::MAX {
            return Option::None;
        }
        let mut globals: Lst<GlobalDef> = Lst::Nil;
        core::mem::swap(&mut globals, &mut self.globals);
        self.globals = globals.snoc(GlobalDef { kind, ty, name });
        Option::Some(n)
    }

    /// The context after registering an empty struct definition (spec).
    pub open spec fn spec_begin_struct(self, name: Name, union: bool) -> Ctx {
        Ctx {
            structs: self.structs.spec_snoc(StructDef { name, union, fields: Lst::Nil }),
            ..self
        }
    }

    /// Register a struct or union definition, fields to be filled in later,
    /// and return its id; `None` when the struct count is at the machine
    /// limit.  Registering before lowering the fields is what lets a struct
    /// refer to itself through a pointer.
    pub fn begin_struct(&mut self, name: Name, union: bool) -> (r: Option<usize>)
        ensures
            match r {
                Option::Some(sid) => {
                    &&& sid == old(self).structs.len()
                    &&& old(self).structs.len() < usize::MAX
                    &&& *final(self) == old(self).spec_begin_struct(name, union)
                },
                Option::None => *final(self) == *old(self) && old(self).structs.len() >= usize::MAX,
            },
    {
        let n = self.structs.length_capped();
        if n == usize::MAX {
            return Option::None;
        }
        let mut structs: Lst<StructDef> = Lst::Nil;
        core::mem::swap(&mut structs, &mut self.structs);
        self.structs = structs.snoc(StructDef { name, union, fields: Lst::Nil });
        Option::Some(n)
    }

    /// The context after setting the fields of struct `sid` (spec).
    pub open spec fn spec_set_struct_fields(self, sid: int, fields: Lst<(Name, CType)>) -> Ctx {
        match self.structs.spec_nth(sid) {
            Option::Some(sd) => Ctx {
                structs: self.structs.spec_update(
                    sid,
                    StructDef { name: sd.name, union: sd.union, fields },
                ),
                ..self
            },
            Option::None => self,
        }
    }

    /// Fill in the fields of a registered struct.
    pub fn set_struct_fields(&mut self, sid: usize, fields: Lst<(Name, CType)>)
        ensures
            *final(self) == old(self).spec_set_struct_fields(sid as int, fields),
    {
        let mut structs: Lst<StructDef> = Lst::Nil;
        core::mem::swap(&mut structs, &mut self.structs);
        self.structs = Self::set_fields_in(structs, sid, fields);
    }

    fn set_fields_in(structs: Lst<StructDef>, sid: usize, fields: Lst<(Name, CType)>) -> (r: Lst<
        StructDef,
    >)
        ensures
            r == (match structs.spec_nth(sid as int) {
                Option::Some(sd) => structs.spec_update(
                    sid as int,
                    StructDef { name: sd.name, union: sd.union, fields },
                ),
                Option::None => structs,
            }),
        decreases structs,
    {
        match structs {
            Lst::Nil => Lst::Nil,
            Lst::Cons(sd, tl) => {
                if sid == 0 {
                    let StructDef { name, union, fields: _ } = sd;
                    Lst::Cons(StructDef { name, union, fields }, tl)
                } else {
                    Lst::Cons(sd, Box::new(Self::set_fields_in(*tl, sid - 1, fields)))
                }
            },
        }
    }

    /// The context after recording a driver option (spec).
    pub open spec fn spec_add_driver_option(self, opt: DriverOpt) -> Ctx {
        Ctx { driver_options: self.driver_options.spec_snoc(opt), ..self }
    }

    /// Record a linker or driver option.
    pub fn add_driver_option(&mut self, opt: DriverOpt)
        ensures
            *final(self) == old(self).spec_add_driver_option(opt),
    {
        let mut opts: Lst<DriverOpt> = Lst::Nil;
        core::mem::swap(&mut opts, &mut self.driver_options);
        self.driver_options = opts.snoc(opt);
    }

    /// Record a verbatim command-line option for the back end.
    pub fn add_command_line_option(&mut self, opt: String)
        ensures
            *final(self) == (Ctx {
                command_line_options: old(self).command_line_options.spec_snoc(opt),
                ..*old(self)
            }),
    {
        let mut opts: Lst<String> = Lst::Nil;
        core::mem::swap(&mut opts, &mut self.command_line_options);
        self.command_line_options = opts.snoc(opt);
    }

    /// Set the optimization level.
    pub fn set_opt_level(&mut self, level: u8)
        ensures
            *final(self) == (Ctx { opt_level: level, ..*old(self) }),
    {
        self.opt_level = level;
    }

    /// Switch dumping of generated code on or off.
    pub fn set_dump_code(&mut self, dump: bool)
        ensures
            *final(self) == (Ctx { dump_code: dump, ..*old(self) }),
    {
        self.dump_code = dump;
    }

    /// The element type reached by indexing a value of type `t` (spec).
    pub open spec fn spec_elem_type(t: CType) -> CType {
        match t {
            CType::Ptr(s) => *s,
            CType::Array(s, _) => *s,
            CType::Vector(s, _) => *s,
            _ => CType::Void,
        }
    }

    /// The type a value of type `t` points to (spec).
    pub open spec fn spec_pointee_type(t: CType) -> CType {
        match t {
            CType::Ptr(s) => *s,
            _ => CType::Void,
        }
    }

    /// The declared type of field `fld` (spec); `Void` for stale handles.
    pub open spec fn spec_field_type(&self, fld: Field) -> CType {
        match self.spec_struct(fld.owner as int) {
            Option::Some(sd) => match sd.fields.spec_nth(fld.index as int) {
                Option::Some(p) => p.1,
                Option::None => CType::Void,
            },
            Option::None => CType::Void,
        }
    }

    /// The IR type of an rvalue (spec).  Stale handles type as `Void`.
    pub open spec fn spec_rvalue_type(&self, rv: &RValue) -> CType
        decreases rv,
    {
        match rv {
            RValue::IntConst(t, _) => *t,
            RValue::DoubleConst(t, _) => *t,
            RValue::StrLit(_) => CType::Ptr(Box::new(CType::Char)),
            RValue::NullPtr(t) => *t,
            RValue::Cast(t, _) => *t,
            RValue::Binary(_, t, _, _) => *t,
            RValue::Unary(_, t, _) => *t,
            RValue::Comparison(_, _, _) => CType::Bool,
            RValue::Call(f, _) => match self.spec_func(*f as int) {
                Option::Some(fd) => fd.ret,
                Option::None => CType::Void,
            },
            RValue::CallPtr(f, _) => match self.spec_rvalue_type(f) {
                CType::FnPtr(sig) => *sig.ret,
                _ => CType::Void,
            },
            RValue::Read(lv) => self.spec_lvalue_type(lv),
            RValue::AddressOf(lv) => CType::Ptr(Box::new(self.spec_lvalue_type(lv))),
            RValue::FuncAddr(f) => match self.spec_func(*f as int) {
                Option::Some(fd) => CType::FnPtr(
                    FnSig {
                        ret: Box::new(fd.ret),
                        params: Box::new(Self::spec_param_types(fd.params)),
                        variadic: fd.variadic,
                    },
                ),
                Option::None => CType::Void,
            },
            RValue::Param(f, i) => match self.spec_func(*f as int) {
                Option::Some(fd) => match fd.params.spec_nth(*i as int) {
                    Option::Some(p) => p.1,
                    Option::None => CType::Void,
                },
                Option::None => CType::Void,
            },
        }
    }

    /// The IR type of an lvalue (spec).  Stale handles type as `Void`.
    pub open spec fn spec_lvalue_type(&self, lv: &LValue) -> CType
        decreases lv,
    {
        match lv {
            LValue::Local(f, l) => match self.spec_func(*f as int) {
                Option::Some(fd) => match fd.locals.spec_nth(*l as int) {
                    Option::Some(ld) => ld.ty,
                    Option::None => CType::Void,
                },
                Option::None => CType::Void,
            },
            LValue::Global(g) => match self.spec_global(*g as int) {
                Option::Some(gd) => gd.ty,
                Option::None => CType::Void,
            },
            LValue::ArrayAccess(a, _) => Self::spec_elem_type(self.spec_rvalue_type(a)),
            LValue::Deref(v) => Self::spec_pointee_type(self.spec_rvalue_type(v)),
            LValue::DerefField(_, fld) => self.spec_field_type(*fld),
            LValue::AccessField(_, fld) => self.spec_field_type(*fld),
        }
    }

    /// The type list of a parameter list (spec).
    pub open spec fn spec_param_types(params: Lst<(Name, CType)>) -> Lst<CType>
        decreases params,
    {
        match params {
            Lst::Nil => Lst::Nil,
            Lst::Cons(p, t) => Lst::Cons(p.1, Box::new(Self::spec_param_types(*t))),
        }
    }

    /// The IR type of an rvalue, as a native back end would report it.
    pub fn rvalue_type(&self, rv: &RValue) -> (r: CType)
        ensures
            r == self.spec_rvalue_type(rv),
        decreases rv,
    {
        match rv {
            RValue::IntConst(t, _) => t.clone_ctype(),
            RValue::DoubleConst(t, _) => t.clone_ctype(),
            RValue::StrLit(_) => CType::Ptr(Box::new(CType::Char)),
            RValue::NullPtr(t) => t.clone_ctype(),
            RValue::Cast(t, _) => t.clone_ctype(),
            RValue::Binary(_, t, _, _) => t.clone_ctype(),
            RValue::Unary(_, t, _) => t.clone_ctype(),
            RValue::Comparison(_, _, _) => CType::Bool,
            RValue::Call(f, _) => match self.funcs.nth(*f) {
                Option::Some(fd) => fd.ret.clone_ctype(),
                Option::None => CType::Void,
            },
            RValue::CallPtr(f, _) => match self.rvalue_type(f) {
                CType::FnPtr(sig) => *sig.ret,
                _ => CType::Void,
            },
            RValue::Read(lv) => self.lvalue_type(lv),
            RValue::AddressOf(lv) => CType::Ptr(Box::new(self.lvalue_type(lv))),
            RValue::FuncAddr(f) => match self.funcs.nth(*f) {
                Option::Some(fd) => CType::FnPtr(
                    FnSig {
                        ret: Box::new(fd.ret.clone_ctype()),
                        params: Box::new(Self::param_types(&fd.params)),
                        variadic: fd.variadic,
                    },
                ),
                Option::None => CType::Void,
            },
            RValue::Param(f, i) => match self.funcs.nth(*f) {
                Option::Some(fd) => match fd.params.nth(*i) {
                    Option::Some(p) => p.1.clone_ctype(),
                    Option::None => CType::Void,
                },
                Option::None => CType::Void,
            },
        }
    }

    /// The IR type of an lvalue, as a native back end would report it.
    pub fn lvalue_type(&self, lv: &LValue) -> (r: CType)
        ensures
            r == self.spec_lvalue_type(lv),
        decreases lv,
    {
        match lv {
            LValue::Local(f, l) => match self.funcs.nth(*f) {
                Option::Some(fd) => match fd.locals.nth(*l) {
                    Option::Some(ld) => ld.ty.clone_ctype(),
                    Option::None => CType::Void,
                },
                Option::None => CType::Void,
            },
            LValue::Global(g) => match self.globals.nth(*g) {
                Option::Some(gd) => gd.ty.clone_ctype(),
                Option::None => CType::Void,
            },
            LValue::ArrayAccess(a, _) => match self.rvalue_type(a) {
                CType::Ptr(s) => *s,
                CType::Array(s, _) => *s,
                CType::Vector(s, _) => *s,
                _ => CType::Void,
            },
            LValue::Deref(v) => match self.rvalue_type(v) {
                CType::Ptr(s) => *s,
                _ => CType::Void,
            },
            LValue::DerefField(_, fld) => self.field_type(*fld),
            LValue::AccessField(_, fld) => self.field_type(*fld),
        }
    }

    /// The declared type of a field handle.
    pub fn field_type(&self, fld: Field) -> (r: CType)
        ensures
            r == self.spec_field_type(fld),
    {
        match self.structs.nth(fld.owner) {
            Option::Some(sd) => match sd.fields.nth(fld.index) {
                Option::Some(p) => p.1.clone_ctype(),
                Option::None => CType::Void,
            },
            Option::None => CType::Void,
        }
    }

    fn param_types(params: &Lst<(Name, CType)>) -> (r: Lst<CType>)
        ensures
            r == Self::spec_param_types(*params),
        decreases params,
    {
        match params {
            Lst::Nil => Lst::Nil,
            Lst::Cons(p, t) => Lst::Cons(p.1.clone_ctype(), Box::new(Self::param_types(t))),
        }
    }
}

} // verus!
