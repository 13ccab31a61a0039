//! The code generator: lowers the typed AST into the IR of [`crate::ir`].
//!
//! Every pass is mirrored by a pure specification function of the whole
//! generator state, so each public operation's contract pins its result
//! exactly; determinism of the translation is a consequence.

use vstd::prelude::*;

use crate::ast::{
    BinOp, Elem, Expr, ExprKind, FloatSuffix, Function, Global, IntBase, IntSuffix, Name, Path,
    Position, Stmt, StmtKind, Struct, StructArg, StructField, Type, UnOp, spec_is_any_float,
    spec_is_any_int, spec_ty_eq, spec_ty_list_eq, ty_eq, ty_is_any_float, ty_is_any_int,
    ty_list_eq, NAME_BOOL, NAME_CHAR, NAME_F32, NAME_F64, NAME_I16, NAME_I32, NAME_I64, NAME_I8,
    NAME_MAIN, NAME_U16, NAME_U32, NAME_U64, NAME_U8, NAME_USIZE,
};
use crate::ir::{
    BinaryOp, BlockName, CFunctionDef, CType, ComparisonOp, Ctx, DriverOpt, Field, FnSig,
    FuncName, FunctionType, GlobalDef, GlobalKind, Instr, LValue, LocalName, Mangle, OutputKind,
    RValue, StructDef, Terminator, UnaryOp, GlobalName, LocalDef, BlockDef,
};
use crate::list::{DeepClone, Lst, SymTable};
use crate::Context;
use crate::NodeId;

verus! {

/// A reason code generation stops.  Each of these is fatal to a
/// compilation; the semantic checker is expected to rule them out.
#[derive(PartialEq, Eq, Debug)]
pub enum CgError {
    /// A basic type name that is neither a primitive, a registered struct,
    /// nor an alias — or an alias/struct chain too deep to resolve.
    UnknownType(Name),
    /// A called or addressed function name with no definition.
    UnknownFunction(Name),
    /// A field name missing from the struct it is used on.
    UnknownField(Name),
    /// A type that should name a struct but does not.
    StructNotFound(Name),
    /// No candidate in the overload set matched the call's argument types.
    FunctionNotFound(Name, Lst<Type>),
    /// No constant-function candidate matched the call's argument types.
    ConstFunctionNotFound(Name, Lst<Type>),
    /// The semantic checker left no type for this node id.
    MissingNodeType(NodeId),
    /// `break` or `continue` outside any loop.
    EmptyLoopStack,
    /// An expression that denotes no storage was used where a cell is needed.
    LvalueExpected(NodeId),
    /// An expression kind the code generator does not lower.
    UnsupportedExpr(NodeId),
    /// A vector type over a subtype that is not an enumerated primitive.
    BadVectorType,
    /// A computed byte size does not fit the machine word.
    SizeOverflow,
    /// A handle counter reached the machine limit.
    TooManyItems,
    /// A chain of named constants or types too deep to resolve.
    RecursionLimit,
    /// A function selected for body emission has no body.
    MissingBody(Name),
    /// A statement was lowered with no block under construction.
    NoCurrentBlock,
    /// A statement was lowered with no function under construction.
    NoCurrentFunction,
}

/// A function's AST paired with its IR function and receiver information.
#[derive(PartialEq, Eq, Debug)]
pub struct FunctionUnit {
    /// The AST function.
    pub f: Function,
    /// The IR function id.
    pub c: usize,
    /// The receiver's AST type, for methods.
    pub this_ast: Option<Type>,
    /// The receiver's IR type, for methods.
    pub this_ir: Option<CType>,
    /// The IR-level (mangled) name.
    pub irname: FuncName,
}

/// A variable's storage, AST type and IR type.
#[derive(PartialEq, Eq, Debug)]
pub struct VarInfo {
    pub lval: LValue,
    pub ty: Type,
    pub cty: CType,
}

/// Registry entry of an interned struct: its IR type, the handle of each
/// field by name, and the field types in declaration order.
#[derive(PartialEq, Eq, Debug)]
pub struct GccStruct {
    pub ty: CType,
    pub fields: SymTable<Field>,
    pub types: Lst<Type>,
}

impl DeepClone for Field {
    fn deep_clone(&self) -> (r: Field)
        ensures
            r == *self,
    {
        *self
    }
}

impl DeepClone for GccStruct {
    fn deep_clone(&self) -> (r: GccStruct)
        ensures
            r == *self,
    {
        GccStruct {
            ty: self.ty.clone_ctype(),
            fields: self.fields.deep_clone(),
            types: self.types.deep_clone(),
        }
    }
}

impl DeepClone for VarInfo {
    fn deep_clone(&self) -> (r: VarInfo)
        ensures
            r == *self,
    {
        VarInfo {
            lval: self.lval.clone_lvalue(),
            ty: self.ty.clone_ty(),
            cty: self.cty.clone_ctype(),
        }
    }
}

impl Mangle {
    /// Value-preserving recursive clone.
    pub fn clone_mangle(&self) -> (r: Mangle)
        ensures
            r == *self,
        decreases self,
    {
        match self {
            Mangle::Sym(n) => Mangle::Sym(*n),
            Mangle::Ptr(m) => Mangle::Ptr(Box::new((**m).clone_mangle())),
            Mangle::Vect(m, n) => Mangle::Vect(Box::new((**m).clone_mangle()), *n),
            Mangle::VoidTag => Mangle::VoidTag,
            Mangle::Func(r0, args) => Mangle::Func(
                Box::new((**r0).clone_mangle()),
                Box::new(Self::clone_mangle_list(args)),
            ),
        }
    }

    /// Value-preserving clone of a mangle list.
    pub fn clone_mangle_list(l: &Lst<Mangle>) -> (r: Lst<Mangle>)
        ensures
            r == *l,
        decreases l,
    {
        match l {
            Lst::Nil => Lst::Nil,
            Lst::Cons(h, t) => Lst::Cons(h.clone_mangle(), Box::new(Self::clone_mangle_list(t))),
        }
    }
}

impl DeepClone for Mangle {
    fn deep_clone(&self) -> (r: Mangle)
        ensures
            r == *self,
    {
        self.clone_mangle()
    }
}

impl DeepClone for FuncName {
    fn deep_clone(&self) -> (r: FuncName)
        ensures
            r == *self,
    {
        match self {
            FuncName::Main => FuncName::Main,
            FuncName::Plain(n) => FuncName::Plain(*n),
            FuncName::Mangled(n, this, params) => FuncName::Mangled(
                *n,
                match this {
                    Option::Some(m) => Option::Some(m.clone_mangle()),
                    Option::None => Option::None,
                },
                Mangle::clone_mangle_list(params),
            ),
        }
    }
}

impl DeepClone for FunctionUnit {
    fn deep_clone(&self) -> (r: FunctionUnit)
        ensures
            r == *self,
    {
        FunctionUnit {
            f: self.f.deep_clone(),
            c: self.c,
            this_ast: match &self.this_ast {
                Option::Some(t) => Option::Some(t.clone_ty()),
                Option::None => Option::None,
            },
            this_ir: match &self.this_ir {
                Option::Some(t) => Option::Some(t.clone_ctype()),
                Option::None => Option::None,
            },
            irname: self.irname.deep_clone(),
        }
    }
}

/// The code generator's whole state: the IR context under construction, the
/// compiler context, the symbol tables, the loop scaffolding stacks and the
/// fresh-name counters.
#[derive(PartialEq, Eq, Debug)]
pub struct Codegen {
    /// The IR module being built.
    pub ctx: Ctx,
    /// The compiler context: parsed file, node types, options.
    pub context: Context,
    /// Targets of `continue`, innermost last.
    pub continue_blocks: Lst<usize>,
    /// Targets of `break`, innermost last.
    pub break_blocks: Lst<usize>,
    /// The IR function bodies are being emitted into.
    pub cur_func: Option<usize>,
    /// The block instructions are being appended to.
    pub cur_block: Option<usize>,
    /// Locals of the function body being lowered.
    pub variables: SymTable<VarInfo>,
    /// Globals with their recorded initializers.
    pub globals: SymTable<(VarInfo, Option<Expr>)>,
    /// Ordinary overload sets by source name.
    pub functions: SymTable<Lst<FunctionUnit>>,
    /// External functions, unique per name.
    pub external_functions: SymTable<FunctionUnit>,
    /// Constant-evaluable functions, never lowered to IR.
    pub const_functions: SymTable<Lst<Function>>,
    /// The struct registry: one IR type per struct name.
    pub structures: SymTable<GccStruct>,
    /// Named compile-time constant expressions.
    pub constants: SymTable<Expr>,
    /// Fresh-block-name counter.
    pub block_id: usize,
    /// Monotonic id pairing AST functions with IR functions.
    pub fun_id: usize,
    /// Alias table; lookups recurse through it.
    pub aliases: SymTable<Type>,
    /// Fresh-temporary counter.
    pub tmp_id: usize,
    /// Termination stack: whether the current lexical branch already emitted
    /// a terminator.
    pub terminated: Lst<bool>,
    /// Return type of the function being lowered.
    pub cur_return: Option<Type>,
}

/// Fixed byte width of a primitive type name, if it is one.
pub open spec fn spec_prim_size(name: Name) -> Option<usize> {
    if name == NAME_U8 || name == NAME_I8 || name == NAME_CHAR || name == NAME_BOOL {
        Option::Some(1usize)
    } else if name == NAME_I16 || name == NAME_U16 {
        Option::Some(2usize)
    } else if name == NAME_I32 || name == NAME_U32 || name == NAME_F32 {
        Option::Some(4usize)
    } else if name == NAME_I64 || name == NAME_U64 || name == NAME_F64 || name == NAME_USIZE {
        Option::Some(8usize)
    } else {
        Option::None
    }
}

/// Fixed byte width of a primitive type name, if it is one.
pub fn prim_size(name: Name) -> (r: Option<usize>)
    ensures
        r == spec_prim_size(name),
{
    if name == NAME_U8 || name == NAME_I8 || name == NAME_CHAR || name == NAME_BOOL {
        Option::Some(1)
    } else if name == NAME_I16 || name == NAME_U16 {
        Option::Some(2)
    } else if name == NAME_I32 || name == NAME_U32 || name == NAME_F32 {
        Option::Some(4)
    } else if name == NAME_I64 || name == NAME_U64 || name == NAME_F64 || name == NAME_USIZE {
        Option::Some(8)
    } else {
        Option::None
    }
}

/// The IR type of a primitive type name, if it is one.
pub open spec fn spec_prim_ctype(name: Name) -> Option<CType> {
    if name == NAME_U8 {
        Option::Some(CType::U8)
    } else if name == NAME_I8 {
        Option::Some(CType::I8)
    } else if name == NAME_CHAR {
        Option::Some(CType::Char)
    } else if name == NAME_I16 {
        Option::Some(CType::I16)
    } else if name == NAME_U16 {
        Option::Some(CType::U16)
    } else if name == NAME_I32 {
        Option::Some(CType::I32)
    } else if name == NAME_U32 {
        Option::Some(CType::U32)
    } else if name == NAME_I64 {
        Option::Some(CType::I64)
    } else if name == NAME_U64 {
        Option::Some(CType::U64)
    } else if name == NAME_F32 {
        Option::Some(CType::F32)
    } else if name == NAME_F64 {
        Option::Some(CType::F64)
    } else if name == NAME_BOOL {
        Option::Some(CType::Bool)
    } else if name == NAME_USIZE {
        Option::Some(CType::USize)
    } else {
        Option::None
    }
}

/// The IR type of a primitive type name, if it is one.
pub fn prim_ctype(name: Name) -> (r: Option<CType>)
    ensures
        r == spec_prim_ctype(name),
{
    if name == NAME_U8 {
        Option::Some(CType::U8)
    } else if name == NAME_I8 {
        Option::Some(CType::I8)
    } else if name == NAME_CHAR {
        Option::Some(CType::Char)
    } else if name == NAME_I16 {
        Option::Some(CType::I16)
    } else if name == NAME_U16 {
        Option::Some(CType::U16)
    } else if name == NAME_I32 {
        Option::Some(CType::I32)
    } else if name == NAME_U32 {
        Option::Some(CType::U32)
    } else if name == NAME_I64 {
        Option::Some(CType::I64)
    } else if name == NAME_U64 {
        Option::Some(CType::U64)
    } else if name == NAME_F32 {
        Option::Some(CType::F32)
    } else if name == NAME_F64 {
        Option::Some(CType::F64)
    } else if name == NAME_BOOL {
        Option::Some(CType::Bool)
    } else if name == NAME_USIZE {
        Option::Some(CType::USize)
    } else {
        Option::None
    }
}

/// Byte size of a type, resolved against a struct registry and an alias
/// table (spec).  `fuel` bounds the registry and alias hops; the public
/// entry point supplies one hop per registered struct and alias, which
/// suffices for every program whose by-value type nesting is acyclic.
pub open spec fn spec_ty_size(
    structures: SymTable<GccStruct>,
    aliases: SymTable<Type>,
    ty: Type,
    fuel: nat,
) -> Result<usize, CgError>
    decreases fuel, ty,
{
    match ty {
        Type::Void(_) => Result::Ok(0usize),
        Type::Ptr(_) => Result::Ok(8usize),
        Type::Func(_) => Result::Ok(8usize),
        Type::Vector(v) => match spec_ty_size(structures, aliases, *v.subtype, fuel) {
            Result::Ok(s) => if s * v.size <= usize::MAX {
                Result::Ok((s * v.size) as usize)
            } else {
                Result::Err(CgError::SizeOverflow)
            },
            Result::Err(e) => Result::Err(e),
        },
        Type::Array(a) => match a.len {
            Option::Some(n) => match spec_ty_size(structures, aliases, *a.subtype, fuel) {
                Result::Ok(s) => if s * n <= usize::MAX {
                    Result::Ok((s * n) as usize)
                } else {
                    Result::Err(CgError::SizeOverflow)
                },
                Result::Err(e) => Result::Err(e),
            },
            Option::None => Result::Ok(8usize),
        },
        Type::Struct(st) => match structures.spec_get(st.name) {
            Option::Some(g) => if fuel == 0 {
                Result::Err(CgError::UnknownType(st.name))
            } else {
                spec_ty_size_sum(structures, aliases, g.types, (fuel - 1) as nat)
            },
            Option::None => Result::Err(CgError::StructNotFound(st.name)),
        },
        Type::Basic(b) => match spec_prim_size(b.name) {
            Option::Some(s) => Result::Ok(s),
            Option::None => if fuel == 0 {
                Result::Err(CgError::UnknownType(b.name))
            } else {
                match structures.spec_get(b.name) {
                    Option::Some(g) => spec_ty_size_sum(
                        structures,
                        aliases,
                        g.types,
                        (fuel - 1) as nat,
                    ),
                    Option::None => match aliases.spec_get(b.name) {
                        Option::Some(t) => spec_ty_size(structures, aliases, t, (fuel - 1) as nat),
                        Option::None => Result::Err(CgError::UnknownType(b.name)),
                    },
                }
            },
        },
    }
}

/// Sum of the byte sizes of a list of types (spec).
pub open spec fn spec_ty_size_sum(
    structures: SymTable<GccStruct>,
    aliases: SymTable<Type>,
    tys: Lst<Type>,
    fuel: nat,
) -> Result<usize, CgError>
    decreases fuel, tys,
{
    match tys {
        Lst::Nil => Result::Ok(0usize),
        Lst::Cons(h, t) => match spec_ty_size(structures, aliases, h, fuel) {
            Result::Ok(s) => match spec_ty_size_sum(structures, aliases, *t, fuel) {
                Result::Ok(rest) => if s + rest <= usize::MAX {
                    Result::Ok((s + rest) as usize)
                } else {
                    Result::Err(CgError::SizeOverflow)
                },
                Result::Err(e) => Result::Err(e),
            },
            Result::Err(e) => Result::Err(e),
        },
    }
}

impl Codegen {
    /// The hop budget the sizer and the type lowerer run with: one hop per
    /// registered struct and alias.
    pub open spec fn spec_ty_fuel(&self) -> nat {
        self.structures.len() + self.aliases.len() + 1
    }

    /// Whether the generator's tables are small enough for the hop budget to
    /// be a machine integer (always true of real states).
    pub open spec fn ty_fuel_fits(&self) -> bool {
        self.spec_ty_fuel() <= usize::MAX
    }

    /// The hop budget as a machine integer.
    pub(crate) fn ty_fuel(&self) -> (r: usize)
        requires
            self.ty_fuel_fits(),
        ensures
            r == self.spec_ty_fuel(),
    {
        let a = self.structures.items.length();
        let b = self.aliases.items.length();
        a + b + 1
    }

    /// A fresh code generator over `context`, building a module of the given
    /// name.  GIMPLE dumping follows the context's option; unreachable
    /// blocks are allowed, as the lowering of nested blocks needs.
    pub fn new(context: Context, name: &str) -> (r: Codegen)
        ensures
            r.ctx.name@ == name@,
            r.ctx.opt_level == 2,
            r.ctx.dump_gimple == context.gimple,
            !r.ctx.dump_code,
            r.ctx.allow_unreachable,
            r.ctx.command_line_options == Lst::<String>::Nil,
            r.ctx.driver_options == Lst::<DriverOpt>::Nil,
            r.ctx.structs == Lst::<StructDef>::Nil,
            r.ctx.funcs == Lst::<CFunctionDef>::Nil,
            r.ctx.globals == Lst::<GlobalDef>::Nil,
            r.context == context,
            r.continue_blocks == Lst::<usize>::Nil,
            r.break_blocks == Lst::<usize>::Nil,
            r.cur_func is None,
            r.cur_block is None,
            r.variables.items == Lst::<(u64, VarInfo)>::Nil,
            r.globals.items == Lst::<(u64, (VarInfo, Option<Expr>))>::Nil,
            r.functions.items == Lst::<(u64, Lst<FunctionUnit>)>::Nil,
            r.external_functions.items == Lst::<(u64, FunctionUnit)>::Nil,
            r.const_functions.items == Lst::<(u64, Lst<Function>)>::Nil,
            r.structures.items == Lst::<(u64, GccStruct)>::Nil,
            r.constants.items == Lst::<(u64, Expr)>::Nil,
            r.block_id == 0,
            r.fun_id == 0,
            r.aliases.items == Lst::<(u64, Type)>::Nil,
            r.tmp_id == 0,
            r.terminated == Lst::<bool>::Nil,
            r.cur_return is None,
    {
        let gimple = context.gimple;
        Codegen {
            ctx: Ctx::with_name(name.to_owned(), gimple),
            context,
            continue_blocks: Lst::Nil,
            break_blocks: Lst::Nil,
            cur_func: Option::None,
            cur_block: Option::None,
            variables: SymTable::new(),
            globals: SymTable::new(),
            functions: SymTable::new(),
            external_functions: SymTable::new(),
            const_functions: SymTable::new(),
            structures: SymTable::new(),
            constants: SymTable::new(),
            block_id: 0,
            fun_id: 0,
            aliases: SymTable::new(),
            tmp_id: 0,
            terminated: Lst::Nil,
            cur_return: Option::None,
        }
    }

    /// Byte size of a type, as `sizeof` reports it.
    ///
    /// Primitives have their fixed widths (`usize` and every pointer: 8);
    /// a struct or union is the sum of its field sizes; a sized array is
    /// element size times length and an unsized one decays to a pointer;
    /// a vector is element size times lanes.  Unknown names are an error.
    pub fn ty_size(&self, ty: &Type) -> (r: Result<usize, CgError>)
        requires
            self.ty_fuel_fits(),
        ensures
            r == spec_ty_size(self.structures, self.aliases, *ty, self.spec_ty_fuel()),
    {
        let fuel = self.ty_fuel();
        self.ty_size_fuel(ty, fuel)
    }

    pub(crate) fn ty_size_fuel(&self, ty: &Type, fuel: usize) -> (r: Result<usize, CgError>)
        ensures
            r == spec_ty_size(self.structures, self.aliases, *ty, fuel as nat),
        decreases fuel, ty,
    {
        match ty {
            Type::Void(_) => Result::Ok(0),
            Type::Ptr(_) => Result::Ok(8),
            Type::Func(_) => Result::Ok(8),
            Type::Vector(v) => match self.ty_size_fuel(&v.subtype, fuel) {
                Result::Ok(s) => match s.checked_mul(v.size) {
                    Option::Some(total) => Result::Ok(total),
                    Option::None => Result::Err(CgError::SizeOverflow),
                },
                Result::Err(e) => Result::Err(e),
            },
            Type::Array(a) => match &a.len {
                Option::Some(n) => match self.ty_size_fuel(&a.subtype, fuel) {
                    Result::Ok(s) => match s.checked_mul(*n) {
                        Option::Some(total) => Result::Ok(total),
                        Option::None => Result::Err(CgError::SizeOverflow),
                    },
                    Result::Err(e) => Result::Err(e),
                },
                Option::None => Result::Ok(8),
            },
            Type::Struct(st) => match self.structures.get(st.name) {
                Option::Some(g) => if fuel == 0 {
                    Result::Err(CgError::UnknownType(st.name))
                } else {
                    self.ty_size_sum(&g.types, fuel - 1)
                },
                Option::None => Result::Err(CgError::StructNotFound(st.name)),
            },
            Type::Basic(b) => match prim_size(b.name) {
                Option::Some(s) => Result::Ok(s),
                Option::None => if fuel == 0 {
                    Result::Err(CgError::UnknownType(b.name))
                } else {
                    match self.structures.get(b.name) {
                        Option::Some(g) => self.ty_size_sum(&g.types, fuel - 1),
                        Option::None => match self.aliases.get(b.name) {
                            Option::Some(t) => self.ty_size_fuel(t, fuel - 1),
                            Option::None => Result::Err(CgError::UnknownType(b.name)),
                        },
                    }
                },
            },
        }
    }

    fn ty_size_sum(&self, tys: &Lst<Type>, fuel: usize) -> (r: Result<usize, CgError>)
        ensures
            r == spec_ty_size_sum(self.structures, self.aliases, *tys, fuel as nat),
        decreases fuel, tys,
    {
        match tys {
            Lst::Nil => Result::Ok(0),
            Lst::Cons(h, t) => match self.ty_size_fuel(h, fuel) {
                Result::Ok(s) => match self.ty_size_sum(t, fuel) {
                    Result::Ok(rest) => match s.checked_add(rest) {
                        Option::Some(total) => Result::Ok(total),
                        Option::None => Result::Err(CgError::SizeOverflow),
                    },
                    Result::Err(e) => Result::Err(e),
                },
                Result::Err(e) => Result::Err(e),
            },
        }
    }

    /// The registry entry a type resolves to: a registered struct name, or
    /// an alias chain ending in one (spec).
    pub open spec fn spec_find_struct(
        structures: SymTable<GccStruct>,
        aliases: SymTable<Type>,
        ty: Type,
        fuel: nat,
    ) -> Option<GccStruct>
        decreases fuel,
    {
        let name = match ty {
            Type::Basic(b) => Option::Some(b.name),
            Type::Struct(st) => Option::Some(st.name),
            _ => Option::<Name>::None,
        };
        match name {
            Option::Some(n) => match structures.spec_get(n) {
                Option::Some(g) => Option::Some(g),
                Option::None => match aliases.spec_get(n) {
                    Option::Some(t) => if fuel == 0 {
                        Option::None
                    } else {
                        Self::spec_find_struct(structures, aliases, t, (fuel - 1) as nat)
                    },
                    Option::None => Option::None,
                },
            },
            Option::None => Option::None,
        }
    }

    /// Find the registry entry for a named struct, looking through aliases.
    pub fn find_struct(&self, ty: &Type) -> (r: Option<GccStruct>)
        requires
            self.ty_fuel_fits(),
        ensures
            r == Self::spec_find_struct(self.structures, self.aliases, *ty, self.spec_ty_fuel()),
    {
        let fuel = self.ty_fuel();
        self.find_struct_fuel(ty, fuel)
    }

    pub(crate) fn find_struct_fuel(&self, ty: &Type, fuel: usize) -> (r: Option<GccStruct>)
        ensures
            r == Self::spec_find_struct(self.structures, self.aliases, *ty, fuel as nat),
        decreases fuel,
    {
        let name = match ty {
            Type::Basic(b) => b.name,
            Type::Struct(st) => st.name,
            _ => {
                return Option::None;
            },
        };
        match self.structures.get(name) {
            Option::Some(g) => Option::Some(g.deep_clone()),
            Option::None => match self.aliases.get(name) {
                Option::Some(t) => if fuel == 0 {
                    Option::None
                } else {
                    let t2 = t.clone_ty();
                    self.find_struct_fuel(&t2, fuel - 1)
                },
                Option::None => Option::None,
            },
        }
    }

    /// Lowering of a type to its IR type (spec).  Returns the state after
    /// any struct registrations together with the result.
    pub open spec fn spec_ty_to_ctype(s: Codegen, ty: Type, fuel: nat) -> (Codegen, Result<
        CType,
        CgError,
    >)
        decreases fuel, ty,
    {
        match ty {
            Type::Void(_) => (s, Result::Ok(CType::Void)),
            Type::Vector(v) => match *v.subtype {
                Type::Basic(b) => match spec_prim_ctype(b.name) {
                    Option::Some(c) => if c == CType::F32 || c == CType::F64 || c == CType::Bool {
                        (s, Result::Err(CgError::BadVectorType))
                    } else {
                        (s, Result::Ok(CType::Vector(Box::new(c), v.size)))
                    },
                    Option::None => (s, Result::Err(CgError::BadVectorType)),
                },
                _ => (s, Result::Err(CgError::BadVectorType)),
            },
            Type::Ptr(p) => match Self::spec_ty_to_ctype(s, *p.subtype, fuel) {
                (s1, Result::Ok(c)) => (s1, Result::Ok(CType::Ptr(Box::new(c)))),
                (s1, Result::Err(e)) => (s1, Result::Err(e)),
            },
            Type::Array(a) => match a.len {
                Option::Some(n) => match Self::spec_ty_to_ctype(s, *a.subtype, fuel) {
                    (s1, Result::Ok(c)) => (s1, Result::Ok(CType::Array(Box::new(c), n))),
                    (s1, Result::Err(e)) => (s1, Result::Err(e)),
                },
                Option::None => match Self::spec_ty_to_ctype(s, *a.subtype, fuel) {
                    (s1, Result::Ok(c)) => (s1, Result::Ok(CType::Ptr(Box::new(c)))),
                    (s1, Result::Err(e)) => (s1, Result::Err(e)),
                },
            },
            Type::Func(f) => match Self::spec_lower_ty_list(s, *f.params, fuel) {
                (s1, Result::Ok(ps)) => match Self::spec_ty_to_ctype(s1, *f.ret, fuel) {
                    (s2, Result::Ok(rc)) => (
                        s2,
                        Result::Ok(
                            CType::FnPtr(
                                FnSig { ret: Box::new(rc), params: Box::new(ps), variadic: false },
                            ),
                        ),
                    ),
                    (s2, Result::Err(e)) => (s2, Result::Err(e)),
                },
                (s1, Result::Err(e)) => (s1, Result::Err(e)),
            },
            Type::Basic(b) => match spec_prim_ctype(b.name) {
                Option::Some(c) => (s, Result::Ok(c)),
                Option::None => if fuel == 0 {
                    (s, Result::Err(CgError::UnknownType(b.name)))
                } else {
                    match s.structures.spec_get(b.name) {
                        Option::Some(g) => (s, Result::Ok(g.ty)),
                        Option::None => match s.aliases.spec_get(b.name) {
                            Option::Some(t) => Self::spec_ty_to_ctype(s, t, (fuel - 1) as nat),
                            Option::None => (s, Result::Err(CgError::UnknownType(b.name))),
                        },
                    }
                },
            },
            Type::Struct(st) => match s.structures.spec_get(st.name) {
                Option::Some(g) => (s, Result::Ok(g.ty)),
                Option::None => {
                    if s.ctx.structs.len() >= usize::MAX {
                        (s, Result::Err(CgError::TooManyItems))
                    } else {
                        let sid = s.ctx.structs.len() as usize;
                        let s1 = Codegen {
                            ctx: s.ctx.spec_begin_struct(st.name, st.union),
                            structures: s.structures.spec_insert(
                                st.name,
                                GccStruct {
                                    ty: CType::Struct(sid),
                                    fields: SymTable { items: Lst::Nil },
                                    types: Lst::Nil,
                                },
                            ),
                            ..s
                        };
                        match Self::spec_lower_fields(s1, sid, st.fields, 0, fuel) {
                            (s2, Result::Ok((ftable, ftypes, irfields))) => {
                                let s3 = Codegen {
                                    ctx: s2.ctx.spec_set_struct_fields(sid as int, irfields),
                                    structures: s2.structures.spec_insert(
                                        st.name,
                                        GccStruct {
                                            ty: CType::Struct(sid),
                                            fields: SymTable { items: ftable },
                                            types: ftypes,
                                        },
                                    ),
                                    ..s2
                                };
                                (s3, Result::Ok(CType::Struct(sid)))
                            },
                            (s2, Result::Err(e)) => (s2, Result::Err(e)),
                        }
                    }
                },
            },
        }
    }

    /// Lowering of a list of types, left to right (spec).
    pub open spec fn spec_lower_ty_list(s: Codegen, tys: Lst<Type>, fuel: nat) -> (Codegen, Result<
        Lst<CType>,
        CgError,
    >)
        decreases fuel, tys,
    {
        match tys {
            Lst::Nil => (s, Result::Ok(Lst::Nil)),
            Lst::Cons(h, t) => match Self::spec_ty_to_ctype(s, h, fuel) {
                (s1, Result::Ok(c)) => match Self::spec_lower_ty_list(s1, *t, fuel) {
                    (s2, Result::Ok(cs)) => (s2, Result::Ok(Lst::Cons(c, Box::new(cs)))),
                    (s2, Result::Err(e)) => (s2, Result::Err(e)),
                },
                (s1, Result::Err(e)) => (s1, Result::Err(e)),
            },
        }
    }

    /// Lowering of a struct's field declarations (spec): yields the handle
    /// table, the field types in order, and the IR field list.
    pub open spec fn spec_lower_fields(
        s: Codegen,
        sid: usize,
        fields: Lst<StructField>,
        idx: usize,
        fuel: nat,
    ) -> (Codegen, Result<(Lst<(u64, Field)>, Lst<Type>, Lst<(Name, CType)>), CgError>)
        decreases fuel, fields,
    {
        match fields {
            Lst::Nil => (s, Result::Ok((Lst::Nil, Lst::Nil, Lst::Nil))),
            Lst::Cons(fld, rest) => match Self::spec_ty_to_ctype(s, *fld.data_type, fuel) {
                (s1, Result::Ok(c)) => {
                    if idx == usize::MAX {
                        (s1, Result::Err(CgError::TooManyItems))
                    } else {
                        match Self::spec_lower_fields(s1, sid, *rest, (idx + 1) as usize, fuel) {
                            (s2, Result::Ok((ftable, ftypes, irfields))) => (
                                s2,
                                Result::Ok(
                                    (
                                        Lst::Cons(
                                            (fld.name, Field { owner: sid, index: idx }),
                                            Box::new(ftable),
                                        ),
                                        Lst::Cons(*fld.data_type, Box::new(ftypes)),
                                        Lst::Cons((fld.name, c), Box::new(irfields)),
                                    ),
                                ),
                            ),
                            (s2, Result::Err(e)) => (s2, Result::Err(e)),
                        }
                    }
                },
                (s1, Result::Err(e)) => (s1, Result::Err(e)),
            },
        }
    }

    /// Lower an AST type to its IR type, registering struct names on first
    /// use.  Primitives map to the canonical IR primitive; `Ptr` applies a
    /// pointer; a sized array is a fixed IR array and an unsized one decays
    /// to a pointer; a function type becomes a function pointer; a struct is
    /// interned once and referenced by identity afterwards; a vector
    /// dispatches on its primitive subtype; an unresolved basic name
    /// consults the alias table, and an unknown name is an error.
    pub fn ty_to_ctype(&mut self, ty: &Type) -> (r: Result<CType, CgError>)
        requires
            old(self).ty_fuel_fits(),
        ensures
            (*final(self), r) == Self::spec_ty_to_ctype(
                *old(self),
                *ty,
                old(self).spec_ty_fuel(),
            ),
    {
        let fuel = self.ty_fuel();
        self.ty_to_ctype_fuel(ty, fuel)
    }

    pub(crate) fn ty_to_ctype_fuel(&mut self, ty: &Type, fuel: usize) -> (r: Result<CType, CgError>)
        ensures
            (*final(self), r) == Self::spec_ty_to_ctype(*old(self), *ty, fuel as nat),
        decreases fuel, ty,
    {
        match ty {
            Type::Void(_) => Result::Ok(CType::Void),
            Type::Vector(v) => match &*v.subtype {
                Type::Basic(b) => match prim_ctype(b.name) {
                    Option::Some(c) => if matches!(c, CType::F32) || matches!(c, CType::F64)
                        || matches!(c, CType::Bool) {
                        Result::Err(CgError::BadVectorType)
                    } else {
                        Result::Ok(CType::Vector(Box::new(c), v.size))
                    },
                    Option::None => Result::Err(CgError::BadVectorType),
                },
                _ => Result::Err(CgError::BadVectorType),
            },
            Type::Ptr(p) => match self.ty_to_ctype_fuel(&p.subtype, fuel) {
                Result::Ok(c) => Result::Ok(CType::Ptr(Box::new(c))),
                Result::Err(e) => Result::Err(e),
            },
            Type::Array(a) => match &a.len {
                Option::Some(n) => match self.ty_to_ctype_fuel(&a.subtype, fuel) {
                    Result::Ok(c) => Result::Ok(CType::Array(Box::new(c), *n)),
                    Result::Err(e) => Result::Err(e),
                },
                Option::None => match self.ty_to_ctype_fuel(&a.subtype, fuel) {
                    Result::Ok(c) => Result::Ok(CType::Ptr(Box::new(c))),
                    Result::Err(e) => Result::Err(e),
                },
            },
            Type::Func(f) => match self.lower_ty_list(&f.params, fuel) {
                Result::Ok(ps) => match self.ty_to_ctype_fuel(&f.ret, fuel) {
                    Result::Ok(rc) => Result::Ok(
                        CType::FnPtr(
                            FnSig { ret: Box::new(rc), params: Box::new(ps), variadic: false },
                        ),
                    ),
                    Result::Err(e) => Result::Err(e),
                },
                Result::Err(e) => Result::Err(e),
            },
            Type::Basic(b) => match prim_ctype(b.name) {
                Option::Some(c) => Result::Ok(c),
                Option::None => {
                    if fuel == 0 {
                        return Result::Err(CgError::UnknownType(b.name));
                    }
                    let cached = match self.structures.get(b.name) {
                        Option::Some(g) => Option::Some(g.ty.clone_ctype()),
                        Option::None => Option::None,
                    };
                    match cached {
                        Option::Some(c) => Result::Ok(c),
                        Option::None => {
                            let aliased = match self.aliases.get(b.name) {
                                Option::Some(t) => Option::Some(t.clone_ty()),
                                Option::None => Option::None,
                            };
                            match aliased {
                                Option::Some(t) => self.ty_to_ctype_fuel(&t, fuel - 1),
                                Option::None => Result::Err(CgError::UnknownType(b.name)),
                            }
                        },
                    }
                },
            },
            Type::Struct(st) => {
                let cached = match self.structures.get(st.name) {
                    Option::Some(g) => Option::Some(g.ty.clone_ctype()),
                    Option::None => Option::None,
                };
                match cached {
                    Option::Some(c) => Result::Ok(c),
                    Option::None => {
                        let sid = match self.ctx.begin_struct(st.name, st.union) {
                            Option::Some(sid) => sid,
                            Option::None => {
                                return Result::Err(CgError::TooManyItems);
                            },
                        };
                        self.structures.insert(
                            st.name,
                            GccStruct {
                                ty: CType::Struct(sid),
                                fields: SymTable::new(),
                                types: Lst::Nil,
                            },
                        );
                        match self.lower_fields(sid, &st.fields, 0, fuel) {
                            Result::Ok((ftable, ftypes, irfields)) => {
                                self.ctx.set_struct_fields(sid, irfields);
                                self.structures.insert(
                                    st.name,
                                    GccStruct {
                                        ty: CType::Struct(sid),
                                        fields: SymTable { items: ftable },
                                        types: ftypes,
                                    },
                                );
                                Result::Ok(CType::Struct(sid))
                            },
                            Result::Err(e) => Result::Err(e),
                        }
                    },
                }
            },
        }
    }

    fn lower_ty_list(&mut self, tys: &Lst<Type>, fuel: usize) -> (r: Result<Lst<CType>, CgError>)
        ensures
            (*final(self), r) == Self::spec_lower_ty_list(*old(self), *tys, fuel as nat),
        decreases fuel, tys,
    {
        match tys {
            Lst::Nil => Result::Ok(Lst::Nil),
            Lst::Cons(h, t) => match self.ty_to_ctype_fuel(h, fuel) {
                Result::Ok(c) => match self.lower_ty_list(t, fuel) {
                    Result::Ok(cs) => Result::Ok(Lst::Cons(c, Box::new(cs))),
                    Result::Err(e) => Result::Err(e),
                },
                Result::Err(e) => Result::Err(e),
            },
        }
    }

    fn lower_fields(&mut self, sid: usize, fields: &Lst<StructField>, idx: usize, fuel: usize) -> (r:
        Result<(Lst<(u64, Field)>, Lst<Type>, Lst<(Name, CType)>), CgError>)
        ensures
            (*final(self), r) == Self::spec_lower_fields(*old(self), sid, *fields, idx, fuel as nat),
        decreases fuel, fields,
    {
        match fields {
            Lst::Nil => Result::Ok((Lst::Nil, Lst::Nil, Lst::Nil)),
            Lst::Cons(fld, rest) => match self.ty_to_ctype_fuel(&fld.data_type, fuel) {
                Result::Ok(c) => {
                    if idx == usize::MAX {
                        return Result::Err(CgError::TooManyItems);
                    }
                    match self.lower_fields(sid, rest, idx + 1, fuel) {
                        Result::Ok((ftable, ftypes, irfields)) => Result::Ok(
                            (
                                Lst::Cons(
                                    (fld.name, Field { owner: sid, index: idx }),
                                    Box::new(ftable),
                                ),
                                Lst::Cons((*fld.data_type).clone_ty(), Box::new(ftypes)),
                                Lst::Cons((fld.name, c), Box::new(irfields)),
                            ),
                        ),
                        Result::Err(e) => Result::Err(e),
                    }
                },
                Result::Err(e) => Result::Err(e),
            },
        }
    }
}

} // verus!
