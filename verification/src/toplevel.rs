//! The top-level driver: declaration passes and body emission.
//!
//! Lowering a program makes four passes over the top-level elements:
//! register types, constants, aliases and link directives; declare every
//! function and install it into its overload set; materialize globals with
//! their recorded initializers; and emit each non-external function body,
//! seeding `main`'s entry block with the global initializers in declaration
//! order.

use vstd::prelude::*;

use crate::ast::{
    slsize, ty_eq, spec_ty_eq, Elem, Expr, Function, Global, Name, Stmt, StructType, Type,
    NAME_MAIN,
};
use crate::gccjit::{CgError, Codegen, FunctionUnit, VarInfo};
use crate::ir::{
    BlockName, CType, DriverOpt, FuncName, FunctionType, GlobalKind, GlobalName, Instr, LValue,
    LocalName, Mangle, OutputKind, RValue, Terminator,
};
use crate::list::{DeepClone, Lst, SymTable};

verus! {

/// What `compile` decides to produce: an in-memory module for a just-in-time
/// back end, or an artifact file of the given kind at the given path.
#[derive(PartialEq, Eq, Debug)]
pub struct CompileOutput {
    /// Hand the module to a just-in-time back end.
    pub jit: bool,
    /// Kind of artifact for ahead-of-time emission.
    pub kind: OutputKind,
    /// Output path; empty in the just-in-time case.
    pub path: String,
}

/// The structured mangling of a type (spec): a basic or struct name stands
/// for itself, pointers and arrays prefix `ptr`, vectors carry their lane
/// count, `void` shortens to `v`.
pub open spec fn spec_mangle_ty(ty: Type) -> Mangle
    decreases ty,
{
    match ty {
        Type::Vector(v) => Mangle::Vect(Box::new(spec_mangle_ty(*v.subtype)), v.size),
        Type::Basic(b) => Mangle::Sym(b.name),
        Type::Ptr(p) => Mangle::Ptr(Box::new(spec_mangle_ty(*p.subtype))),
        Type::Func(f) => Mangle::Func(
            Box::new(spec_mangle_ty(*f.ret)),
            Box::new(spec_mangle_ty_list(*f.params)),
        ),
        Type::Struct(st) => Mangle::Sym(st.name),
        Type::Void(_) => Mangle::VoidTag,
        Type::Array(a) => Mangle::Ptr(Box::new(spec_mangle_ty(*a.subtype))),
    }
}

/// Mangling of a type list (spec).
pub open spec fn spec_mangle_ty_list(tys: Lst<Type>) -> Lst<Mangle>
    decreases tys,
{
    match tys {
        Lst::Nil => Lst::Nil,
        Lst::Cons(h, t) => Lst::Cons(spec_mangle_ty(h), Box::new(spec_mangle_ty_list(*t))),
    }
}

/// Mangling of a parameter list (spec).
pub open spec fn spec_mangle_params(params: Lst<(Name, Type)>) -> Lst<Mangle>
    decreases params,
{
    match params {
        Lst::Nil => Lst::Nil,
        Lst::Cons(p, t) => Lst::Cons(spec_mangle_ty(p.1), Box::new(spec_mangle_params(*t))),
    }
}

/// The structured mangling of a type.
pub fn mangle_ty(ty: &Type) -> (r: Mangle)
    ensures
        r == spec_mangle_ty(*ty),
    decreases ty,
{
    match ty {
        Type::Vector(v) => Mangle::Vect(Box::new(mangle_ty(&v.subtype)), v.size),
        Type::Basic(b) => Mangle::Sym(b.name),
        Type::Ptr(p) => Mangle::Ptr(Box::new(mangle_ty(&p.subtype))),
        Type::Func(f) => Mangle::Func(
            Box::new(mangle_ty(&f.ret)),
            Box::new(mangle_ty_list(&f.params)),
        ),
        Type::Struct(st) => Mangle::Sym(st.name),
        Type::Void(_) => Mangle::VoidTag,
        Type::Array(a) => Mangle::Ptr(Box::new(mangle_ty(&a.subtype))),
    }
}

/// Mangling of a type list.
pub fn mangle_ty_list(tys: &Lst<Type>) -> (r: Lst<Mangle>)
    ensures
        r == spec_mangle_ty_list(*tys),
    decreases tys,
{
    match tys {
        Lst::Nil => Lst::Nil,
        Lst::Cons(h, t) => Lst::Cons(mangle_ty(h), Box::new(mangle_ty_list(t))),
    }
}

/// Mangling of a parameter list.
pub fn mangle_params(params: &Lst<(Name, Type)>) -> (r: Lst<Mangle>)
    ensures
        r == spec_mangle_params(*params),
    decreases params,
{
    match params {
        Lst::Nil => Lst::Nil,
        Lst::Cons(p, t) => Lst::Cons(mangle_ty(&p.1), Box::new(mangle_params(t))),
    }
}

/// Whether two declared parameter lists agree in names and types (spec).
pub open spec fn spec_params_eq(a: Lst<(Name, Type)>, b: Lst<(Name, Type)>) -> bool
    decreases a,
{
    match (a, b) {
        (Lst::Nil, Lst::Nil) => true,
        (Lst::Cons(x, xt), Lst::Cons(y, yt)) => x.0 == y.0 && spec_ty_eq(&x.1, &y.1)
            && spec_params_eq(*xt, *yt),
        _ => false,
    }
}

/// Whether two declared parameter lists agree in names and types.
pub fn params_eq(a: &Lst<(Name, Type)>, b: &Lst<(Name, Type)>) -> (r: bool)
    ensures
        r == spec_params_eq(*a, *b),
    decreases a,
{
    match (a, b) {
        (Lst::Nil, Lst::Nil) => true,
        (Lst::Cons(x, xt), Lst::Cons(y, yt)) => x.0 == y.0 && ty_eq(&x.1, &y.1) && params_eq(
            xt,
            yt,
        ),
        _ => false,
    }
}

/// Whether two function declarations carry the same signature: name,
/// parameters, return type, variadic flag and receiver (spec).
pub open spec fn spec_sig_eq(a: Function, b: Function) -> bool {
    a.name == b.name && spec_params_eq(a.params, b.params) && spec_ty_eq(&a.ret, &b.ret)
        && a.variadic == b.variadic && (match (a.this, b.this) {
        (Option::None, Option::None) => true,
        (Option::Some(x), Option::Some(y)) => x.0 == y.0 && spec_ty_eq(&x.1, &y.1),
        _ => false,
    })
}

/// Whether two function declarations carry the same signature.
pub fn sig_eq(a: &Function, b: &Function) -> (r: bool)
    ensures
        r == spec_sig_eq(*a, *b),
{
    a.name == b.name && params_eq(&a.params, &b.params) && ty_eq(&a.ret, &b.ret) && a.variadic
        == b.variadic && (match (&a.this, &b.this) {
        (Option::None, Option::None) => true,
        (Option::Some(x), Option::Some(y)) => x.0 == y.0 && ty_eq(&x.1, &y.1),
        _ => false,
    })
}

/// An overload list with a matching signature replaced by `unit`, or `unit`
/// appended at the back when none matches (spec).
pub open spec fn spec_install_unit(units: Lst<FunctionUnit>, unit: FunctionUnit) -> (
    Lst<FunctionUnit>,
    bool,
)
    decreases units,
{
    match units {
        Lst::Nil => (Lst::Cons(unit, Box::new(Lst::Nil)), false),
        Lst::Cons(u, t) => if spec_sig_eq(u.f, unit.f) {
            (Lst::Cons(unit, t), true)
        } else {
            let (rest, found) = spec_install_unit(*t, unit);
            (Lst::Cons(u, Box::new(rest)), found)
        },
    }
}

/// An overload list with a matching signature replaced by `unit`, or `unit`
/// appended at the back when none matches; the flag says which happened.
pub fn install_unit(units: Lst<FunctionUnit>, unit: FunctionUnit) -> (r: (Lst<FunctionUnit>, bool))
    ensures
        r == spec_install_unit(units, unit),
    decreases units,
{
    match units {
        Lst::Nil => (Lst::Cons(unit, Box::new(Lst::Nil)), false),
        Lst::Cons(u, t) => if sig_eq(&u.f, &unit.f) {
            (Lst::Cons(unit, t), true)
        } else {
            let (rest, found) = install_unit(*t, unit);
            (Lst::Cons(u, Box::new(rest)), found)
        },
    }
}

impl Codegen {
    /// Lowering of a declared parameter list to IR parameters (spec).
    pub open spec fn spec_lower_params(s: Codegen, params: Lst<(Name, Type)>, fuel: nat) -> (
        Codegen,
        Result<Lst<(Name, CType)>, CgError>,
    )
        decreases params,
    {
        match params {
            Lst::Nil => (s, Result::Ok(Lst::Nil)),
            Lst::Cons(p, t) => match Self::spec_ty_to_ctype(s, p.1, fuel) {
                (s1, Result::Err(er)) => (s1, Result::Err(er)),
                (s1, Result::Ok(c)) => match Self::spec_lower_params(s1, *t, fuel) {
                    (s2, Result::Ok(cs)) => (s2, Result::Ok(Lst::Cons((p.0, c), Box::new(cs)))),
                    (s2, Result::Err(er)) => (s2, Result::Err(er)),
                },
            },
        }
    }

    fn lower_params(&mut self, params: &Lst<(Name, Type)>, fuel: usize) -> (r: Result<
        Lst<(Name, CType)>,
        CgError,
    >)
        ensures
            (*final(self), r) == Self::spec_lower_params(*old(self), *params, fuel as nat),
        decreases params,
    {
        match params {
            Lst::Nil => Result::Ok(Lst::Nil),
            Lst::Cons(p, t) => {
                let c = match self.ty_to_ctype_fuel(&p.1, fuel) {
                    Result::Ok(c) => c,
                    Result::Err(er) => {
                        return Result::Err(er);
                    },
                };
                match self.lower_params(t, fuel) {
                    Result::Ok(cs) => Result::Ok(Lst::Cons((p.0, c), Box::new(cs))),
                    Result::Err(er) => Result::Err(er),
                }
            },
        }
    }

    /// The first declaration pass (spec): struct types are interned, link
    /// directives recorded, named constants and aliases registered.
    pub open spec fn spec_pass1(s: Codegen, elems: Lst<Elem>, fuel: nat) -> (Codegen, Result<
        (),
        CgError,
    >)
        decreases elems,
    {
        match elems {
            Lst::Nil => (s, Result::Ok(())),
            Lst::Cons(e, t) => {
                let stepped = match e {
                    Elem::Struct(sd) => {
                        if s.structures.spec_contains(sd.name) {
                            (s, Result::Ok(()))
                        } else {
                            let ty = Type::Struct(
                                StructType {
                                    pos: sd.pos,
                                    name: sd.name,
                                    fields: sd.fields,
                                    union: sd.union,
                                },
                            );
                            match Self::spec_ty_to_ctype(s, ty, fuel) {
                                (s1, Result::Ok(_)) => (s1, Result::Ok(())),
                                (s1, Result::Err(er)) => (s1, Result::Err(er)),
                            }
                        }
                    },
                    Elem::Link(name) => (
                        Codegen {
                            ctx: s.ctx.spec_add_driver_option(DriverOpt::LinkLib(name)),
                            ..s
                        },
                        Result::Ok(()),
                    ),
                    Elem::ConstExpr { name, expr, .. } => (
                        Codegen { constants: s.constants.spec_insert(name, *expr), ..s },
                        Result::Ok(()),
                    ),
                    Elem::Alias(name, ty) => (
                        Codegen { aliases: s.aliases.spec_insert(name, ty), ..s },
                        Result::Ok(()),
                    ),
                    _ => (s, Result::Ok(())),
                };
                match stepped {
                    (s1, Result::Err(er)) => (s1, Result::Err(er)),
                    (s1, Result::Ok(())) => Self::spec_pass1(s1, *t, fuel),
                }
            },
        }
    }

    fn pass1(&mut self, elems: &Lst<Elem>, fuel: usize) -> (r: Result<(), CgError>)
        ensures
            (*final(self), r) == Self::spec_pass1(*old(self), *elems, fuel as nat),
        decreases elems,
    {
        match elems {
            Lst::Nil => Result::Ok(()),
            Lst::Cons(e, t) => {
                match e {
                    Elem::Struct(sd) => {
                        if !self.structures.contains_key(sd.name) {
                            let ty = Type::Struct(
                                StructType {
                                    pos: sd.pos,
                                    name: sd.name,
                                    fields: sd.fields.deep_clone(),
                                    union: sd.union,
                                },
                            );
                            match self.ty_to_ctype_fuel(&ty, fuel) {
                                Result::Ok(_) => {},
                                Result::Err(er) => {
                                    return Result::Err(er);
                                },
                            };
                        }
                    },
                    Elem::Link(name) => {
                        self.ctx.add_driver_option(DriverOpt::LinkLib(*name));
                    },
                    Elem::ConstExpr { name, expr, .. } => {
                        self.constants.insert(*name, (**expr).clone_expr());
                    },
                    Elem::Alias(name, ty) => {
                        self.aliases.insert(*name, ty.clone_ty());
                    },
                    _ => {},
                };
                self.pass1(t, fuel)
            },
        }
    }

    /// The second declaration pass (spec): every function is declared in IR,
    /// its linkage chosen from its flags, its IR name mangled from its
    /// signature (`main` keeps its name, external and built-in functions
    /// keep their source name), and the unit installed into its overload
    /// set, overwriting an existing identical signature.  Yields the element
    /// list with each function's pairing id recorded.
    pub open spec fn spec_pass2(s: Codegen, elems: Lst<Elem>, fuel: nat) -> (Codegen, Result<
        Lst<Elem>,
        CgError,
    >)
        decreases elems,
    {
        match elems {
            Lst::Nil => (s, Result::Ok(Lst::Nil)),
            Lst::Cons(e, t) => {
                let stepped = match e {
                    Elem::Func(func) => Self::spec_declare_func(s, func, fuel),
                    other => (s, Result::Ok(other)),
                };
                match stepped {
                    (s1, Result::Err(er)) => (s1, Result::Err(er)),
                    (s1, Result::Ok(e2)) => match Self::spec_pass2(s1, *t, fuel) {
                        (s2, Result::Ok(t2)) => (s2, Result::Ok(Lst::Cons(e2, Box::new(t2)))),
                        (s2, Result::Err(er)) => (s2, Result::Err(er)),
                    },
                }
            },
        }
    }

    /// Declaration of one function (spec); yields the element to keep.
    pub open spec fn spec_declare_func(s: Codegen, func: Function, fuel: nat) -> (Codegen, Result<
        Elem,
        CgError,
    >) {
        let linkage = if func.external {
            FunctionType::Extern
        } else if func.static_ || !func.public {
            FunctionType::Internal
        } else if func.inline {
            FunctionType::AlwaysInline
        } else {
            FunctionType::Exported
        };
        if func.external || func.internal {
            match Self::spec_lower_params(s, func.params, fuel) {
                (s1, Result::Err(er)) => (s1, Result::Err(er)),
                (s1, Result::Ok(params)) => {
                    let declared = if func.internal {
                        if s1.ctx.funcs.len() >= usize::MAX {
                            (s1, Result::Err(CgError::TooManyItems))
                        } else {
                            let fid = s1.ctx.funcs.len() as usize;
                            (
                                Codegen {
                                    ctx: s1.ctx.spec_new_function(
                                        crate::ir::CFunctionDef {
                                            name: FuncName::Plain(func.name),
                                            linkage,
                                            ret: CType::Void,
                                            params,
                                            variadic: func.variadic,
                                            builtin: true,
                                            locals: Lst::Nil,
                                            blocks: Lst::Nil,
                                        },
                                    ),
                                    ..s1
                                },
                                Result::Ok(fid),
                            )
                        }
                    } else {
                        match Self::spec_ty_to_ctype(s1, *func.ret, fuel) {
                            (s2, Result::Err(er)) => (s2, Result::Err(er)),
                            (s2, Result::Ok(retc)) => if s2.ctx.funcs.len() >= usize::MAX {
                                (s2, Result::Err(CgError::TooManyItems))
                            } else {
                                let fid = s2.ctx.funcs.len() as usize;
                                (
                                    Codegen {
                                        ctx: s2.ctx.spec_new_function(
                                            crate::ir::CFunctionDef {
                                                name: FuncName::Plain(func.name),
                                                linkage,
                                                ret: retc,
                                                params,
                                                variadic: func.variadic,
                                                builtin: false,
                                                locals: Lst::Nil,
                                                blocks: Lst::Nil,
                                            },
                                        ),
                                        ..s2
                                    },
                                    Result::Ok(fid),
                                )
                            },
                        }
                    };
                    match declared {
                        (s3, Result::Err(er)) => (s3, Result::Err(er)),
                        (s3, Result::Ok(fid)) => {
                            let unit = FunctionUnit {
                                f: func,
                                c: fid,
                                this_ast: Option::None,
                                this_ir: Option::None,
                                irname: FuncName::Plain(func.name),
                            };
                            (
                                Codegen {
                                    external_functions: s3.external_functions.spec_insert(
                                        func.name,
                                        unit,
                                    ),
                                    ..s3
                                },
                                Result::Ok(Elem::Func(func)),
                            )
                        },
                    }
                },
            }
        } else {
            match Self::spec_lower_params(s, func.params, fuel) {
                (s1, Result::Err(er)) => (s1, Result::Err(er)),
                (s1, Result::Ok(params0)) => {
                    let withthis = match func.this {
                        Option::Some(th) => match Self::spec_ty_to_ctype(s1, th.1, fuel) {
                            (s2, Result::Err(er)) => (s2, Result::Err(er)),
                            (s2, Result::Ok(c)) => (s2, Result::Ok(params0.spec_snoc((th.0, c)))),
                        },
                        Option::None => (s1, Result::Ok(params0)),
                    };
                    match withthis {
                        (s2, Result::Err(er)) => (s2, Result::Err(er)),
                        (s2, Result::Ok(params)) => {
                            let func2 = Function { ir_temp_id: s2.fun_id, ..func };
                            let irname = if func.name == NAME_MAIN {
                                FuncName::Main
                            } else {
                                FuncName::Mangled(
                                    func.name,
                                    match func.this {
                                        Option::Some(th) => Option::Some(spec_mangle_ty(th.1)),
                                        Option::None => Option::None,
                                    },
                                    spec_mangle_params(func.params),
                                )
                            };
                            match Self::spec_ty_to_ctype(s2, *func.ret, fuel) {
                                (s3, Result::Err(er)) => (s3, Result::Err(er)),
                                (s3, Result::Ok(retc)) => if s3.ctx.funcs.len() >= usize::MAX {
                                    (s3, Result::Err(CgError::TooManyItems))
                                } else {
                                    let fid = s3.ctx.funcs.len() as usize;
                                    let s4 = Codegen {
                                        ctx: s3.ctx.spec_new_function(
                                            crate::ir::CFunctionDef {
                                                name: irname,
                                                linkage,
                                                ret: retc,
                                                params,
                                                variadic: func.variadic,
                                                builtin: false,
                                                locals: Lst::Nil,
                                                blocks: Lst::Nil,
                                            },
                                        ),
                                        ..s3
                                    };
                                    let thised = match func.this {
                                        Option::Some(th) => match Self::spec_ty_to_ctype(
                                            s4,
                                            th.1,
                                            fuel,
                                        ) {
                                            (s5, Result::Err(er)) => (s5, Result::Err(er)),
                                            (s5, Result::Ok(c2)) => (
                                                s5,
                                                Result::Ok(
                                                    (Option::Some(th.1), Option::Some(c2)),
                                                ),
                                            ),
                                        },
                                        Option::None => (
                                            s4,
                                            Result::Ok(
                                                (Option::<Type>::None, Option::<CType>::None),
                                            ),
                                        ),
                                    };
                                    match thised {
                                        (s5, Result::Err(er)) => (s5, Result::Err(er)),
                                        (s5, Result::Ok((this_ast, this_ir))) => {
                                            let unit = FunctionUnit {
                                                f: func2,
                                                c: fid,
                                                this_ast,
                                                this_ir,
                                                irname: if func.name == NAME_MAIN {
                                                    FuncName::Main
                                                } else {
                                                    FuncName::Mangled(
                                                        func.name,
                                                        match func.this {
                                                            Option::Some(th) => Option::Some(
                                                                spec_mangle_ty(th.1),
                                                            ),
                                                            Option::None => Option::None,
                                                        },
                                                        spec_mangle_params(func.params),
                                                    )
                                                },
                                            };
                                            let (installed, found) = match s5.functions.spec_get(
                                                func.name,
                                            ) {
                                                Option::Some(units) => spec_install_unit(
                                                    units,
                                                    unit,
                                                ),
                                                Option::None => (
                                                    Lst::Cons(unit, Box::new(Lst::Nil)),
                                                    false,
                                                ),
                                            };
                                            let s6 = Codegen {
                                                functions: s5.functions.spec_insert(
                                                    func.name,
                                                    installed,
                                                ),
                                                ..s5
                                            };
                                            let bumped = if found {
                                                if s6.fun_id == usize::MAX {
                                                    (s6, Result::Err(CgError::TooManyItems))
                                                } else {
                                                    (
                                                        Codegen {
                                                            fun_id: (s6.fun_id + 1) as usize,
                                                            ..s6
                                                        },
                                                        Result::Ok(()),
                                                    )
                                                }
                                            } else {
                                                (s6, Result::Ok(()))
                                            };
                                            match bumped {
                                                (s7, Result::Err(er)) => (s7, Result::Err(er)),
                                                (s7, Result::Ok(())) => if s7.fun_id
                                                    == usize::MAX {
                                                    (s7, Result::Err(CgError::TooManyItems))
                                                } else {
                                                    (
                                                        Codegen {
                                                            fun_id: (s7.fun_id + 1) as usize,
                                                            ..s7
                                                        },
                                                        Result::Ok(Elem::Func(func2)),
                                                    )
                                                },
                                            }
                                        },
                                    }
                                },
                            }
                        },
                    }
                },
            }
        }
    }

    fn pass2(&mut self, elems: Lst<Elem>, fuel: usize) -> (r: Result<Lst<Elem>, CgError>)
        ensures
            (*final(self), r) == Self::spec_pass2(*old(self), elems, fuel as nat),
        decreases elems,
    {
        match elems {
            Lst::Nil => Result::Ok(Lst::Nil),
            Lst::Cons(e, t) => {
                let e2 = match e {
                    Elem::Func(func) => match self.declare_func(func, fuel) {
                        Result::Ok(e2) => e2,
                        Result::Err(er) => {
                            return Result::Err(er);
                        },
                    },
                    other => other,
                };
                match self.pass2(*t, fuel) {
                    Result::Ok(t2) => Result::Ok(Lst::Cons(e2, Box::new(t2))),
                    Result::Err(er) => Result::Err(er),
                }
            },
        }
    }

    #[verifier::rlimit(100)]
    fn declare_func(&mut self, func: Function, fuel: usize) -> (r: Result<Elem, CgError>)
        ensures
            (*final(self), r) == Self::spec_declare_func(*old(self), func, fuel as nat),
    {
        let linkage = if func.external {
            FunctionType::Extern
        } else if func.static_ || !func.public {
            FunctionType::Internal
        } else if func.inline {
            FunctionType::AlwaysInline
        } else {
            FunctionType::Exported
        };
        if func.external || func.internal {
            let params = match self.lower_params(&func.params, fuel) {
                Result::Ok(p) => p,
                Result::Err(er) => {
                    return Result::Err(er);
                },
            };
            let fid = if func.internal {
                match self.ctx.new_function(
                    FuncName::Plain(func.name),
                    linkage,
                    CType::Void,
                    params,
                    func.variadic,
                    true,
                ) {
                    Option::Some(fid) => fid,
                    Option::None => {
                        return Result::Err(CgError::TooManyItems);
                    },
                }
            } else {
                let retc = match self.ty_to_ctype_fuel(&func.ret, fuel) {
                    Result::Ok(c) => c,
                    Result::Err(er) => {
                        return Result::Err(er);
                    },
                };
                match self.ctx.new_function(
                    FuncName::Plain(func.name),
                    linkage,
                    retc,
                    params,
                    func.variadic,
                    false,
                ) {
                    Option::Some(fid) => fid,
                    Option::None => {
                        return Result::Err(CgError::TooManyItems);
                    },
                }
            };
            let name = func.name;
            let unit = FunctionUnit {
                f: func.deep_clone(),
                c: fid,
                this_ast: Option::None,
                this_ir: Option::None,
                irname: FuncName::Plain(name),
            };
            self.external_functions.insert(name, unit);
            Result::Ok(Elem::Func(func))
        } else {
            let params0 = match self.lower_params(&func.params, fuel) {
                Result::Ok(p) => p,
                Result::Err(er) => {
                    return Result::Err(er);
                },
            };
            let params = match &func.this {
                Option::Some(th) => {
                    let c = match self.ty_to_ctype_fuel(&th.1, fuel) {
                        Result::Ok(c) => c,
                        Result::Err(er) => {
                            return Result::Err(er);
                        },
                    };
                    params0.snoc((th.0, c))
                },
                Option::None => params0,
            };
            let func2 = Function { ir_temp_id: self.fun_id, ..func };
            let irname = if func2.name == NAME_MAIN {
                FuncName::Main
            } else {
                FuncName::Mangled(
                    func2.name,
                    match &func2.this {
                        Option::Some(th) => Option::Some(mangle_ty(&th.1)),
                        Option::None => Option::None,
                    },
                    mangle_params(&func2.params),
                )
            };
            let retc = match self.ty_to_ctype_fuel(&func2.ret, fuel) {
                Result::Ok(c) => c,
                Result::Err(er) => {
                    return Result::Err(er);
                },
            };
            let fid = match self.ctx.new_function(
                irname,
                linkage,
                retc,
                params,
                func2.variadic,
                false,
            ) {
                Option::Some(fid) => fid,
                Option::None => {
                    return Result::Err(CgError::TooManyItems);
                },
            };
            let (this_ast, this_ir) = match &func2.this {
                Option::Some(th) => {
                    let c2 = match self.ty_to_ctype_fuel(&th.1, fuel) {
                        Result::Ok(c) => c,
                        Result::Err(er) => {
                            return Result::Err(er);
                        },
                    };
                    (Option::Some(th.1.clone_ty()), Option::Some(c2))
                },
                Option::None => (Option::None, Option::None),
            };
            let name = func2.name;
            let unit = FunctionUnit {
                f: func2.deep_clone(),
                c: fid,
                this_ast,
                this_ir,
                irname: if func2.name == NAME_MAIN {
                    FuncName::Main
                } else {
                    FuncName::Mangled(
                        func2.name,
                        match &func2.this {
                            Option::Some(th) => Option::Some(mangle_ty(&th.1)),
                            Option::None => Option::None,
                        },
                        mangle_params(&func2.params),
                    )
                },
            };
            let existing = match self.functions.get(name) {
                Option::Some(units) => Option::Some(units.deep_clone()),
                Option::None => Option::None,
            };
            let (installed, found) = match existing {
                Option::Some(units) => install_unit(units, unit),
                Option::None => (Lst::Cons(unit, Box::new(Lst::Nil)), false),
            };
            self.functions.insert(name, installed);
            if found {
                if self.fun_id == usize::MAX {
                    return Result::Err(CgError::TooManyItems);
                }
                self.fun_id = self.fun_id + 1;
            }
            if self.fun_id == usize::MAX {
                return Result::Err(CgError::TooManyItems);
            }
            self.fun_id = self.fun_id + 1;
            Result::Ok(Elem::Func(func2))
        }
    }

    /// The third pass (spec): globals are materialized with linkage per
    /// their flags and recorded beside their initializer expressions.
    pub open spec fn spec_pass3(s: Codegen, elems: Lst<Elem>, fuel: nat) -> (Codegen, Result<
        (),
        CgError,
    >)
        decreases elems,
    {
        match elems {
            Lst::Nil => (s, Result::Ok(())),
            Lst::Cons(e, t) => {
                let stepped = match e {
                    Elem::Global(gl) => match Self::spec_ty_to_ctype(s, *gl.typ, fuel) {
                        (s1, Result::Err(er)) => (s1, Result::Err(er)),
                        (s1, Result::Ok(cty)) => {
                            let kind = if gl.external {
                                GlobalKind::External
                            } else if gl.public {
                                GlobalKind::Exported
                            } else {
                                GlobalKind::Internal
                            };
                            if s1.ctx.globals.len() >= usize::MAX {
                                (s1, Result::Err(CgError::TooManyItems))
                            } else {
                                let gid = s1.ctx.globals.len() as usize;
                                let s2 = Codegen {
                                    ctx: s1.ctx.spec_new_global(
                                        crate::ir::GlobalDef {
                                            kind,
                                            ty: cty,
                                            name: GlobalName::Named(gl.name),
                                        },
                                    ),
                                    ..s1
                                };
                                let vi = VarInfo {
                                    lval: LValue::Global(gid),
                                    ty: *gl.typ,
                                    cty,
                                };
                                let init = match gl.expr {
                                    Option::Some(e2) => Option::Some(*e2),
                                    Option::None => Option::None,
                                };
                                (
                                    Codegen {
                                        globals: s2.globals.spec_insert(gl.name, (vi, init)),
                                        ..s2
                                    },
                                    Result::Ok(()),
                                )
                            }
                        },
                    },
                    _ => (s, Result::Ok(())),
                };
                match stepped {
                    (s1, Result::Err(er)) => (s1, Result::Err(er)),
                    (s1, Result::Ok(())) => Self::spec_pass3(s1, *t, fuel),
                }
            },
        }
    }

    fn pass3(&mut self, elems: &Lst<Elem>, fuel: usize) -> (r: Result<(), CgError>)
        ensures
            (*final(self), r) == Self::spec_pass3(*old(self), *elems, fuel as nat),
        decreases elems,
    {
        match elems {
            Lst::Nil => Result::Ok(()),
            Lst::Cons(e, t) => {
                match e {
                    Elem::Global(gl) => {
                        let cty = match self.ty_to_ctype_fuel(&gl.typ, fuel) {
                            Result::Ok(c) => c,
                            Result::Err(er) => {
                                return Result::Err(er);
                            },
                        };
                        let kind = if gl.external {
                            GlobalKind::External
                        } else if gl.public {
                            GlobalKind::Exported
                        } else {
                            GlobalKind::Internal
                        };
                        let gid = match self.ctx.new_global(
                            kind,
                            cty.clone_ctype(),
                            GlobalName::Named(gl.name),
                        ) {
                            Option::Some(g) => g,
                            Option::None => {
                                return Result::Err(CgError::TooManyItems);
                            },
                        };
                        let vi = VarInfo {
                            lval: LValue::Global(gid),
                            ty: (*gl.typ).clone_ty(),
                            cty,
                        };
                        let init = match &gl.expr {
                            Option::Some(e2) => Option::Some((**e2).clone_expr()),
                            Option::None => Option::None,
                        };
                        self.globals.insert(gl.name, (vi, init));
                    },
                    _ => {},
                };
                self.pass3(t, fuel)
            },
        }
    }

    /// Emission of the recorded global initializers into `main`'s entry
    /// block, in declaration order (spec).
    pub open spec fn spec_emit_global_inits(
        s: Codegen,
        items: Lst<(u64, (VarInfo, Option<Expr>))>,
        fid: usize,
        entry: usize,
        fuel: nat,
    ) -> (Codegen, Result<(), CgError>)
        decreases items,
    {
        match items {
            Lst::Nil => (s, Result::Ok(())),
            Lst::Cons(it, t) => {
                let stepped = match it.1.1 {
                    Option::Some(e) => match Self::spec_gen_expr(s, e, fuel) {
                        (s1, Result::Err(er)) => (s1, Result::Err(er)),
                        (s1, Result::Ok(rv)) => (
                            Codegen {
                                ctx: s1.ctx.spec_add_instr(
                                    fid as int,
                                    entry as int,
                                    Instr::Assign(it.1.0.lval, rv),
                                ),
                                ..s1
                            },
                            Result::Ok(()),
                        ),
                    },
                    Option::None => (s, Result::Ok(())),
                };
                match stepped {
                    (s1, Result::Err(er)) => (s1, Result::Err(er)),
                    (s1, Result::Ok(())) => Self::spec_emit_global_inits(s1, *t, fid, entry, fuel),
                }
            },
        }
    }

    fn emit_global_inits(
        &mut self,
        items: &Lst<(u64, (VarInfo, Option<Expr>))>,
        fid: usize,
        entry: usize,
        fuel: usize,
    ) -> (r: Result<(), CgError>)
        ensures
            (*final(self), r) == Self::spec_emit_global_inits(
                *old(self),
                *items,
                fid,
                entry,
                fuel as nat,
            ),
        decreases items,
    {
        match items {
            Lst::Nil => Result::Ok(()),
            Lst::Cons(it, t) => {
                match &it.1.1 {
                    Option::Some(e) => {
                        let rv = match self.gen_expr_f(e, fuel) {
                            Result::Ok(v) => v,
                            Result::Err(er) => {
                                return Result::Err(er);
                            },
                        };
                        self.ctx.add_instr(
                            fid,
                            entry,
                            Instr::Assign(it.1.0.lval.clone_lvalue(), rv),
                        );
                    },
                    Option::None => {},
                };
                self.emit_global_inits(t, fid, entry, fuel)
            },
        }
    }

    /// Emission of one local per parameter, copying the IR parameter into it
    /// so that the source can take a parameter's address (spec).  Yields the
    /// index after the last parameter.
    pub open spec fn spec_emit_params(
        s: Codegen,
        fid: usize,
        entry: usize,
        params: Lst<(Name, Type)>,
        idx: usize,
        fuel: nat,
    ) -> (Codegen, Result<usize, CgError>)
        decreases params,
    {
        match params {
            Lst::Nil => (s, Result::Ok(idx)),
            Lst::Cons(p, t) => match Self::spec_ty_to_ctype(s, p.1, fuel) {
                (s1, Result::Err(er)) => (s1, Result::Err(er)),
                (s1, Result::Ok(cty)) => match s1.ctx.spec_func(fid as int) {
                    Option::None => (s1, Result::Err(CgError::TooManyItems)),
                    Option::Some(fd) => if fd.locals.len() >= usize::MAX {
                        (s1, Result::Err(CgError::TooManyItems))
                    } else {
                        let lid = fd.locals.len() as usize;
                        let s2 = Codegen {
                            ctx: s1.ctx.spec_new_local(fid as int, LocalName::Named(p.0), cty),
                            ..s1
                        };
                        let s3 = Codegen {
                            ctx: s2.ctx.spec_add_instr(
                                fid as int,
                                entry as int,
                                Instr::Assign(LValue::Local(fid, lid), RValue::Param(fid, idx)),
                            ),
                            ..s2
                        };
                        let s4 = Codegen {
                            variables: s3.variables.spec_insert(
                                p.0,
                                VarInfo { lval: LValue::Local(fid, lid), ty: p.1, cty },
                            ),
                            ..s3
                        };
                        if idx == usize::MAX {
                            (s4, Result::Err(CgError::TooManyItems))
                        } else {
                            Self::spec_emit_params(s4, fid, entry, *t, (idx + 1) as usize, fuel)
                        }
                    },
                },
            },
        }
    }

    fn emit_params(
        &mut self,
        fid: usize,
        entry: usize,
        params: &Lst<(Name, Type)>,
        idx: usize,
        fuel: usize,
    ) -> (r: Result<usize, CgError>)
        ensures
            (*final(self), r) == Self::spec_emit_params(
                *old(self),
                fid,
                entry,
                *params,
                idx,
                fuel as nat,
            ),
        decreases params,
    {
        match params {
            Lst::Nil => Result::Ok(idx),
            Lst::Cons(p, t) => {
                let cty = match self.ty_to_ctype_fuel(&p.1, fuel) {
                    Result::Ok(c) => c,
                    Result::Err(er) => {
                        return Result::Err(er);
                    },
                };
                let lid = match self.ctx.new_local(
                    fid,
                    LocalName::Named(p.0),
                    cty.clone_ctype(),
                ) {
                    Option::Some(l) => l,
                    Option::None => {
                        return Result::Err(CgError::TooManyItems);
                    },
                };
                self.ctx.add_instr(
                    fid,
                    entry,
                    Instr::Assign(LValue::Local(fid, lid), RValue::Param(fid, idx)),
                );
                self.variables.insert(
                    p.0,
                    VarInfo { lval: LValue::Local(fid, lid), ty: p.1.clone_ty(), cty },
                );
                if idx == usize::MAX {
                    return Result::Err(CgError::TooManyItems);
                }
                self.emit_params(fid, entry, t, idx + 1, fuel)
            },
        }
    }

    /// Emission of one function body (spec): the unit's IR function becomes
    /// current, a fresh entry block is opened, `main` is seeded with the
    /// global initializers, parameters are copied into locals, the receiver
    /// is installed under its declared name, and the body is lowered.
    pub open spec fn spec_emit_body(s: Codegen, u: FunctionUnit, func: Function, fuel: nat) -> (
        Codegen,
        Result<(), CgError>,
    ) {
        let s1 = Codegen { cur_func: Option::Some(u.c), ..s };
        match Self::spec_fresh_block(s1, u.c, BlockName::Entry) {
            (s2, Result::Err(er)) => (s2, Result::Err(er)),
            (s2, Result::Ok(entry)) => {
                let s3 = Codegen { cur_block: Option::Some(entry), ..s2 };
                let seeded = if func.name == NAME_MAIN {
                    Self::spec_emit_global_inits(s3, s3.globals.items, u.c, entry, fuel)
                } else {
                    (s3, Result::Ok(()))
                };
                match seeded {
                    (s4, Result::Err(er)) => (s4, Result::Err(er)),
                    (s4, Result::Ok(())) => match Self::spec_emit_params(
                        s4,
                        u.c,
                        entry,
                        func.params,
                        0,
                        fuel,
                    ) {
                        (s5, Result::Err(er)) => (s5, Result::Err(er)),
                        (s5, Result::Ok(nparams)) => {
                            let thised = match func.this {
                                Option::Some(th) => match Self::spec_ty_to_ctype(s5, th.1, fuel) {
                                    (s6, Result::Err(er)) => (s6, Result::Err(er)),
                                    (s6, Result::Ok(cty)) => match s6.ctx.spec_func(u.c as int) {
                                        Option::None => (s6, Result::Err(CgError::TooManyItems)),
                                        Option::Some(fd) => if fd.locals.len() >= usize::MAX {
                                            (s6, Result::Err(CgError::TooManyItems))
                                        } else {
                                            let lid = fd.locals.len() as usize;
                                            let s7 = Codegen {
                                                ctx: s6.ctx.spec_new_local(
                                                    u.c as int,
                                                    LocalName::Named(th.0),
                                                    cty,
                                                ),
                                                ..s6
                                            };
                                            let s8 = Codegen {
                                                ctx: s7.ctx.spec_add_instr(
                                                    u.c as int,
                                                    entry as int,
                                                    Instr::Assign(
                                                        LValue::Local(u.c, lid),
                                                        RValue::Param(u.c, nparams),
                                                    ),
                                                ),
                                                ..s7
                                            };
                                            (
                                                Codegen {
                                                    variables: s8.variables.spec_insert(
                                                        th.0,
                                                        VarInfo {
                                                            lval: LValue::Local(u.c, lid),
                                                            ty: th.1,
                                                            cty,
                                                        },
                                                    ),
                                                    ..s8
                                                },
                                                Result::Ok(()),
                                            )
                                        },
                                    },
                                },
                                Option::None => (s5, Result::Ok(())),
                            };
                            match thised {
                                (s6, Result::Err(er)) => (s6, Result::Err(er)),
                                (s6, Result::Ok(())) => {
                                    let s7 = Codegen {
                                        cur_return: Option::Some(*func.ret),
                                        ..s6
                                    };
                                    match func.body {
                                        Option::None => (
                                            s7,
                                            Result::Err(CgError::MissingBody(func.name)),
                                        ),
                                        Option::Some(b) => Self::spec_gen_stmt(s7, *b, true, fuel),
                                    }
                                },
                            }
                        },
                    },
                }
            },
        }
    }

    #[verifier::rlimit(100)]
    fn emit_body(&mut self, u: &FunctionUnit, func: &Function, fuel: usize) -> (r: Result<
        (),
        CgError,
    >)
        ensures
            (*final(self), r) == Self::spec_emit_body(*old(self), *u, *func, fuel as nat),
    {
        self.cur_func = Option::Some(u.c);
        let entry = match self.fresh_block(u.c, BlockName::Entry) {
            Result::Ok(b) => b,
            Result::Err(er) => {
                return Result::Err(er);
            },
        };
        self.cur_block = Option::Some(entry);
        if func.name == NAME_MAIN {
            let items = self.globals.items.deep_clone();
            match self.emit_global_inits(&items, u.c, entry, fuel) {
                Result::Ok(()) => {},
                Result::Err(er) => {
                    return Result::Err(er);
                },
            };
        }
        let nparams = match self.emit_params(u.c, entry, &func.params, 0, fuel) {
            Result::Ok(n) => n,
            Result::Err(er) => {
                return Result::Err(er);
            },
        };
        match &func.this {
            Option::Some(th) => {
                let cty = match self.ty_to_ctype_fuel(&th.1, fuel) {
                    Result::Ok(c) => c,
                    Result::Err(er) => {
                        return Result::Err(er);
                    },
                };
                let lid = match self.ctx.new_local(
                    u.c,
                    LocalName::Named(th.0),
                    cty.clone_ctype(),
                ) {
                    Option::Some(l) => l,
                    Option::None => {
                        return Result::Err(CgError::TooManyItems);
                    },
                };
                self.ctx.add_instr(
                    u.c,
                    entry,
                    Instr::Assign(LValue::Local(u.c, lid), RValue::Param(u.c, nparams)),
                );
                self.variables.insert(
                    th.0,
                    VarInfo { lval: LValue::Local(u.c, lid), ty: th.1.clone_ty(), cty },
                );
            },
            Option::None => {},
        };
        self.cur_return = Option::Some((*func.ret).clone_ty());
        match &func.body {
            Option::None => Result::Err(CgError::MissingBody(func.name)),
            Option::Some(b) => self.gen_stmt_f(&**b, true, fuel),
        }
    }

    /// Emission of the bodies of every unit paired with this declaration
    /// (spec): units whose recorded pairing id equals the declaration's.
    pub open spec fn spec_emit_bodies(
        s: Codegen,
        units: Lst<FunctionUnit>,
        func: Function,
        fuel: nat,
    ) -> (Codegen, Result<(), CgError>)
        decreases units,
    {
        match units {
            Lst::Nil => (s, Result::Ok(())),
            Lst::Cons(u, t) => if u.f.ir_temp_id == func.ir_temp_id {
                match Self::spec_emit_body(s, u, func, fuel) {
                    (s1, Result::Err(er)) => (s1, Result::Err(er)),
                    (s1, Result::Ok(())) => Self::spec_emit_bodies(s1, *t, func, fuel),
                }
            } else {
                Self::spec_emit_bodies(s, *t, func, fuel)
            },
        }
    }

    fn emit_bodies(&mut self, units: &Lst<FunctionUnit>, func: &Function, fuel: usize) -> (r:
        Result<(), CgError>)
        ensures
            (*final(self), r) == Self::spec_emit_bodies(*old(self), *units, *func, fuel as nat),
        decreases units,
    {
        match units {
            Lst::Nil => Result::Ok(()),
            Lst::Cons(u, t) => if u.f.ir_temp_id == func.ir_temp_id {
                match self.emit_body(u, func, fuel) {
                    Result::Ok(()) => self.emit_bodies(t, func, fuel),
                    Result::Err(er) => Result::Err(er),
                }
            } else {
                self.emit_bodies(t, func, fuel)
            },
        }
    }

    /// The fourth pass (spec): every non-external, non-built-in function's
    /// body is emitted into its pre-declared IR function.
    pub open spec fn spec_pass4(s: Codegen, elems: Lst<Elem>, fuel: nat) -> (Codegen, Result<
        (),
        CgError,
    >)
        decreases elems,
    {
        match elems {
            Lst::Nil => (s, Result::Ok(())),
            Lst::Cons(e, t) => {
                let stepped = match e {
                    Elem::Func(func) => if func.external || func.internal {
                        (s, Result::Ok(()))
                    } else {
                        match s.functions.spec_get(func.name) {
                            Option::None => (s, Result::Err(CgError::UnknownFunction(func.name))),
                            Option::Some(units) => Self::spec_emit_bodies(s, units, func, fuel),
                        }
                    },
                    _ => (s, Result::Ok(())),
                };
                match stepped {
                    (s1, Result::Err(er)) => (s1, Result::Err(er)),
                    (s1, Result::Ok(())) => Self::spec_pass4(s1, *t, fuel),
                }
            },
        }
    }

    fn pass4(&mut self, elems: &Lst<Elem>, fuel: usize) -> (r: Result<(), CgError>)
        ensures
            (*final(self), r) == Self::spec_pass4(*old(self), *elems, fuel as nat),
        decreases elems,
    {
        match elems {
            Lst::Nil => Result::Ok(()),
            Lst::Cons(e, t) => {
                match e {
                    Elem::Func(func) => if !func.external && !func.internal {
                        let units = match self.functions.get(func.name) {
                            Option::Some(us) => us.deep_clone(),
                            Option::None => {
                                return Result::Err(CgError::UnknownFunction(func.name));
                            },
                        };
                        match self.emit_bodies(&units, func, fuel) {
                            Result::Ok(()) => {},
                            Result::Err(er) => {
                                return Result::Err(er);
                            },
                        };
                    },
                    _ => {},
                };
                self.pass4(t, fuel)
            },
        }
    }

    /// The fuel the driver runs with: the table budget plus one hop per
    /// element, which covers every alias, constant and struct the passes
    /// will register.
    pub open spec fn spec_toplevel_fuel(s: Codegen, elems: Lst<Elem>) -> nat {
        s.spec_gen_fuel() + elems.len()
    }

    /// Lowering of a whole program (spec): the four declaration and emission
    /// passes in order; yields the element list annotated with pairing ids.
    pub open spec fn spec_gen_toplevel(s: Codegen, elems: Lst<Elem>) -> (Codegen, Result<
        Lst<Elem>,
        CgError,
    >) {
        let fuel = Self::spec_toplevel_fuel(s, elems);
        match Self::spec_pass1(s, elems, fuel) {
            (s1, Result::Err(er)) => (s1, Result::Err(er)),
            (s1, Result::Ok(())) => match Self::spec_pass2(s1, elems, fuel) {
                (s2, Result::Err(er)) => (s2, Result::Err(er)),
                (s2, Result::Ok(elems2)) => match Self::spec_pass3(s2, elems2, fuel) {
                    (s3, Result::Err(er)) => (s3, Result::Err(er)),
                    (s3, Result::Ok(())) => match Self::spec_pass4(s3, elems2, fuel) {
                        (s4, Result::Err(er)) => (s4, Result::Err(er)),
                        (s4, Result::Ok(())) => (s4, Result::Ok(elems2)),
                    },
                },
            },
        }
    }

    /// Lower a whole program: register types, constants, aliases and links;
    /// declare every function; materialize globals; emit every body.  On
    /// success the element list carries the pairing ids pass 2 recorded; on
    /// an error it is left empty.
    pub fn gen_toplevel(&mut self, elems: &mut Lst<Elem>) -> (r: Result<(), CgError>)
        requires
            Codegen::spec_toplevel_fuel(*old(self), *old(elems)) <= usize::MAX,
        ensures
            match r {
                Result::Ok(()) => Self::spec_gen_toplevel(*old(self), *old(elems)) == (
                    *final(self),
                    Result::<Lst<Elem>, CgError>::Ok(*final(elems)),
                ),
                Result::Err(er) => Self::spec_gen_toplevel(*old(self), *old(elems)) == (
                    *final(self),
                    Result::<Lst<Elem>, CgError>::Err(er),
                ) && *final(elems) == Lst::<Elem>::Nil,
            },
    {
        let n = elems.length();
        let fuel = self.gen_fuel() + n;
        let mut es: Lst<Elem> = Lst::Nil;
        core::mem::swap(&mut es, elems);
        match self.pass1(&es, fuel) {
            Result::Ok(()) => {},
            Result::Err(er) => {
                return Result::Err(er);
            },
        };
        let es2 = match self.pass2(es, fuel) {
            Result::Ok(es2) => es2,
            Result::Err(er) => {
                return Result::Err(er);
            },
        };
        match self.pass3(&es2, fuel) {
            Result::Ok(()) => {},
            Result::Err(er) => {
                return Result::Err(er);
            },
        };
        match self.pass4(&es2, fuel) {
            Result::Ok(()) => {},
            Result::Err(er) => {
                return Result::Err(er);
            },
        };
        *elems = es2;
        Result::Ok(())
    }

    /// The state and artifact decision of `compile` (spec): options applied,
    /// the program lowered from the context's own elements, and in the
    /// ahead-of-time case the standard C and math libraries linked.  The
    /// result carries the just-in-time flag and the artifact kind.
    pub open spec fn spec_compile(s: Codegen) -> (Codegen, Result<(bool, OutputKind), CgError>) {
        let s1 = if s.context.emit_asm && s.context.jit {
            Codegen { ctx: crate::ir::Ctx { dump_code: true, ..s.ctx }, ..s }
        } else {
            s
        };
        let s2 = Codegen {
            ctx: crate::ir::Ctx { opt_level: s1.context.opt, ..s1.ctx },
            ..s1
        };
        match Self::spec_gen_toplevel(s2, s2.context.file.elems) {
            (s3, Result::Err(er)) => (s3, Result::Err(er)),
            (s3, Result::Ok(_)) => if s3.context.jit {
                (s3, Result::Ok((true, OutputKind::Executable)))
            } else {
                let s4 = Codegen {
                    ctx: s3.ctx.spec_add_driver_option(DriverOpt::LinkC).spec_add_driver_option(
                        DriverOpt::LinkM,
                    ),
                    ..s3
                };
                let kind = if s4.context.emit_obj {
                    OutputKind::ObjectFile
                } else if s4.context.shared {
                    OutputKind::DynamicLibrary
                } else if s4.context.emit_asm {
                    OutputKind::Assembler
                } else {
                    OutputKind::Executable
                };
                (s4, Result::Ok((false, kind)))
            },
        }
    }

    /// The output path of an ahead-of-time compilation (spec): the
    /// configured output, or `a.out` when none was set.
    pub open spec fn spec_out_path(s: Codegen) -> Seq<char> {
        if s.context.output@.len() == 0 {
            "a.out"@
        } else {
            s.context.output@
        }
    }

    /// Apply the context's options, lower the program, and decide the
    /// artifact: an in-memory module for a just-in-time back end, or a file
    /// of the configured kind and path with the C and math libraries linked.
    pub fn compile(&mut self) -> (r: Result<CompileOutput, CgError>)
        requires
            Codegen::spec_toplevel_fuel(*old(self), old(self).context.file.elems)
                <= usize::MAX,
        ensures
            *final(self) == Self::spec_compile(*old(self)).0,
            match (r, Self::spec_compile(*old(self)).1) {
                (Result::Ok(out), Result::Ok((j, k))) => out.jit == j && out.kind == k && (if j {
                    out.path@ =~= Seq::<char>::empty()
                } else {
                    out.path@ =~= Self::spec_out_path(Self::spec_compile(*old(self)).0)
                }),
                (Result::Err(e1), Result::Err(e2)) => e1 == e2,
                _ => false,
            },
    {
        if self.context.emit_asm && self.context.jit {
            self.ctx.set_dump_code(true);
        }
        let opt = self.context.opt;
        self.ctx.set_opt_level(opt);
        let mut elems = self.context.file.elems.deep_clone();
        match self.gen_toplevel(&mut elems) {
            Result::Ok(()) => {},
            Result::Err(er) => {
                return Result::Err(er);
            },
        };
        if self.context.jit {
            Result::Ok(CompileOutput { jit: true, kind: OutputKind::Executable, path: String::new() })
        } else {
            self.ctx.add_driver_option(DriverOpt::LinkC);
            self.ctx.add_driver_option(DriverOpt::LinkM);
            let path = if self.context.output.as_str().is_empty() {
                "a.out".to_owned()
            } else {
                self.context.output.clone()
            };
            let kind = if self.context.emit_obj {
                OutputKind::ObjectFile
            } else if self.context.shared {
                OutputKind::DynamicLibrary
            } else if self.context.emit_asm {
                OutputKind::Assembler
            } else {
                OutputKind::Executable
            };
            Result::Ok(CompileOutput { jit: false, kind, path })
        }
    }
}

} // verus!