//! The load-bearing facts of the translation, stated and proved once.
//!
//! Each public proof function here states a law of the code generator over
//! the same specification functions its contracts use: determinism of
//! lowering, interning of struct types, first-match overload resolution,
//! agreement of `sizeof` with the sizer, and the scope of implicit casts.

use vstd::prelude::*;

use crate::ast::{BasicType, Elem, Expr, Name, Position, Type};
use crate::gccjit::{spec_prim_ctype, spec_ty_size, CgError, Codegen, FunctionUnit, GccStruct};
use crate::ir::{CType, OutputKind, RValue};
use crate::list::{Lst, SymTable};
use crate::lower::{spec_arg_casts, spec_do_cast};
use crate::overload::{spec_candidate_matches, spec_decl_types, spec_first_match};
use crate::NodeId;

verus! {

/// Determinism of lowering: running the driver twice from equal states over
/// equal element lists produces structurally identical IR — the whole
/// context, including the monotonically numbered block names, and the same
/// annotated elements or error.
pub proof fn lemma_lowering_deterministic(a: Codegen, b: Codegen, ea: Lst<Elem>, eb: Lst<Elem>)
    requires
        a == b,
        ea == eb,
    ensures
        Codegen::spec_gen_toplevel(a, ea) == Codegen::spec_gen_toplevel(b, eb),
{
}

/// Determinism of whole compilations: equal generator states decide the same
/// artifact and build the same module.
pub proof fn lemma_compile_deterministic(a: Codegen, b: Codegen)
    requires
        a == b,
    ensures
        Codegen::spec_compile(a) == Codegen::spec_compile(b),
{
}

/// Struct identity, lookup side: lowering a basic type that names a
/// registered struct returns the cached IR type and changes nothing — every
/// later reference uses the one interned instance.
pub proof fn lemma_struct_lookup_cached(s: Codegen, id: NodeId, pos: Position, name: Name, fuel: nat)
    requires
        spec_prim_ctype(name) is None,
        s.structures.spec_get(name) is Some,
        fuel > 0,
    ensures
        Codegen::spec_ty_to_ctype(s, Type::Basic(BasicType { id, pos, name }), fuel) == (
            s,
            Result::<CType, CgError>::Ok(s.structures.spec_get(name).unwrap().ty),
        ),
{
}

/// Struct identity, written-out side: lowering a written-out struct type
/// whose name is already registered returns the cached IR type and registers
/// nothing new.
pub proof fn lemma_struct_type_cached(s: Codegen, st: crate::ast::StructType, fuel: nat)
    requires
        s.structures.spec_get(st.name) is Some,
    ensures
        Codegen::spec_ty_to_ctype(s, Type::Struct(st), fuel) == (
            s,
            Result::<CType, CgError>::Ok(s.structures.spec_get(st.name).unwrap().ty),
        ),
{
}

/// Struct identity, stability side: type lowering never changes the IR type
/// a registered struct name is bound to; a name is materialized at most once
/// per compilation and keeps its identity afterwards.
pub proof fn lemma_registry_ty_stable(s: Codegen, ty: Type, fuel: nat, n: Name)
    requires
        s.structures.spec_get(n) is Some,
    ensures
        ({
            let (s2, _) = Codegen::spec_ty_to_ctype(s, ty, fuel);
            &&& s2.structures.spec_get(n) is Some
            &&& s2.structures.spec_get(n).unwrap().ty == s.structures.spec_get(n).unwrap().ty
        }),
    decreases fuel, ty,
{
    match ty {
        Type::Void(_) => {},
        Type::Vector(_) => {},
        Type::Ptr(p) => {
            lemma_registry_ty_stable(s, *p.subtype, fuel, n);
        },
        Type::Array(a) => {
            lemma_registry_ty_stable(s, *a.subtype, fuel, n);
        },
        Type::Func(f) => {
            lemma_registry_ty_stable_list(s, *f.params, fuel, n);
            let (s1, r1) = Codegen::spec_lower_ty_list(s, *f.params, fuel);
            if r1 is Ok {
                lemma_registry_ty_stable(s1, *f.ret, fuel, n);
            }
        },
        Type::Basic(b) => {
            if spec_prim_ctype(b.name) is None && fuel > 0 && s.structures.spec_get(b.name)
                is None {
                match s.aliases.spec_get(b.name) {
                    Option::Some(t) => {
                        lemma_registry_ty_stable(s, t, (fuel - 1) as nat, n);
                    },
                    Option::None => {},
                }
            }
        },
        Type::Struct(st) => {
            if s.structures.spec_get(st.name) is None {
                if s.ctx.structs.len() < usize::MAX {
                    let sid = s.ctx.structs.len() as usize;
                    let partial = GccStruct {
                        ty: CType::Struct(sid),
                        fields: SymTable { items: Lst::Nil },
                        types: Lst::Nil,
                    };
                    s.structures.lemma_insert_get(st.name, partial, n);
                    let s1 = Codegen {
                        ctx: s.ctx.spec_begin_struct(st.name, st.union),
                        structures: s.structures.spec_insert(st.name, partial),
                        ..s
                    };
                    lemma_registry_ty_stable_fields(s1, sid, st.fields, 0, fuel, n);
                    let (s2, r2) = Codegen::spec_lower_fields(s1, sid, st.fields, 0, fuel);
                    match r2 {
                        Result::Ok((ftable, ftypes, irfields)) => {
                            let full = GccStruct {
                                ty: CType::Struct(sid),
                                fields: SymTable { items: ftable },
                                types: ftypes,
                            };
                            s2.structures.lemma_insert_get(st.name, full, n);
                        },
                        Result::Err(_) => {},
                    }
                }
            }
        },
    }
}

/// Stability of the registry under lowering a list of types.
pub proof fn lemma_registry_ty_stable_list(s: Codegen, tys: Lst<Type>, fuel: nat, n: Name)
    requires
        s.structures.spec_get(n) is Some,
    ensures
        ({
            let (s2, _) = Codegen::spec_lower_ty_list(s, tys, fuel);
            &&& s2.structures.spec_get(n) is Some
            &&& s2.structures.spec_get(n).unwrap().ty == s.structures.spec_get(n).unwrap().ty
        }),
    decreases fuel, tys,
{
    match tys {
        Lst::Nil => {},
        Lst::Cons(h, t) => {
            lemma_registry_ty_stable(s, h, fuel, n);
            let (s1, r1) = Codegen::spec_ty_to_ctype(s, h, fuel);
            if r1 is Ok {
                lemma_registry_ty_stable_list(s1, *t, fuel, n);
            }
        },
    }
}

/// Stability of the registry under lowering a struct's field declarations.
pub proof fn lemma_registry_ty_stable_fields(
    s: Codegen,
    sid: usize,
    fields: Lst<crate::ast::StructField>,
    idx: usize,
    fuel: nat,
    n: Name,
)
    requires
        s.structures.spec_get(n) is Some,
    ensures
        ({
            let (s2, _) = Codegen::spec_lower_fields(s, sid, fields, idx, fuel);
            &&& s2.structures.spec_get(n) is Some
            &&& s2.structures.spec_get(n).unwrap().ty == s.structures.spec_get(n).unwrap().ty
        }),
    decreases fuel, fields,
{
    match fields {
        Lst::Nil => {},
        Lst::Cons(fld, rest) => {
            lemma_registry_ty_stable(s, *fld.data_type, fuel, n);
            let (s1, r1) = Codegen::spec_ty_to_ctype(s, *fld.data_type, fuel);
            match r1 {
                Result::Ok(_) => {
                    if idx != usize::MAX {
                        lemma_registry_ty_stable_fields(
                            s1,
                            sid,
                            *rest,
                            (idx + 1) as usize,
                            fuel,
                            n,
                        );
                    }
                },
                Result::Err(_) => {},
            }
        },
    }
}

/// Overload resolution follows the first match: when some candidate matches
/// the call site, resolution settles on the first matching one — its IR
/// function and its declared parameter types — and when none matches it
/// reports no candidate, which the call lowerer turns into the fatal
/// overload error.
pub proof fn lemma_resolution_first_match(
    s: Codegen,
    params: Lst<Type>,
    this: Option<Type>,
    funcs: Lst<FunctionUnit>,
    fuel: nat,
)
    ensures
        ({
            let (_, r) = Codegen::spec_search_for_func(s, params, this, funcs, fuel);
            match spec_first_match(params, this, funcs) {
                Option::Some(u) => match r {
                    Result::Ok(Option::Some((c, _, atys))) => c == u.c && atys == spec_decl_types(
                        u.f.params,
                    ),
                    Result::Ok(Option::None) => false,
                    Result::Err(_) => true,
                },
                Option::None => r == Result::<
                    Option<(usize, Lst<CType>, Lst<Type>)>,
                    CgError,
                >::Ok(Option::None),
            }
        }),
    decreases funcs,
{
    match funcs {
        Lst::Nil => {},
        Lst::Cons(u, t) => {
            if spec_candidate_matches(params, this, u) {
                if u.f.params is Nil && params is Nil && u.this_ast is None && this is None {
                } else {
                }
            } else {
                lemma_resolution_first_match(s, params, this, *t, fuel);
            }
        },
    }
}

/// When exactly one candidate matches — every other one fails the matching
/// predicate — resolution picks exactly that candidate.
pub proof fn lemma_resolution_unique_match(
    s: Codegen,
    params: Lst<Type>,
    this: Option<Type>,
    funcs: Lst<FunctionUnit>,
    fuel: nat,
    i: int,
)
    requires
        0 <= i < funcs.len(),
        spec_candidate_matches(params, this, funcs.index(i)),
        forall|j: int|
            0 <= j < funcs.len() && j != i ==> !spec_candidate_matches(
                params,
                this,
                #[trigger] funcs.index(j),
            ),
    ensures
        spec_first_match(params, this, funcs) == Option::Some(funcs.index(i)),
    decreases funcs,
{
    match funcs {
        Lst::Nil => {},
        Lst::Cons(u, t) => {
            assert(funcs.index(0) == u);
            if spec_candidate_matches(params, this, u) {
                assert(i == 0);
            } else {
                assert(i >= 1);
                assert(forall|j: int| 0 <= j < t.len() ==> #[trigger] t.index(j) == funcs.index(j + 1));
                lemma_resolution_unique_match(s, params, this, *t, fuel, i - 1);
            }
        },
    }
}

/// `sizeof` agrees with the sizer: lowering a `sizeof` expression changes
/// nothing and yields a `usize`-typed constant carrying exactly the byte
/// size the sizer computes; sizes within the signed range are carried
/// without loss.
pub proof fn lemma_sizeof_agrees(s: Codegen, e: Expr, t: Type, fuel: nat)
    requires
        e.kind == crate::ast::ExprKind::SizeOf(Box::new(t)),
    ensures
        ({
            let (s2, r) = Codegen::spec_gen_expr(s, e, fuel);
            &&& s2 == s
            &&& match spec_ty_size(s.structures, s.aliases, t, fuel) {
                Result::Ok(sz) => r == Result::<RValue, CgError>::Ok(
                    RValue::IntConst(CType::USize, sz as i64),
                ) && (sz <= i64::MAX ==> r.unwrap() == RValue::IntConst(
                    CType::USize,
                    sz as i64,
                ) && sz as i64 == sz)
                ,
                Result::Err(er) => r == Result::<RValue, CgError>::Err(er),
            }
        }),
{
}

/// The implicit-cast classifier for assignment destinations: a cast is
/// inserted exactly when the destination's recorded type is neither a
/// written-out struct, nor an array, nor a basic name bound in the struct
/// registry.  `spec_assign` stores `Cast(destination IR type, source)` when
/// this holds and the source unchanged otherwise.
pub proof fn lemma_assign_cast_scope(structures: SymTable<GccStruct>, ty: Type)
    ensures
        spec_do_cast(structures, ty) <==> !(ty is Struct || ty is Array || (match ty {
            Type::Basic(b) => structures.spec_contains(b.name),
            _ => false,
        })),
{
}

/// The implicit-cast classifier for argument passing: a declared parameter
/// position is cast exactly when its declared type is not a written-out
/// struct or array type.
pub proof fn lemma_arg_cast_scope(ty: Type)
    ensures
        spec_arg_casts(ty) <==> !(ty is Struct || ty is Array),
{
}

/// Arguments at declared positions are lowered and then cast per the
/// classifier: the first lowered argument of a call with a declared
/// parameter is wrapped in a cast to the declared IR type exactly when the
/// classifier says so.
pub proof fn lemma_call_arg_cast(
    s: Codegen,
    a: Expr,
    rest: Lst<Expr>,
    ty: Type,
    tyr: Lst<Type>,
    cty: CType,
    ctyr: Lst<CType>,
    fuel: nat,
)
    ensures
        ({
            let (s1, r1) = Codegen::spec_gen_expr(s, a, fuel);
            match r1 {
                Result::Ok(v) => {
                    let (s2, r2) = Codegen::spec_lower_call_args(
                        s1,
                        rest,
                        tyr,
                        ctyr,
                        fuel,
                    );
                    match r2 {
                        Result::Ok(vs) => Codegen::spec_lower_call_args(
                            s,
                            Lst::Cons(a, Box::new(rest)),
                            Lst::Cons(ty, Box::new(tyr)),
                            Lst::Cons(cty, Box::new(ctyr)),
                            fuel,
                        ) == (
                            s2,
                            Result::<Lst<RValue>, CgError>::Ok(
                                Lst::Cons(
                                    if spec_arg_casts(ty) {
                                        RValue::Cast(cty, Box::new(v))
                                    } else {
                                        v
                                    },
                                    Box::new(vs),
                                ),
                            ),
                        ),
                        Result::Err(_) => true,
                    }
                },
                Result::Err(_) => true,
            }
        }),
{
}

/// The variadic tail passes through uncast: once the declared parameter
/// lists are exhausted, lowering the remaining arguments of a call is
/// exactly the plain lowering that inserts no casts.
pub proof fn lemma_variadic_tail_uncast(s: Codegen, args: Lst<Expr>, fuel: nat)
    ensures
        Codegen::spec_lower_call_args(s, args, Lst::Nil, Lst::Nil, fuel)
            == Codegen::spec_lower_plain_args(s, args, fuel),
    decreases args,
{
    match args {
        Lst::Nil => {},
        Lst::Cons(a, rest) => {
            let (s1, r1) = Codegen::spec_gen_expr(s, a, fuel);
            if r1 is Ok {
                lemma_variadic_tail_uncast(s1, *rest, fuel);
            }
        },
    }
}

/// What a block looks like after its terminator is set: the named block
/// carries the new terminator and keeps its instructions; every other block
/// is untouched.
pub proof fn lemma_set_term_block(
    c: crate::ir::Ctx,
    f: int,
    b: int,
    t: crate::ir::Terminator,
    f2: int,
    b2: int,
)
    requires
        c.spec_func(f) is Some,
        c.spec_block(f, b) is Some,
    ensures
        ({
            let c2 = c.spec_set_term(f, b, t);
            &&& c2.spec_block(f, b) == Option::Some(
                crate::ir::BlockDef {
                    name: c.spec_block(f, b).unwrap().name,
                    instrs: c.spec_block(f, b).unwrap().instrs,
                    term: Option::Some(t),
                },
            )
            &&& (!(f2 == f && b2 == b) ==> c2.spec_block(f2, b2) == c.spec_block(f2, b2))
        }),
{
    let fd = c.spec_func(f).unwrap();
    let bd = c.spec_block(f, b).unwrap();
    let nb = crate::ir::BlockDef { name: bd.name, instrs: bd.instrs, term: Option::Some(t) };
    let nf = crate::ir::CFunctionDef { blocks: fd.blocks.spec_update(b, nb), ..fd };
    fd.blocks.lemma_update_nth(b, nb, b);
    fd.blocks.lemma_update_nth(b, nb, b2);
    c.funcs.lemma_update_nth(f, nf, f);
    c.funcs.lemma_update_nth(f, nf, f2);
}

/// Control-flow placement of `break`: lowering a `break` succeeds exactly
/// inside a loop with a live termination frame; the block that was current
/// is terminated with a jump to the innermost break target — never left to
/// fall through — the break target becomes the current block, and the
/// current lexical branch is marked terminated.
pub proof fn lemma_break_jumps_to_innermost(s: Codegen, st: crate::ast::Stmt, init: bool, fuel: nat)
    requires
        st.kind is Break,
        s.cur_func is Some,
        s.cur_block is Some,
        s.ctx.spec_block(s.cur_func.unwrap() as int, s.cur_block.unwrap() as int) is Some,
    ensures
        ({
            let (s2, r) = Codegen::spec_gen_stmt(s, st, init, fuel);
            match (s.break_blocks, s.terminated) {
                (Lst::Cons(bb, _), Lst::Cons(_, rest)) => {
                    &&& r is Ok
                    &&& s2.ctx.spec_block(
                        s.cur_func.unwrap() as int,
                        s.cur_block.unwrap() as int,
                    ).unwrap().term == Option::Some(crate::ir::Terminator::Jump(bb))
                    &&& s2.cur_block == Option::Some(bb)
                    &&& s2.terminated == Lst::Cons(true, rest)
                },
                _ => r == Result::<(), CgError>::Err(CgError::EmptyLoopStack),
            }
        }),
{
    match (s.break_blocks, s.terminated) {
        (Lst::Cons(bb, _), Lst::Cons(_, _)) => {
            lemma_set_term_block(
                s.ctx,
                s.cur_func.unwrap() as int,
                s.cur_block.unwrap() as int,
                crate::ir::Terminator::Jump(bb),
                s.cur_func.unwrap() as int,
                s.cur_block.unwrap() as int,
            );
        },
        _ => {},
    }
}

/// Control-flow placement of a bare `return`: lowering `return` with no
/// value terminates the block that was current with a void return.
pub proof fn lemma_void_return_terminates(s: Codegen, st: crate::ast::Stmt, init: bool, fuel: nat)
    requires
        st.kind == crate::ast::StmtKind::Return(Option::<Box<Expr>>::None),
        s.cur_func is Some,
        s.cur_block is Some,
        s.ctx.spec_block(s.cur_func.unwrap() as int, s.cur_block.unwrap() as int) is Some,
    ensures
        ({
            let (s2, r) = Codegen::spec_gen_stmt(s, st, init, fuel);
            &&& r is Ok
            &&& s2.ctx.spec_block(
                s.cur_func.unwrap() as int,
                s.cur_block.unwrap() as int,
            ).unwrap().term == Option::Some(crate::ir::Terminator::VoidReturn)
        }),
{
    lemma_set_term_block(
        s.ctx,
        s.cur_func.unwrap() as int,
        s.cur_block.unwrap() as int,
        crate::ir::Terminator::VoidReturn,
        s.cur_func.unwrap() as int,
        s.cur_block.unwrap() as int,
    );
}

/// The block structure two contexts share: the same blocks exist, and each
/// keeps its name and its terminator (instructions may differ).
pub open spec fn blocks_intact(a: crate::ir::Ctx, b: crate::ir::Ctx) -> bool {
    forall|f: int, bi: int|
        {
            &&& (#[trigger] a.spec_block(f, bi)) is Some <==> (#[trigger] b.spec_block(
                f,
                bi,
            )) is Some
            &&& (a.spec_block(f, bi) is Some ==> {
                &&& b.spec_block(f, bi).unwrap().name == a.spec_block(f, bi).unwrap().name
                &&& b.spec_block(f, bi).unwrap().term == a.spec_block(f, bi).unwrap().term
            })
        }
}

/// What the expression lowerer leaves untouched: the current function and
/// block, the three control-flow stacks, and the whole block structure — it
/// appends instructions and interns types, and nothing else.
pub open spec fn expr_frame(a: Codegen, b: Codegen) -> bool {
    &&& b.cur_func == a.cur_func
    &&& b.cur_block == a.cur_block
    &&& b.break_blocks == a.break_blocks
    &&& b.continue_blocks == a.continue_blocks
    &&& b.terminated == a.terminated
    &&& blocks_intact(a.ctx, b.ctx)
}

pub proof fn lemma_frame_trans(a: Codegen, b: Codegen, c: Codegen)
    requires
        expr_frame(a, b),
        expr_frame(b, c),
    ensures
        expr_frame(a, c),
{
    assert forall|f: int, bi: int|
        {
            &&& (#[trigger] a.ctx.spec_block(f, bi)) is Some <==> (#[trigger] c.ctx.spec_block(
                f,
                bi,
            )) is Some
            &&& (a.ctx.spec_block(f, bi) is Some ==> {
                &&& c.ctx.spec_block(f, bi).unwrap().name == a.ctx.spec_block(f, bi).unwrap().name
                &&& c.ctx.spec_block(f, bi).unwrap().term == a.ctx.spec_block(f, bi).unwrap().term
            })
        } by {
        assert(b.ctx.spec_block(f, bi) == b.ctx.spec_block(f, bi));
    }
}

/// Appending an instruction keeps the block structure: names, terminators
/// and the set of blocks.
pub proof fn lemma_blocks_intact_add_instr(c: crate::ir::Ctx, f: int, b: int, ins: crate::ir::Instr)
    ensures
        blocks_intact(c, c.spec_add_instr(f, b, ins)),
{
    let c2 = c.spec_add_instr(f, b, ins);
    match c.spec_func(f) {
        Option::Some(fd) => match fd.blocks.spec_nth(b) {
            Option::Some(bd) => {
                let nb = crate::ir::BlockDef {
                    name: bd.name,
                    instrs: bd.instrs.spec_snoc(ins),
                    term: bd.term,
                };
                let nf = crate::ir::CFunctionDef { blocks: fd.blocks.spec_update(b, nb), ..fd };
                assert forall|f2: int, b2: int|
                    {
                        &&& (#[trigger] c.spec_block(f2, b2)) is Some <==> (#[trigger] c2.spec_block(
                            f2,
                            b2,
                        )) is Some
                        &&& (c.spec_block(f2, b2) is Some ==> {
                            &&& c2.spec_block(f2, b2).unwrap().name == c.spec_block(
                                f2,
                                b2,
                            ).unwrap().name
                            &&& c2.spec_block(f2, b2).unwrap().term == c.spec_block(
                                f2,
                                b2,
                            ).unwrap().term
                        })
                    } by {
                    c.funcs.lemma_update_nth(f, nf, f2);
                    fd.blocks.lemma_update_nth(b, nb, b2);
                }
            },
            Option::None => {},
        },
        Option::None => {},
    }
}

/// Appending a local keeps the block structure.
pub proof fn lemma_blocks_intact_new_local(
    c: crate::ir::Ctx,
    f: int,
    name: crate::ir::LocalName,
    ty: CType,
)
    ensures
        blocks_intact(c, c.spec_new_local(f, name, ty)),
{
    let c2 = c.spec_new_local(f, name, ty);
    match c.spec_func(f) {
        Option::Some(fd) => {
            let nf = crate::ir::CFunctionDef {
                locals: fd.locals.spec_snoc(crate::ir::LocalDef { name, ty }),
                ..fd
            };
            assert forall|f2: int, b2: int|
                {
                    &&& (#[trigger] c.spec_block(f2, b2)) is Some <==> (#[trigger] c2.spec_block(
                        f2,
                        b2,
                    )) is Some
                    &&& (c.spec_block(f2, b2) is Some ==> {
                        &&& c2.spec_block(f2, b2).unwrap().name == c.spec_block(
                            f2,
                            b2,
                        ).unwrap().name
                        &&& c2.spec_block(f2, b2).unwrap().term == c.spec_block(
                            f2,
                            b2,
                        ).unwrap().term
                    })
                } by {
                c.funcs.lemma_update_nth(f, nf, f2);
            }
        },
        Option::None => {},
    }
}

/// The type lowerer only touches the type tables: it keeps the expression
/// frame.
pub proof fn lemma_ty_to_ctype_frame(s: Codegen, ty: Type, fuel: nat)
    ensures
        expr_frame(s, Codegen::spec_ty_to_ctype(s, ty, fuel).0),
    decreases fuel, ty,
{
    match ty {
        Type::Void(_) => {},
        Type::Vector(_) => {},
        Type::Ptr(p) => {
            lemma_ty_to_ctype_frame(s, *p.subtype, fuel);
        },
        Type::Array(a) => {
            lemma_ty_to_ctype_frame(s, *a.subtype, fuel);
        },
        Type::Func(f) => {
            lemma_lower_ty_list_frame(s, *f.params, fuel);
            let (s1, r1) = Codegen::spec_lower_ty_list(s, *f.params, fuel);
            if r1 is Ok {
                lemma_ty_to_ctype_frame(s1, *f.ret, fuel);
                lemma_frame_trans(s, s1, Codegen::spec_ty_to_ctype(s1, *f.ret, fuel).0);
            }
        },
        Type::Basic(b) => {
            if spec_prim_ctype(b.name) is None && fuel > 0 && s.structures.spec_get(b.name)
                is None {
                match s.aliases.spec_get(b.name) {
                    Option::Some(t) => {
                        lemma_ty_to_ctype_frame(s, t, (fuel - 1) as nat);
                    },
                    Option::None => {},
                }
            }
        },
        Type::Struct(st) => {
            if s.structures.spec_get(st.name) is None && s.ctx.structs.len() < usize::MAX {
                let sid = s.ctx.structs.len() as usize;
                let s1 = Codegen {
                    ctx: s.ctx.spec_begin_struct(st.name, st.union),
                    structures: s.structures.spec_insert(
                        st.name,
                        GccStruct {
                            ty: CType::Struct(sid),
                            fields: SymTable { items: Lst::Nil },
                            types: Lst::Nil,
                        },
                    ),
                    ..s
                };
                assert(expr_frame(s, s1));
                lemma_lower_fields_frame(s1, sid, st.fields, 0, fuel);
                let (s2, r2) = Codegen::spec_lower_fields(s1, sid, st.fields, 0, fuel);
                lemma_frame_trans(s, s1, s2);
                match r2 {
                    Result::Ok((ftable, ftypes, irfields)) => {
                        let s3 = Codegen {
                            ctx: s2.ctx.spec_set_struct_fields(sid as int, irfields),
                            structures: s2.structures.spec_insert(
                                st.name,
                                GccStruct {
                                    ty: CType::Struct(sid),
                                    fields: SymTable { items: ftable },
                                    types: ftypes,
                                },
                            ),
                            ..s2
                        };
                        assert(expr_frame(s2, s3));
                        lemma_frame_trans(s, s2, s3);
                    },
                    Result::Err(_) => {},
                }
            }
        },
    }
}

/// Lowering a type list keeps the expression frame.
pub proof fn lemma_lower_ty_list_frame(s: Codegen, tys: Lst<Type>, fuel: nat)
    ensures
        expr_frame(s, Codegen::spec_lower_ty_list(s, tys, fuel).0),
    decreases fuel, tys,
{
    match tys {
        Lst::Nil => {},
        Lst::Cons(h, t) => {
            lemma_ty_to_ctype_frame(s, h, fuel);
            let (s1, r1) = Codegen::spec_ty_to_ctype(s, h, fuel);
            if r1 is Ok {
                lemma_lower_ty_list_frame(s1, *t, fuel);
                lemma_frame_trans(s, s1, Codegen::spec_lower_ty_list(s1, *t, fuel).0);
            }
        },
    }
}

/// Lowering struct fields keeps the expression frame.
pub proof fn lemma_lower_fields_frame(
    s: Codegen,
    sid: usize,
    fields: Lst<crate::ast::StructField>,
    idx: usize,
    fuel: nat,
)
    ensures
        expr_frame(s, Codegen::spec_lower_fields(s, sid, fields, idx, fuel).0),
    decreases fuel, fields,
{
    match fields {
        Lst::Nil => {},
        Lst::Cons(fld, rest) => {
            lemma_ty_to_ctype_frame(s, *fld.data_type, fuel);
            let (s1, r1) = Codegen::spec_ty_to_ctype(s, *fld.data_type, fuel);
            if r1 is Ok && idx != usize::MAX {
                lemma_lower_fields_frame(s1, sid, *rest, (idx + 1) as usize, fuel);
                lemma_frame_trans(
                    s,
                    s1,
                    Codegen::spec_lower_fields(s1, sid, *rest, (idx + 1) as usize, fuel).0,
                );
            }
        },
    }
}

/// Lowering a declared parameter list's types keeps the expression frame.
pub proof fn lemma_lower_decl_ctypes_frame(s: Codegen, decl: Lst<(Name, Type)>, fuel: nat)
    ensures
        expr_frame(s, Codegen::spec_lower_decl_ctypes(s, decl, fuel).0),
    decreases decl,
{
    match decl {
        Lst::Nil => {},
        Lst::Cons(d, dt) => {
            lemma_ty_to_ctype_frame(s, d.1, fuel);
            let (s1, r1) = Codegen::spec_ty_to_ctype(s, d.1, fuel);
            if r1 is Ok {
                lemma_lower_decl_ctypes_frame(s1, *dt, fuel);
                lemma_frame_trans(s, s1, Codegen::spec_lower_decl_ctypes(s1, *dt, fuel).0);
            }
        },
    }
}

/// Overload resolution keeps the expression frame.
pub proof fn lemma_search_frame(
    s: Codegen,
    params: Lst<Type>,
    this: Option<Type>,
    funcs: Lst<FunctionUnit>,
    fuel: nat,
)
    ensures
        expr_frame(s, Codegen::spec_search_for_func(s, params, this, funcs, fuel).0),
    decreases funcs,
{
    match funcs {
        Lst::Nil => {},
        Lst::Cons(u, t) => {
            if spec_candidate_matches(params, this, u) {
                if u.f.params is Nil && params is Nil && u.this_ast is None && this is None {
                } else {
                    lemma_lower_decl_ctypes_frame(s, u.f.params, fuel);
                }
            } else {
                lemma_search_frame(s, params, this, *t, fuel);
            }
        },
    }
}

/// The expression lowerer keeps the frame: it never creates or removes a
/// block, never writes a terminator, and never moves the current block or
/// touches the loop stacks.
pub proof fn lemma_gen_expr_frame(s: Codegen, e: Expr, fuel: nat)
    ensures
        expr_frame(s, Codegen::spec_gen_expr(s, e, fuel).0),
    decreases fuel, crate::ast::esize(e), 3int,
{
    match e.kind {
        crate::ast::ExprKind::ArrayIdx(a, i) => {
            lemma_gen_expr_frame(s, *a, fuel);
            let (s1, r1) = Codegen::spec_gen_expr(s, *a, fuel);
            if r1 is Ok {
                lemma_gen_expr_frame(s1, *i, fuel);
                lemma_frame_trans(s, s1, Codegen::spec_gen_expr(s1, *i, fuel).0);
            }
        },
        crate::ast::ExprKind::Ident(name) => {
            match s.constants.spec_get(name) {
                Option::Some(cexpr) => {
                    if fuel > 0 {
                        lemma_expr_to_lvalue_frame(s, cexpr, (fuel - 1) as nat);
                        let (s1, r1) = Codegen::spec_expr_to_lvalue(s, cexpr, (fuel - 1) as nat);
                        match r1 {
                            Result::Ok(Option::None) => {
                                lemma_gen_expr_frame(s1, cexpr, (fuel - 1) as nat);
                                lemma_frame_trans(
                                    s,
                                    s1,
                                    Codegen::spec_gen_expr(s1, cexpr, (fuel - 1) as nat).0,
                                );
                            },
                            _ => {},
                        }
                    }
                },
                Option::None => {
                    lemma_expr_to_lvalue_frame(s, e, fuel);
                },
            }
        },
        crate::ast::ExprKind::Deref(sub) => {
            lemma_gen_expr_frame(s, *sub, fuel);
        },
        crate::ast::ExprKind::Unary(_, sub) => {
            lemma_gen_expr_frame(s, *sub, fuel);
        },
        crate::ast::ExprKind::Field(_, _) => {
            lemma_expr_to_lvalue_frame(s, e, fuel);
        },
        crate::ast::ExprKind::Assign(l, r) => {
            lemma_assign_frame(s, e.pos, *l, *r, fuel);
        },
        crate::ast::ExprKind::AddressOf(sub) => {
            lemma_gen_addressof_frame(s, e.id, *sub, fuel);
        },
        crate::ast::ExprKind::Conv(sub, to) => {
            lemma_ty_to_ctype_frame(s, *to, fuel);
            let (s1, r1) = Codegen::spec_ty_to_ctype(s, *to, fuel);
            if r1 is Ok {
                lemma_gen_expr_frame(s1, *sub, fuel);
                lemma_frame_trans(s, s1, Codegen::spec_gen_expr(s1, *sub, fuel).0);
            }
        },
        crate::ast::ExprKind::Call(path, this, args) => {
            lemma_gen_call_frame(s, e.id, e.pos, path, this, *args, fuel);
        },
        crate::ast::ExprKind::Struct(path, args) => {
            lemma_gen_struct_lit_frame(s, e.id, e.pos, path, args, fuel);
        },
        crate::ast::ExprKind::Binary(op, l, r) => {
            lemma_gen_binary_frame(s, e.id, op, *l, *r, fuel);
        },
        _ => {},
    }
}

/// Resolving an lvalue keeps the frame.
pub proof fn lemma_expr_to_lvalue_frame(s: Codegen, e: Expr, fuel: nat)
    ensures
        expr_frame(s, Codegen::spec_expr_to_lvalue(s, e, fuel).0),
    decreases fuel, crate::ast::esize(e), 1int,
{
    match e.kind {
        crate::ast::ExprKind::Binary(_, lhs, rhs) => {
            match s.spec_get_id_type(lhs.id) {
                Result::Ok(t1) => match s.spec_get_id_type(rhs.id) {
                    Result::Ok(t2) => {
                        if t1 is Ptr && crate::ast::spec_is_any_int(&t2) {
                            lemma_gen_expr_frame(s, *lhs, fuel);
                            let (s1, r1) = Codegen::spec_gen_expr(s, *lhs, fuel);
                            if r1 is Ok {
                                lemma_gen_expr_frame(s1, *rhs, fuel);
                                lemma_frame_trans(s, s1, Codegen::spec_gen_expr(s1, *rhs, fuel).0);
                            }
                        }
                    },
                    Result::Err(_) => {},
                },
                Result::Err(_) => {},
            }
        },
        crate::ast::ExprKind::ArrayIdx(a, i) => {
            lemma_gen_expr_frame(s, *a, fuel);
            let (s1, r1) = Codegen::spec_gen_expr(s, *a, fuel);
            if r1 is Ok {
                lemma_gen_expr_frame(s1, *i, fuel);
                lemma_frame_trans(s, s1, Codegen::spec_gen_expr(s1, *i, fuel).0);
            }
        },
        crate::ast::ExprKind::Field(object, _) => {
            lemma_gen_expr_frame(s, *object, fuel);
            lemma_expr_to_lvalue_frame(s, *object, fuel);
        },
        crate::ast::ExprKind::Deref(sub) => {
            lemma_gen_expr_frame(s, *sub, fuel);
        },
        _ => {},
    }
}

/// Lowering an assignment keeps the frame.
pub proof fn lemma_assign_frame(s: Codegen, p: Position, to: Expr, from: Expr, fuel: nat)
    ensures
        expr_frame(s, Codegen::spec_assign(s, p, to, from, fuel).0),
    decreases fuel, 1 + crate::ast::esize(to) + crate::ast::esize(from), 0int,
{
    lemma_expr_to_lvalue_frame(s, to, fuel);
    let (s1, r1) = Codegen::spec_expr_to_lvalue(s, to, fuel);
    match r1 {
        Result::Ok(Option::Some(lv)) => {
            lemma_gen_expr_frame(s1, from, fuel);
            let (s2, r2) = Codegen::spec_gen_expr(s1, from, fuel);
            lemma_frame_trans(s, s1, s2);
            match r2 {
                Result::Ok(rv) => match (s2.cur_func, s2.cur_block) {
                    (Option::Some(f), Option::Some(b)) => {
                        let ty = s2.spec_get_id_type(to.id);
                        match ty {
                            Result::Ok(ty) => match s2.spec_get_id_type(from.id) {
                                Result::Ok(_) => {
                                    let val = if crate::lower::spec_do_cast(s2.structures, ty) {
                                        RValue::Cast(
                                            s2.ctx.spec_lvalue_type(&lv),
                                            Box::new(rv),
                                        )
                                    } else {
                                        rv
                                    };
                                    lemma_blocks_intact_add_instr(
                                        s2.ctx,
                                        f as int,
                                        b as int,
                                        crate::ir::Instr::Assign(lv, val),
                                    );
                                    let s3 = Codegen {
                                        ctx: s2.ctx.spec_add_instr(
                                            f as int,
                                            b as int,
                                            crate::ir::Instr::Assign(lv, val),
                                        ),
                                        ..s2
                                    };
                                    lemma_frame_trans(s, s2, s3);
                                },
                                Result::Err(_) => {},
                            },
                            Result::Err(_) => {},
                        }
                    },
                    _ => {},
                },
                Result::Err(_) => {},
            }
        },
        _ => {},
    }
}

/// Taking an address keeps the frame.
pub proof fn lemma_gen_addressof_frame(s: Codegen, outer_id: NodeId, sub: Expr, fuel: nat)
    ensures
        expr_frame(s, Codegen::spec_gen_addressof(s, outer_id, sub, fuel).0),
    decreases fuel, crate::ast::esize(sub), 4int,
{
    match s.spec_get_id_type(outer_id) {
        Result::Ok(ty) => {
            lemma_ty_to_ctype_frame(s, ty, fuel);
            let (s1, r1) = Codegen::spec_ty_to_ctype(s, ty, fuel);
            if r1 is Ok {
                lemma_expr_to_lvalue_frame(s1, sub, fuel);
                let (s2, r2) = Codegen::spec_expr_to_lvalue(s1, sub, fuel);
                lemma_frame_trans(s, s1, s2);
                match r2 {
                    Result::Ok(Option::None) => {
                        lemma_gen_expr_frame(s2, sub, fuel);
                        let (s3, r3) = Codegen::spec_gen_expr(s2, sub, fuel);
                        lemma_frame_trans(s, s2, s3);
                        match r3 {
                            Result::Ok(rv) => {
                                if s3.ctx.globals.len() < usize::MAX {
                                    let gid = s3.ctx.globals.len() as usize;
                                    let gty = s3.ctx.spec_rvalue_type(&rv);
                                    let s4 = Codegen {
                                        ctx: s3.ctx.spec_new_global(
                                            crate::ir::GlobalDef {
                                                kind: crate::ir::GlobalKind::Internal,
                                                ty: gty,
                                                name: crate::ir::GlobalName::Tmp(s3.tmp_id),
                                            },
                                        ),
                                        ..s3
                                    };
                                    assert(expr_frame(s3, s4));
                                    lemma_frame_trans(s, s3, s4);
                                    match (s4.cur_func, s4.cur_block) {
                                        (Option::Some(f), Option::Some(b)) => {
                                            lemma_blocks_intact_add_instr(
                                                s4.ctx,
                                                f as int,
                                                b as int,
                                                crate::ir::Instr::Assign(
                                                    crate::ir::LValue::Global(gid),
                                                    rv,
                                                ),
                                            );
                                            let s5 = Codegen {
                                                ctx: s4.ctx.spec_add_instr(
                                                    f as int,
                                                    b as int,
                                                    crate::ir::Instr::Assign(
                                                        crate::ir::LValue::Global(gid),
                                                        rv,
                                                    ),
                                                ),
                                                ..s4
                                            };
                                            lemma_frame_trans(s, s4, s5);
                                            if s5.tmp_id != usize::MAX {
                                                let s6 = Codegen {
                                                    tmp_id: (s5.tmp_id + 1) as usize,
                                                    ..s5
                                                };
                                                lemma_frame_trans(s, s5, s6);
                                            }
                                        },
                                        _ => {},
                                    }
                                }
                            },
                            Result::Err(_) => {},
                        }
                    },
                    _ => {},
                }
            }
        },
        Result::Err(_) => {},
    }
}

/// Lowering a binary expression keeps the frame.
pub proof fn lemma_gen_binary_frame(
    s: Codegen,
    eid: NodeId,
    op: crate::ast::BinOp,
    e1: Expr,
    e2: Expr,
    fuel: nat,
)
    ensures
        expr_frame(s, Codegen::spec_gen_binary(s, eid, op, e1, e2, fuel).0),
    decreases fuel, 1 + crate::ast::esize(e1) + crate::ast::esize(e2), 2int,
{
    match s.spec_get_id_type(e1.id) {
        Result::Err(_) => {},
        Result::Ok(t1) => match s.spec_get_id_type(e2.id) {
            Result::Err(_) => {},
            Result::Ok(t2) => match crate::lower::spec_cmp_op(op) {
                Option::Some(_) => {
                    lemma_ty_to_ctype_frame(s, t1, fuel);
                    let (s1, r1) = Codegen::spec_ty_to_ctype(s, t1, fuel);
                    if r1 is Ok {
                        lemma_gen_expr_frame(s1, e1, fuel);
                        let (s2, r2) = Codegen::spec_gen_expr(s1, e1, fuel);
                        lemma_frame_trans(s, s1, s2);
                        if r2 is Ok {
                            lemma_gen_expr_frame(s2, e2, fuel);
                            lemma_frame_trans(s, s2, Codegen::spec_gen_expr(s2, e2, fuel).0);
                        }
                    }
                },
                Option::None => {
                    if t1 is Ptr && crate::ast::spec_is_any_int(&t2) {
                        lemma_gen_expr_frame(s, e1, fuel);
                        let (s1, r1) = Codegen::spec_gen_expr(s, e1, fuel);
                        if r1 is Ok {
                            lemma_gen_expr_frame(s1, e2, fuel);
                            lemma_frame_trans(s, s1, Codegen::spec_gen_expr(s1, e2, fuel).0);
                        }
                    } else if (crate::ast::spec_is_any_int(&t1) && crate::ast::spec_is_any_int(&t2))
                        || (crate::ast::spec_is_any_float(&t1) && (crate::ast::spec_is_any_float(
                        &t2,
                    ) || crate::ast::spec_is_any_int(&t2))) || (t1 is Vector && (
                    crate::ast::spec_is_any_int(&t2) || crate::ast::spec_is_any_float(&t2))) {
                        lemma_ty_to_ctype_frame(s, t1, fuel);
                        let (s1, r1) = Codegen::spec_ty_to_ctype(s, t1, fuel);
                        match r1 {
                            Result::Ok(cty) => {
                                let bop = if crate::ast::spec_is_any_int(&t1)
                                    && crate::ast::spec_is_any_int(&t2) {
                                    crate::lower::spec_int_op(op)
                                } else {
                                    crate::lower::spec_arith_op(op)
                                };
                                match bop {
                                    Option::Some(b) => {
                                        lemma_gen_binop_operands_frame(s1, b, cty, e1, e2, fuel);
                                        lemma_frame_trans(
                                            s,
                                            s1,
                                            Codegen::spec_gen_binop_operands(
                                                s1,
                                                b,
                                                cty,
                                                e1,
                                                e2,
                                                fuel,
                                            ).0,
                                        );
                                    },
                                    Option::None => {},
                                }
                            },
                            Result::Err(_) => {},
                        }
                    } else {
                        let bools = match (t1, t2) {
                            (Type::Basic(b1), Type::Basic(b2)) => b1.name
                                == crate::ast::NAME_BOOL && b2.name == crate::ast::NAME_BOOL,
                            _ => false,
                        };
                        if bools {
                            lemma_gen_expr_frame(s, e1, fuel);
                            let (s1, r1) = Codegen::spec_gen_expr(s, e1, fuel);
                            if r1 is Ok {
                                lemma_gen_expr_frame(s1, e2, fuel);
                                lemma_frame_trans(s, s1, Codegen::spec_gen_expr(s1, e2, fuel).0);
                            }
                        }
                    }
                },
            },
        },
    }
}

/// Lowering both operands of an arithmetic operation keeps the frame.
pub proof fn lemma_gen_binop_operands_frame(
    s: Codegen,
    bop: crate::ir::BinaryOp,
    cty: CType,
    e1: Expr,
    e2: Expr,
    fuel: nat,
)
    ensures
        expr_frame(s, Codegen::spec_gen_binop_operands(s, bop, cty, e1, e2, fuel).0),
    decreases fuel, crate::ast::esize(e1) + crate::ast::esize(e2), 1int,
{
    lemma_gen_expr_frame(s, e1, fuel);
    let (s1, r1) = Codegen::spec_gen_expr(s, e1, fuel);
    if r1 is Ok {
        lemma_gen_expr_frame(s1, e2, fuel);
        lemma_frame_trans(s, s1, Codegen::spec_gen_expr(s1, e2, fuel).0);
    }
}

/// Lowering a call keeps the frame.
pub proof fn lemma_gen_call_frame(
    s: Codegen,
    eid: NodeId,
    p: Position,
    path: crate::ast::Path,
    this: Option<Box<Expr>>,
    args: Lst<Expr>,
    fuel: nat,
)
    ensures
        expr_frame(s, Codegen::spec_gen_call(s, eid, p, path, this, args, fuel).0),
    decreases fuel, 1 + crate::ast::osize(this) + crate::ast::elsize(args), 2int,
{
    let name = path.name;
    match s.spec_arg_types(args) {
        Result::Err(_) => {},
        Result::Ok(ptys) => match s.functions.spec_get(name) {
            Option::Some(units) => {
                let thisty = match this {
                    Option::Some(te) => match s.spec_get_id_type(te.id) {
                        Result::Ok(t) => Result::Ok(Option::Some(t)),
                        Result::Err(er) => Result::Err(er),
                    },
                    Option::None => Result::Ok(Option::<Type>::None),
                };
                match thisty {
                    Result::Err(_) => {},
                    Result::Ok(tt) => {
                        lemma_search_frame(s, ptys, tt, units, fuel);
                        let (s1, r1) = Codegen::spec_search_for_func(s, ptys, tt, units, fuel);
                        match r1 {
                            Result::Ok(Option::Some((_, ctys, atys))) => {
                                lemma_lower_call_args_frame(s1, args, atys, ctys, fuel);
                                let (s2, r2) = Codegen::spec_lower_call_args(
                                    s1,
                                    args,
                                    atys,
                                    ctys,
                                    fuel,
                                );
                                lemma_frame_trans(s, s1, s2);
                                match r2 {
                                    Result::Ok(_) => match this {
                                        Option::None => {},
                                        Option::Some(te) => match s2.spec_get_id_type(te.id) {
                                            Result::Err(_) => {},
                                            Result::Ok(tty) => if !(tty is Ptr) {
                                                lemma_ty_to_ctype_frame(s2, tty, fuel);
                                                let (s3, r3) = Codegen::spec_ty_to_ctype(
                                                    s2,
                                                    tty,
                                                    fuel,
                                                );
                                                lemma_frame_trans(s, s2, s3);
                                                if r3 is Ok {
                                                    lemma_gen_addressof_frame(
                                                        s3,
                                                        te.id,
                                                        *te,
                                                        fuel,
                                                    );
                                                    lemma_frame_trans(
                                                        s,
                                                        s3,
                                                        Codegen::spec_gen_addressof(
                                                            s3,
                                                            te.id,
                                                            *te,
                                                            fuel,
                                                        ).0,
                                                    );
                                                }
                                            } else {
                                                lemma_gen_expr_frame(s2, *te, fuel);
                                                lemma_frame_trans(
                                                    s,
                                                    s2,
                                                    Codegen::spec_gen_expr(s2, *te, fuel).0,
                                                );
                                            },
                                        },
                                    },
                                    Result::Err(_) => {},
                                }
                            },
                            _ => {},
                        }
                    },
                }
            },
            Option::None => match s.const_functions.spec_get(name) {
                Option::Some(_) => {},
                Option::None => match s.external_functions.spec_get(name) {
                    Option::Some(unit) => {
                        lemma_lower_ext_args_frame(s, args, unit.f.params, fuel);
                    },
                    Option::None => match s.variables.spec_get(name) {
                        Option::Some(_) => {
                            lemma_lower_plain_args_frame(s, args, fuel);
                        },
                        Option::None => {},
                    },
                },
            },
        },
    }
}

/// Lowering call arguments keeps the frame.
pub proof fn lemma_lower_call_args_frame(
    s: Codegen,
    args: Lst<Expr>,
    atys: Lst<Type>,
    ctys: Lst<CType>,
    fuel: nat,
)
    ensures
        expr_frame(s, Codegen::spec_lower_call_args(s, args, atys, ctys, fuel).0),
    decreases fuel, crate::ast::elsize(args), 0int,
{
    match args {
        Lst::Nil => {},
        Lst::Cons(a, rest) => {
            lemma_gen_expr_frame(s, a, fuel);
            let (s1, r1) = Codegen::spec_gen_expr(s, a, fuel);
            if r1 is Ok {
                match (atys, ctys) {
                    (Lst::Cons(_, tyr), Lst::Cons(_, ctyr)) => {
                        lemma_lower_call_args_frame(s1, *rest, *tyr, *ctyr, fuel);
                        lemma_frame_trans(
                            s,
                            s1,
                            Codegen::spec_lower_call_args(s1, *rest, *tyr, *ctyr, fuel).0,
                        );
                    },
                    _ => {
                        lemma_lower_call_args_frame(s1, *rest, Lst::Nil, Lst::Nil, fuel);
                        lemma_frame_trans(
                            s,
                            s1,
                            Codegen::spec_lower_call_args(s1, *rest, Lst::Nil, Lst::Nil, fuel).0,
                        );
                    },
                }
            }
        },
    }
}

/// Lowering external-call arguments keeps the frame.
pub proof fn lemma_lower_ext_args_frame(s: Codegen, args: Lst<Expr>, decl: Lst<(Name, Type)>, fuel: nat)
    ensures
        expr_frame(s, Codegen::spec_lower_ext_args(s, args, decl, fuel).0),
    decreases fuel, crate::ast::elsize(args), 0int,
{
    match args {
        Lst::Nil => {},
        Lst::Cons(a, rest) => {
            lemma_gen_expr_frame(s, a, fuel);
            let (s1, r1) = Codegen::spec_gen_expr(s, a, fuel);
            if r1 is Ok {
                match decl {
                    Lst::Cons(d, dr) => {
                        lemma_ty_to_ctype_frame(s1, d.1, fuel);
                        let (s2, r2) = Codegen::spec_ty_to_ctype(s1, d.1, fuel);
                        lemma_frame_trans(s, s1, s2);
                        if r2 is Ok {
                            lemma_lower_ext_args_frame(s2, *rest, *dr, fuel);
                            lemma_frame_trans(
                                s,
                                s2,
                                Codegen::spec_lower_ext_args(s2, *rest, *dr, fuel).0,
                            );
                        }
                    },
                    Lst::Nil => {
                        lemma_lower_ext_args_frame(s1, *rest, Lst::Nil, fuel);
                        lemma_frame_trans(
                            s,
                            s1,
                            Codegen::spec_lower_ext_args(s1, *rest, Lst::Nil, fuel).0,
                        );
                    },
                }
            }
        },
    }
}

/// Lowering plain arguments keeps the frame.
pub proof fn lemma_lower_plain_args_frame(s: Codegen, args: Lst<Expr>, fuel: nat)
    ensures
        expr_frame(s, Codegen::spec_lower_plain_args(s, args, fuel).0),
    decreases fuel, crate::ast::elsize(args), 0int,
{
    match args {
        Lst::Nil => {},
        Lst::Cons(a, rest) => {
            lemma_gen_expr_frame(s, a, fuel);
            let (s1, r1) = Codegen::spec_gen_expr(s, a, fuel);
            if r1 is Ok {
                lemma_lower_plain_args_frame(s1, *rest, fuel);
                lemma_frame_trans(s, s1, Codegen::spec_lower_plain_args(s1, *rest, fuel).0);
            }
        },
    }
}

/// Lowering a struct literal keeps the frame.
pub proof fn lemma_gen_struct_lit_frame(
    s: Codegen,
    eid: NodeId,
    p: Position,
    path: crate::ast::Path,
    args: Lst<crate::ast::StructArg>,
    fuel: nat,
)
    ensures
        expr_frame(s, Codegen::spec_gen_struct_lit(s, eid, p, path, args, fuel).0),
    decreases fuel, 1 + crate::ast::alsize(args), 2int,
{
    let name = path.name;
    let probe = Type::Basic(BasicType { id: eid, pos: p, name });
    match Codegen::spec_find_struct(s.structures, s.aliases, probe, fuel) {
        Option::None => {},
        Option::Some(g) => {
            if s.tmp_id != usize::MAX {
                let s1 = Codegen { tmp_id: (s.tmp_id + 1) as usize, ..s };
                match s1.cur_func {
                    Option::None => {},
                    Option::Some(f) => match s1.ctx.spec_func(f as int) {
                        Option::None => {},
                        Option::Some(fd) => {
                            if fd.locals.len() < usize::MAX {
                                let lid = fd.locals.len() as usize;
                                lemma_blocks_intact_new_local(
                                    s1.ctx,
                                    f as int,
                                    crate::ir::LocalName::Tmp(s.tmp_id),
                                    g.ty,
                                );
                                let s2 = Codegen {
                                    ctx: s1.ctx.spec_new_local(
                                        f as int,
                                        crate::ir::LocalName::Tmp(s.tmp_id),
                                        g.ty,
                                    ),
                                    ..s1
                                };
                                lemma_frame_trans(s, s1, s2);
                                lemma_gen_struct_args_frame(s2, f, lid, g.fields, args, fuel);
                                lemma_frame_trans(
                                    s,
                                    s2,
                                    Codegen::spec_gen_struct_args(
                                        s2,
                                        f,
                                        lid,
                                        g.fields,
                                        args,
                                        fuel,
                                    ).0,
                                );
                            }
                        },
                    },
                }
            }
        },
    }
}

/// Lowering a struct literal's field stores keeps the frame.
pub proof fn lemma_gen_struct_args_frame(
    s: Codegen,
    f: usize,
    lid: usize,
    fields: SymTable<crate::ir::Field>,
    args: Lst<crate::ast::StructArg>,
    fuel: nat,
)
    ensures
        expr_frame(s, Codegen::spec_gen_struct_args(s, f, lid, fields, args, fuel).0),
    decreases fuel, crate::ast::alsize(args), 0int,
{
    match args {
        Lst::Nil => {},
        Lst::Cons(a, rest) => {
            lemma_gen_expr_frame(s, *a.expr, fuel);
            let (s1, r1) = Codegen::spec_gen_expr(s, *a.expr, fuel);
            match r1 {
                Result::Ok(v) => match fields.spec_get(a.name) {
                    Option::None => {},
                    Option::Some(fld) => match (s1.cur_func, s1.cur_block) {
                        (Option::Some(cf), Option::Some(cb)) => {
                            let ins = crate::ir::Instr::Assign(
                                crate::ir::LValue::AccessField(
                                    Box::new(crate::ir::LValue::Local(f, lid)),
                                    fld,
                                ),
                                v,
                            );
                            lemma_blocks_intact_add_instr(s1.ctx, cf as int, cb as int, ins);
                            let s2 = Codegen {
                                ctx: s1.ctx.spec_add_instr(cf as int, cb as int, ins),
                                ..s1
                            };
                            lemma_frame_trans(s, s1, s2);
                            lemma_gen_struct_args_frame(s2, f, lid, fields, *rest, fuel);
                            lemma_frame_trans(
                                s,
                                s2,
                                Codegen::spec_gen_struct_args(s2, f, lid, fields, *rest, fuel).0,
                            );
                        },
                        _ => {},
                    },
                },
                Result::Err(_) => {},
            }
        },
    }
}

/// A `return` statement always terminates the block it is lowered into:
/// whatever the returned expression emits, lowering it moves no blocks, so
/// on success the block that was current when the statement began carries a
/// return terminator — one piece of control-flow totality.
pub proof fn lemma_return_terminates(s: Codegen, st: crate::ast::Stmt, init: bool, fuel: nat)
    requires
        st.kind is Return,
        s.cur_func is Some,
        s.cur_block is Some,
        s.ctx.spec_block(s.cur_func.unwrap() as int, s.cur_block.unwrap() as int) is Some,
    ensures
        ({
            let (s2, r) = Codegen::spec_gen_stmt(s, st, init, fuel);
            r is Ok ==> match s2.ctx.spec_block(
                s.cur_func.unwrap() as int,
                s.cur_block.unwrap() as int,
            ) {
                Option::Some(b) => b.term is Some && b.term.unwrap() is Return || b.term
                    == Option::Some(crate::ir::Terminator::VoidReturn),
                Option::None => false,
            }
        }),
{
    let f = s.cur_func.unwrap() as int;
    let b = s.cur_block.unwrap() as int;
    match st.kind {
        crate::ast::StmtKind::Return(oe) => match oe {
            Option::Some(e) => {
                lemma_gen_expr_frame(s, *e, fuel);
                let (s1, r1) = Codegen::spec_gen_expr(s, *e, fuel);
                match r1 {
                    Result::Ok(rv) => {
                        lemma_set_term_block(s1.ctx, f, b, crate::ir::Terminator::Return(rv), f, b);
                    },
                    Result::Err(_) => {},
                }
            },
            Option::None => {
                lemma_set_term_block(s.ctx, f, b, crate::ir::Terminator::VoidReturn, f, b);
            },
        },
        _ => {},
    }
}

} // verus!
