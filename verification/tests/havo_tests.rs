//! End-to-end checks of the code generator: programs are built as ASTs,
//! lowered, and the produced IR inspected piece by piece.

use havo::ast::{
    BasicType, BinOp, Elem, Expr, ExprKind, File, FuncType, Function, Global, IntBase, IntSuffix,
    Name, Path, Position, PtrType, ArrayType, Stmt, StmtKind, Struct, StructArg, StructField,
    Type, UnOp,
    NAME_BOOL, NAME_F32, NAME_I16, NAME_I32, NAME_I64, NAME_I8, NAME_MAIN, NAME_U8, NAME_USIZE,
};
use havo::const_eval::{Const, ConstEval, EvalError};
use havo::gccjit::{CgError, Codegen};
use havo::ir::{
    BinaryOp, BlockName, CFunctionDef, CType, DriverOpt, Field, FuncName, FunctionType, Instr,
    LValue, Mangle, OutputKind, RValue, Terminator, UnaryOp,
};
use havo::list::{Lst, SymTable};
use havo::opts::Backend;
use havo::toplevel::CompileOutput;
use havo::{gen_id, Context, NodeId, NodeIdGenerator};

// Symbols used by the test programs; user names start at FIRST_USER_NAME.
const S_P: Name = 100;
const S_X: Name = 101;
const S_Y: Name = 102;
const S_F: Name = 103;
const S_A: Name = 104;
const S_C: Name = 105;
const S_SQ: Name = 106;
const S_PRINTF: Name = 107;
const S_FMT: Name = 108;
const S_PVAR: Name = 109;
const S_U: Name = 110;

fn pos() -> Position {
    Position { file: 0, line: 1, column: 1 }
}

fn lst<T>(items: Vec<T>) -> Lst<T> {
    let mut out = Lst::Nil;
    for item in items.into_iter().rev() {
        out = Lst::Cons(item, Box::new(out));
    }
    out
}

fn lst_len<T>(mut l: &Lst<T>) -> usize {
    let mut n = 0;
    while let Lst::Cons(_, t) = l {
        n += 1;
        l = t;
    }
    n
}

fn lst_at<T>(mut l: &Lst<T>, mut i: usize) -> &T {
    loop {
        match l {
            Lst::Cons(h, t) => {
                if i == 0 {
                    return h;
                }
                i -= 1;
                l = t;
            }
            Lst::Nil => panic!("index out of range"),
        }
    }
}

fn ty_basic(name: Name) -> Type {
    Type::Basic(BasicType { id: NodeId(0), pos: pos(), name })
}

fn ty_i32() -> Type {
    ty_basic(NAME_I32)
}

fn ty_ptr(t: Type) -> Type {
    Type::Ptr(PtrType { pos: pos(), subtype: Box::new(t) })
}

fn ty_array(t: Type, n: usize) -> Type {
    Type::Array(ArrayType { pos: pos(), subtype: Box::new(t), len: Some(n) })
}

fn e(id: usize, kind: ExprKind) -> Expr {
    Expr { id: NodeId(id), pos: pos(), kind }
}

fn e_int(id: usize, v: i64) -> Expr {
    e(id, ExprKind::Int(v, IntBase::Dec, IntSuffix::Int))
}

fn e_ident(id: usize, name: Name) -> Expr {
    e(id, ExprKind::Ident(name))
}

fn st(id: usize, kind: StmtKind) -> Stmt {
    Stmt { id: NodeId(id), pos: pos(), kind }
}

fn func(name: Name, params: Vec<(Name, Type)>, ret: Type, body: Option<Stmt>) -> Function {
    Function {
        pos: pos(),
        name,
        params: lst(params),
        ret: Box::new(ret),
        this: None,
        body: body.map(Box::new),
        external: false,
        internal: false,
        public: true,
        inline: false,
        static_: false,
        constant: false,
        variadic: false,
        ir_temp_id: 0,
    }
}

fn context(elems: Vec<Elem>, types: Vec<(usize, Type)>) -> Context {
    let mut ctx = Context::new(File {
        path: String::new(),
        root: String::new(),
        elems: lst(elems),
    });
    ctx.types = SymTable {
        items: lst(types.into_iter().map(|(k, v)| (k as u64, v)).collect()),
    };
    ctx
}

fn lower(ctx: Context) -> Codegen {
    let mut cg = Codegen::new(ctx, "module");
    let mut elems = Lst::Nil;
    core::mem::swap(&mut elems, &mut cg.context.file.elems);
    let mut elems2 = elems;
    cg.gen_toplevel(&mut elems2).expect("lowering failed");
    cg
}

fn struct_p() -> Elem {
    Elem::Struct(Struct {
        pos: pos(),
        name: S_P,
        fields: lst(vec![
            StructField { pos: pos(), name: S_X, data_type: Box::new(ty_i32()) },
            StructField { pos: pos(), name: S_Y, data_type: Box::new(ty_i32()) },
        ]),
        public: true,
        union: false,
    })
}

fn find_fn<'a>(cg: &'a Codegen, name: &FuncName) -> (usize, &'a CFunctionDef) {
    let mut i = 0;
    let mut fs = &cg.ctx.funcs;
    while let Lst::Cons(f, t) = fs {
        if &f.name == name {
            return (i, f);
        }
        i += 1;
        fs = t;
    }
    panic!("function not found in module");
}

// A `sizeof` lowers to the very size the sizer computes, and the primitive
// widths are the documented fixed ones.
#[test]
fn sizer_fixed_widths() {
    let ctx = context(vec![], vec![]);
    let cg = Codegen::new(ctx, "m");
    assert_eq!(cg.ty_size(&ty_basic(NAME_U8)), Ok(1));
    assert_eq!(cg.ty_size(&ty_basic(NAME_BOOL)), Ok(1));
    assert_eq!(cg.ty_size(&ty_basic(NAME_I16)), Ok(2));
    assert_eq!(cg.ty_size(&ty_basic(NAME_F32)), Ok(4));
    assert_eq!(cg.ty_size(&ty_basic(NAME_I64)), Ok(8));
    assert_eq!(cg.ty_size(&ty_basic(NAME_USIZE)), Ok(8));
    assert_eq!(cg.ty_size(&ty_ptr(ty_i32())), Ok(8));
    assert_eq!(cg.ty_size(&ty_array(ty_i32(), 4)), Ok(16));
    assert_eq!(
        cg.ty_size(&Type::Array(ArrayType { pos: pos(), subtype: Box::new(ty_i32()), len: None })),
        Ok(8)
    );
}

// A struct's size is the sum of its field sizes; a union is summed the same
// way (the documented, compatibility-preserving quirk).
#[test]
fn sizer_struct_and_union_sum() {
    let union_u = Elem::Struct(Struct {
        pos: pos(),
        name: S_U,
        fields: lst(vec![
            StructField { pos: pos(), name: S_X, data_type: Box::new(ty_i32()) },
            StructField { pos: pos(), name: S_Y, data_type: Box::new(ty_basic(NAME_I64)) },
        ]),
        public: true,
        union: true,
    });
    let ctx = context(vec![struct_p(), union_u], vec![]);
    let cg = lower(ctx);
    assert_eq!(cg.ty_size(&ty_basic(S_P)), Ok(8));
    // A union of i32 and i64 is reported as 12, not 8.
    assert_eq!(cg.ty_size(&ty_basic(S_U)), Ok(12));
}

// An unknown type name is a fatal error, naming the symbol.
#[test]
fn sizer_unknown_name() {
    let ctx = context(vec![], vec![]);
    let cg = Codegen::new(ctx, "m");
    assert_eq!(cg.ty_size(&ty_basic(999)), Err(CgError::UnknownType(999)));
}

// Lowering a named struct twice materializes it once: the registry and the
// module hold a single definition, referenced by identity.
#[test]
fn struct_interned_once() {
    let ctx = context(vec![struct_p()], vec![]);
    let mut cg = lower(ctx);
    assert_eq!(lst_len(&cg.ctx.structs), 1);
    let t1 = cg.ty_to_ctype(&ty_basic(S_P)).unwrap();
    let t2 = cg.ty_to_ctype(&ty_basic(S_P)).unwrap();
    assert_eq!(t1, CType::Struct(0));
    assert_eq!(t1, t2);
    assert_eq!(lst_len(&cg.ctx.structs), 1);
    let sd = lst_at(&cg.ctx.structs, 0);
    assert_eq!(sd.name, S_P);
    assert!(!sd.union);
    assert_eq!(lst_len(&sd.fields), 2);
    assert_eq!(*lst_at(&sd.fields, 0), (S_X, CType::I32));
    assert_eq!(*lst_at(&sd.fields, 1), (S_Y, CType::I32));
}

// An alias chain is transparent to lookups.
#[test]
fn alias_transparent() {
    let alias = Elem::Alias(S_A, ty_basic(S_P));
    let ctx = context(vec![struct_p(), alias], vec![]);
    let mut cg = lower(ctx);
    assert_eq!(cg.ty_to_ctype(&ty_basic(S_A)), Ok(CType::Struct(0)));
    assert_eq!(cg.ty_size(&ty_basic(S_A)), Ok(8));
    assert!(cg.find_struct(&ty_basic(S_A)).is_some());
}

// Lowering the same program twice produces structurally identical IR.
#[test]
fn lowering_deterministic() {
    let build = || {
        let body = st(1, StmtKind::Return(Some(Box::new(e_int(2, 7)))));
        context(
            vec![struct_p(), Elem::Func(func(NAME_MAIN, vec![], ty_i32(), Some(body)))],
            vec![],
        )
    };
    let a = lower(build());
    let b = lower(build());
    assert_eq!(a.ctx, b.ctx);
}

// Struct round-trip: `var p: P = P { x: 3, y: 4 }; return p.x + p.y;` lowers
// to one interned struct, field stores of 3 and 4, and a return that adds
// the two field reads — the program computes 7.
#[test]
fn struct_round_trip() {
    let lit = e(
        2,
        ExprKind::Struct(
            Path { name: S_P },
            lst(vec![
                StructArg { id: NodeId(20), pos: pos(), name: S_X, expr: Box::new(e_int(3, 3)) },
                StructArg { id: NodeId(21), pos: pos(), name: S_Y, expr: Box::new(e_int(4, 4)) },
            ]),
        ),
    );
    let var_p = st(1, StmtKind::Var(S_PVAR, false, Some(Box::new(ty_basic(S_P))), Some(Box::new(lit))));
    let ret = st(
        5,
        StmtKind::Return(Some(Box::new(e(
            6,
            ExprKind::Binary(
                BinOp::Add,
                Box::new(e(7, ExprKind::Field(Box::new(e_ident(8, S_PVAR)), S_X))),
                Box::new(e(9, ExprKind::Field(Box::new(e_ident(10, S_PVAR)), S_Y))),
            ),
        )))),
    );
    let body = st(11, StmtKind::Block(Box::new(lst(vec![var_p, ret]))));
    let ctx = context(
        vec![struct_p(), Elem::Func(func(NAME_MAIN, vec![], ty_i32(), Some(body)))],
        vec![(1, ty_basic(S_P)), (7, ty_i32()), (9, ty_i32()), (8, ty_basic(S_P)), (10, ty_basic(S_P))],
    );
    let cg = lower(ctx);
    assert_eq!(lst_len(&cg.ctx.structs), 1);
    let (_, main) = find_fn(&cg, &FuncName::Main);
    let entry = lst_at(&main.blocks, 0);
    assert_eq!(entry.name, BlockName::Entry);
    // Two field stores into the struct temporary, then the store into `p`.
    assert_eq!(lst_len(&entry.instrs), 3);
    let fld_x = Field { owner: 0, index: 0 };
    let fld_y = Field { owner: 0, index: 1 };
    match lst_at(&entry.instrs, 0) {
        Instr::Assign(LValue::AccessField(base, f), RValue::IntConst(CType::I32, 3)) => {
            assert_eq!(**base, LValue::Local(main_id(&cg), 1));
            assert_eq!(*f, fld_x);
        }
        other => panic!("unexpected first store: {:?}", other),
    }
    match lst_at(&entry.instrs, 1) {
        Instr::Assign(LValue::AccessField(_, f), RValue::IntConst(CType::I32, 4)) => {
            assert_eq!(*f, fld_y);
        }
        other => panic!("unexpected second store: {:?}", other),
    }
    // Every block of `main` ends with a terminator: the body returns.
    match &entry.term {
        Some(Terminator::Return(RValue::Binary(BinaryOp::Plus, CType::I32, l, r))) => {
            match &**l {
                RValue::Read(lv) => match &**lv {
                    LValue::AccessField(_, f) => assert_eq!(*f, fld_x),
                    other => panic!("unexpected left read: {:?}", other),
                },
                other => panic!("unexpected left operand: {:?}", other),
            }
            match &**r {
                RValue::Cast(CType::I32, inner) => match &**inner {
                    RValue::Read(lv) => match &**lv {
                        LValue::AccessField(_, f) => assert_eq!(*f, fld_y),
                        other => panic!("unexpected right read: {:?}", other),
                    },
                    other => panic!("unexpected right operand: {:?}", other),
                },
                other => panic!("right operand not cast: {:?}", other),
            }
        }
        other => panic!("entry not terminated by the sum return: {:?}", other),
    }
}

fn main_id(cg: &Codegen) -> usize {
    find_fn(cg, &FuncName::Main).0
}

// Overload by receiver: with `f(a: i32)` and `f(this p: *P, a: i32)` in the
// set, the call `f(p, 1)` on a value receiver picks the receiver overload
// and passes the address of `p` as the trailing argument.
#[test]
fn overload_by_receiver() {
    let plain = func(S_F, vec![(S_A, ty_i32())], ty_i32(), Some(st(1, StmtKind::Return(Some(Box::new(e_int(2, 10)))))));
    let mut method = func(S_F, vec![(S_A, ty_i32())], ty_i32(), Some(st(3, StmtKind::Return(Some(Box::new(e_int(4, 20)))))));
    method.this = Some((S_PVAR, ty_ptr(ty_basic(S_P))));
    let call = e(
        10,
        ExprKind::Call(
            Path { name: S_F },
            Some(Box::new(e_ident(11, S_PVAR))),
            Box::new(lst(vec![e_int(12, 1)])),
        ),
    );
    let body = st(
        13,
        StmtKind::Block(Box::new(lst(vec![
            st(14, StmtKind::Var(S_PVAR, false, Some(Box::new(ty_basic(S_P))), None)),
            st(15, StmtKind::Return(Some(Box::new(call)))),
        ]))),
    );
    let ctx = context(
        vec![
            struct_p(),
            Elem::Func(plain),
            Elem::Func(method),
            Elem::Func(func(NAME_MAIN, vec![], ty_i32(), Some(body))),
        ],
        vec![(11, ty_basic(S_P)), (12, ty_i32()), (14, ty_basic(S_P))],
    );
    let cg = lower(ctx);
    // The method unit is the one with a receiver; find its IR id.
    let units = cg.functions.get(S_F).expect("overload set");
    let mut method_fid = None;
    let mut fs = units;
    while let Lst::Cons(u, t) = fs {
        if u.this_ast.is_some() {
            method_fid = Some(u.c);
        }
        fs = t;
    }
    let method_fid = method_fid.expect("receiver overload");
    let (_, main) = find_fn(&cg, &FuncName::Main);
    let entry = lst_at(&main.blocks, 0);
    match &entry.term {
        Some(Terminator::Return(RValue::Call(fid, params))) => {
            assert_eq!(*fid, method_fid);
            assert_eq!(lst_len(params), 2);
            match lst_at(params, 1) {
                RValue::Cast(CType::Ptr(_), addr) => match &**addr {
                    RValue::AddressOf(_) => {}
                    other => panic!("receiver not address-taken: {:?}", other),
                },
                other => panic!("receiver argument not cast: {:?}", other),
            }
        }
        other => panic!("expected a call return: {:?}", other),
    }
}

// Pointer-indexed access: `p + 0` on a pointer lowers to array addressing,
// not arithmetic.
#[test]
fn pointer_plus_int_is_array_access() {
    let ret = st(
        1,
        StmtKind::Return(Some(Box::new(e(
            2,
            ExprKind::Binary(BinOp::Add, Box::new(e_ident(3, S_PVAR)), Box::new(e_int(4, 0))),
        )))),
    );
    let body = st(
        5,
        StmtKind::Block(Box::new(lst(vec![
            st(6, StmtKind::Var(S_PVAR, false, Some(Box::new(ty_ptr(ty_i32()))), None)),
            ret,
        ]))),
    );
    let ctx = context(
        vec![Elem::Func(func(NAME_MAIN, vec![], ty_i32(), Some(body)))],
        vec![(3, ty_ptr(ty_i32())), (4, ty_i32()), (6, ty_ptr(ty_i32()))],
    );
    let cg = lower(ctx);
    let (_, main) = find_fn(&cg, &FuncName::Main);
    let entry = lst_at(&main.blocks, 0);
    match &entry.term {
        Some(Terminator::Return(RValue::Read(lv))) => match &**lv {
            LValue::ArrayAccess(_, idx) => assert_eq!(**idx, RValue::IntConst(CType::I32, 0)),
            other => panic!("expected array addressing: {:?}", other),
        },
        other => panic!("expected a read return: {:?}", other),
    }
}

// Variadic matching: an external `printf(fmt: *i8, ...)` accepts extra
// arguments, and only the declared `fmt` parameter is cast.
#[test]
fn variadic_external_casts_declared_only() {
    let mut printf = func(S_PRINTF, vec![(S_FMT, ty_ptr(ty_basic(NAME_I8)))], ty_i32(), None);
    printf.external = true;
    printf.variadic = true;
    let call = e(
        1,
        ExprKind::Call(
            Path { name: S_PRINTF },
            None,
            Box::new(lst(vec![
                e(2, ExprKind::Str(String::from("hi"))),
                e_int(3, 1),
                e_int(4, 2),
            ])),
        ),
    );
    let body = st(5, StmtKind::Expr(Box::new(call)));
    let ctx = context(
        vec![Elem::Func(printf), Elem::Func(func(NAME_MAIN, vec![], ty_i32(), Some(body)))],
        vec![(2, ty_ptr(ty_basic(NAME_I8))), (3, ty_i32()), (4, ty_i32())],
    );
    let cg = lower(ctx);
    let (_, main) = find_fn(&cg, &FuncName::Main);
    let entry = lst_at(&main.blocks, 0);
    match lst_at(&entry.instrs, 0) {
        Instr::Eval(RValue::Call(_, params)) => {
            assert_eq!(lst_len(params), 3);
            assert!(matches!(lst_at(params, 0), RValue::Cast(_, _)));
            assert_eq!(*lst_at(params, 1), RValue::IntConst(CType::I32, 1));
            assert_eq!(*lst_at(params, 2), RValue::IntConst(CType::I32, 2));
        }
        other => panic!("expected an evaluated call: {:?}", other),
    }
}

// Break terminates with the break jump: in `while (1) { if (c) break; }`
// the then-branch ends with the jump to the loop exit (not a fall-through),
// and the body's merge block jumps back to the header.
#[test]
fn break_jump_and_loop_edges() {
    let body_if = st(
        1,
        StmtKind::If(
            Box::new(e_ident(2, S_C)),
            Box::new(st(3, StmtKind::Break)),
            None,
        ),
    );
    let w = st(4, StmtKind::While(Box::new(e_int(5, 1)), Box::new(body_if)));
    let body = st(
        6,
        StmtKind::Block(Box::new(lst(vec![
            st(7, StmtKind::Var(S_C, false, Some(Box::new(ty_basic(NAME_BOOL))), None)),
            w,
            st(8, StmtKind::Return(Some(Box::new(e_int(9, 0))))),
        ]))),
    );
    let ctx = context(
        vec![Elem::Func(func(NAME_MAIN, vec![], ty_i32(), Some(body)))],
        vec![(7, ty_basic(NAME_BOOL))],
    );
    let cg = lower(ctx);
    let (_, main) = find_fn(&cg, &FuncName::Main);
    // Blocks: 0 entry, 1 header, 2 body, 3 exit, 4 if-true, 5 if-false/merge.
    let entry = lst_at(&main.blocks, 0);
    assert_eq!(entry.term, Some(Terminator::Jump(1)));
    let header = lst_at(&main.blocks, 1);
    match &header.term {
        Some(Terminator::Cond(_, 2, 3)) => {}
        other => panic!("header not conditional: {:?}", other),
    }
    let if_true = lst_at(&main.blocks, 4);
    assert_eq!(if_true.name, BlockName::IfTrue(3));
    assert_eq!(if_true.term, Some(Terminator::Jump(3)));
    let merge = lst_at(&main.blocks, 5);
    assert_eq!(merge.term, Some(Terminator::Jump(1)));
    // The loop exit carries the code after the loop and is terminated too.
    let exit = lst_at(&main.blocks, 3);
    assert_eq!(exit.term, Some(Terminator::Return(RValue::IntConst(CType::I32, 0))));
    // Every block of this body is terminated.
    let mut bs = &main.blocks;
    while let Lst::Cons(b, t) = bs {
        assert!(b.term.is_some(), "unterminated block {:?}", b.name);
        bs = t;
    }
}

// Constant folding: with the evaluator enabled, `constexpr sq(x) = x * x`
// makes `var a = sq(5)` lower from the literal 25 — no call remains.
#[test]
fn constexpr_call_folds_to_literal() {
    let mut sq = func(
        S_SQ,
        vec![(S_X, ty_i32())],
        ty_i32(),
        Some(st(
            1,
            StmtKind::Return(Some(Box::new(e(
                2,
                ExprKind::Binary(
                    BinOp::Mul,
                    Box::new(e_ident(3, S_X)),
                    Box::new(e_ident(4, S_X)),
                ),
            )))),
        )),
    );
    sq.constant = true;
    let call = e(10, ExprKind::Call(Path { name: S_SQ }, None, Box::new(lst(vec![e_int(11, 5)]))));
    let body = st(12, StmtKind::Var(S_A, false, Some(Box::new(ty_i32())), Some(Box::new(call))));
    let ctx = context(
        vec![Elem::Func(sq), Elem::Func(func(NAME_MAIN, vec![], ty_i32(), Some(body)))],
        vec![(11, ty_i32())],
    );
    let mut ev = ConstEval::new(ctx, false);
    ev.run().expect("evaluation failed");
    // The initializer of `a` in main's body is now the literal 25.
    let mut found = false;
    let mut es = &ev.ctx.file.elems;
    while let Lst::Cons(el, t) = es {
        if let Elem::Func(f) = el {
            if f.name == NAME_MAIN {
                match &f.body.as_ref().unwrap().kind {
                    StmtKind::Var(_, _, _, Some(init)) => {
                        assert_eq!(init.kind, ExprKind::Int(25, IntBase::Dec, IntSuffix::Int));
                        found = true;
                    }
                    other => panic!("unexpected main body: {:?}", other),
                }
            }
        }
        es = t;
    }
    assert!(found);
}

// Integer folding wraps; division by zero is left for run time.
#[test]
fn folding_wraps_and_skips_div_by_zero() {
    assert_eq!(
        havo::const_eval::fold_binop(
            BinOp::Add,
            &Const::Imm(i64::MAX, IntSuffix::Long, IntBase::Dec),
            &Const::Imm(1, IntSuffix::Int, IntBase::Dec),
        ),
        Const::Imm(i64::MIN, IntSuffix::Long, IntBase::Dec)
    );
    assert_eq!(
        havo::const_eval::fold_binop(
            BinOp::Div,
            &Const::Imm(7, IntSuffix::Int, IntBase::Dec),
            &Const::Imm(0, IntSuffix::Int, IntBase::Dec),
        ),
        Const::Unknown
    );
    assert_eq!(
        havo::const_eval::fold_binop(
            BinOp::Shl,
            &Const::Imm(1, IntSuffix::Int, IntBase::Dec),
            &Const::Imm(70, IntSuffix::Int, IntBase::Dec),
        ),
        Const::Unknown
    );
    assert_eq!(
        havo::const_eval::fold_binop(
            BinOp::Lt,
            &Const::Imm(3, IntSuffix::Int, IntBase::Dec),
            &Const::Imm(4, IntSuffix::Int, IntBase::Dec),
        ),
        Const::Bool(true)
    );
}

// A call that matches no overload is the fatal resolution error, carrying
// the call's name and argument types.
#[test]
fn unknown_function_is_fatal() {
    let call = e(1, ExprKind::Call(Path { name: S_F }, None, Box::new(lst(vec![]))));
    let body = st(2, StmtKind::Expr(Box::new(call)));
    let ctx = context(vec![Elem::Func(func(NAME_MAIN, vec![], ty_i32(), Some(body)))], vec![]);
    let mut cg = Codegen::new(ctx, "m");
    let mut elems = Lst::Nil;
    core::mem::swap(&mut elems, &mut cg.context.file.elems);
    let mut elems2 = elems;
    assert_eq!(cg.gen_toplevel(&mut elems2), Err(CgError::UnknownFunction(S_F)));
}

// An overload set where no candidate matches the argument types reports the
// resolution failure with the offending types.
#[test]
fn overload_mismatch_is_fatal() {
    let plain = func(S_F, vec![(S_A, ty_i32())], ty_i32(), Some(st(1, StmtKind::Return(Some(Box::new(e_int(2, 0)))))));
    let call = e(
        3,
        ExprKind::Call(Path { name: S_F }, None, Box::new(lst(vec![e(4, ExprKind::Bool(true))]))),
    );
    let body = st(5, StmtKind::Expr(Box::new(call)));
    let ctx = context(
        vec![Elem::Func(plain), Elem::Func(func(NAME_MAIN, vec![], ty_i32(), Some(body)))],
        vec![(4, ty_basic(NAME_BOOL))],
    );
    let mut cg = Codegen::new(ctx, "m");
    let mut elems = Lst::Nil;
    core::mem::swap(&mut elems, &mut cg.context.file.elems);
    let mut elems2 = elems;
    match cg.gen_toplevel(&mut elems2) {
        Err(CgError::FunctionNotFound(name, tys)) => {
            assert_eq!(name, S_F);
            assert_eq!(lst_len(&tys), 1);
        }
        other => panic!("expected resolution failure, got {:?}", other),
    }
}

// `break` outside any loop is the empty-stack contract violation.
#[test]
fn break_outside_loop_is_fatal() {
    let body = st(1, StmtKind::Break);
    let ctx = context(vec![Elem::Func(func(NAME_MAIN, vec![], ty_i32(), Some(body)))], vec![]);
    let mut cg = Codegen::new(ctx, "m");
    let mut elems = Lst::Nil;
    core::mem::swap(&mut elems, &mut cg.context.file.elems);
    let mut elems2 = elems;
    assert_eq!(cg.gen_toplevel(&mut elems2), Err(CgError::EmptyLoopStack));
}

// `sizeof` lowers to the sizer's number, as a usize constant.
#[test]
fn sizeof_matches_sizer() {
    let ret = st(1, StmtKind::Return(Some(Box::new(e(2, ExprKind::SizeOf(Box::new(ty_basic(S_P))))))));
    let ctx = context(
        vec![struct_p(), Elem::Func(func(NAME_MAIN, vec![], ty_i32(), Some(ret)))],
        vec![],
    );
    let cg = lower(ctx);
    let (_, main) = find_fn(&cg, &FuncName::Main);
    let entry = lst_at(&main.blocks, 0);
    assert_eq!(entry.term, Some(Terminator::Return(RValue::IntConst(CType::USize, 8))));
    assert_eq!(cg.ty_size(&ty_basic(S_P)), Ok(8));
}

// Assignments to destinations whose recorded type is a registered struct
// never insert a cast; primitive destinations always do.
#[test]
fn implicit_cast_scope_on_assign() {
    // c = p  (struct destination, no cast); a = 1 (int destination, cast).
    let assign_struct = st(
        1,
        StmtKind::Expr(Box::new(e(
            2,
            ExprKind::Assign(Box::new(e_ident(3, S_C)), Box::new(e_ident(4, S_PVAR))),
        ))),
    );
    let assign_int = st(
        5,
        StmtKind::Expr(Box::new(e(
            6,
            ExprKind::Assign(Box::new(e_ident(7, S_A)), Box::new(e_int(8, 1))),
        ))),
    );
    let body = st(
        9,
        StmtKind::Block(Box::new(lst(vec![
            st(10, StmtKind::Var(S_PVAR, false, Some(Box::new(ty_basic(S_P))), None)),
            st(11, StmtKind::Var(S_C, false, Some(Box::new(ty_basic(S_P))), None)),
            st(12, StmtKind::Var(S_A, false, Some(Box::new(ty_i32())), None)),
            assign_struct,
            assign_int,
        ]))),
    );
    let ctx = context(
        vec![struct_p(), Elem::Func(func(NAME_MAIN, vec![], ty_i32(), Some(body)))],
        vec![
            (3, ty_basic(S_P)),
            (4, ty_basic(S_P)),
            (7, ty_i32()),
            (8, ty_i32()),
            (10, ty_basic(S_P)),
            (11, ty_basic(S_P)),
            (12, ty_i32()),
        ],
    );
    let cg = lower(ctx);
    let (_, main) = find_fn(&cg, &FuncName::Main);
    let entry = lst_at(&main.blocks, 0);
    // Each expression statement stores and then records the discarded value.
    assert_eq!(lst_len(&entry.instrs), 4);
    match lst_at(&entry.instrs, 0) {
        Instr::Assign(_, val) => assert!(
            !matches!(val, RValue::Cast(_, _)),
            "struct destination must not be cast: {:?}",
            val
        ),
        other => panic!("expected a store: {:?}", other),
    }
    match lst_at(&entry.instrs, 2) {
        Instr::Assign(_, val) => assert!(
            matches!(val, RValue::Cast(_, _)),
            "primitive destination must be cast: {:?}",
            val
        ),
        other => panic!("expected a store: {:?}", other),
    }
}

// Bitwise `|`, `&` and `^` lower to three distinct opcodes.
#[test]
fn distinct_bitwise_opcodes() {
    let mk = |op: BinOp, base: usize| {
        st(
            base,
            StmtKind::Expr(Box::new(e(
                base + 1,
                ExprKind::Binary(
                    op,
                    Box::new(e_int(base + 2, 6)),
                    Box::new(e_int(base + 3, 3)),
                ),
            ))),
        )
    };
    let body = st(
        1,
        StmtKind::Block(Box::new(lst(vec![
            mk(BinOp::Or, 10),
            mk(BinOp::And, 20),
            mk(BinOp::Xor, 30),
        ]))),
    );
    let ctx = context(
        vec![Elem::Func(func(NAME_MAIN, vec![], ty_i32(), Some(body)))],
        vec![
            (12, ty_i32()),
            (13, ty_i32()),
            (22, ty_i32()),
            (23, ty_i32()),
            (32, ty_i32()),
            (33, ty_i32()),
        ],
    );
    let cg = lower(ctx);
    let (_, main) = find_fn(&cg, &FuncName::Main);
    let entry = lst_at(&main.blocks, 0);
    let op_of = |i: usize| match lst_at(&entry.instrs, i) {
        Instr::Eval(RValue::Binary(op, _, _, _)) => *op,
        other => panic!("expected a binary eval: {:?}", other),
    };
    assert_eq!(op_of(0), BinaryOp::BitwiseOr);
    assert_eq!(op_of(1), BinaryOp::BitwiseAnd);
    assert_eq!(op_of(2), BinaryOp::BitwiseXor);
}

// Name mangling: `main` keeps its name; other functions concatenate the
// source name with the receiver's and each parameter's mangled type.
#[test]
fn mangled_names() {
    let g = func(S_F, vec![(S_A, ty_ptr(ty_i32()))], ty_i32(), Some(st(1, StmtKind::Return(Some(Box::new(e_int(2, 0)))))));
    let ctx = context(
        vec![Elem::Func(g), Elem::Func(func(NAME_MAIN, vec![], ty_i32(), Some(st(3, StmtKind::Return(Some(Box::new(e_int(4, 0))))))))],
        vec![],
    );
    let cg = lower(ctx);
    let expected = FuncName::Mangled(
        S_F,
        None,
        lst(vec![Mangle::Ptr(Box::new(Mangle::Sym(NAME_I32)))]),
    );
    let (_, f) = find_fn(&cg, &expected);
    assert_eq!(f.linkage, FunctionType::Exported);
    find_fn(&cg, &FuncName::Main);
}

// The ahead-of-time path decides kind and output path; the default path is
// `a.out`, and the C and math libraries are linked.
#[test]
fn compile_decides_artifact() {
    let body = st(1, StmtKind::Return(Some(Box::new(e_int(2, 0)))));
    let mut ctx = context(vec![Elem::Func(func(NAME_MAIN, vec![], ty_i32(), Some(body)))], vec![]);
    ctx.jit = false;
    ctx.emit_obj = true;
    let mut cg = Codegen::new(ctx, "m");
    let out: CompileOutput = cg.compile().expect("compilation failed");
    assert!(!out.jit);
    assert_eq!(out.kind, OutputKind::ObjectFile);
    assert_eq!(out.path, "a.out");
    let mut seen_c = false;
    let mut seen_m = false;
    let mut ds = &cg.ctx.driver_options;
    while let Lst::Cons(d, t) = ds {
        if *d == DriverOpt::LinkC {
            seen_c = true;
        }
        if *d == DriverOpt::LinkM {
            seen_m = true;
        }
        ds = t;
    }
    assert!(seen_c && seen_m);
}

// Global initializers are emitted into `main`'s entry block in declaration
// order, before any user statement.
#[test]
fn globals_seed_main() {
    let g1 = Elem::Global(Global {
        pos: pos(),
        name: S_A,
        typ: Box::new(ty_i32()),
        expr: Some(Box::new(e_int(1, 5))),
        external: false,
        public: false,
    });
    let body = st(2, StmtKind::Return(Some(Box::new(e_int(3, 0)))));
    let ctx = context(
        vec![g1, Elem::Func(func(NAME_MAIN, vec![], ty_i32(), Some(body)))],
        vec![],
    );
    let cg = lower(ctx);
    let (_, main) = find_fn(&cg, &FuncName::Main);
    let entry = lst_at(&main.blocks, 0);
    assert_eq!(
        *lst_at(&entry.instrs, 0),
        Instr::Assign(LValue::Global(0), RValue::IntConst(CType::I32, 5))
    );
}

// Fresh node ids are handed out in order.
#[test]
fn node_id_generator() {
    let mut g = NodeIdGenerator::new();
    assert_eq!(g.next(), NodeId(1));
    assert_eq!(gen_id(&mut g), NodeId(2));
    assert_eq!(g.next(), NodeId(3));
}

// Back-end names parse back to their variants.
#[test]
fn backend_from_str() {
    assert_eq!(Backend::from_str(Backend::gccjit()), Ok(Backend::GccJIT));
    assert_eq!(Backend::from_str(Backend::cpp()), Ok(Backend::CPP));
    assert_eq!(Backend::from_str("c++"), Ok(Backend::CPP));
    assert_eq!(Backend::from_str(Backend::cranelift()), Ok(Backend::CraneLift));
    assert!(Backend::from_str("llvm").is_err());
}

// Importing a resolved file carries its public items over and leaves the
// private ones behind.
#[test]
fn import_takes_public_items() {
    let mut pub_f = func(S_F, vec![], ty_i32(), None);
    pub_f.public = true;
    let mut priv_f = func(S_A, vec![], ty_i32(), None);
    priv_f.public = false;
    let imported = context(
        vec![Elem::Func(pub_f), Elem::Func(priv_f), Elem::Link(S_C), struct_p()],
        vec![],
    );
    let mut dst = context(vec![], vec![]);
    dst.import(imported);
    assert_eq!(lst_len(&dst.file.elems), 3);
    assert!(matches!(lst_at(&dst.file.elems, 0), Elem::Func(f) if f.name == S_F));
    assert!(matches!(lst_at(&dst.file.elems, 1), Elem::Link(n) if *n == S_C));
    assert!(matches!(lst_at(&dst.file.elems, 2), Elem::Struct(s) if s.name == S_P));
}

// An evaluator walk rejects unsupported statements inside constant functions.
#[test]
fn constfn_unsupported_stmt_is_fatal() {
    let mut looping = func(
        S_SQ,
        vec![],
        ty_i32(),
        Some(st(1, StmtKind::Loop(Box::new(st(2, StmtKind::Break))))),
    );
    looping.constant = true;
    let call = e(3, ExprKind::Call(Path { name: S_SQ }, None, Box::new(lst(vec![]))));
    let body = st(4, StmtKind::Var(S_A, false, Some(Box::new(ty_i32())), Some(Box::new(call))));
    let ctx = context(
        vec![Elem::Func(looping), Elem::Func(func(NAME_MAIN, vec![], ty_i32(), Some(body)))],
        vec![],
    );
    let mut ev = ConstEval::new(ctx, false);
    assert_eq!(ev.run(), Err(EvalError::UnsupportedStmt(NodeId(1))));
}


// An explicit conversion lowers to a cast to the target's IR type.
#[test]
fn explicit_conversion_casts() {
    let conv = e(1, ExprKind::Conv(Box::new(e_int(2, 5)), Box::new(ty_basic(NAME_I64))));
    let body = st(3, StmtKind::Return(Some(Box::new(conv))));
    let ctx = context(vec![Elem::Func(func(NAME_MAIN, vec![], ty_i32(), Some(body)))], vec![]);
    let cg = lower(ctx);
    let (_, main) = find_fn(&cg, &FuncName::Main);
    let entry = lst_at(&main.blocks, 0);
    match &entry.term {
        Some(Terminator::Return(RValue::Cast(CType::I64, inner))) => {
            assert_eq!(**inner, RValue::IntConst(CType::I32, 5));
        }
        other => panic!("expected a cast return: {:?}", other),
    }
}

// `-` is arithmetic negation; `!` on an integer is bitwise complement and
// on another type logical negation.
#[test]
fn unary_operators() {
    let neg = st(
        1,
        StmtKind::Expr(Box::new(e(2, ExprKind::Unary(UnOp::Neg, Box::new(e_int(3, 7)))))),
    );
    let not_int = st(
        4,
        StmtKind::Expr(Box::new(e(5, ExprKind::Unary(UnOp::Not, Box::new(e_int(6, 7)))))),
    );
    let body = st(7, StmtKind::Block(Box::new(lst(vec![neg, not_int]))));
    let ctx = context(
        vec![Elem::Func(func(NAME_MAIN, vec![], ty_i32(), Some(body)))],
        vec![(2, ty_i32()), (5, ty_i32())],
    );
    let cg = lower(ctx);
    let (_, main) = find_fn(&cg, &FuncName::Main);
    let entry = lst_at(&main.blocks, 0);
    assert!(matches!(
        lst_at(&entry.instrs, 0),
        Instr::Eval(RValue::Unary(UnaryOp::Minus, CType::I32, _))
    ));
    assert!(matches!(
        lst_at(&entry.instrs, 1),
        Instr::Eval(RValue::Unary(UnaryOp::BitwiseNegate, CType::I32, _))
    ));
}

// The C-style for loop builds the named header, body and exit scaffolding,
// runs the init in the entering block, and loops body-then-step back to the
// header.
#[test]
fn cfor_scaffolding() {
    let init = st(1, StmtKind::Var(S_A, false, Some(Box::new(ty_i32())), Some(Box::new(e_int(2, 0)))));
    let cond = e(
        3,
        ExprKind::Binary(BinOp::Lt, Box::new(e_ident(4, S_A)), Box::new(e_int(5, 4))),
    );
    let step = e(
        6,
        ExprKind::Assign(
            Box::new(e_ident(7, S_A)),
            Box::new(e(
                8,
                ExprKind::Binary(BinOp::Add, Box::new(e_ident(9, S_A)), Box::new(e_int(10, 1))),
            )),
        ),
    );
    let body_stmt = st(11, StmtKind::Expr(Box::new(e_ident(12, S_A))));
    let cfor = st(
        13,
        StmtKind::CFor(Box::new(init), Box::new(cond), Box::new(step), Box::new(body_stmt)),
    );
    let whole = st(
        14,
        StmtKind::Block(Box::new(lst(vec![cfor, st(15, StmtKind::Return(Some(Box::new(e_int(16, 0)))))]))),
    );
    let ctx = context(
        vec![Elem::Func(func(NAME_MAIN, vec![], ty_i32(), Some(whole)))],
        vec![
            (1, ty_i32()),
            (4, ty_i32()),
            (5, ty_i32()),
            (7, ty_i32()),
            (8, ty_i32()),
            (9, ty_i32()),
            (10, ty_i32()),
        ],
    );
    let cg = lower(ctx);
    let (_, main) = find_fn(&cg, &FuncName::Main);
    assert_eq!(lst_at(&main.blocks, 1).name, BlockName::ForCond(0));
    assert_eq!(lst_at(&main.blocks, 2).name, BlockName::ForBody(1));
    assert_eq!(lst_at(&main.blocks, 3).name, BlockName::AfterFor(2));
    // Entering block runs the init and jumps to the header.
    let entry = lst_at(&main.blocks, 0);
    assert_eq!(entry.term, Some(Terminator::Jump(1)));
    assert!(matches!(lst_at(&entry.instrs, 0), Instr::Assign(LValue::Local(_, 0), _)));
    // The body ends by looping back to the header after the step.
    assert_eq!(lst_at(&main.blocks, 2).term, Some(Terminator::Jump(1)));
    match &lst_at(&main.blocks, 1).term {
        Some(Terminator::Cond(_, 2, 3)) => {}
        other => panic!("header not conditional: {:?}", other),
    }
}

// A constant function with a loop folds by iterating: summing 1 through 4
// at compile time gives the literal 10.
#[test]
fn constexpr_while_folds() {
    // constexpr sum(): { var s = 0; var i = 1; while (i < 5) { s = s + i; i = i + 1; } return s; }
    let body = st(
        1,
        StmtKind::Block(Box::new(lst(vec![
            st(2, StmtKind::Var(S_A, false, Some(Box::new(ty_i32())), Some(Box::new(e_int(3, 0))))),
            st(4, StmtKind::Var(S_C, false, Some(Box::new(ty_i32())), Some(Box::new(e_int(5, 1))))),
            st(
                6,
                StmtKind::While(
                    Box::new(e(
                        7,
                        ExprKind::Binary(BinOp::Lt, Box::new(e_ident(8, S_C)), Box::new(e_int(9, 5))),
                    )),
                    Box::new(st(
                        10,
                        StmtKind::Block(Box::new(lst(vec![
                            st(
                                11,
                                StmtKind::Expr(Box::new(e(
                                    12,
                                    ExprKind::Assign(
                                        Box::new(e_ident(13, S_A)),
                                        Box::new(e(
                                            14,
                                            ExprKind::Binary(
                                                BinOp::Add,
                                                Box::new(e_ident(15, S_A)),
                                                Box::new(e_ident(16, S_C)),
                                            ),
                                        )),
                                    ),
                                ))),
                            ),
                            st(
                                17,
                                StmtKind::Expr(Box::new(e(
                                    18,
                                    ExprKind::Assign(
                                        Box::new(e_ident(19, S_C)),
                                        Box::new(e(
                                            20,
                                            ExprKind::Binary(
                                                BinOp::Add,
                                                Box::new(e_ident(21, S_C)),
                                                Box::new(e_int(22, 1)),
                                            ),
                                        )),
                                    ),
                                ))),
                            ),
                        ]))),
                    )),
                ),
            ),
            st(23, StmtKind::Return(Some(Box::new(e_ident(24, S_A))))),
        ]))),
    );
    let mut sum = func(S_SQ, vec![], ty_i32(), Some(body));
    sum.constant = true;
    let call = e(30, ExprKind::Call(Path { name: S_SQ }, None, Box::new(lst(vec![]))));
    let main_body = st(31, StmtKind::Var(S_X, false, Some(Box::new(ty_i32())), Some(Box::new(call))));
    let ctx = context(
        vec![Elem::Func(sum), Elem::Func(func(NAME_MAIN, vec![], ty_i32(), Some(main_body)))],
        vec![],
    );
    let mut ev = ConstEval::new(ctx, false);
    ev.run().expect("evaluation failed");
    let mut es = &ev.ctx.file.elems;
    let mut checked = false;
    while let Lst::Cons(el, t) = es {
        if let Elem::Func(f) = el {
            if f.name == NAME_MAIN {
                match &f.body.as_ref().unwrap().kind {
                    StmtKind::Var(_, _, _, Some(init)) => {
                        assert_eq!(init.kind, ExprKind::Int(10, IntBase::Dec, IntSuffix::Int));
                        checked = true;
                    }
                    other => panic!("unexpected main body: {:?}", other),
                }
            }
        }
        es = t;
    }
    assert!(checked);
}

// Taking a function's address yields the declared function's handle, for
// ordinary and external names alike.
#[test]
fn function_address() {
    let mut ext = func(S_PRINTF, vec![], ty_i32(), None);
    ext.external = true;
    let g = func(S_F, vec![], ty_i32(), Some(st(1, StmtKind::Return(Some(Box::new(e_int(2, 0)))))));
    let body = st(
        3,
        StmtKind::Block(Box::new(lst(vec![
            st(4, StmtKind::Expr(Box::new(e(5, ExprKind::GetFunc(S_F))))),
            st(6, StmtKind::Expr(Box::new(e(7, ExprKind::GetFunc(S_PRINTF))))),
        ]))),
    );
    let ctx = context(
        vec![Elem::Func(ext), Elem::Func(g), Elem::Func(func(NAME_MAIN, vec![], ty_i32(), Some(body)))],
        vec![],
    );
    let cg = lower(ctx);
    let (ext_id, _) = find_fn(&cg, &FuncName::Plain(S_PRINTF));
    let (g_id, _) = find_fn(&cg, &FuncName::Mangled(S_F, None, Lst::Nil));
    let (_, main) = find_fn(&cg, &FuncName::Main);
    let entry = lst_at(&main.blocks, 0);
    assert_eq!(*lst_at(&entry.instrs, 0), Instr::Eval(RValue::FuncAddr(g_id)));
    assert_eq!(*lst_at(&entry.instrs, 1), Instr::Eval(RValue::FuncAddr(ext_id)));
}

// A call through a local of function-pointer type lowers to an indirect
// call on the local's value.
#[test]
fn call_through_pointer() {
    let fn_ty = Type::Func(FuncType {
        pos: pos(),
        ret: Box::new(ty_i32()),
        params: Box::new(Lst::Nil),
    });
    let body = st(
        1,
        StmtKind::Block(Box::new(lst(vec![
            st(2, StmtKind::Var(S_PVAR, false, Some(Box::new(fn_ty.clone_ty())), None)),
            st(
                3,
                StmtKind::Expr(Box::new(e(
                    4,
                    ExprKind::Call(Path { name: S_PVAR }, None, Box::new(lst(vec![]))),
                ))),
            ),
        ]))),
    );
    let ctx = context(
        vec![Elem::Func(func(NAME_MAIN, vec![], ty_i32(), Some(body)))],
        vec![(2, fn_ty)],
    );
    let cg = lower(ctx);
    let (_, main) = find_fn(&cg, &FuncName::Main);
    let entry = lst_at(&main.blocks, 0);
    match lst_at(&entry.instrs, 0) {
        Instr::Eval(RValue::CallPtr(target, params)) => {
            assert!(matches!(&**target, RValue::Read(_)));
            assert_eq!(lst_len(params), 0);
        }
        other => panic!("expected an indirect call: {:?}", other),
    }
}
