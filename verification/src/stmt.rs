//! The statement lowerer: blocks, terminators, and loop scaffolding.
//!
//! Statements are emitted into the current block of the current function.
//! Three stacks run in parallel with the control-flow scopes: targets of
//! `break`, targets of `continue`, and the termination stack whose top says
//! whether the current lexical branch already emitted a terminator — its
//! readers suppress redundant fall-through jumps.

use vstd::prelude::*;

use crate::ast::{esize, slsize, ssize, Expr, Stmt, StmtKind, Type};
use crate::gccjit::{CgError, Codegen, VarInfo};
use crate::ir::{BlockName, Instr, LValue, LocalName, RValue, Terminator};
use crate::list::Lst;

verus! {

/// The stack without its top element; an empty stack stays empty (spec).
pub open spec fn spec_tail<T>(l: Lst<T>) -> Lst<T> {
    match l {
        Lst::Cons(_, t) => *t,
        Lst::Nil => Lst::Nil,
    }
}

impl Codegen {
    /// A fresh numbered block appended to function `f` (spec): draws a name
    /// number, builds the name with `kind`, and appends the block.  Yields
    /// the new block's id.
    pub open spec fn spec_fresh_block(s: Codegen, f: usize, name: BlockName) -> (Codegen, Result<
        usize,
        CgError,
    >) {
        match s.ctx.spec_func(f as int) {
            Option::None => (s, Result::Err(CgError::TooManyItems)),
            Option::Some(fd) => if fd.blocks.len() >= usize::MAX {
                (s, Result::Err(CgError::TooManyItems))
            } else {
                let bid = fd.blocks.len() as usize;
                (
                    Codegen { ctx: s.ctx.spec_new_block(f as int, name), ..s },
                    Result::Ok(bid),
                )
            },
        }
    }

    /// Terminating the current block (spec): requires a current function and
    /// a current block.
    pub open spec fn spec_end_cur(s: Codegen, t: Terminator) -> (Codegen, Result<(), CgError>) {
        match (s.cur_func, s.cur_block) {
            (Option::Some(f), Option::Some(b)) => (
                Codegen { ctx: s.ctx.spec_set_term(f as int, b as int, t), ..s },
                Result::Ok(()),
            ),
            (Option::None, _) => (s, Result::Err(CgError::NoCurrentFunction)),
            (_, Option::None) => (s, Result::Err(CgError::NoCurrentBlock)),
        }
    }

    /// Whether the top of the termination stack is set; an empty stack
    /// counts as not terminated (spec).
    pub open spec fn spec_terminated_top(s: Codegen) -> bool {
        match s.terminated {
            Lst::Cons(h, _) => h,
            Lst::Nil => false,
        }
    }

    /// Lowering of a statement (spec).  `init` marks the top level of a
    /// function body, where a block statement emits into the current block
    /// instead of allocating a fresh one.
    pub open spec fn spec_gen_stmt(s: Codegen, st: Stmt, init: bool, fuel: nat) -> (Codegen, Result<
        (),
        CgError,
    >)
        decreases fuel, ssize(st), 1int,
    {
        match st.kind {
            StmtKind::CompTime(sub) => Self::spec_gen_stmt(s, *sub, init, fuel),
            StmtKind::Expr(e) => match Self::spec_gen_expr(s, *e, fuel) {
                (s1, Result::Err(er)) => (s1, Result::Err(er)),
                (s1, Result::Ok(rv)) => match (s1.cur_func, s1.cur_block) {
                    (Option::Some(f), Option::Some(b)) => (
                        Codegen {
                            ctx: s1.ctx.spec_add_instr(f as int, b as int, Instr::Eval(rv)),
                            ..s1
                        },
                        Result::Ok(()),
                    ),
                    (Option::None, _) => (s1, Result::Err(CgError::NoCurrentFunction)),
                    (_, Option::None) => (s1, Result::Err(CgError::NoCurrentBlock)),
                },
            },
            StmtKind::Block(ss) => if init {
                Self::spec_gen_stmt_list(s, *ss, fuel)
            } else {
                let old_block = s.cur_block;
                match Self::spec_block_name_new(s) {
                    (s1, Result::Err(er)) => (s1, Result::Err(er)),
                    (s1, Result::Ok(n)) => match s1.cur_func {
                        Option::None => (s1, Result::Err(CgError::NoCurrentFunction)),
                        Option::Some(f) => match Self::spec_fresh_block(s1, f, BlockName::L(n)) {
                            (s2, Result::Err(er)) => (s2, Result::Err(er)),
                            (s2, Result::Ok(bid)) => {
                                let s3 = Codegen { cur_block: Option::Some(bid), ..s2 };
                                match Self::spec_gen_stmt_list(s3, *ss, fuel) {
                                    (s4, Result::Err(er)) => (s4, Result::Err(er)),
                                    (s4, Result::Ok(())) => (
                                        Codegen { cur_block: old_block, ..s4 },
                                        Result::Ok(()),
                                    ),
                                }
                            },
                        },
                    },
                }
            },
            StmtKind::Break => match s.break_blocks {
                Lst::Nil => (s, Result::Err(CgError::EmptyLoopStack)),
                Lst::Cons(bb, _) => match Self::spec_end_cur(s, Terminator::Jump(bb)) {
                    (s1, Result::Err(er)) => (s1, Result::Err(er)),
                    (s1, Result::Ok(())) => {
                        let s2 = Codegen { cur_block: Option::Some(bb), ..s1 };
                        match s2.terminated {
                            Lst::Nil => (s2, Result::Err(CgError::EmptyLoopStack)),
                            Lst::Cons(_, t) => (
                                Codegen { terminated: Lst::Cons(true, t), ..s2 },
                                Result::Ok(()),
                            ),
                        }
                    },
                },
            },
            StmtKind::Continue => match s.continue_blocks {
                Lst::Nil => (s, Result::Err(CgError::EmptyLoopStack)),
                Lst::Cons(cb, _) => match Self::spec_block_name_new(s) {
                    (s1, Result::Err(er)) => (s1, Result::Err(er)),
                    (s1, Result::Ok(n)) => match s1.cur_func {
                        Option::None => (s1, Result::Err(CgError::NoCurrentFunction)),
                        Option::Some(f) => match Self::spec_fresh_block(s1, f, BlockName::L(n)) {
                            (s2, Result::Err(er)) => (s2, Result::Err(er)),
                            (s2, Result::Ok(dead)) => match Self::spec_end_cur(
                                s2,
                                Terminator::Jump(cb),
                            ) {
                                (s3, Result::Err(er)) => (s3, Result::Err(er)),
                                (s3, Result::Ok(())) => (
                                    Codegen { cur_block: Option::Some(dead), ..s3 },
                                    Result::Ok(()),
                                ),
                            },
                        },
                    },
                },
            },
            StmtKind::Return(oe) => {
                let ended = match oe {
                    Option::Some(e) => match Self::spec_gen_expr(s, *e, fuel) {
                        (s1, Result::Err(er)) => (s1, Result::Err(er)),
                        (s1, Result::Ok(rv)) => Self::spec_end_cur(s1, Terminator::Return(rv)),
                    },
                    Option::None => Self::spec_end_cur(s, Terminator::VoidReturn),
                };
                match ended {
                    (s1, Result::Err(er)) => (s1, Result::Err(er)),
                    (s1, Result::Ok(())) => match s1.terminated {
                        Lst::Cons(_, t) => (
                            Codegen { terminated: Lst::Cons(true, t), ..s1 },
                            Result::Ok(()),
                        ),
                        Lst::Nil => (s1, Result::Ok(())),
                    },
                }
            },
            StmtKind::Var(name, _, _, oinit) => match s.spec_get_id_type(st.id) {
                Result::Err(er) => (s, Result::Err(er)),
                Result::Ok(ty) => match Self::spec_ty_to_ctype(s, ty, fuel) {
                    (s1, Result::Err(er)) => (s1, Result::Err(er)),
                    (s1, Result::Ok(cty)) => match s1.cur_func {
                        Option::None => (s1, Result::Err(CgError::NoCurrentFunction)),
                        Option::Some(f) => match s1.ctx.spec_func(f as int) {
                            Option::None => (s1, Result::Err(CgError::TooManyItems)),
                            Option::Some(fd) => if fd.locals.len() >= usize::MAX {
                                (s1, Result::Err(CgError::TooManyItems))
                            } else {
                                let lid = fd.locals.len() as usize;
                                let s2 = Codegen {
                                    ctx: s1.ctx.spec_new_local(
                                        f as int,
                                        LocalName::Named(name),
                                        cty,
                                    ),
                                    ..s1
                                };
                                let local = LValue::Local(f, lid);
                                let stored = match oinit {
                                    Option::Some(e) => match Self::spec_gen_expr(s2, *e, fuel) {
                                        (s3, Result::Err(er)) => (s3, Result::Err(er)),
                                        (s3, Result::Ok(rv)) => {
                                            let val = if !(ty is Struct) && !(ty is Array) {
                                                RValue::Cast(cty, Box::new(rv))
                                            } else {
                                                rv
                                            };
                                            match (s3.cur_func, s3.cur_block) {
                                                (Option::Some(cf), Option::Some(cb)) => (
                                                    Codegen {
                                                        ctx: s3.ctx.spec_add_instr(
                                                            cf as int,
                                                            cb as int,
                                                            Instr::Assign(local, val),
                                                        ),
                                                        ..s3
                                                    },
                                                    Result::Ok(()),
                                                ),
                                                (Option::None, _) => (
                                                    s3,
                                                    Result::Err(CgError::NoCurrentFunction),
                                                ),
                                                (_, Option::None) => (
                                                    s3,
                                                    Result::Err(CgError::NoCurrentBlock),
                                                ),
                                            }
                                        },
                                    },
                                    Option::None => (s2, Result::Ok(())),
                                };
                                match stored {
                                    (s4, Result::Err(er)) => (s4, Result::Err(er)),
                                    (s4, Result::Ok(())) => (
                                        Codegen {
                                            variables: s4.variables.spec_insert(
                                                name,
                                                VarInfo { lval: LValue::Local(f, lid), ty, cty },
                                            ),
                                            ..s4
                                        },
                                        Result::Ok(()),
                                    ),
                                }
                            },
                        },
                    },
                },
            },
            StmtKind::If(cond, then, otherwise) => match s.cur_func {
                Option::None => (s, Result::Err(CgError::NoCurrentFunction)),
                Option::Some(f) => match Self::spec_block_name_new(s) {
                    (s1, Result::Err(er)) => (s1, Result::Err(er)),
                    (s1, Result::Ok(n1)) => match Self::spec_block_name_new(s1) {
                        (s2, Result::Err(er)) => (s2, Result::Err(er)),
                        (s2, Result::Ok(n2)) => match Self::spec_fresh_block(
                            s2,
                            f,
                            BlockName::IfTrue(n1),
                        ) {
                            (s3, Result::Err(er)) => (s3, Result::Err(er)),
                            (s3, Result::Ok(bb_then)) => match Self::spec_fresh_block(
                                s3,
                                f,
                                BlockName::IfFalse(n2),
                            ) {
                                (s4, Result::Err(er)) => (s4, Result::Err(er)),
                                (s4, Result::Ok(bb_else)) => {
                                    let merged = if otherwise is Some {
                                        match Self::spec_block_name_new(s4) {
                                            (s5, Result::Err(er)) => (s5, Result::Err(er)),
                                            (s5, Result::Ok(n3)) => Self::spec_fresh_block(
                                                s5,
                                                f,
                                                BlockName::After(n3),
                                            ),
                                        }
                                    } else {
                                        (s4, Result::Ok(bb_else))
                                    };
                                    match merged {
                                        (s5, Result::Err(er)) => (s5, Result::Err(er)),
                                        (s5, Result::Ok(bb_merge)) => match Self::spec_gen_expr(
                                            s5,
                                            *cond,
                                            fuel,
                                        ) {
                                            (s6, Result::Err(er)) => (s6, Result::Err(er)),
                                            (s6, Result::Ok(cv)) => match Self::spec_end_cur(
                                                s6,
                                                Terminator::Cond(cv, bb_then, bb_else),
                                            ) {
                                                (s7, Result::Err(er)) => (s7, Result::Err(er)),
                                                (s7, Result::Ok(())) => {
                                                    let s8 = Codegen {
                                                        terminated: Lst::Cons(
                                                            false,
                                                            Box::new(s7.terminated),
                                                        ),
                                                        cur_block: Option::Some(bb_then),
                                                        ..s7
                                                    };
                                                    match Self::spec_gen_stmt(s8, *then, true, fuel) {
                                                        (s9, Result::Err(er)) => (
                                                            s9,
                                                            Result::Err(er),
                                                        ),
                                                        (s9, Result::Ok(())) => {
                                                            let jumped = if !Self::spec_terminated_top(
                                                                s9,
                                                            ) {
                                                                Self::spec_end_cur(
                                                                    s9,
                                                                    Terminator::Jump(bb_merge),
                                                                )
                                                            } else {
                                                                (s9, Result::Ok(()))
                                                            };
                                                            match jumped {
                                                                (s10, Result::Err(er)) => (
                                                                    s10,
                                                                    Result::Err(er),
                                                                ),
                                                                (s10, Result::Ok(())) => {
                                                                    let s11 = Codegen {
                                                                        cur_block: Option::Some(
                                                                            bb_merge,
                                                                        ),
                                                                        terminated: Lst::Cons(
                                                                            false,
                                                                            Box::new(
                                                                                spec_tail(
                                                                                    s10.terminated,
                                                                                ),
                                                                            ),
                                                                        ),
                                                                        ..s10
                                                                    };
                                                                    let elsed = match otherwise {
                                                                        Option::Some(el) => {
                                                                            let s12 = Codegen {
                                                                                cur_block:
                                                                                    Option::Some(
                                                                                    bb_else,
                                                                                ),
                                                                                ..s11
                                                                            };
                                                                            match Self::spec_gen_stmt(
                                                                                s12,
                                                                                *el,
                                                                                true,
                                                                                fuel,
                                                                            ) {
                                                                                (
                                                                                    s13,
                                                                                    Result::Err(er),
                                                                                ) => (
                                                                                    s13,
                                                                                    Result::Err(er),
                                                                                ),
                                                                                (
                                                                                    s13,
                                                                                    Result::Ok(()),
                                                                                ) => if !Self::spec_terminated_top(
                                                                                    s13,
                                                                                ) {
                                                                                    Self::spec_end_cur(
                                                                                        s13,
                                                                                        Terminator::Jump(
                                                                                            bb_merge,
                                                                                        ),
                                                                                    )
                                                                                } else {
                                                                                    (
                                                                                        s13,
                                                                                        Result::Ok(
                                                                                            (),
                                                                                        ),
                                                                                    )
                                                                                },
                                                                            }
                                                                        },
                                                                        Option::None => (
                                                                            s11,
                                                                            Result::Ok(()),
                                                                        ),
                                                                    };
                                                                    match elsed {
                                                                        (s14, Result::Err(er)) => (
                                                                            s14,
                                                                            Result::Err(er),
                                                                        ),
                                                                        (s14, Result::Ok(())) => (
                                                                            Codegen {
                                                                                terminated:
                                                                                    spec_tail(
                                                                                    s14.terminated,
                                                                                ),
                                                                                cur_block:
                                                                                    Option::Some(
                                                                                    bb_merge,
                                                                                ),
                                                                                ..s14
                                                                            },
                                                                            Result::Ok(()),
                                                                        ),
                                                                    }
                                                                },
                                                            }
                                                        },
                                                    }
                                                },
                                            },
                                        },
                                    }
                                },
                            },
                        },
                    },
                },
            },
            StmtKind::While(cond, body) => match s.cur_func {
                Option::None => (s, Result::Err(CgError::NoCurrentFunction)),
                Option::Some(f) => match Self::spec_three_blocks(
                    s,
                    f,
                    BlockName::L(0),
                    false,
                ) {
                    (s3, Result::Err(er)) => (s3, Result::Err(er)),
                    (s3, Result::Ok((loop_cond, loop_body, after_loop))) => {
                        let s4 = Codegen {
                            break_blocks: Lst::Cons(after_loop, Box::new(s3.break_blocks)),
                            ..s3
                        };
                        let s5 = Codegen {
                            continue_blocks: Lst::Cons(loop_cond, Box::new(s4.continue_blocks)),
                            ..s4
                        };
                        match Self::spec_end_cur(s5, Terminator::Jump(loop_cond)) {
                            (s6, Result::Err(er)) => (s6, Result::Err(er)),
                            (s6, Result::Ok(())) => {
                                let s7 = Codegen {
                                    cur_block: Option::Some(loop_cond),
                                    terminated: Lst::Cons(false, Box::new(s6.terminated)),
                                    ..s6
                                };
                                match Self::spec_gen_expr(s7, *cond, fuel) {
                                    (s8, Result::Err(er)) => (s8, Result::Err(er)),
                                    (s8, Result::Ok(cv)) => match Self::spec_end_cur(
                                        s8,
                                        Terminator::Cond(cv, loop_body, after_loop),
                                    ) {
                                        (s9, Result::Err(er)) => (s9, Result::Err(er)),
                                        (s9, Result::Ok(())) => {
                                            let s10 = Codegen {
                                                cur_block: Option::Some(loop_body),
                                                ..s9
                                            };
                                            match Self::spec_gen_stmt(s10, *body, true, fuel) {
                                                (s11, Result::Err(er)) => (s11, Result::Err(er)),
                                                (s11, Result::Ok(())) => {
                                                    let jumped = if !Self::spec_terminated_top(
                                                        s11,
                                                    ) {
                                                        Self::spec_end_cur(
                                                            s11,
                                                            Terminator::Jump(loop_cond),
                                                        )
                                                    } else {
                                                        (s11, Result::Ok(()))
                                                    };
                                                    match jumped {
                                                        (s12, Result::Err(er)) => (
                                                            s12,
                                                            Result::Err(er),
                                                        ),
                                                        (s12, Result::Ok(())) => (
                                                            Codegen {
                                                                terminated: spec_tail(
                                                                    s12.terminated,
                                                                ),
                                                                continue_blocks: spec_tail(
                                                                    s12.continue_blocks,
                                                                ),
                                                                break_blocks: spec_tail(
                                                                    s12.break_blocks,
                                                                ),
                                                                cur_block: Option::Some(
                                                                    after_loop,
                                                                ),
                                                                ..s12
                                                            },
                                                            Result::Ok(()),
                                                        ),
                                                    }
                                                },
                                            }
                                        },
                                    },
                                }
                            },
                        }
                    },
                },
            },
            StmtKind::CFor(var, cond, step, body) => match s.cur_func {
                Option::None => (s, Result::Err(CgError::NoCurrentFunction)),
                Option::Some(f) => match Self::spec_three_blocks(s, f, BlockName::L(0), true) {
                    (s3, Result::Err(er)) => (s3, Result::Err(er)),
                    (s3, Result::Ok((loop_cond, loop_body, after_loop))) => {
                        let s4 = Codegen {
                            break_blocks: Lst::Cons(after_loop, Box::new(s3.break_blocks)),
                            ..s3
                        };
                        let s5 = Codegen {
                            continue_blocks: Lst::Cons(loop_cond, Box::new(s4.continue_blocks)),
                            ..s4
                        };
                        match Self::spec_gen_stmt(s5, *var, true, fuel) {
                            (s6, Result::Err(er)) => (s6, Result::Err(er)),
                            (s6, Result::Ok(())) => match Self::spec_end_cur(
                                s6,
                                Terminator::Jump(loop_cond),
                            ) {
                                (s7, Result::Err(er)) => (s7, Result::Err(er)),
                                (s7, Result::Ok(())) => {
                                    let s8 = Codegen {
                                        cur_block: Option::Some(loop_cond),
                                        ..s7
                                    };
                                    match Self::spec_gen_expr(s8, *cond, fuel) {
                                        (s9, Result::Err(er)) => (s9, Result::Err(er)),
                                        (s9, Result::Ok(cv)) => match Self::spec_end_cur(
                                            s9,
                                            Terminator::Cond(cv, loop_body, after_loop),
                                        ) {
                                            (s10, Result::Err(er)) => (s10, Result::Err(er)),
                                            (s10, Result::Ok(())) => {
                                                let s11 = Codegen {
                                                    cur_block: Option::Some(loop_body),
                                                    terminated: Lst::Cons(
                                                        false,
                                                        Box::new(s10.terminated),
                                                    ),
                                                    ..s10
                                                };
                                                match Self::spec_gen_stmt(s11, *body, true, fuel) {
                                                    (s12, Result::Err(er)) => (
                                                        s12,
                                                        Result::Err(er),
                                                    ),
                                                    (s12, Result::Ok(())) => {
                                                        let stepped = if !Self::spec_terminated_top(
                                                            s12,
                                                        ) {
                                                            match Self::spec_gen_expr(
                                                                s12,
                                                                *step,
                                                                fuel,
                                                            ) {
                                                                (s13, Result::Err(er)) => (
                                                                    s13,
                                                                    Result::Err(er),
                                                                ),
                                                                (s13, Result::Ok(_)) => Self::spec_end_cur(
                                                                    s13,
                                                                    Terminator::Jump(loop_cond),
                                                                ),
                                                            }
                                                        } else {
                                                            (s12, Result::Ok(()))
                                                        };
                                                        match stepped {
                                                            (s14, Result::Err(er)) => (
                                                                s14,
                                                                Result::Err(er),
                                                            ),
                                                            (s14, Result::Ok(())) => (
                                                                Codegen {
                                                                    continue_blocks: spec_tail(
                                                                        s14.continue_blocks,
                                                                    ),
                                                                    break_blocks: spec_tail(
                                                                        s14.break_blocks,
                                                                    ),
                                                                    cur_block: Option::Some(
                                                                        after_loop,
                                                                    ),
                                                                    terminated: spec_tail(
                                                                        s14.terminated,
                                                                    ),
                                                                    ..s14
                                                                },
                                                                Result::Ok(()),
                                                            ),
                                                        }
                                                    },
                                                }
                                            },
                                        },
                                    }
                                },
                            },
                        }
                    },
                },
            },
            StmtKind::Loop(body) => match s.cur_func {
                Option::None => (s, Result::Err(CgError::NoCurrentFunction)),
                Option::Some(f) => match Self::spec_block_name_new(s) {
                    (s1, Result::Err(er)) => (s1, Result::Err(er)),
                    (s1, Result::Ok(n1)) => match Self::spec_fresh_block(s1, f, BlockName::L(n1)) {
                        (s2, Result::Err(er)) => (s2, Result::Err(er)),
                        (s2, Result::Ok(bb)) => match Self::spec_block_name_new(s2) {
                            (s3, Result::Err(er)) => (s3, Result::Err(er)),
                            (s3, Result::Ok(n2)) => match Self::spec_fresh_block(
                                s3,
                                f,
                                BlockName::L(n2),
                            ) {
                                (s4, Result::Err(er)) => (s4, Result::Err(er)),
                                (s4, Result::Ok(after)) => {
                                    let s5 = Codegen {
                                        break_blocks: Lst::Cons(after, Box::new(s4.break_blocks)),
                                        ..s4
                                    };
                                    let s6 = Codegen {
                                        continue_blocks: Lst::Cons(
                                            bb,
                                            Box::new(s5.continue_blocks),
                                        ),
                                        ..s5
                                    };
                                    match Self::spec_end_cur(s6, Terminator::Jump(bb)) {
                                        (s7, Result::Err(er)) => (s7, Result::Err(er)),
                                        (s7, Result::Ok(())) => {
                                            let s8 = Codegen {
                                                cur_block: Option::Some(bb),
                                                terminated: Lst::Cons(
                                                    false,
                                                    Box::new(s7.terminated),
                                                ),
                                                ..s7
                                            };
                                            match Self::spec_gen_stmt(s8, *body, true, fuel) {
                                                (s9, Result::Err(er)) => (s9, Result::Err(er)),
                                                (s9, Result::Ok(())) => {
                                                    let jumped = if !Self::spec_terminated_top(
                                                        s9,
                                                    ) {
                                                        Self::spec_end_cur(
                                                            s9,
                                                            Terminator::Jump(bb),
                                                        )
                                                    } else {
                                                        (s9, Result::Ok(()))
                                                    };
                                                    match jumped {
                                                        (s10, Result::Err(er)) => (
                                                            s10,
                                                            Result::Err(er),
                                                        ),
                                                        (s10, Result::Ok(())) => (
                                                            Codegen {
                                                                terminated: spec_tail(
                                                                    s10.terminated,
                                                                ),
                                                                continue_blocks: spec_tail(
                                                                    s10.continue_blocks,
                                                                ),
                                                                break_blocks: spec_tail(
                                                                    s10.break_blocks,
                                                                ),
                                                                cur_block: Option::Some(after),
                                                                ..s10
                                                            },
                                                            Result::Ok(()),
                                                        ),
                                                    }
                                                },
                                            }
                                        },
                                    }
                                },
                            },
                        },
                    },
                },
            },
        }
    }

    /// Three fresh numbered blocks for a loop: header, body and exit (spec).
    /// With `for_names` they carry the C-for name tags, else plain numbered
    /// names.  (The `name` parameter only picks the tag family.)
    pub open spec fn spec_three_blocks(s: Codegen, f: usize, name: BlockName, for_names: bool) -> (
        Codegen,
        Result<(usize, usize, usize), CgError>,
    ) {
        match Self::spec_block_name_new(s) {
            (s1, Result::Err(er)) => (s1, Result::Err(er)),
            (s1, Result::Ok(n1)) => match Self::spec_fresh_block(
                s1,
                f,
                if for_names {
                    BlockName::ForCond(n1)
                } else {
                    BlockName::L(n1)
                },
            ) {
                (s2, Result::Err(er)) => (s2, Result::Err(er)),
                (s2, Result::Ok(b1)) => match Self::spec_block_name_new(s2) {
                    (s3, Result::Err(er)) => (s3, Result::Err(er)),
                    (s3, Result::Ok(n2)) => match Self::spec_fresh_block(
                        s3,
                        f,
                        if for_names {
                            BlockName::ForBody(n2)
                        } else {
                            BlockName::L(n2)
                        },
                    ) {
                        (s4, Result::Err(er)) => (s4, Result::Err(er)),
                        (s4, Result::Ok(b2)) => match Self::spec_block_name_new(s4) {
                            (s5, Result::Err(er)) => (s5, Result::Err(er)),
                            (s5, Result::Ok(n3)) => match Self::spec_fresh_block(
                                s5,
                                f,
                                if for_names {
                                    BlockName::AfterFor(n3)
                                } else {
                                    BlockName::L(n3)
                                },
                            ) {
                                (s6, Result::Err(er)) => (s6, Result::Err(er)),
                                (s6, Result::Ok(b3)) => (s6, Result::Ok((b1, b2, b3))),
                            },
                        },
                    },
                },
            },
        }
    }

    /// Lowering of a statement list, in order (spec).
    pub open spec fn spec_gen_stmt_list(s: Codegen, ss: Lst<Stmt>, fuel: nat) -> (Codegen, Result<
        (),
        CgError,
    >)
        decreases fuel, slsize(ss), 0int,
    {
        match ss {
            Lst::Nil => (s, Result::Ok(())),
            Lst::Cons(h, t) => match Self::spec_gen_stmt(s, h, false, fuel) {
                (s1, Result::Err(er)) => (s1, Result::Err(er)),
                (s1, Result::Ok(())) => Self::spec_gen_stmt_list(s1, *t, fuel),
            },
        }
    }

    fn push_terminated(&mut self, b: bool)
        ensures
            *final(self) == (Codegen {
                terminated: Lst::Cons(b, Box::new(old(self).terminated)),
                ..*old(self)
            }),
    {
        let mut t: Lst<bool> = Lst::Nil;
        core::mem::swap(&mut t, &mut self.terminated);
        self.terminated = Lst::Cons(b, Box::new(t));
    }

    fn pop_terminated(&mut self)
        ensures
            *final(self) == (Codegen { terminated: spec_tail(old(self).terminated), ..*old(self) }),
    {
        let mut t: Lst<bool> = Lst::Nil;
        core::mem::swap(&mut t, &mut self.terminated);
        self.terminated = match t {
            Lst::Cons(_, tl) => *tl,
            Lst::Nil => Lst::Nil,
        };
    }

    fn terminated_top(&self) -> (r: bool)
        ensures
            r == Self::spec_terminated_top(*self),
    {
        match &self.terminated {
            Lst::Cons(h, _) => *h,
            Lst::Nil => false,
        }
    }

    fn push_break(&mut self, b: usize)
        ensures
            *final(self) == (Codegen {
                break_blocks: Lst::Cons(b, Box::new(old(self).break_blocks)),
                ..*old(self)
            }),
    {
        let mut t: Lst<usize> = Lst::Nil;
        core::mem::swap(&mut t, &mut self.break_blocks);
        self.break_blocks = Lst::Cons(b, Box::new(t));
    }

    fn pop_break(&mut self)
        ensures
            *final(self) == (Codegen {
                break_blocks: spec_tail(old(self).break_blocks),
                ..*old(self)
            }),
    {
        let mut t: Lst<usize> = Lst::Nil;
        core::mem::swap(&mut t, &mut self.break_blocks);
        self.break_blocks = match t {
            Lst::Cons(_, tl) => *tl,
            Lst::Nil => Lst::Nil,
        };
    }

    fn push_continue(&mut self, b: usize)
        ensures
            *final(self) == (Codegen {
                continue_blocks: Lst::Cons(b, Box::new(old(self).continue_blocks)),
                ..*old(self)
            }),
    {
        let mut t: Lst<usize> = Lst::Nil;
        core::mem::swap(&mut t, &mut self.continue_blocks);
        self.continue_blocks = Lst::Cons(b, Box::new(t));
    }

    fn pop_continue(&mut self)
        ensures
            *final(self) == (Codegen {
                continue_blocks: spec_tail(old(self).continue_blocks),
                ..*old(self)
            }),
    {
        let mut t: Lst<usize> = Lst::Nil;
        core::mem::swap(&mut t, &mut self.continue_blocks);
        self.continue_blocks = match t {
            Lst::Cons(_, tl) => *tl,
            Lst::Nil => Lst::Nil,
        };
    }

    pub(crate) fn fresh_block(&mut self, f: usize, name: BlockName) -> (r: Result<usize, CgError>)
        ensures
            (*final(self), r) == Self::spec_fresh_block(*old(self), f, name),
    {
        match self.ctx.new_block(f, name) {
            Option::Some(bid) => Result::Ok(bid),
            Option::None => Result::Err(CgError::TooManyItems),
        }
    }

    fn end_cur(&mut self, t: Terminator) -> (r: Result<(), CgError>)
        ensures
            (*final(self), r) == Self::spec_end_cur(*old(self), t),
    {
        let f = match self.cur_func {
            Option::Some(f) => f,
            Option::None => {
                return Result::Err(CgError::NoCurrentFunction);
            },
        };
        let b = match self.cur_block {
            Option::Some(b) => b,
            Option::None => {
                return Result::Err(CgError::NoCurrentBlock);
            },
        };
        self.ctx.end_block(f, b, t);
        Result::Ok(())
    }

    fn three_blocks(&mut self, f: usize, for_names: bool) -> (r: Result<
        (usize, usize, usize),
        CgError,
    >)
        ensures
            (*final(self), r) == Self::spec_three_blocks(*old(self), f, BlockName::L(0), for_names),
    {
        let n1 = match self.block_name_new() {
            Result::Ok(n) => n,
            Result::Err(er) => {
                return Result::Err(er);
            },
        };
        let b1 = match self.fresh_block(
            f,
            if for_names {
                BlockName::ForCond(n1)
            } else {
                BlockName::L(n1)
            },
        ) {
            Result::Ok(b) => b,
            Result::Err(er) => {
                return Result::Err(er);
            },
        };
        let n2 = match self.block_name_new() {
            Result::Ok(n) => n,
            Result::Err(er) => {
                return Result::Err(er);
            },
        };
        let b2 = match self.fresh_block(
            f,
            if for_names {
                BlockName::ForBody(n2)
            } else {
                BlockName::L(n2)
            },
        ) {
            Result::Ok(b) => b,
            Result::Err(er) => {
                return Result::Err(er);
            },
        };
        let n3 = match self.block_name_new() {
            Result::Ok(n) => n,
            Result::Err(er) => {
                return Result::Err(er);
            },
        };
        let b3 = match self.fresh_block(
            f,
            if for_names {
                BlockName::AfterFor(n3)
            } else {
                BlockName::L(n3)
            },
        ) {
            Result::Ok(b) => b,
            Result::Err(er) => {
                return Result::Err(er);
            },
        };
        Result::Ok((b1, b2, b3))
    }

    /// Lower a statement into the current block.  `init` marks the top level
    /// of a function body, where a block statement emits into the current
    /// block instead of allocating a fresh one.
    pub fn gen_stmt(&mut self, st: &Stmt, init: bool) -> (r: Result<(), CgError>)
        requires
            old(self).gen_fuel_fits(),
        ensures
            (*final(self), r) == Self::spec_gen_stmt(
                *old(self),
                *st,
                init,
                old(self).spec_gen_fuel(),
            ),
    {
        let fuel = self.gen_fuel();
        self.gen_stmt_f(st, init, fuel)
    }

    #[verifier::rlimit(100)]
    pub(crate) fn gen_stmt_f(&mut self, st: &Stmt, init: bool, fuel: usize) -> (r: Result<
        (),
        CgError,
    >)
        ensures
            (*final(self), r) == Self::spec_gen_stmt(*old(self), *st, init, fuel as nat),
        decreases fuel, ssize(*st), 1int,
    {
        match &st.kind {
            StmtKind::CompTime(sub) => self.gen_stmt_f(&**sub, init, fuel),
            StmtKind::Expr(e) => {
                let rv = match self.gen_expr_f(&**e, fuel) {
                    Result::Ok(v) => v,
                    Result::Err(er) => {
                        return Result::Err(er);
                    },
                };
                let f = match self.cur_func {
                    Option::Some(f) => f,
                    Option::None => {
                        return Result::Err(CgError::NoCurrentFunction);
                    },
                };
                let b = match self.cur_block {
                    Option::Some(b) => b,
                    Option::None => {
                        return Result::Err(CgError::NoCurrentBlock);
                    },
                };
                self.ctx.add_instr(f, b, Instr::Eval(rv));
                Result::Ok(())
            },
            StmtKind::Block(ss) => {
                if init {
                    self.gen_stmt_list_f(&**ss, fuel)
                } else {
                    let old_block = self.cur_block;
                    let n = match self.block_name_new() {
                        Result::Ok(n) => n,
                        Result::Err(er) => {
                            return Result::Err(er);
                        },
                    };
                    let f = match self.cur_func {
                        Option::Some(f) => f,
                        Option::None => {
                            return Result::Err(CgError::NoCurrentFunction);
                        },
                    };
                    let bid = match self.fresh_block(f, BlockName::L(n)) {
                        Result::Ok(b) => b,
                        Result::Err(er) => {
                            return Result::Err(er);
                        },
                    };
                    self.cur_block = Option::Some(bid);
                    match self.gen_stmt_list_f(&**ss, fuel) {
                        Result::Ok(()) => {
                            self.cur_block = old_block;
                            Result::Ok(())
                        },
                        Result::Err(er) => Result::Err(er),
                    }
                }
            },
            StmtKind::Break => {
                let bb = match &self.break_blocks {
                    Lst::Nil => {
                        return Result::Err(CgError::EmptyLoopStack);
                    },
                    Lst::Cons(bb, _) => *bb,
                };
                match self.end_cur(Terminator::Jump(bb)) {
                    Result::Ok(()) => {},
                    Result::Err(er) => {
                        return Result::Err(er);
                    },
                };
                self.cur_block = Option::Some(bb);
                let mut t: Lst<bool> = Lst::Nil;
                core::mem::swap(&mut t, &mut self.terminated);
                match t {
                    Lst::Nil => {
                        self.terminated = Lst::Nil;
                        Result::Err(CgError::EmptyLoopStack)
                    },
                    Lst::Cons(_, tl) => {
                        self.terminated = Lst::Cons(true, tl);
                        Result::Ok(())
                    },
                }
            },
            StmtKind::Continue => {
                let cb = match &self.continue_blocks {
                    Lst::Nil => {
                        return Result::Err(CgError::EmptyLoopStack);
                    },
                    Lst::Cons(cb, _) => *cb,
                };
                let n = match self.block_name_new() {
                    Result::Ok(n) => n,
                    Result::Err(er) => {
                        return Result::Err(er);
                    },
                };
                let f = match self.cur_func {
                    Option::Some(f) => f,
                    Option::None => {
                        return Result::Err(CgError::NoCurrentFunction);
                    },
                };
                let dead = match self.fresh_block(f, BlockName::L(n)) {
                    Result::Ok(b) => b,
                    Result::Err(er) => {
                        return Result::Err(er);
                    },
                };
                match self.end_cur(Terminator::Jump(cb)) {
                    Result::Ok(()) => {},
                    Result::Err(er) => {
                        return Result::Err(er);
                    },
                };
                self.cur_block = Option::Some(dead);
                Result::Ok(())
            },
            StmtKind::Return(oe) => {
                match oe {
                    Option::Some(e) => {
                        let rv = match self.gen_expr_f(&**e, fuel) {
                            Result::Ok(v) => v,
                            Result::Err(er) => {
                                return Result::Err(er);
                            },
                        };
                        match self.end_cur(Terminator::Return(rv)) {
                            Result::Ok(()) => {},
                            Result::Err(er) => {
                                return Result::Err(er);
                            },
                        };
                    },
                    Option::None => {
                        match self.end_cur(Terminator::VoidReturn) {
                            Result::Ok(()) => {},
                            Result::Err(er) => {
                                return Result::Err(er);
                            },
                        };
                    },
                };
                let mut t: Lst<bool> = Lst::Nil;
                core::mem::swap(&mut t, &mut self.terminated);
                match t {
                    Lst::Cons(_, tl) => {
                        self.terminated = Lst::Cons(true, tl);
                    },
                    Lst::Nil => {
                        self.terminated = Lst::Nil;
                    },
                };
                Result::Ok(())
            },
            StmtKind::Var(name, _, _, oinit) => {
                let ty = match self.get_id_type(st.id) {
                    Result::Ok(t) => t,
                    Result::Err(er) => {
                        return Result::Err(er);
                    },
                };
                let cty = match self.ty_to_ctype_fuel(&ty, fuel) {
                    Result::Ok(c) => c,
                    Result::Err(er) => {
                        return Result::Err(er);
                    },
                };
                let f = match self.cur_func {
                    Option::Some(f) => f,
                    Option::None => {
                        return Result::Err(CgError::NoCurrentFunction);
                    },
                };
                let lid = match self.ctx.new_local(f, LocalName::Named(*name), cty.clone_ctype()) {
                    Option::Some(l) => l,
                    Option::None => {
                        return Result::Err(CgError::TooManyItems);
                    },
                };
                match oinit {
                    Option::Some(e) => {
                        let rv = match self.gen_expr_f(&**e, fuel) {
                            Result::Ok(v) => v,
                            Result::Err(er) => {
                                return Result::Err(er);
                            },
                        };
                        let val = if !ty.is_struct() && !ty.is_array() {
                            RValue::Cast(cty.clone_ctype(), Box::new(rv))
                        } else {
                            rv
                        };
                        let cf = match self.cur_func {
                            Option::Some(cf) => cf,
                            Option::None => {
                                return Result::Err(CgError::NoCurrentFunction);
                            },
                        };
                        let cb = match self.cur_block {
                            Option::Some(cb) => cb,
                            Option::None => {
                                return Result::Err(CgError::NoCurrentBlock);
                            },
                        };
                        self.ctx.add_instr(cf, cb, Instr::Assign(LValue::Local(f, lid), val));
                    },
                    Option::None => {},
                };
                self.variables.insert(
                    *name,
                    VarInfo { lval: LValue::Local(f, lid), ty, cty },
                );
                Result::Ok(())
            },
            StmtKind::If(cond, then, otherwise) => {
                let f = match self.cur_func {
                    Option::Some(f) => f,
                    Option::None => {
                        return Result::Err(CgError::NoCurrentFunction);
                    },
                };
                let n1 = match self.block_name_new() {
                    Result::Ok(n) => n,
                    Result::Err(er) => {
                        return Result::Err(er);
                    },
                };
                let n2 = match self.block_name_new() {
                    Result::Ok(n) => n,
                    Result::Err(er) => {
                        return Result::Err(er);
                    },
                };
                let bb_then = match self.fresh_block(f, BlockName::IfTrue(n1)) {
                    Result::Ok(b) => b,
                    Result::Err(er) => {
                        return Result::Err(er);
                    },
                };
                let bb_else = match self.fresh_block(f, BlockName::IfFalse(n2)) {
                    Result::Ok(b) => b,
                    Result::Err(er) => {
                        return Result::Err(er);
                    },
                };
                let bb_merge = if otherwise.is_some() {
                    let n3 = match self.block_name_new() {
                        Result::Ok(n) => n,
                        Result::Err(er) => {
                            return Result::Err(er);
                        },
                    };
                    match self.fresh_block(f, BlockName::After(n3)) {
                        Result::Ok(b) => b,
                        Result::Err(er) => {
                            return Result::Err(er);
                        },
                    }
                } else {
                    bb_else
                };
                let cv = match self.gen_expr_f(&**cond, fuel) {
                    Result::Ok(v) => v,
                    Result::Err(er) => {
                        return Result::Err(er);
                    },
                };
                match self.end_cur(Terminator::Cond(cv, bb_then, bb_else)) {
                    Result::Ok(()) => {},
                    Result::Err(er) => {
                        return Result::Err(er);
                    },
                };
                self.push_terminated(false);
                self.cur_block = Option::Some(bb_then);
                match self.gen_stmt_f(&**then, true, fuel) {
                    Result::Ok(()) => {},
                    Result::Err(er) => {
                        return Result::Err(er);
                    },
                };
                if !self.terminated_top() {
                    match self.end_cur(Terminator::Jump(bb_merge)) {
                        Result::Ok(()) => {},
                        Result::Err(er) => {
                            return Result::Err(er);
                        },
                    };
                }
                self.cur_block = Option::Some(bb_merge);
                self.pop_terminated();
                self.push_terminated(false);
                match otherwise {
                    Option::Some(el) => {
                        self.cur_block = Option::Some(bb_else);
                        match self.gen_stmt_f(&**el, true, fuel) {
                            Result::Ok(()) => {},
                            Result::Err(er) => {
                                return Result::Err(er);
                            },
                        };
                        if !self.terminated_top() {
                            match self.end_cur(Terminator::Jump(bb_merge)) {
                                Result::Ok(()) => {},
                                Result::Err(er) => {
                                    return Result::Err(er);
                                },
                            };
                        }
                    },
                    Option::None => {},
                };
                self.pop_terminated();
                self.cur_block = Option::Some(bb_merge);
                Result::Ok(())
            },
            StmtKind::While(cond, body) => {
                let f = match self.cur_func {
                    Option::Some(f) => f,
                    Option::None => {
                        return Result::Err(CgError::NoCurrentFunction);
                    },
                };
                let (loop_cond, loop_body, after_loop) = match self.three_blocks(f, false) {
                    Result::Ok(bs) => bs,
                    Result::Err(er) => {
                        return Result::Err(er);
                    },
                };
                self.push_break(after_loop);
                self.push_continue(loop_cond);
                match self.end_cur(Terminator::Jump(loop_cond)) {
                    Result::Ok(()) => {},
                    Result::Err(er) => {
                        return Result::Err(er);
                    },
                };
                self.cur_block = Option::Some(loop_cond);
                self.push_terminated(false);
                let cv = match self.gen_expr_f(&**cond, fuel) {
                    Result::Ok(v) => v,
                    Result::Err(er) => {
                        return Result::Err(er);
                    },
                };
                match self.end_cur(Terminator::Cond(cv, loop_body, after_loop)) {
                    Result::Ok(()) => {},
                    Result::Err(er) => {
                        return Result::Err(er);
                    },
                };
                self.cur_block = Option::Some(loop_body);
                match self.gen_stmt_f(&**body, true, fuel) {
                    Result::Ok(()) => {},
                    Result::Err(er) => {
                        return Result::Err(er);
                    },
                };
                if !self.terminated_top() {
                    match self.end_cur(Terminator::Jump(loop_cond)) {
                        Result::Ok(()) => {},
                        Result::Err(er) => {
                            return Result::Err(er);
                        },
                    };
                }
                self.pop_terminated();
                self.pop_continue();
                self.pop_break();
                self.cur_block = Option::Some(after_loop);
                Result::Ok(())
            },
            StmtKind::CFor(var, cond, step, body) => {
                let f = match self.cur_func {
                    Option::Some(f) => f,
                    Option::None => {
                        return Result::Err(CgError::NoCurrentFunction);
                    },
                };
                let (loop_cond, loop_body, after_loop) = match self.three_blocks(f, true) {
                    Result::Ok(bs) => bs,
                    Result::Err(er) => {
                        return Result::Err(er);
                    },
                };
                self.push_break(after_loop);
                self.push_continue(loop_cond);
                match self.gen_stmt_f(&**var, true, fuel) {
                    Result::Ok(()) => {},
                    Result::Err(er) => {
                        return Result::Err(er);
                    },
                };
                match self.end_cur(Terminator::Jump(loop_cond)) {
                    Result::Ok(()) => {},
                    Result::Err(er) => {
                        return Result::Err(er);
                    },
                };
                self.cur_block = Option::Some(loop_cond);
                let cv = match self.gen_expr_f(&**cond, fuel) {
                    Result::Ok(v) => v,
                    Result::Err(er) => {
                        return Result::Err(er);
                    },
                };
                match self.end_cur(Terminator::Cond(cv, loop_body, after_loop)) {
                    Result::Ok(()) => {},
                    Result::Err(er) => {
                        return Result::Err(er);
                    },
                };
                self.cur_block = Option::Some(loop_body);
                self.push_terminated(false);
                match self.gen_stmt_f(&**body, true, fuel) {
                    Result::Ok(()) => {},
                    Result::Err(er) => {
                        return Result::Err(er);
                    },
                };
                if !self.terminated_top() {
                    match self.gen_expr_f(&**step, fuel) {
                        Result::Ok(_) => {},
                        Result::Err(er) => {
                            return Result::Err(er);
                        },
                    };
                    match self.end_cur(Terminator::Jump(loop_cond)) {
                        Result::Ok(()) => {},
                        Result::Err(er) => {
                            return Result::Err(er);
                        },
                    };
                }
                self.pop_continue();
                self.pop_break();
                self.cur_block = Option::Some(after_loop);
                self.pop_terminated();
                Result::Ok(())
            },
            StmtKind::Loop(body) => {
                let f = match self.cur_func {
                    Option::Some(f) => f,
                    Option::None => {
                        return Result::Err(CgError::NoCurrentFunction);
                    },
                };
                let n1 = match self.block_name_new() {
                    Result::Ok(n) => n,
                    Result::Err(er) => {
                        return Result::Err(er);
                    },
                };
                let bb = match self.fresh_block(f, BlockName::L(n1)) {
                    Result::Ok(b) => b,
                    Result::Err(er) => {
                        return Result::Err(er);
                    },
                };
                let n2 = match self.block_name_new() {
                    Result::Ok(n) => n,
                    Result::Err(er) => {
                        return Result::Err(er);
                    },
                };
                let after = match self.fresh_block(f, BlockName::L(n2)) {
                    Result::Ok(b) => b,
                    Result::Err(er) => {
                        return Result::Err(er);
                    },
                };
                self.push_break(after);
                self.push_continue(bb);
                match self.end_cur(Terminator::Jump(bb)) {
                    Result::Ok(()) => {},
                    Result::Err(er) => {
                        return Result::Err(er);
                    },
                };
                self.cur_block = Option::Some(bb);
                self.push_terminated(false);
                match self.gen_stmt_f(&**body, true, fuel) {
                    Result::Ok(()) => {},
                    Result::Err(er) => {
                        return Result::Err(er);
                    },
                };
                if !self.terminated_top() {
                    match self.end_cur(Terminator::Jump(bb)) {
                        Result::Ok(()) => {},
                        Result::Err(er) => {
                            return Result::Err(er);
                        },
                    };
                }
                self.pop_terminated();
                self.pop_continue();
                self.pop_break();
                self.cur_block = Option::Some(after);
                Result::Ok(())
            },
        }
    }

    pub(crate) fn gen_stmt_list_f(&mut self, ss: &Lst<Stmt>, fuel: usize) -> (r: Result<
        (),
        CgError,
    >)
        ensures
            (*final(self), r) == Self::spec_gen_stmt_list(*old(self), *ss, fuel as nat),
        decreases fuel, slsize(*ss), 0int,
    {
        match ss {
            Lst::Nil => Result::Ok(()),
            Lst::Cons(h, t) => match self.gen_stmt_f(h, false, fuel) {
                Result::Ok(()) => self.gen_stmt_list_f(t, fuel),
                Result::Err(er) => Result::Err(er),
            },
        }
    }
}

} // verus!