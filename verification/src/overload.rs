//! Overload resolution: matching a call site against a candidate list.
//!
//! A call site carries positional argument types and, for method calls, a
//! receiver type.  Candidates are compared by structural type equality
//! (ignoring source positions); a variadic candidate accepts extra trailing
//! arguments once all declared positions matched.  Resolution picks the
//! first matching candidate in declaration order, so when exactly one
//! matches, it is picked.

use vstd::prelude::*;

use crate::ast::{spec_ty_eq, ty_eq, Function, Name, Type};
use crate::gccjit::{CgError, Codegen, FunctionUnit};
use crate::ir::CType;
use crate::list::{lst_longer, spec_lst_longer, DeepClone, Lst};

verus! {

/// Outcome of the resolver's positional walk: compare each
/// argument with the declared parameter at its position; extra arguments are
/// accepted exactly when the candidate is variadic and every declared
/// position matched; a call with no arguments matches no declared list
/// (the empty-signature case is handled before this walk).
pub open spec fn spec_params_match(
    params: Lst<Type>,
    decl: Lst<(Name, Type)>,
    variadic: bool,
    okay: bool,
) -> bool
    decreases params,
{
    match params {
        Lst::Nil => match decl {
            Lst::Nil => okay,
            Lst::Cons(_, _) => false,
        },
        Lst::Cons(p, pt) => match decl {
            Lst::Nil => variadic && okay,
            Lst::Cons(d, dt) => spec_ty_eq(&p, &d.1) && spec_params_match(*pt, *dt, variadic, true),
        },
    }
}

/// The positional walk, executable.
pub fn params_match(params: &Lst<Type>, decl: &Lst<(Name, Type)>, variadic: bool, okay: bool) -> (r:
    bool)
    ensures
        r == spec_params_match(*params, *decl, variadic, okay),
    decreases params,
{
    match params {
        Lst::Nil => match decl {
            Lst::Nil => okay,
            Lst::Cons(_, _) => false,
        },
        Lst::Cons(p, pt) => match decl {
            Lst::Nil => variadic && okay,
            Lst::Cons(d, dt) => ty_eq(p, &d.1) && params_match(pt, dt, variadic, true),
        },
    }
}

/// Whether an argument-type list equals a declared parameter list exactly,
/// position by position (spec).
pub open spec fn spec_sig_params_eq(params: Lst<Type>, decl: Lst<(Name, Type)>) -> bool
    decreases params,
{
    match (params, decl) {
        (Lst::Nil, Lst::Nil) => true,
        (Lst::Cons(p, pt), Lst::Cons(d, dt)) => spec_ty_eq(&p, &d.1) && spec_sig_params_eq(
            *pt,
            *dt,
        ),
        _ => false,
    }
}

/// Whether an argument-type list equals a declared parameter list exactly.
pub fn sig_params_eq(params: &Lst<Type>, decl: &Lst<(Name, Type)>) -> (r: bool)
    ensures
        r == spec_sig_params_eq(*params, *decl),
    decreases params,
{
    match (params, decl) {
        (Lst::Nil, Lst::Nil) => true,
        (Lst::Cons(p, pt), Lst::Cons(d, dt)) => ty_eq(p, &d.1) && sig_params_eq(pt, dt),
        _ => false,
    }
}

/// The receiver type a candidate is matched against: the call-site receiver
/// itself when it is already a pointer, else a pointer to it (spec).
pub open spec fn spec_receiver_ty(this: Type) -> Type {
    if this is Ptr {
        this
    } else {
        Type::Ptr(crate::ast::PtrType { pos: this.spec_pos(), subtype: Box::new(this) })
    }
}

/// The types of a declared parameter list, in order (spec).
pub open spec fn spec_decl_types(decl: Lst<(Name, Type)>) -> Lst<Type>
    decreases decl,
{
    match decl {
        Lst::Nil => Lst::Nil,
        Lst::Cons(d, dt) => Lst::Cons(d.1, Box::new(spec_decl_types(*dt))),
    }
}

/// The types of a declared parameter list, in order.
pub fn decl_types(decl: &Lst<(Name, Type)>) -> (r: Lst<Type>)
    ensures
        r == spec_decl_types(*decl),
    decreases decl,
{
    match decl {
        Lst::Nil => Lst::Nil,
        Lst::Cons(d, dt) => Lst::Cons(d.1.clone_ty(), Box::new(decl_types(dt))),
    }
}

/// Whether a candidate matches the call site (spec): the single matching
/// predicate behind resolution, combining arity filtering, receiver
/// matching, exact-signature receiver dispatch, and the positional walk.
pub open spec fn spec_candidate_matches(
    params: Lst<Type>,
    this: Option<Type>,
    unit: FunctionUnit,
) -> bool {
    if spec_lst_longer(&unit.f.params, &params) {
        false
    } else if unit.f.params is Nil && params is Nil && unit.this_ast is None && this is None {
        true
    } else {
        match unit.this_ast {
            Option::Some(recv) => match this {
                Option::Some(t) => spec_ty_eq(&recv, &spec_receiver_ty(t)) && (spec_sig_params_eq(
                    params,
                    unit.f.params,
                ) || spec_params_match(params, unit.f.params, unit.f.variadic, false)),
                Option::None => false,
            },
            Option::None => match this {
                Option::Some(_) => false,
                Option::None => spec_params_match(params, unit.f.params, unit.f.variadic, false),
            },
        }
    }
}

/// Whether a candidate matches the call site.
pub fn candidate_matches(params: &Lst<Type>, this: Option<&Type>, unit: &FunctionUnit) -> (r: bool)
    ensures
        r == spec_candidate_matches(
            *params,
            match this {
                Option::Some(t) => Option::Some(*t),
                Option::None => Option::<Type>::None,
            },
            *unit,
        ),
{
    if lst_longer(&unit.f.params, params) {
        false
    } else if matches!(&unit.f.params, Lst::Nil) && matches!(params, Lst::Nil)
        && unit.this_ast.is_none() && this.is_none() {
        true
    } else {
        match &unit.this_ast {
            Option::Some(recv) => match this {
                Option::Some(t) => {
                    let thisty = if t.is_ptr() {
                        t.clone_ty()
                    } else {
                        t.make_ptr()
                    };
                    ty_eq(recv, &thisty) && (sig_params_eq(params, &unit.f.params) || params_match(
                        params,
                        &unit.f.params,
                        unit.f.variadic,
                        false,
                    ))
                },
                Option::None => false,
            },
            Option::None => match this {
                Option::Some(_) => false,
                Option::None => params_match(params, &unit.f.params, unit.f.variadic, false),
            },
        }
    }
}

/// The first candidate matching the call site, if any (spec).
pub open spec fn spec_first_match(
    params: Lst<Type>,
    this: Option<Type>,
    funcs: Lst<FunctionUnit>,
) -> Option<FunctionUnit>
    decreases funcs,
{
    match funcs {
        Lst::Nil => Option::None,
        Lst::Cons(u, t) => if spec_candidate_matches(params, this, u) {
            Option::Some(u)
        } else {
            spec_first_match(params, this, *t)
        },
    }
}

impl Codegen {
    /// Resolution result (spec): the state after lowering the matched
    /// candidate's parameter types, and either the match — IR function id,
    /// parameter IR types, parameter AST types — or `None`.
    pub open spec fn spec_search_for_func(
        s: Codegen,
        params: Lst<Type>,
        this: Option<Type>,
        funcs: Lst<FunctionUnit>,
        fuel: nat,
    ) -> (Codegen, Result<Option<(usize, Lst<CType>, Lst<Type>)>, CgError>)
        decreases funcs,
    {
        match funcs {
            Lst::Nil => (s, Result::Ok(Option::None)),
            Lst::Cons(u, t) => if spec_candidate_matches(params, this, u) {
                if u.f.params is Nil && params is Nil && u.this_ast is None && this is None {
                    (s, Result::Ok(Option::Some((u.c, Lst::Nil, Lst::Nil))))
                } else {
                    match Self::spec_lower_decl_ctypes(s, u.f.params, fuel) {
                        (s1, Result::Ok(ctys)) => (
                            s1,
                            Result::Ok(Option::Some((u.c, ctys, spec_decl_types(u.f.params)))),
                        ),
                        (s1, Result::Err(e)) => (s1, Result::Err(e)),
                    }
                }
            } else {
                Self::spec_search_for_func(s, params, this, *t, fuel)
            },
        }
    }

    /// Lowering of the types of a declared parameter list (spec).
    pub open spec fn spec_lower_decl_ctypes(s: Codegen, decl: Lst<(Name, Type)>, fuel: nat) -> (
        Codegen,
        Result<Lst<CType>, CgError>,
    )
        decreases decl,
    {
        match decl {
            Lst::Nil => (s, Result::Ok(Lst::Nil)),
            Lst::Cons(d, dt) => match Self::spec_ty_to_ctype(s, d.1, fuel) {
                (s1, Result::Ok(c)) => match Self::spec_lower_decl_ctypes(s1, *dt, fuel) {
                    (s2, Result::Ok(cs)) => (s2, Result::Ok(Lst::Cons(c, Box::new(cs)))),
                    (s2, Result::Err(e)) => (s2, Result::Err(e)),
                },
                (s1, Result::Err(e)) => (s1, Result::Err(e)),
            },
        }
    }

    /// Search an overload set for the first candidate matching the call's
    /// positional argument types and optional receiver.  On a match, the
    /// candidate's parameter types are lowered (possibly registering
    /// structs) and returned beside its IR function id; `Ok(None)` when no
    /// candidate matches.
    pub fn search_for_func(
        &mut self,
        params: &Lst<Type>,
        this: Option<&Type>,
        funcs: &Lst<FunctionUnit>,
    ) -> (r: Result<Option<(usize, Lst<CType>, Lst<Type>)>, CgError>)
        requires
            old(self).ty_fuel_fits(),
        ensures
            (*final(self), r) == Self::spec_search_for_func(
                *old(self),
                *params,
                match this {
                    Option::Some(t) => Option::Some(*t),
                    Option::None => Option::<Type>::None,
                },
                *funcs,
                old(self).spec_ty_fuel(),
            ),
    {
        let fuel = self.ty_fuel();
        self.search_for_func_fuel(params, this, funcs, fuel)
    }

    pub(crate) fn search_for_func_fuel(
        &mut self,
        params: &Lst<Type>,
        this: Option<&Type>,
        funcs: &Lst<FunctionUnit>,
        fuel: usize,
    ) -> (r: Result<Option<(usize, Lst<CType>, Lst<Type>)>, CgError>)
        ensures
            (*final(self), r) == Self::spec_search_for_func(
                *old(self),
                *params,
                match this {
                    Option::Some(t) => Option::Some(*t),
                    Option::None => Option::<Type>::None,
                },
                *funcs,
                fuel as nat,
            ),
        decreases funcs,
    {
        match funcs {
            Lst::Nil => Result::Ok(Option::None),
            Lst::Cons(u, t) => {
                if candidate_matches(params, this, u) {
                    if matches!(&u.f.params, Lst::Nil) && matches!(params, Lst::Nil)
                        && u.this_ast.is_none() && this.is_none() {
                        Result::Ok(Option::Some((u.c, Lst::Nil, Lst::Nil)))
                    } else {
                        match self.lower_decl_ctypes(&u.f.params, fuel) {
                            Result::Ok(ctys) => Result::Ok(
                                Option::Some((u.c, ctys, decl_types(&u.f.params))),
                            ),
                            Result::Err(e) => Result::Err(e),
                        }
                    }
                } else {
                    self.search_for_func_fuel(params, this, t, fuel)
                }
            },
        }
    }

    fn lower_decl_ctypes(&mut self, decl: &Lst<(Name, Type)>, fuel: usize) -> (r: Result<
        Lst<CType>,
        CgError,
    >)
        ensures
            (*final(self), r) == Self::spec_lower_decl_ctypes(*old(self), *decl, fuel as nat),
        decreases decl,
    {
        match decl {
            Lst::Nil => Result::Ok(Lst::Nil),
            Lst::Cons(d, dt) => match self.ty_to_ctype_fuel(&d.1, fuel) {
                Result::Ok(c) => match self.lower_decl_ctypes(dt, fuel) {
                    Result::Ok(cs) => Result::Ok(Lst::Cons(c, Box::new(cs))),
                    Result::Err(e) => Result::Err(e),
                },
                Result::Err(e) => Result::Err(e),
            },
        }
    }

    /// Search a constant-function candidate list; constant functions carry
    /// no receiver, so a call with a receiver only matches through the
    /// positional walk (spec).
    pub open spec fn spec_search_for_func_const(
        params: Lst<Type>,
        this: Option<Type>,
        funcs: Lst<Function>,
    ) -> Option<(Function, Lst<Type>)>
        decreases funcs,
    {
        match funcs {
            Lst::Nil => Option::None,
            Lst::Cons(f, t) => {
                let matched = if spec_lst_longer(&f.params, &params) {
                    false
                } else if f.params is Nil && params is Nil && this is None {
                    true
                } else {
                    spec_params_match(params, f.params, f.variadic, false)
                };
                if matched {
                    if f.params is Nil && params is Nil && this is None {
                        Option::Some((f, Lst::Nil))
                    } else {
                        Option::Some((f, spec_decl_types(f.params)))
                    }
                } else {
                    Self::spec_search_for_func_const(params, this, *t)
                }
            },
        }
    }

    /// Search a constant-function candidate list for the first match.
    pub fn search_for_func_const(
        &self,
        params: &Lst<Type>,
        this: Option<&Type>,
        funcs: &Lst<Function>,
    ) -> (r: Option<(Function, Lst<Type>)>)
        ensures
            r == Self::spec_search_for_func_const(
                *params,
                match this {
                    Option::Some(t) => Option::Some(*t),
                    Option::None => Option::<Type>::None,
                },
                *funcs,
            ),
        decreases funcs,
    {
        match funcs {
            Lst::Nil => Option::None,
            Lst::Cons(f, t) => {
                let matched = if lst_longer(&f.params, params) {
                    false
                } else if matches!(&f.params, Lst::Nil) && matches!(params, Lst::Nil)
                    && this.is_none() {
                    true
                } else {
                    params_match(params, &f.params, f.variadic, false)
                };
                if matched {
                    if matches!(&f.params, Lst::Nil) && matches!(params, Lst::Nil)
                        && this.is_none() {
                        Option::Some((f.deep_clone(), Lst::Nil))
                    } else {
                        Option::Some((f.deep_clone(), decl_types(&f.params)))
                    }
                } else {
                    self.search_for_func_const(params, this, t)
                }
            },
        }
    }
}

} // verus!
