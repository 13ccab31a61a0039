//! Code-generation core of a statically typed, C-like systems language.
//!
//! The crate lowers a type-checked abstract syntax tree into an explicit,
//! structurally defined intermediate representation (IR): named struct types
//! interned once per compilation, functions made of basic blocks with
//! terminators, and expression trees for rvalues and lvalues.  Every lowering
//! step is specified by a pure function of the codegen state, so the whole
//! translation is deterministic by construction and its behaviour is pinned
//! down in the contracts.

use vstd::prelude::*;

pub mod ast;
pub mod const_eval;
pub mod gccjit;
pub mod ir;
pub mod laws;
pub mod list;
pub mod lower;
pub mod opts;
pub mod overload;
pub mod stmt;
pub mod toplevel;

use crate::ast::Elem;
use crate::ast::File;
use crate::ast::Function;
use crate::ast::Type;
use crate::list::DeepClone;
use crate::list::Lst;
use crate::list::SymTable;

verus! {

/// Node identifier assigned by the parser; the semantic checker keys its
/// type table by these ids.
#[derive(Clone, Copy, PartialEq, Eq, Structural, Debug)]
pub struct NodeId(pub usize);

/// Generator of fresh [`NodeId`]s, threaded explicitly through the passes
/// that need fresh nodes.
#[derive(Debug)]
pub struct NodeIdGenerator {
    value: usize,
}

impl NodeIdGenerator {
    /// The id the generator will hand out next.
    pub closed spec fn current(&self) -> usize {
        self.value
    }

    /// Fresh generator; the first id handed out is 1.
    pub fn new() -> (g: NodeIdGenerator)
        ensures
            g.current() == 1,
    {
        NodeIdGenerator { value: 1 }
    }

    /// Hand out the current id and advance.
    pub fn next(&mut self) -> (id: NodeId)
        requires
            old(self).current() < usize::MAX,
        ensures
            id.0 == old(self).current(),
            final(self).current() == old(self).current() + 1,
    {
        let value = self.value;
        self.value = self.value + 1;
        NodeId(value)
    }
}

/// Draw a fresh node id from the given generator.
pub fn gen_id(gen: &mut NodeIdGenerator) -> (id: NodeId)
    requires
        old(gen).current() < usize::MAX,
    ensures
        id.0 == old(gen).current(),
        final(gen).current() == old(gen).current() + 1,
{
    gen.next()
}

/// What the compiler knows about one program: the parsed file, the semantic
/// checker's node-id-to-type table, and the options that steer emission.
#[derive(PartialEq, Eq, Debug)]
pub struct Context {
    pub file: File,
    pub types: SymTable<Type>,
    pub opt: u8,
    pub jit: bool,
    pub emit_asm: bool,
    pub emit_obj: bool,
    pub output: String,
    pub shared: bool,
    pub gimple: bool,
}

impl Context {
    /// A context for the given file, with the default options: optimization
    /// level 2 and just-in-time emission.
    pub fn new(file: File) -> (r: Context)
        ensures
            r.file == file,
            r.types == (SymTable::<Type> { items: crate::list::Lst::Nil }),
            r.opt == 2,
            r.jit,
            !r.emit_asm,
            !r.emit_obj,
            r.output@ == (Seq::<char>::empty()),
            !r.shared,
            !r.gimple,
    {
        Context {
            file,
            types: SymTable::new(),
            opt: 2,
            jit: true,
            emit_asm: false,
            emit_obj: false,
            output: String::new(),
            shared: false,
            gimple: false,
        }
    }

    /// The element list grown by the public items of an imported file (spec):
    /// public non-static functions, public structs, public named constants,
    /// and every link directive carry over; the rest stays private.
    pub open spec fn spec_import_merge(dst: Lst<Elem>, src: Lst<Elem>) -> Lst<Elem>
        decreases src,
    {
        match src {
            Lst::Nil => dst,
            Lst::Cons(e, t) => {
                let dst2 = match e {
                    Elem::Func(f) => if f.public && !f.static_ {
                        dst.spec_snoc(Elem::Func(f))
                    } else {
                        dst
                    },
                    Elem::Struct(sd) => if sd.public {
                        dst.spec_snoc(Elem::Struct(sd))
                    } else {
                        dst
                    },
                    Elem::ConstExpr { id, pos, name, expr, public } => if public {
                        dst.spec_snoc(Elem::ConstExpr { id, pos, name, expr, public })
                    } else {
                        dst
                    },
                    Elem::Link(n) => dst.spec_snoc(Elem::Link(n)),
                    _ => dst,
                };
                Self::spec_import_merge(dst2, *t)
            },
        }
    }

    /// Take the public items of an already parsed and resolved file over
    /// into this context: public non-static functions, public structs,
    /// public named constants, and link directives.  (Reading and parsing
    /// the imported file is the embedder's part.)
    pub fn import(&mut self, imported: Context)
        ensures
            *final(self) == (Context {
                file: File {
                    elems: Context::spec_import_merge(
                        old(self).file.elems,
                        imported.file.elems,
                    ),
                    ..old(self).file
                },
                ..*old(self)
            }),
    {
        let Context { file, .. } = imported;
        let mut elems: Lst<Elem> = Lst::Nil;
        core::mem::swap(&mut elems, &mut self.file.elems);
        self.file.elems = Self::import_merge(elems, file.elems);
    }

    fn import_merge(dst: Lst<Elem>, src: Lst<Elem>) -> (r: Lst<Elem>)
        ensures
            r == Self::spec_import_merge(dst, src),
        decreases src,
    {
        match src {
            Lst::Nil => dst,
            Lst::Cons(e, t) => {
                let dst2 = match e {
                    Elem::Func(f) => if f.public && !f.static_ {
                        dst.snoc(Elem::Func(f))
                    } else {
                        dst
                    },
                    Elem::Struct(sd) => if sd.public {
                        dst.snoc(Elem::Struct(sd))
                    } else {
                        dst
                    },
                    Elem::ConstExpr { id, pos, name, expr, public } => if public {
                        dst.snoc(Elem::ConstExpr { id, pos, name, expr, public })
                    } else {
                        dst
                    },
                    Elem::Link(n) => dst.snoc(Elem::Link(n)),
                    _ => dst,
                };
                Self::import_merge(dst2, *t)
            },
        }
    }

    /// The first function element of the file (spec); the lookup the
    /// front end exposes ignores the id it is handed.
    pub open spec fn spec_first_func(elems: Lst<Elem>) -> Option<Function>
        decreases elems,
    {
        match elems {
            Lst::Nil => Option::None,
            Lst::Cons(e, t) => match e {
                Elem::Func(f) => Option::Some(f),
                _ => Self::spec_first_func(*t),
            },
        }
    }

    /// Borrow the first function element of the file, whatever id is asked
    /// for — the historical lookup the front end exposes.
    pub fn get_func_mut(&self, _id: NodeId) -> (r: Option<&Function>)
        ensures
            match r {
                Option::Some(f) => Self::spec_first_func(self.file.elems) == Option::Some(*f),
                Option::None => Self::spec_first_func(self.file.elems) is None,
            },
    {
        Self::first_func(&self.file.elems)
    }

    fn first_func(elems: &Lst<Elem>) -> (r: Option<&Function>)
        ensures
            match r {
                Option::Some(f) => Self::spec_first_func(*elems) == Option::Some(*f),
                Option::None => Self::spec_first_func(*elems) is None,
            },
        decreases elems,
    {
        match elems {
            Lst::Nil => Option::None,
            Lst::Cons(e, t) => match e {
                Elem::Func(f) => Option::Some(f),
                _ => Self::first_func(t),
            },
        }
    }
}

} // verus!
