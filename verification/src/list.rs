//! Functional lists, association tables, and deep cloning.
//!
//! Every aggregate in the compiler's data model is a cons list, so that the
//! same values can be built and taken apart both in executable code and in
//! specifications; spec-level equality is plain structural equality.

use vstd::prelude::*;

verus! {

/// A cons list.
#[derive(PartialEq, Eq, Debug)]
pub enum Lst<T> {
    Nil,
    Cons(T, Box<Lst<T>>),
}

impl<T> Lst<T> {
    /// Number of elements, as a spec-level natural number.
    pub open spec fn len(&self) -> nat
        decreases self,
    {
        match self {
            Lst::Nil => 0,
            Lst::Cons(_, t) => 1 + t.len(),
        }
    }

    /// The element at position `i` (spec; meaningful when `i < len`).
    pub open spec fn index(&self, i: int) -> T
        decreases self,
    {
        match self {
            Lst::Nil => arbitrary(),
            Lst::Cons(h, t) => if i == 0 {
                *h
            } else {
                t.index(i - 1)
            },
        }
    }

    /// Spec-level append of one element at the back.
    pub open spec fn spec_snoc(self, x: T) -> Lst<T>
        decreases self,
    {
        match self {
            Lst::Nil => Lst::Cons(x, Box::new(Lst::Nil)),
            Lst::Cons(h, t) => Lst::Cons(h, Box::new(t.spec_snoc(x))),
        }
    }

    /// Append one element at the back.
    pub fn snoc(self, x: T) -> (r: Lst<T>)
        ensures
            r == self.spec_snoc(x),
        decreases self,
    {
        match self {
            Lst::Nil => Lst::Cons(x, Box::new(Lst::Nil)),
            Lst::Cons(h, t) => Lst::Cons(h, Box::new(t.snoc(x))),
        }
    }

    /// Length as a machine integer.
    pub fn length(&self) -> (n: usize)
        requires
            self.len() <= usize::MAX,
        ensures
            n == self.len(),
        decreases self,
    {
        match self {
            Lst::Nil => 0,
            Lst::Cons(_, t) => 1 + t.length(),
        }
    }

    /// Borrow the element at position `i`.
    pub fn get(&self, i: usize) -> (r: &T)
        requires
            i < self.len(),
        ensures
            *r == self.index(i as int),
        decreases self,
    {
        match self {
            Lst::Nil => unreached(),
            Lst::Cons(h, t) => if i == 0 {
                h
            } else {
                t.get(i - 1)
            },
        }
    }

    /// The element at position `i`, or `None` out of range (spec).
    pub open spec fn spec_nth(&self, i: int) -> Option<T> {
        if 0 <= i < self.len() {
            Option::Some(self.index(i))
        } else {
            Option::None
        }
    }

    /// Borrow the element at position `i`, or `None` out of range.
    pub fn nth(&self, i: usize) -> (r: Option<&T>)
        ensures
            match r {
                Option::Some(v) => self.spec_nth(i as int) == Option::Some(*v),
                Option::None => self.spec_nth(i as int) is None,
            },
        decreases self,
    {
        match self {
            Lst::Nil => Option::None,
            Lst::Cons(h, t) => if i == 0 {
                Option::Some(h)
            } else {
                t.nth(i - 1)
            },
        }
    }

    /// Length as a machine integer, saturating at `usize::MAX`.
    pub fn length_capped(&self) -> (n: usize)
        ensures
            if self.len() <= usize::MAX {
                n == self.len()
            } else {
                n == usize::MAX
            },
        decreases self,
    {
        match self {
            Lst::Nil => 0,
            Lst::Cons(_, t) => {
                let m = t.length_capped();
                if m == usize::MAX {
                    usize::MAX
                } else {
                    m + 1
                }
            },
        }
    }

    /// Spec-level in-place replacement of the element at position `i`.
    pub open spec fn spec_update(self, i: int, x: T) -> Lst<T>
        decreases self,
    {
        match self {
            Lst::Nil => Lst::Nil,
            Lst::Cons(h, t) => if i == 0 {
                Lst::Cons(x, t)
            } else {
                Lst::Cons(h, Box::new(t.spec_update(i - 1, x)))
            },
        }
    }

    /// Replace the element at position `i`, leaving the list unchanged when
    /// `i` is out of range.
    pub fn update(self, i: usize, x: T) -> (r: Lst<T>)
        ensures
            r == self.spec_update(i as int, x),
        decreases self,
    {
        match self {
            Lst::Nil => Lst::Nil,
            Lst::Cons(h, t) => if i == 0 {
                Lst::Cons(x, t)
            } else {
                Lst::Cons(h, Box::new(t.update(i - 1, x)))
            },
        }
    }
}

/// Whether `a` has strictly more elements than `b` (spec).
pub open spec fn spec_lst_longer<A, B>(a: &Lst<A>, b: &Lst<B>) -> bool
    decreases a,
{
    match a {
        Lst::Nil => false,
        Lst::Cons(_, at) => match b {
            Lst::Nil => true,
            Lst::Cons(_, bt) => spec_lst_longer(at, bt),
        },
    }
}

/// Whether `a` has strictly more elements than `b`.
pub fn lst_longer<A, B>(a: &Lst<A>, b: &Lst<B>) -> (r: bool)
    ensures
        r == spec_lst_longer(a, b),
    decreases a,
{
    match a {
        Lst::Nil => false,
        Lst::Cons(_, at) => match b {
            Lst::Nil => true,
            Lst::Cons(_, bt) => lst_longer(at, bt),
        },
    }
}

impl<T> Lst<T> {
    /// What `spec_nth` sees after `spec_update`: the new element at the
    /// updated position, the old ones elsewhere.
    pub proof fn lemma_update_nth(self, i: int, x: T, j: int)
        ensures
            self.spec_update(i, x).spec_nth(j) == if i == j && 0 <= i < self.len() {
                Option::Some(x)
            } else {
                self.spec_nth(j)
            },
        decreases self,
    {
        match self {
            Lst::Nil => {},
            Lst::Cons(h, t) => {
                if i == 0 {
                    assert(self.spec_update(0, x) == Lst::Cons(x, t));
                } else {
                    t.lemma_update_nth(i - 1, x, j - 1);
                }
            },
        }
    }
}

/// Value-preserving clone: the result is spec-equal to the input, not merely
/// equal in view.  Implemented by every type in the data model.
pub trait DeepClone: Sized {
    fn deep_clone(&self) -> (r: Self)
        ensures
            r == *self,
    ;
}

impl DeepClone for bool {
    fn deep_clone(&self) -> (r: bool)
        ensures
            r == *self,
    {
        *self
    }
}

impl DeepClone for u8 {
    fn deep_clone(&self) -> (r: u8)
        ensures
            r == *self,
    {
        *self
    }
}

impl DeepClone for u32 {
    fn deep_clone(&self) -> (r: u32)
        ensures
            r == *self,
    {
        *self
    }
}

impl DeepClone for u64 {
    fn deep_clone(&self) -> (r: u64)
        ensures
            r == *self,
    {
        *self
    }
}

impl DeepClone for i64 {
    fn deep_clone(&self) -> (r: i64)
        ensures
            r == *self,
    {
        *self
    }
}

impl DeepClone for usize {
    fn deep_clone(&self) -> (r: usize)
        ensures
            r == *self,
    {
        *self
    }
}

impl DeepClone for char {
    fn deep_clone(&self) -> (r: char)
        ensures
            r == *self,
    {
        *self
    }
}

impl DeepClone for String {
    fn deep_clone(&self) -> (r: String)
        ensures
            r == *self,
    {
        self.clone()
    }
}

impl<T: DeepClone> DeepClone for Box<T> {
    fn deep_clone(&self) -> (r: Box<T>)
        ensures
            r == *self,
    {
        Box::new((**self).deep_clone())
    }
}

impl<T: DeepClone> DeepClone for Option<T> {
    fn deep_clone(&self) -> (r: Option<T>)
        ensures
            r == *self,
    {
        match self {
            Option::None => Option::None,
            Option::Some(v) => Option::Some(v.deep_clone()),
        }
    }
}

impl<A: DeepClone, B: DeepClone> DeepClone for (A, B) {
    fn deep_clone(&self) -> (r: (A, B))
        ensures
            r == *self,
    {
        (self.0.deep_clone(), self.1.deep_clone())
    }
}

impl<T: DeepClone> DeepClone for Lst<T> {
    fn deep_clone(&self) -> (r: Lst<T>)
        ensures
            r == *self,
        decreases self,
    {
        match self {
            Lst::Nil => Lst::Nil,
            Lst::Cons(h, t) => Lst::Cons(h.deep_clone(), Box::new((**t).deep_clone())),
        }
    }
}

/// An association table keyed by interned symbols, in insertion order.
///
/// Lookups find the first binding of a key; `insert` replaces that binding in
/// place or appends a new one at the back, so iteration order is declaration
/// order — which the driver relies on when it emits global initializers.
#[derive(PartialEq, Eq, Debug)]
pub struct SymTable<V> {
    pub items: Lst<(u64, V)>,
}

impl<V> SymTable<V> {
    /// The first binding of `k`, if any (spec).
    pub open spec fn spec_get(&self, k: u64) -> Option<V>
        decreases self.items,
    {
        Self::lookup(&self.items, k)
    }

    /// Lookup inside a binding list (spec).
    pub open spec fn lookup(items: &Lst<(u64, V)>, k: u64) -> Option<V>
        decreases items,
    {
        match items {
            Lst::Nil => Option::None,
            Lst::Cons(p, t) => if p.0 == k {
                Option::Some(p.1)
            } else {
                Self::lookup(t, k)
            },
        }
    }

    /// Whether `k` is bound (spec).
    pub open spec fn spec_contains(&self, k: u64) -> bool {
        self.spec_get(k) is Some
    }

    /// The table after binding `k` to `v` (spec).
    pub open spec fn spec_insert(self, k: u64, v: V) -> SymTable<V> {
        SymTable { items: Self::bind(self.items, k, v) }
    }

    /// Replace the first binding of `k` or append one (spec).
    pub open spec fn bind(items: Lst<(u64, V)>, k: u64, v: V) -> Lst<(u64, V)>
        decreases items,
    {
        match items {
            Lst::Nil => Lst::Cons((k, v), Box::new(Lst::Nil)),
            Lst::Cons(p, t) => if p.0 == k {
                Lst::Cons((k, v), t)
            } else {
                Lst::Cons(p, Box::new(Self::bind(*t, k, v)))
            },
        }
    }

    /// The table with the first binding of `k` removed (spec).
    pub open spec fn spec_remove(self, k: u64) -> SymTable<V> {
        SymTable { items: Self::unbind(self.items, k) }
    }

    /// Remove the first binding of `k` from a binding list (spec).
    pub open spec fn unbind(items: Lst<(u64, V)>, k: u64) -> Lst<(u64, V)>
        decreases items,
    {
        match items {
            Lst::Nil => Lst::Nil,
            Lst::Cons(p, t) => if p.0 == k {
                *t
            } else {
                Lst::Cons(p, Box::new(Self::unbind(*t, k)))
            },
        }
    }

    /// Number of bindings (spec).
    pub open spec fn len(&self) -> nat {
        self.items.len()
    }

    /// An empty table.
    pub fn new() -> (r: SymTable<V>)
        ensures
            r.items == Lst::<(u64, V)>::Nil,
    {
        SymTable { items: Lst::Nil }
    }

    /// Whether `k` is bound.
    pub fn contains_key(&self, k: u64) -> (r: bool)
        ensures
            r == self.spec_contains(k),
    {
        Self::contains_in(&self.items, k)
    }

    fn contains_in(items: &Lst<(u64, V)>, k: u64) -> (r: bool)
        ensures
            r == Self::lookup(items, k) is Some,
        decreases items,
    {
        match items {
            Lst::Nil => false,
            Lst::Cons(p, t) => if p.0 == k {
                true
            } else {
                Self::contains_in(t, k)
            },
        }
    }

    /// Borrow the value bound to `k`, if any.
    pub fn get(&self, k: u64) -> (r: Option<&V>)
        ensures
            match r {
                Option::Some(v) => self.spec_get(k) == Option::Some(*v),
                Option::None => self.spec_get(k) is None,
            },
    {
        Self::get_in(&self.items, k)
    }

    fn get_in(items: &Lst<(u64, V)>, k: u64) -> (r: Option<&V>)
        ensures
            match r {
                Option::Some(v) => Self::lookup(items, k) == Option::Some(*v),
                Option::None => Self::lookup(items, k) is None,
            },
        decreases items,
    {
        match items {
            Lst::Nil => Option::None,
            Lst::Cons(p, t) => if p.0 == k {
                Option::Some(&p.1)
            } else {
                Self::get_in(t, k)
            },
        }
    }

    /// Bind `k` to `v`, replacing an existing binding in place.
    pub fn insert(&mut self, k: u64, v: V)
        ensures
            *final(self) == old(self).spec_insert(k, v),
    {
        let mut items: Lst<(u64, V)> = Lst::Nil;
        core::mem::swap(&mut items, &mut self.items);
        self.items = Self::bind_in(items, k, v);
    }

    fn bind_in(items: Lst<(u64, V)>, k: u64, v: V) -> (r: Lst<(u64, V)>)
        ensures
            r == Self::bind(items, k, v),
        decreases items,
    {
        match items {
            Lst::Nil => Lst::Cons((k, v), Box::new(Lst::Nil)),
            Lst::Cons(p, t) => if p.0 == k {
                Lst::Cons((k, v), t)
            } else {
                Lst::Cons(p, Box::new(Self::bind_in(*t, k, v)))
            },
        }
    }

    /// Remove the binding of `k`, if any.
    pub fn remove(&mut self, k: u64)
        ensures
            *final(self) == old(self).spec_remove(k),
    {
        let mut items: Lst<(u64, V)> = Lst::Nil;
        core::mem::swap(&mut items, &mut self.items);
        self.items = Self::unbind_in(items, k);
    }

    fn unbind_in(items: Lst<(u64, V)>, k: u64) -> (r: Lst<(u64, V)>)
        ensures
            r == Self::unbind(items, k),
        decreases items,
    {
        match items {
            Lst::Nil => Lst::Nil,
            Lst::Cons(p, t) => if p.0 == k {
                *t
            } else {
                Lst::Cons(p, Box::new(Self::unbind_in(*t, k)))
            },
        }
    }
}

impl<V> SymTable<V> {
    /// What a lookup sees after an insert: the inserted value under its key,
    /// and the old bindings everywhere else.
    pub proof fn lemma_insert_get(self, k: u64, v: V, k2: u64)
        ensures
            self.spec_insert(k, v).spec_get(k2) == if k2 == k {
                Option::Some(v)
            } else {
                self.spec_get(k2)
            },
    {
        Self::lemma_bind_lookup(self.items, k, v, k2);
    }

    proof fn lemma_bind_lookup(items: Lst<(u64, V)>, k: u64, v: V, k2: u64)
        ensures
            Self::lookup(&Self::bind(items, k, v), k2) == if k2 == k {
                Option::Some(v)
            } else {
                Self::lookup(&items, k2)
            },
        decreases items,
    {
        match items {
            Lst::Nil => {},
            Lst::Cons(p, t) => {
                if p.0 == k {
                } else {
                    Self::lemma_bind_lookup(*t, k, v, k2);
                }
            },
        }
    }
}

impl<V: DeepClone> DeepClone for SymTable<V> {
    fn deep_clone(&self) -> (r: SymTable<V>)
        ensures
            r == *self,
    {
        SymTable { items: self.items.deep_clone() }
    }
}

} // verus!
