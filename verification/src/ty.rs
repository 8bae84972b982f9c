//! Resolved types.
//!
//! Types reach this layer fully resolved by the upstream inference phase;
//! the tree only stores them.  `Multiple` is the type of an expression that
//! yields several values at once, and `Never` is the type of an expression
//! that cannot return normally (an `abort`, or a loop with no `break`).
//!
//! Type lists are kept as a boxed cons list rather than a vector: a type is
//! copied whenever a node records the type of a sub-expression it consumes
//! (a splat's component types, a list item's annotation), and the cons
//! representation lets such a copy be proved structurally equal to the
//! original.

use vstd::prelude::*;
use crate::ident::Ident;

verus! {

#[derive(PartialEq, Eq, Debug)]
pub enum Ty {
    Unit,
    Bool,
    U8,
    U64,
    U128,
    Address,
    Signer,
    Vector(Box<Ty>),
    Ref { mutable: bool, to: Box<Ty> },
    Struct { module: Ident, name: Ident, type_args: TyList },
    Param(Ident),
    Multiple(TyList),
    Never,
    UnresolvedError,
}

/// An ordered list of types.
#[derive(PartialEq, Eq, Debug)]
pub enum TyList {
    Nil,
    Cons(Box<Ty>, Box<TyList>),
}

impl TyList {
    /// The list as a mathematical sequence.
    pub open spec fn seq(self) -> Seq<Ty>
        decreases self,
    {
        match self {
            TyList::Nil => Seq::<Ty>::empty(),
            TyList::Cons(t, rest) => seq![*t] + rest.seq(),
        }
    }

    pub fn is_empty(&self) -> (r: bool)
        ensures
            r == (self.seq().len() == 0),
    {
        match self {
            TyList::Nil => true,
            TyList::Cons(_, _) => false,
        }
    }

    /// The number of types in the list.  The bound is a machine limit: a
    /// list held in memory is always far shorter.
    pub fn len(&self) -> (n: usize)
        requires
            self.seq().len() <= usize::MAX,
        ensures
            n == self.seq().len(),
        decreases *self,
    {
        match self {
            TyList::Nil => 0,
            TyList::Cons(_, rest) => {
                let n: usize = rest.len();
                n + 1
            }
        }
    }

    /// A structurally equal copy.
    pub fn duplicate(&self) -> (r: TyList)
        ensures
            r == *self,
        decreases *self,
    {
        match self {
            TyList::Nil => TyList::Nil,
            TyList::Cons(t, rest) => TyList::Cons(
                Box::new(t.duplicate()),
                Box::new(rest.duplicate()),
            ),
        }
    }
}

impl Ty {
    /// Whether this is a multiple-value type.
    pub open spec fn spec_is_multiple(self) -> bool {
        match self {
            Ty::Multiple(_) => true,
            _ => false,
        }
    }

    /// The component type list of a multiple-value type.
    pub open spec fn spec_components(self) -> TyList
        recommends
            self.spec_is_multiple(),
    {
        match self {
            Ty::Multiple(ts) => ts,
            _ => TyList::Nil,
        }
    }

    /// A structurally equal copy.
    pub fn duplicate(&self) -> (r: Ty)
        ensures
            r == *self,
        decreases *self,
    {
        match self {
            Ty::Unit => Ty::Unit,
            Ty::Bool => Ty::Bool,
            Ty::U8 => Ty::U8,
            Ty::U64 => Ty::U64,
            Ty::U128 => Ty::U128,
            Ty::Address => Ty::Address,
            Ty::Signer => Ty::Signer,
            Ty::Vector(t) => Ty::Vector(Box::new(t.duplicate())),
            Ty::Ref { mutable, to } => (Ty::Ref { mutable: *mutable, to: Box::new(to.duplicate()) }),
            Ty::Struct { module, name, type_args } => (Ty::Struct {
                module: module.duplicate(),
                name: name.duplicate(),
                type_args: type_args.duplicate(),
            }),
            Ty::Param(x) => Ty::Param(x.duplicate()),
            Ty::Multiple(ts) => Ty::Multiple(ts.duplicate()),
            Ty::Never => Ty::Never,
            Ty::UnresolvedError => Ty::UnresolvedError,
        }
    }
}

} // verus!
