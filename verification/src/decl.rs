//! Declarations: functions, constants, struct definitions.

use vstd::prelude::*;
use crate::exp::{Exp, SequenceItem};
use crate::ident::Ident;
use crate::ty::Ty;

verus! {

pub enum Visibility {
    Public,
    Friend,
    Internal,
}

pub struct FunctionSignature {
    pub type_parameters: Vec<Ident>,
    pub parameters: Vec<(Ident, Ty)>,
    pub return_type: Ty,
}

/// A function body is either a statement sequence or native, never both:
/// a native function brings no statements to type-check or translate.
pub enum FunctionBody {
    Defined(Vec<SequenceItem>),
    Native,
}

pub struct Function {
    pub visibility: Visibility,
    pub is_entry: bool,
    pub signature: FunctionSignature,
    /// Every struct the body may touch through a global-storage builtin,
    /// finalized upstream; read-only metadata here.
    pub acquires: Vec<Ident>,
    pub body: FunctionBody,
}

impl Function {
    pub open spec fn spec_is_native(self) -> bool {
        match self.body {
            FunctionBody::Native => true,
            FunctionBody::Defined(_) => false,
        }
    }

    /// The statements of the body; a native body has none.
    pub open spec fn spec_statements(self) -> Seq<SequenceItem> {
        match self.body {
            FunctionBody::Native => Seq::<SequenceItem>::empty(),
            FunctionBody::Defined(items) => items@,
        }
    }

    pub fn is_native(&self) -> (r: bool)
        ensures
            r == self.spec_is_native(),
    {
        match self.body {
            FunctionBody::Native => true,
            FunctionBody::Defined(_) => false,
        }
    }

    /// How many statements the body carries: zero for a native body, the
    /// sequence length otherwise.
    pub fn statement_count(&self) -> (n: usize)
        ensures
            n == self.spec_statements().len(),
            self.spec_is_native() ==> n == 0,
    {
        match &self.body {
            FunctionBody::Native => 0,
            FunctionBody::Defined(items) => items.len(),
        }
    }

    /// The body sequence, unmodified, or nothing for a native body.
    pub fn body_sequence(&self) -> (r: Option<&Vec<SequenceItem>>)
        ensures
            match r {
                Some(items) => !self.spec_is_native() && items@ == self.spec_statements(),
                None => self.spec_is_native(),
            },
    {
        match &self.body {
            FunctionBody::Native => None,
            FunctionBody::Defined(items) => Some(items),
        }
    }
}

/// A named compile-time value.  The initializer is checked upstream to
/// evaluate without runtime state to exactly the declared type; this layer
/// stores the result.
pub struct Constant {
    pub signature: Ty,
    pub value: Exp,
}

/// A struct declaration: its fields in declared order.  The declared field
/// names are distinct; pack and unpack nodes are matched against this set.
pub struct StructDefinition {
    pub type_parameters: Vec<Ident>,
    pub fields: Vec<(Ident, Ty)>,
}

} // verus!
