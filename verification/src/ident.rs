//! Identifiers as the naming phase hands them over.

use vstd::prelude::*;

verus! {

/// A resolved identifier: an interned symbol plus the text it was interned
/// from.  The naming phase interns every name before typing begins, so two
/// identifiers denote the same name exactly when their symbols are equal;
/// the text is carried only for rendering.
#[derive(PartialEq, Eq, Debug)]
pub struct Ident {
    pub sym: u64,
    pub text: String,
}

impl Ident {
    pub fn new(sym: u64, text: String) -> (r: Ident)
        ensures
            r.sym == sym,
            r.text == text,
    {
        Ident { sym, text }
    }

    /// A structurally equal copy.
    pub fn duplicate(&self) -> (r: Ident)
        ensures
            r == *self,
    {
        Ident { sym: self.sym, text: self.text.clone() }
    }

    /// Whether two identifiers denote the same resolved name.
    pub fn same(&self, other: &Ident) -> (r: bool)
        ensures
            r == (self.sym == other.sym),
    {
        self.sym == other.sym
    }
}

} // verus!
