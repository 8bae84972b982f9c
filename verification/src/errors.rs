//! Internal-defect conditions.
//!
//! These are not user-facing diagnostics: user-level type errors live inside
//! the tree as `UnresolvedError` placeholder nodes.  A `Defect` signals that
//! an earlier phase (parsing, naming, type inference) handed the typing pass
//! something it promised never to hand over, and construction of the current
//! node aborts immediately with no partial value returned.

use vstd::prelude::*;

verus! {

/// An internal invariant violation detected while a node was being built.
#[derive(PartialEq, Eq, Debug)]
pub enum Defect {
    /// A key was inserted twice into an ordered-unique mapping.
    DuplicateKey,
    /// A splat list item was built over an expression whose type is not a
    /// multiple-value type.
    SplatOfNonMultiple,
    /// A dependency edge points at a module whose topological rank is not
    /// strictly below the dependent module's rank.
    DependencyOrderViolation,
    /// A pack or unpack field collection does not enumerate exactly the
    /// declared field set of the referenced struct.
    FieldSetMismatch,
    /// Two lists that must pair up element-wise have different lengths.
    ArityMismatch,
}

} // verus!
