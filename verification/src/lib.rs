//! Typed intermediate representation for a smart-contract language.
//!
//! The typing pass of the compiler front end produces this tree: every
//! expression node pairs an operation with its fully resolved type, and the
//! containers above it (functions and constants of a module, modules and
//! scripts of a program) keep their declarations in insertion order under
//! unique keys.  Construction validates the local structural invariants —
//! duplicate keys, malformed splats, broken dependency ranks are internal
//! defects that abort the node being built — and a canonical printer renders
//! any well-formed tree as deterministic text.

pub mod bench;
pub mod decl;
pub mod errors;
pub mod exp;
pub mod ident;
pub mod laws;
pub mod numeral;
pub mod printer;
pub mod program;
pub mod render;
pub mod ty;
pub mod unique_map;
