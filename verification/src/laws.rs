//! Library-wide laws, stated and proved once.
//!
//! Each lemma here records a guarantee that the constructors' and the
//! printer's contracts together provide, so a consumer can cite it without
//! re-deriving it.

use vstd::prelude::*;
use crate::decl::Function;
use crate::exp::{entries_match, entry_ok, FieldEntry};
use crate::ident::Ident;
use crate::ty::Ty;
use crate::program::{edge_ok, module_edges_ok, Program};
use crate::render::render_program;
use crate::unique_map::pair_syms_distinct;

verus! {

/// Printing is deterministic: the canonical text is a function of the
/// tree value alone, so printing one tree twice, or printing two
/// structurally equal but separately constructed trees, yields identical
/// text.
pub proof fn lemma_print_deterministic(a: Program, b: Program)
    requires
        a == b,
    ensures
        render_program(a) == render_program(b),
{
}

/// Some entry already carries the given key symbol.
pub open spec fn contains_key_sym<V>(entries: Seq<(Ident, V)>, sym: u64) -> bool {
    exists|i: int| 0 <= i < entries.len() && entries[i].0.sym == sym
}

/// One insertion into an ordered-unique mapping: refused when the key is
/// already present, appended at the end otherwise.
pub open spec fn insert_entry<V>(entries: Seq<(Ident, V)>, p: (Ident, V)) -> Option<
    Seq<(Ident, V)>,
> {
    if contains_key_sym(entries, p.0.sym) {
        None
    } else {
        Some(entries.push(p))
    }
}

/// Folding a whole pair list through `insert_entry`, first to last.
pub open spec fn insert_all<V>(entries: Seq<(Ident, V)>, pairs: Seq<(Ident, V)>) -> Option<
    Seq<(Ident, V)>,
>
    decreases pairs.len(),
{
    if pairs.len() == 0 {
        Some(entries)
    } else {
        match insert_entry(entries, pairs[0]) {
            None => None,
            Some(e2) => insert_all(e2, pairs.skip(1)),
        }
    }
}

/// Order preservation: inserting pairs with jointly distinct keys appends
/// them in exactly the given order.
pub proof fn lemma_insertion_order_preserved<V>(entries: Seq<(Ident, V)>, pairs: Seq<(Ident, V)>)
    requires
        pair_syms_distinct(entries + pairs),
    ensures
        insert_all(entries, pairs) == Some(entries + pairs),
    decreases pairs.len(),
{
    if pairs.len() == 0 {
        assert(entries + pairs =~= entries);
    } else {
        assert(!contains_key_sym(entries, pairs[0].0.sym)) by {
            if contains_key_sym(entries, pairs[0].0.sym) {
                let i = choose|i: int|
                    0 <= i < entries.len() && entries[i].0.sym == pairs[0].0.sym;
                assert((entries + pairs)[i] == entries[i]);
                assert((entries + pairs)[entries.len() as int] == pairs[0]);
                assert(false);
            }
        };
        let e2 = entries.push(pairs[0]);
        assert(e2 + pairs.skip(1) =~= entries + pairs);
        lemma_insertion_order_preserved(e2, pairs.skip(1));
    }
}

/// Building from empty: inserting distinct-keyed pairs M1..Mn yields a
/// mapping whose entries are exactly M1..Mn in that order.
pub proof fn lemma_build_order<V>(pairs: Seq<(Ident, V)>)
    requires
        pair_syms_distinct(pairs),
    ensures
        insert_all(Seq::<(Ident, V)>::empty(), pairs) == Some(pairs),
{
    assert(Seq::<(Ident, V)>::empty() + pairs =~= pairs);
    lemma_insertion_order_preserved(Seq::<(Ident, V)>::empty(), pairs);
}

/// Duplicate-key rejection: an insertion under an already-present key is
/// refused, and the refusal leaves the entries untouched rather than
/// overwriting the first binding.
pub proof fn lemma_duplicate_rejected<V>(entries: Seq<(Ident, V)>, p: (Ident, V))
    requires
        contains_key_sym(entries, p.0.sym),
    ensures
        insert_entry(entries, p) is None,
{
}

/// Dependency-order monotonicity: in a well-formed program, wherever
/// module `i` lists a dependency that resolves to module `j`, module `j`
/// ranks strictly below module `i`.
pub proof fn lemma_dependency_order_monotone(p: Program, i: int, k: int, j: int)
    requires
        p.wf(),
        0 <= i < p.modules.entries().len(),
        0 <= k < p.modules.entries()[i].1.used_modules@.len(),
        0 <= j < p.modules.entries().len(),
        p.modules.entries()[j].0.sym == p.modules.entries()[i].1.used_modules@[k].sym,
    ensures
        p.modules.entries()[j].1.dependency_order < p.modules.entries()[i].1.dependency_order,
{
    assert(module_edges_ok(p.modules.entries(), i));
    assert(edge_ok(p.modules.entries(), i, k));
}

/// Order preservation for pack and unpack fields: a matched field list
/// holds the declared fields in declared order, at their declared
/// positions and types, whatever order the source supplied them in.
pub proof fn lemma_fields_in_declared_order<T>(
    declared: Seq<(Ident, Ty)>,
    provided: Seq<(Ident, T)>,
    entries: Seq<FieldEntry<T>>,
    i: int,
)
    requires
        entries_match(declared, provided, entries),
        0 <= i < declared.len(),
    ensures
        entries[i].field == declared[i].0,
        entries[i].index == i,
        entries[i].ty == declared[i].1,
{
    assert(entry_ok(declared, provided, entries, i));
}

/// Native/defined exclusivity, the native half: a native body exposes no
/// statements at all.
pub proof fn lemma_native_no_statements(f: Function)
    requires
        f.spec_is_native(),
    ensures
        f.spec_statements().len() == 0,
{
}


} // verus!
