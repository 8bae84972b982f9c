//! An ordered-unique mapping.
//!
//! Every container of declarations (modules of a program, functions of a
//! module, and so on) keeps its entries in insertion order under keys that
//! are unique by resolved symbol.  Iteration is by position, so downstream
//! passes and the canonical printer see a stable, diff-friendly order;
//! inserting a key twice is an internal defect and never overwrites the
//! first entry.

use vstd::prelude::*;
use crate::errors::Defect;
use crate::ident::Ident;

verus! {

pub struct UniqueMap<V> {
    pub keys: Vec<Ident>,
    pub values: Vec<V>,
}

impl<V> UniqueMap<V> {
    /// The entries, in insertion order.
    pub open spec fn entries(self) -> Seq<(Ident, V)> {
        Seq::new(self.keys@.len(), |i: int| (self.keys@[i], self.values@[i]))
    }

    /// Key and value columns line up, and no symbol occurs under two keys.
    pub open spec fn wf(self) -> bool {
        &&& self.keys@.len() == self.values@.len()
        &&& forall|i: int, j: int|
                0 <= i < j < self.keys@.len() ==> self.keys@[i].sym != self.keys@[j].sym
    }

    /// Whether some key carries the given symbol.
    pub open spec fn contains_sym(self, sym: u64) -> bool {
        exists|i: int| 0 <= i < self.keys@.len() && self.keys@[i].sym == sym
    }

    /// The position of the key carrying the given symbol.
    pub open spec fn sym_index(self, sym: u64) -> int {
        choose|i: int| 0 <= i < self.keys@.len() && self.keys@[i].sym == sym
    }

    pub fn new() -> (m: UniqueMap<V>)
        ensures
            m.wf(),
            m.entries() =~= Seq::<(Ident, V)>::empty(),
    {
        UniqueMap { keys: Vec::new(), values: Vec::new() }
    }

    pub fn len(&self) -> (n: usize)
        ensures
            n == self.entries().len(),
    {
        self.keys.len()
    }

    pub fn contains(&self, key: &Ident) -> (r: bool)
        ensures
            r == self.contains_sym(key.sym),
    {
        let mut i: usize = 0;
        while i < self.keys.len()
            invariant
                i <= self.keys@.len(),
                forall|j: int| 0 <= j < i ==> self.keys@[j].sym != key.sym,
            decreases self.keys@.len() - i,
        {
            if self.keys[i].sym == key.sym {
                return true;
            }
            i = i + 1;
        }
        false
    }

    /// Appends an entry, refusing a key whose symbol is already present.
    /// On refusal the map is left exactly as it was.
    pub fn insert(&mut self, key: Ident, value: V) -> (r: Result<(), Defect>)
        requires
            old(self).wf(),
        ensures
            final(self).wf(),
            r is Ok <==> !old(self).contains_sym(key.sym),
            r is Ok ==> final(self).entries() == old(self).entries().push((key, value)),
            r is Err ==> *final(self) == *old(self) && r == Err::<(), Defect>(Defect::DuplicateKey),
    {
        if self.contains(&key) {
            Err(Defect::DuplicateKey)
        } else {
            self.keys.push(key);
            self.values.push(value);
            proof {
                assert(self.entries() =~= old(self).entries().push((key, value)));
            }
            Ok(())
        }
    }

    /// Point lookup by key symbol.
    pub fn get(&self, key: &Ident) -> (r: Option<&V>)
        requires
            self.wf(),
        ensures
            self.contains_sym(key.sym) ==> (match r {
                Some(v) => *v == self.entries()[self.sym_index(key.sym)].1,
                None => false,
            }),
            !self.contains_sym(key.sym) ==> r is None,
    {
        let mut i: usize = 0;
        while i < self.keys.len()
            invariant
                self.wf(),
                i <= self.keys@.len(),
                forall|j: int| 0 <= j < i ==> self.keys@[j].sym != key.sym,
            decreases self.keys@.len() - i,
        {
            if self.keys[i].sym == key.sym {
                proof {
                    assert(self.contains_sym(key.sym));
                    assert(self.sym_index(key.sym) == i as int);
                }
                return Some(&self.values[i]);
            }
            i = i + 1;
        }
        None
    }

    /// The key at a position, in insertion order.
    pub fn key_at(&self, i: usize) -> (r: &Ident)
        requires
            i < self.entries().len(),
            self.wf(),
        ensures
            *r == self.entries()[i as int].0,
    {
        &self.keys[i]
    }

    /// The value at a position, in insertion order.
    pub fn value_at(&self, i: usize) -> (r: &V)
        requires
            i < self.entries().len(),
            self.wf(),
        ensures
            *r == self.entries()[i as int].1,
    {
        &self.values[i]
    }

    /// Builds a map by inserting the pairs in order.  Succeeds exactly when
    /// the pair keys are distinct by symbol, and then the entries are the
    /// pairs in the given order.
    #[verifier::loop_isolation(false)]
    pub fn from_pairs(pairs: Vec<(Ident, V)>) -> (r: Result<UniqueMap<V>, Defect>)
        ensures
            r is Ok <==> pair_syms_distinct(pairs@),
            match r {
                Ok(m) => m.wf() && m.entries() == pairs@,
                Err(d) => d == Defect::DuplicateKey,
            },
    {
        let ghost all = pairs@;
        let mut rest = pairs;
        let mut m: UniqueMap<V> = UniqueMap::new();
        let ghost mut i: int = 0;
        while rest.len() > 0
            invariant
                0 <= i <= all.len(),
                rest@ =~= all.skip(i),
                m.wf(),
                m.entries() =~= all.take(i),
            decreases all.len() - i,
        {
            let (k, v) = rest.remove(0);
            proof {
                assert(all.skip(i)[0] == all[i]);
            }
            match m.insert(k, v) {
                Ok(()) => {}
                Err(d) => {
                    proof {
                        // the symbol of pair i already sits at some
                        // earlier position jj, so the keys are not distinct
                        assert(m.contains_sym(k.sym));
                        let jj = choose|j: int|
                            0 <= j < m.keys@.len() && m.keys@[j].sym == k.sym;
                        assert(m.entries() =~= all.take(i));
                        assert(m.entries()[jj] == all.take(i)[jj]);
                        assert(all[jj].0.sym == all[i].0.sym && 0 <= jj < i < all.len());
                        assert(!pair_syms_distinct(all));
                    }
                    return Err(d);
                }
            }
            proof {
                assert(rest@ =~= all.skip(i + 1));
                assert(m.entries() =~= all.take(i + 1));
                i = i + 1;
            }
        }
        proof {
            assert(m.entries() =~= all);
            assert forall|a: int, b: int| 0 <= a < b < all.len() implies all[a].0.sym
                != all[b].0.sym by {
                assert(m.entries()[a].0 == all[a].0);
            }
        }
        Ok(m)
    }
}

/// No two pairs carry the same key symbol.
pub open spec fn pair_syms_distinct<V>(s: Seq<(Ident, V)>) -> bool {
    forall|i: int, j: int| 0 <= i < j < s.len() ==> s[i].0.sym != s[j].0.sym
}

} // verus!
