//! Module, script, and program containers.
//!
//! A program aggregates modules and scripts under unique names, in
//! insertion order.  Each module carries its topological rank
//! (`dependency_order`), computed upstream: along every dependency edge the
//! used module ranks strictly below its user, so downstream passes may
//! process modules rank by rank, independently within a rank.  Construction
//! re-validates that invariant and refuses a program that breaks it.

use vstd::prelude::*;
use crate::decl::{Constant, Function, StructDefinition};
use crate::errors::Defect;
use crate::ident::Ident;
use crate::unique_map::{pair_syms_distinct, UniqueMap};

verus! {

pub struct ModuleDefinition {
    /// Compiled from source, as opposed to loaded as a library dependency.
    pub is_source_module: bool,
    /// Topological rank over the module dependency graph.
    pub dependency_order: usize,
    pub friends: Vec<Ident>,
    /// The modules this module uses, resolved upstream.
    pub used_modules: Vec<Ident>,
    pub structs: UniqueMap<StructDefinition>,
    pub constants: UniqueMap<Constant>,
    pub functions: UniqueMap<Function>,
}

impl ModuleDefinition {
    pub open spec fn wf(self) -> bool {
        &&& self.structs.wf()
        &&& self.constants.wf()
        &&& self.functions.wf()
    }
}

/// A top-level executable script: its constants and exactly one function.
/// The package name is diagnostic metadata and never affects semantics.
pub struct Script {
    pub package_name: Option<Ident>,
    pub constants: UniqueMap<Constant>,
    pub function_name: Ident,
    pub function: Function,
}

impl Script {
    pub open spec fn wf(self) -> bool {
        self.constants.wf()
    }
}

/// Dependency edge `k` of module `i` respects the ranks: every module the
/// edge can resolve to ranks strictly below module `i`.
pub open spec fn edge_ok(ms: Seq<(Ident, ModuleDefinition)>, i: int, k: int) -> bool
    recommends
        0 <= i < ms.len(),
        0 <= k < ms[i].1.used_modules@.len(),
{
    forall|j: int|
        0 <= j < ms.len() && ms[j].0.sym == ms[i].1.used_modules@[k].sym
            ==> (#[trigger] ms[j].1).dependency_order < ms[i].1.dependency_order
}

/// All dependency edges of module `i` respect the ranks.
pub open spec fn module_edges_ok(ms: Seq<(Ident, ModuleDefinition)>, i: int) -> bool
    recommends
        0 <= i < ms.len(),
{
    forall|k: int| 0 <= k < ms[i].1.used_modules@.len() ==> #[trigger] edge_ok(ms, i, k)
}

/// Along every dependency edge, the used module ranks strictly below the
/// module that uses it.
pub open spec fn dep_order_respected(ms: Seq<(Ident, ModuleDefinition)>) -> bool {
    forall|i: int| 0 <= i < ms.len() ==> #[trigger] module_edges_ok(ms, i)
}

/// One compiled unit: its modules and scripts, each in insertion order
/// under unique names.  Built once by `Program::new`; downstream consumers
/// traverse it read-only.
pub struct Program {
    pub modules: UniqueMap<ModuleDefinition>,
    pub scripts: UniqueMap<Script>,
}

impl Program {
    pub open spec fn wf(self) -> bool {
        &&& self.modules.wf()
        &&& self.scripts.wf()
        &&& forall|i: int|
                0 <= i < self.modules.entries().len() ==> (
                #[trigger] self.modules.entries()[i]).1.wf()
        &&& forall|i: int|
                0 <= i < self.scripts.entries().len() ==> (
                #[trigger] self.scripts.entries()[i]).1.wf()
        &&& dep_order_respected(self.modules.entries())
    }

    /// Builds a program from already-typed modules and scripts, refusing a
    /// duplicate module or script name and a broken dependency rank.
    /// On success the modules and scripts keep the given order exactly.
    pub fn new(modules: Vec<(Ident, ModuleDefinition)>, scripts: Vec<(Ident, Script)>) -> (r:
        Result<Program, Defect>)
        requires
            forall|i: int| 0 <= i < modules@.len() ==> (#[trigger] modules@[i]).1.wf(),
            forall|i: int| 0 <= i < scripts@.len() ==> (#[trigger] scripts@[i]).1.wf(),
        ensures
            r is Ok <==> pair_syms_distinct(modules@) && pair_syms_distinct(scripts@)
                && dep_order_respected(modules@),
            match r {
                Ok(p) => {
                    &&& p.wf()
                    &&& p.modules.entries() == modules@
                    &&& p.scripts.entries() == scripts@
                },
                Err(d) => {
                    if pair_syms_distinct(modules@) && pair_syms_distinct(scripts@) {
                        d == Defect::DependencyOrderViolation
                    } else {
                        d == Defect::DuplicateKey
                    }
                },
            },
    {
        let mmap = match UniqueMap::from_pairs(modules) {
            Ok(m) => m,
            Err(d) => {
                return Err(d);
            }
        };
        let smap = match UniqueMap::from_pairs(scripts) {
            Ok(m) => m,
            Err(d) => {
                return Err(d);
            }
        };
        if !check_dependency_order(&mmap) {
            return Err(Defect::DependencyOrderViolation);
        }
        Ok(Program { modules: mmap, scripts: smap })
    }
}

/// Whether every dependency edge in the map respects the ranks.
#[verifier::loop_isolation(false)]
pub fn check_dependency_order(ms: &UniqueMap<ModuleDefinition>) -> (r: bool)
    requires
        ms.wf(),
    ensures
        r == dep_order_respected(ms.entries()),
{
    let ghost es = ms.entries();
    let n: usize = ms.len();
    let mut i: usize = 0;
    while i < n
        invariant
            i <= n,
            forall|a: int| 0 <= a < i ==> #[trigger] module_edges_ok(es, a),
        decreases n - i,
    {
        let user = ms.value_at(i);
        let nk: usize = user.used_modules.len();
        let mut k: usize = 0;
        while k < nk
            invariant
                i < n,
                k <= nk,
                nk == user.used_modules@.len(),
                *user == es[i as int].1,
                forall|b: int| 0 <= b < k ==> #[trigger] edge_ok(es, i as int, b),
            decreases nk - k,
        {
            let dep_sym: u64 = user.used_modules[k].sym;
            let mut j: usize = 0;
            while j < n
                invariant
                    i < n,
                    k < nk,
                    nk == user.used_modules@.len(),
                    *user == es[i as int].1,
                    dep_sym == es[i as int].1.used_modules@[k as int].sym,
                    j <= n,
                    forall|c: int|
                        0 <= c < j && es[c].0.sym == es[i as int].1.used_modules@[k as int].sym
                            ==> (#[trigger] es[c].1).dependency_order
                            < es[i as int].1.dependency_order,
                decreases n - j,
            {
                if ms.key_at(j).sym == dep_sym {
                    let dep = ms.value_at(j);
                    if dep.dependency_order >= user.dependency_order {
                        proof {
                            assert(!edge_ok(es, i as int, k as int));
                            assert(!module_edges_ok(es, i as int));
                            assert(!dep_order_respected(es));
                        }
                        return false;
                    }
                }
                j = j + 1;
            }
            proof {
                assert(edge_ok(es, i as int, k as int));
            }
            k = k + 1;
        }
        proof {
            assert(module_edges_ok(es, i as int));
        }
        i = i + 1;
    }
    true
}

} // verus!
