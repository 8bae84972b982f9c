//! The typed expression tree, patterns, and statement sequences.
//!
//! Every expression node pairs an operation with its resolved type.  Nodes
//! are built once, from already-resolved inputs, and never mutated; the
//! constructors below validate the local structural invariants and abort
//! with a `Defect` when an earlier phase broke its promise.  A failed user
//! typing is not a defect: it lives inside the tree as an
//! `UnresolvedError` node so that later diagnostics are still collected.

use vstd::prelude::*;
use crate::decl::FunctionSignature;
use crate::errors::Defect;
use crate::ident::Ident;
use crate::ty::{Ty, TyList};
use crate::unique_map::pair_syms_distinct;

verus! {

/// A literal value supplied by the naming phase.
#[derive(PartialEq, Eq)]
pub enum Value {
    Bool(bool),
    U8(u8),
    U64(u64),
    U128(u128),
    Address(u128),
    Bytearray(Vec<u8>),
}

pub enum UnaryOp {
    Not,
}

pub enum BinOp {
    Add,
    Sub,
    Mul,
    Mod,
    Div,
    BitOr,
    BitAnd,
    Xor,
    Shl,
    Shr,
    And,
    Or,
    Eq,
    Neq,
    Lt,
    Gt,
    Le,
    Ge,
}

/// A storage or assertion intrinsic.  The mutability of `borrow_global` is
/// a boolean on the one variant, not a variant of its own, so the display
/// name table stays small.
pub enum BuiltinFunction {
    MoveTo(Ty),
    MoveFrom(Ty),
    BorrowGlobal(bool, Ty),
    Exists(Ty),
    Freeze(Ty),
    Assert,
}

/// Where a specification block came from: module, function, and the block
/// id inside that function.
pub struct SpecOrigin {
    pub module: Ident,
    pub function: Ident,
    pub id: u64,
}

/// A free local captured by a specification block, with the binding name
/// it was renamed to inside the block.
pub struct SpecCapture {
    pub var: Ident,
    pub ty: Ty,
    pub renamed: Ident,
}

/// A lambda lifted out of a specification block.
pub struct SpecLambda {
    pub name: Ident,
    pub body: Exp,
}

/// A formal-specification attachment point.  Only the external
/// specification checker interprets it; translation passes preserve it and
/// otherwise treat the node as a no-op.
pub struct SpecAnchor {
    pub id: u64,
    pub origin: Option<SpecOrigin>,
    pub used_locals: Vec<SpecCapture>,
    pub lifted_lambdas: Vec<SpecLambda>,
}

/// One field of a pack expression or an unpack pattern: the declared field
/// name, its declared position, its declared type, and the payload bound at
/// that position.
pub struct FieldEntry<T> {
    pub field: Ident,
    pub index: usize,
    pub ty: Ty,
    pub item: T,
}

/// An assignment or declaration target.
pub enum LValue {
    /// Discard the value.
    Ignore,
    /// Bind a single variable at the given type.
    Var(Ident, Ty),
    /// Destructure a struct value; the entries must enumerate the declared
    /// field set, each pairing the declared type with the nested pattern.
    Unpack { module: Ident, name: Ident, type_args: TyList, fields: Vec<FieldEntry<(Ty, LValue)>> },
    /// Destructure through a reference, producing borrows of the fields.
    BorrowUnpack {
        mutable: bool,
        module: Ident,
        name: Ident,
        type_args: TyList,
        fields: Vec<FieldEntry<(Ty, LValue)>>,
    },
}

/// One statement of a block.
pub enum SequenceItem {
    /// A bare expression evaluated for its effect.
    Bare(Exp),
    /// A declaration without an initializer.
    Declare(Vec<LValue>),
    /// A binding `patterns = expression`, with one expected type per
    /// pattern element.
    Bind(Vec<LValue>, Vec<Ty>, Exp),
}

/// A resolved call to a module function.
pub struct ModuleCall {
    pub module: Ident,
    pub function: Ident,
    pub is_macro: bool,
    pub type_arguments: TyList,
    pub parameter_types: Vec<Ty>,
    pub acquires: Vec<Ident>,
    pub arguments: Box<Exp>,
}

/// One element of a multiple-value expression list.
pub enum ExpListItem {
    /// A single value with its type.
    Single(Exp, Ty),
    /// Splice the components of a multiple-valued sub-expression in place;
    /// carries that expression's component types.
    Splat(u64, Exp, TyList),
}

/// A typed expression: the resolved type paired with the operation.
pub struct Exp {
    pub ty: Ty,
    pub exp: UnannotatedExp,
}

pub enum UnannotatedExp {
    /// A unit value; `trailing` marks the implicit unit at the end of a
    /// statement sequence, which affects only rendering.
    Unit { trailing: bool },
    Value(Value),
    /// Consume a local by moving it; `from_user` records whether the user
    /// wrote the keyword, for diagnostics only.
    Move { from_user: bool, var: Ident },
    /// Consume a local by copying it; `from_user` as for `Move`.
    Copy { from_user: bool, var: Ident },
    /// A reference-producing access in specification contexts.
    Use(Ident),
    /// A reference to a constant, module-qualified or local.
    Constant(Option<Ident>, Ident),
    ModuleCall(Box<ModuleCall>),
    /// A call through a function-typed local.
    VarCall(Ident, Box<Exp>),
    Builtin(Box<BuiltinFunction>, Box<Exp>),
    /// A homogeneous vector literal: element count, element type, elements.
    Vector(usize, Box<Ty>, Box<Exp>),
    IfElse(Box<Exp>, Box<Exp>, Box<Exp>),
    While(Box<Exp>, Box<Exp>),
    /// `has_break` records whether the loop can exit normally, which
    /// decides the loop's resulting type.
    Loop { has_break: bool, body: Box<Exp> },
    /// A new lexical scope.
    Block(Vec<SequenceItem>),
    /// Specification-block function lifting only; not a user closure.
    Lambda(Vec<LValue>, Box<Exp>),
    /// Pattern-directed mutation, with one expected type per element where
    /// the upstream phase fixed one.
    Assign(Vec<LValue>, Vec<Option<Ty>>, Box<Exp>),
    /// Write through a reference: `*lhs = rhs`.
    Mutate(Box<Exp>, Box<Exp>),
    Return(Box<Exp>),
    /// A non-local exit carrying the abort code.
    Abort(Box<Exp>),
    Break,
    Continue,
    Dereference(Box<Exp>),
    UnaryExp(UnaryOp, Box<Exp>),
    /// The operand type is already resolved here, so translation never
    /// re-derives it.
    BinopExp(Box<Exp>, BinOp, Box<Ty>, Box<Exp>),
    /// Struct construction; fields are kept in the struct's declared order
    /// whatever order the user wrote them in.
    Pack(Ident, Ident, TyList, Vec<FieldEntry<Exp>>),
    ExpList(Vec<ExpListItem>),
    /// Borrow a field of the operand.
    Borrow(bool, Box<Exp>, Ident),
    /// Borrow a freshly evaluated temporary.
    TempBorrow(bool, Box<Exp>),
    /// Borrow a named local.
    BorrowLocal(bool, Ident),
    Cast(Box<Exp>, Box<Ty>),
    /// A debug-only annotation wrapper with no runtime effect.
    Annotate(Box<Exp>, Box<Ty>),
    Spec(SpecAnchor),
    /// Placeholder for a sub-expression whose type checking failed.
    UnresolvedError,
}

/// Some pair carries the given key symbol.
pub open spec fn has_sym<T>(s: Seq<(Ident, T)>, sym: u64) -> bool {
    exists|j: int| 0 <= j < s.len() && s[j].0.sym == sym
}

/// One of the first `n` declared fields carries the given symbol.
pub open spec fn sym_in_prefix(s: Seq<(Ident, Ty)>, n: int, sym: u64) -> bool {
    exists|i: int| 0 <= i < n && s[i].0.sym == sym
}

/// The provided fields cover the declared field set exactly: same count,
/// and every declared name is provided.
pub open spec fn fields_complete<T>(declared: Seq<(Ident, Ty)>, provided: Seq<(Ident, T)>) -> bool {
    &&& provided.len() == declared.len()
    &&& forall|i: int|
            0 <= i < declared.len() ==> #[trigger] has_sym(provided, declared[i].0.sym)
}

/// Entry `i` of a matched field list: declared name, position, and type,
/// with the payload the caller provided under that name.
pub open spec fn entry_ok<T>(
    declared: Seq<(Ident, Ty)>,
    provided: Seq<(Ident, T)>,
    entries: Seq<FieldEntry<T>>,
    i: int,
) -> bool
    recommends
        0 <= i < declared.len(),
        entries.len() == declared.len(),
{
    &&& entries[i].field == declared[i].0
    &&& entries[i].index == i
    &&& entries[i].ty == declared[i].1
    &&& exists|j: int|
            0 <= j < provided.len() && provided[j].0.sym == declared[i].0.sym && entries[i].item
                == provided[j].1
}

/// The matched entries list the declared fields in declared order, each
/// carrying the payload provided for it.
pub open spec fn entries_match<T>(
    declared: Seq<(Ident, Ty)>,
    provided: Seq<(Ident, T)>,
    entries: Seq<FieldEntry<T>>,
) -> bool {
    &&& entries.len() == declared.len()
    &&& forall|i: int| 0 <= i < declared.len() ==> #[trigger] entry_ok(declared, provided, entries, i)
}

/// The position of the first pair carrying the given symbol.
fn find_sym<T>(pairs: &Vec<(Ident, T)>, sym: u64) -> (r: Option<usize>)
    ensures
        match r {
            Some(j) => j < pairs@.len() && pairs@[j as int].0.sym == sym,
            None => forall|k: int| 0 <= k < pairs@.len() ==> pairs@[k].0.sym != sym,
        },
{
    let mut j: usize = 0;
    while j < pairs.len()
        invariant
            j <= pairs@.len(),
            forall|k: int| 0 <= k < j ==> pairs@[k].0.sym != sym,
        decreases pairs@.len() - j,
    {
        if pairs[j].0.sym == sym {
            return Some(j);
        }
        j = j + 1;
    }
    None
}

/// Reorders provided fields into the declared field order.
///
/// The declared list is the struct's declared field set (distinct names,
/// declared order); the provided list is what the source wrote, in any
/// order.  Succeeds exactly when the provided fields cover the declared
/// set, and then entry `i` holds declared field `i` with the payload that
/// was provided under that name.
#[verifier::loop_isolation(false)]
pub fn match_fields<T>(declared: Vec<(Ident, Ty)>, provided: Vec<(Ident, T)>) -> (r: Result<
    Vec<FieldEntry<T>>,
    Defect,
>)
    requires
        pair_syms_distinct(declared@),
        pair_syms_distinct(provided@),
    ensures
        r is Ok <==> fields_complete(declared@, provided@),
        match r {
            Ok(entries) => entries_match(declared@, provided@, entries@),
            Err(d) => d == Defect::FieldSetMismatch,
        },
{
    let ghost dseq = declared@;
    let ghost pseq = provided@;
    if provided.len() != declared.len() {
        return Err(Defect::FieldSetMismatch);
    }
    let mut decls = declared;
    let mut provs = provided;
    let mut out: Vec<FieldEntry<T>> = Vec::new();
    let mut idx: usize = 0;
    while decls.len() > 0
        invariant
            idx as int == dseq.len() - decls@.len(),
            decls@ =~= dseq.skip(idx as int),
            out@.len() == idx,
            forall|i: int| 0 <= i < idx ==> #[trigger] entry_ok(dseq, pseq, out@, i),
            forall|k: int| 0 <= k < provs@.len() ==> #[trigger] pseq.contains(provs@[k]),
            forall|j: int|
                0 <= j < pseq.len() && !sym_in_prefix(dseq, idx as int, pseq[j].0.sym)
                    ==> #[trigger] provs@.contains(pseq[j]),
            pair_syms_distinct(provs@),
        decreases decls@.len(),
    {
        let (name, ty) = decls.remove(0);
        proof {
            assert(dseq.skip(idx as int)[0] == dseq[idx as int]);
        }
        match find_sym(&provs, name.sym) {
            None => {
                proof {
                    if has_sym(pseq, dseq[idx as int].0.sym) {
                        let j = choose|j: int|
                            0 <= j < pseq.len() && pseq[j].0.sym == dseq[idx as int].0.sym;
                        assert(!sym_in_prefix(dseq, idx as int, pseq[j].0.sym));
                        assert(provs@.contains(pseq[j]));
                        let k = choose|k: int| 0 <= k < provs@.len() && provs@[k] == pseq[j];
                        assert(provs@[k].0.sym == name.sym);
                        assert(false);
                    }
                }
                return Err(Defect::FieldSetMismatch);
            }
            Some(j) => {
                let ghost pv = provs@;
                let ghost ov = out@;
                let (_pname, item) = provs.remove(j);
                out.push(FieldEntry { field: name, index: idx, ty, item });
                proof {
                    pv.remove_ensures(j as int);
                    // the new entry is correct
                    assert(pseq.contains(pv[j as int]));
                    let p = choose|p: int| 0 <= p < pseq.len() && pseq[p] == pv[j as int];
                    assert(out@ == ov.push(out@[idx as int]));
                    assert(out@[idx as int].field == dseq[idx as int].0);
                    assert(out@[idx as int].index == idx as int);
                    assert(out@[idx as int].ty == dseq[idx as int].1);
                    assert(out@[idx as int].item == pv[j as int].1);
                    assert(pv[j as int].0.sym == dseq[idx as int].0.sym);
                    assert(pseq[p].0.sym == dseq[idx as int].0.sym && out@[idx as int].item
                        == pseq[p].1);
                    assert(entry_ok(dseq, pseq, out@, idx as int));
                    // earlier entries are untouched by the push
                    assert forall|i: int| 0 <= i < idx implies #[trigger] entry_ok(
                        dseq,
                        pseq,
                        out@,
                        i,
                    ) by {
                        assert(entry_ok(dseq, pseq, ov, i));
                        assert(out@[i] == ov[i]);
                    }
                    // every remaining provided pair still comes from the input
                    assert forall|k: int| 0 <= k < provs@.len() implies #[trigger] pseq.contains(
                        provs@[k],
                    ) by {
                        if k < j {
                            assert(provs@[k] == pv[k]);
                        } else {
                            assert(provs@[k] == pv[k + 1]);
                        }
                    }
                    // pairs for fields not yet matched are still available
                    assert forall|jj: int|
                        0 <= jj < pseq.len() && !sym_in_prefix(
                            dseq,
                            idx as int + 1,
                            pseq[jj].0.sym,
                        ) implies #[trigger] provs@.contains(pseq[jj]) by {
                        assert(!sym_in_prefix(dseq, idx as int, pseq[jj].0.sym));
                        assert(pv.contains(pseq[jj]));
                        let k = choose|k: int| 0 <= k < pv.len() && pv[k] == pseq[jj];
                        assert(pseq[jj].0.sym != dseq[idx as int].0.sym);
                        assert(k != j);
                        if k < j {
                            assert(provs@[k] == pv[k]);
                        } else {
                            assert(provs@[k - 1] == pv[k]);
                        }
                    }
                    // distinctness survives deletion
                    assert forall|a: int, b: int|
                        0 <= a < b < provs@.len() implies provs@[a].0.sym != provs@[b].0.sym by {
                        if a < j {
                            assert(provs@[a] == pv[a]);
                        } else {
                            assert(provs@[a] == pv[a + 1]);
                        }
                        if b < j {
                            assert(provs@[b] == pv[b]);
                        } else {
                            assert(provs@[b] == pv[b + 1]);
                        }
                    }
                    assert(decls@ =~= dseq.skip(idx as int + 1));
                }
                idx = idx + 1;
            }
        }
    }
    proof {
        assert forall|i: int| 0 <= i < dseq.len() implies #[trigger] has_sym(
            pseq,
            dseq[i].0.sym,
        ) by {
            assert(entry_ok(dseq, pseq, out@, i));
        }
    }
    Ok(out)
}

impl ExpListItem {
    /// A single-value list element, annotated with the value's type.
    pub fn single(e: Exp) -> (item: ExpListItem)
        ensures
            item == ExpListItem::Single(e, e.ty),
    {
        let ty = e.ty.duplicate();
        ExpListItem::Single(e, ty)
    }

    /// Splices a multiple-valued expression into a list, extracting its
    /// component types.  Any other operand type is an internal defect: the
    /// item is refused and nothing is built.
    pub fn splat(loc: u64, e: Exp) -> (r: Result<ExpListItem, Defect>)
        ensures
            r is Ok <==> e.ty.spec_is_multiple(),
            match r {
                Ok(item) => item == ExpListItem::Splat(loc, e, e.ty.spec_components()),
                Err(d) => d == Defect::SplatOfNonMultiple,
            },
    {
        let tys = match &e.ty {
            Ty::Multiple(ts) => ts.duplicate(),
            _ => {
                return Err(Defect::SplatOfNonMultiple);
            }
        };
        Ok(ExpListItem::Splat(loc, e, tys))
    }
}

impl Exp {
    /// A loop node.  A loop that can never `break` cannot return normally,
    /// so its type is `Never`; a loop with a reachable `break` has the type
    /// its break expressions carry.
    pub fn loop_exp(has_break: bool, break_ty: Ty, body: Exp) -> (r: Exp)
        ensures
            match r.exp {
                UnannotatedExp::Loop { has_break: hb, body: b } => hb == has_break && *b == body,
                _ => false,
            },
            has_break ==> r.ty == break_ty,
            !has_break ==> r.ty == Ty::Never,
    {
        let ty = if has_break {
            break_ty
        } else {
            Ty::Never
        };
        Exp { ty, exp: UnannotatedExp::Loop { has_break, body: Box::new(body) } }
    }

    /// A pattern assignment node.  The expected-type list pairs up with the
    /// pattern list element-wise; mismatched lengths are an internal
    /// defect.  An assignment evaluates to unit.
    pub fn assign(lvalues: Vec<LValue>, expected: Vec<Option<Ty>>, rhs: Exp) -> (r: Result<
        Exp,
        Defect,
    >)
        ensures
            r is Ok <==> lvalues@.len() == expected@.len(),
            match r {
                Ok(e) => e.ty == Ty::Unit && match e.exp {
                    UnannotatedExp::Assign(lvs, tys, r) => lvs == lvalues && tys == expected && *r
                        == rhs,
                    _ => false,
                },
                Err(d) => d == Defect::ArityMismatch,
            },
    {
        if lvalues.len() != expected.len() {
            return Err(Defect::ArityMismatch);
        }
        Ok(Exp { ty: Ty::Unit, exp: UnannotatedExp::Assign(lvalues, expected, Box::new(rhs)) })
    }

    /// A struct-construction node.  `declared` is the struct's declared
    /// field set in declared order; `provided` is the initializer list in
    /// the order the user wrote it.  The built node stores the fields in
    /// declared order whatever the source order was.
    pub fn pack(
        module: Ident,
        name: Ident,
        type_args: TyList,
        declared: Vec<(Ident, Ty)>,
        provided: Vec<(Ident, Exp)>,
        result_ty: Ty,
    ) -> (r: Result<Exp, Defect>)
        requires
            pair_syms_distinct(declared@),
            pair_syms_distinct(provided@),
        ensures
            r is Ok <==> fields_complete(declared@, provided@),
            match r {
                Ok(e) => {
                    &&& e.ty == result_ty
                    &&& match e.exp {
                        UnannotatedExp::Pack(m, n, tas, entries) => {
                            &&& m == module
                            &&& n == name
                            &&& tas == type_args
                            &&& entries_match(declared@, provided@, entries@)
                        },
                        _ => false,
                    }
                },
                Err(d) => d == Defect::FieldSetMismatch,
            },
    {
        let entries = match match_fields(declared, provided) {
            Ok(entries) => entries,
            Err(d) => {
                return Err(d);
            }
        };
        Ok(Exp { ty: result_ty, exp: UnannotatedExp::Pack(module, name, type_args, entries) })
    }
}

impl LValue {
    /// A struct-destructuring pattern.  The entries must enumerate the
    /// declared field set exactly, each pairing the declared type with the
    /// nested binding, and are stored in declared order.
    pub fn unpack(
        module: Ident,
        name: Ident,
        type_args: TyList,
        declared: Vec<(Ident, Ty)>,
        provided: Vec<(Ident, (Ty, LValue))>,
    ) -> (r: Result<LValue, Defect>)
        requires
            pair_syms_distinct(declared@),
            pair_syms_distinct(provided@),
        ensures
            r is Ok <==> fields_complete(declared@, provided@),
            match r {
                Ok(lv) => match lv {
                    LValue::Unpack { module: m, name: n, type_args: tas, fields } => {
                        &&& m == module
                        &&& n == name
                        &&& tas == type_args
                        &&& entries_match(declared@, provided@, fields@)
                    },
                    _ => false,
                },
                Err(d) => d == Defect::FieldSetMismatch,
            },
    {
        let fields = match match_fields(declared, provided) {
            Ok(entries) => entries,
            Err(d) => {
                return Err(d);
            }
        };
        Ok(LValue::Unpack { module, name, type_args, fields })
    }

    /// As `unpack`, but destructuring through a reference: the produced
    /// bindings borrow the fields, mutably when `mutable` is set.
    pub fn borrow_unpack(
        mutable: bool,
        module: Ident,
        name: Ident,
        type_args: TyList,
        declared: Vec<(Ident, Ty)>,
        provided: Vec<(Ident, (Ty, LValue))>,
    ) -> (r: Result<LValue, Defect>)
        requires
            pair_syms_distinct(declared@),
            pair_syms_distinct(provided@),
        ensures
            r is Ok <==> fields_complete(declared@, provided@),
            match r {
                Ok(lv) => match lv {
                    LValue::BorrowUnpack { mutable: mu, module: m, name: n, type_args: tas, fields } => {
                        &&& mu == mutable
                        &&& m == module
                        &&& n == name
                        &&& tas == type_args
                        &&& entries_match(declared@, provided@, fields@)
                    },
                    _ => false,
                },
                Err(d) => d == Defect::FieldSetMismatch,
            },
    {
        let fields = match match_fields(declared, provided) {
            Ok(entries) => entries,
            Err(d) => {
                return Err(d);
            }
        };
        Ok(LValue::BorrowUnpack { mutable, module, name, type_args, fields })
    }
}

impl SequenceItem {
    /// A binding statement.  The expected-type list pairs up with the
    /// pattern list element-wise; mismatched lengths are an internal
    /// defect.
    pub fn bind(lvalues: Vec<LValue>, expected: Vec<Ty>, rhs: Exp) -> (r: Result<
        SequenceItem,
        Defect,
    >)
        ensures
            r is Ok <==> lvalues@.len() == expected@.len(),
            match r {
                Ok(item) => item == SequenceItem::Bind(lvalues, expected, rhs),
                Err(d) => d == Defect::ArityMismatch,
            },
    {
        if lvalues.len() != expected.len() {
            return Err(Defect::ArityMismatch);
        }
        Ok(SequenceItem::Bind(lvalues, expected, rhs))
    }
}

impl ModuleCall {
    /// A resolved call.  The resolved parameter types must agree with the
    /// callee signature's arity; a mismatch is an internal defect.
    pub fn new(
        module: Ident,
        function: Ident,
        is_macro: bool,
        type_arguments: TyList,
        parameter_types: Vec<Ty>,
        acquires: Vec<Ident>,
        arguments: Exp,
        callee_signature: &FunctionSignature,
    ) -> (r: Result<ModuleCall, Defect>)
        ensures
            r is Ok <==> parameter_types@.len() == callee_signature.parameters@.len(),
            match r {
                Ok(c) => {
                    &&& c.module == module
                    &&& c.function == function
                    &&& c.is_macro == is_macro
                    &&& c.type_arguments == type_arguments
                    &&& c.parameter_types == parameter_types
                    &&& c.acquires == acquires
                    &&& *c.arguments == arguments
                },
                Err(d) => d == Defect::ArityMismatch,
            },
    {
        if parameter_types.len() != callee_signature.parameters.len() {
            return Err(Defect::ArityMismatch);
        }
        Ok(ModuleCall {
            module,
            function,
            is_macro,
            type_arguments,
            parameter_types,
            acquires,
            arguments: Box::new(arguments),
        })
    }
}

} // verus!
