//! The canonical text of every tree node, as a mathematical function.
//!
//! These spec functions define the one rendering the printer must produce:
//! a total, purely structural traversal, so two structurally equal trees
//! always render identically.  The executable printer in `printer` is
//! proved to return exactly these sequences.

use vstd::prelude::*;
use crate::decl::{Constant, Function, FunctionBody, FunctionSignature, StructDefinition,
    Visibility};
use crate::exp::{BinOp, BuiltinFunction, Exp, ExpListItem, FieldEntry, LValue, ModuleCall,
    SequenceItem, SpecAnchor, SpecCapture, SpecLambda, UnannotatedExp, UnaryOp, Value};
use crate::ident::Ident;
use crate::numeral::dec_seq;
use crate::program::{ModuleDefinition, Program, Script};
use crate::ty::{Ty, TyList};
use crate::unique_map::UniqueMap;

verus! {

pub open spec fn render_ty(t: Ty) -> Seq<char>
    decreases t, 0int,
{
    match t {
        Ty::Unit => "()"@,
        Ty::Bool => "bool"@,
        Ty::U8 => "u8"@,
        Ty::U64 => "u64"@,
        Ty::U128 => "u128"@,
        Ty::Address => "address"@,
        Ty::Signer => "signer"@,
        Ty::Vector(t) => "vector<"@ + render_ty(*t) + ">"@,
        Ty::Ref { mutable, to } => "&"@ + (if mutable {
            "mut "@
        } else {
            Seq::<char>::empty()
        }) + render_ty(*to),
        Ty::Struct { module, name, type_args } => module.text@ + "::"@ + name.text@ + (match type_args {
            TyList::Nil => Seq::<char>::empty(),
            _ => "<"@ + render_ty_list(type_args) + ">"@,
        }),
        Ty::Param(x) => x.text@,
        Ty::Multiple(ts) => "("@ + render_ty_list(ts) + ")"@,
        Ty::Never => "never"@,
        Ty::UnresolvedError => "_"@,
    }
}

pub open spec fn render_ty_list(l: TyList) -> Seq<char>
    decreases l, 0int,
{
    match l {
        TyList::Nil => Seq::<char>::empty(),
        TyList::Cons(t, rest) => match *rest {
            TyList::Nil => render_ty(*t),
            _ => render_ty(*t) + ", "@ + render_ty_list(*rest),
        },
    }
}

pub open spec fn render_value(v: Value) -> Seq<char>
    decreases v, 0int,
{
    match v {
        Value::Bool(b) => if b {
            "true"@
        } else {
            "false"@
        },
        Value::U8(n) => dec_seq(n as int) + "u8"@,
        Value::U64(n) => dec_seq(n as int) + "u64"@,
        Value::U128(n) => dec_seq(n as int) + "u128"@,
        Value::Address(a) => "@"@ + dec_seq(a as int),
        Value::Bytearray(bs) => "x["@ + render_bytes(bs@, 0) + "]"@,
    }
}

pub open spec fn render_bytes(s: Seq<u8>, i: int) -> Seq<char>
    decreases s, s.len() - i,
{
    if i < 0 || i >= s.len() {
        Seq::<char>::empty()
    } else if i + 1 == s.len() {
        dec_seq(s[i] as int)
    } else {
        dec_seq(s[i] as int) + ", "@ + render_bytes(s, i + 1)
    }
}

pub open spec fn render_idents(s: Seq<Ident>, i: int) -> Seq<char>
    decreases s, s.len() - i,
{
    if i < 0 || i >= s.len() {
        Seq::<char>::empty()
    } else if i + 1 == s.len() {
        s[i].text@
    } else {
        s[i].text@ + ", "@ + render_idents(s, i + 1)
    }
}

pub open spec fn render_params(s: Seq<(Ident, Ty)>, i: int) -> Seq<char>
    decreases s, s.len() - i,
{
    if i < 0 || i >= s.len() {
        Seq::<char>::empty()
    } else if i + 1 == s.len() {
        s[i].0.text@ + ": "@ + render_ty(s[i].1)
    } else {
        s[i].0.text@ + ": "@ + render_ty(s[i].1) + ", "@ + render_params(s, i + 1)
    }
}

pub open spec fn render_unary(op: UnaryOp) -> Seq<char> {
    match op {
        UnaryOp::Not => "!"@,
    }
}

pub open spec fn render_binop(op: BinOp) -> Seq<char> {
    match op {
        BinOp::Add => "+"@,
        BinOp::Sub => "-"@,
        BinOp::Mul => "*"@,
        BinOp::Mod => "%"@,
        BinOp::Div => "/"@,
        BinOp::BitOr => "|"@,
        BinOp::BitAnd => "&"@,
        BinOp::Xor => "^"@,
        BinOp::Shl => "<<"@,
        BinOp::Shr => ">>"@,
        BinOp::And => "&&"@,
        BinOp::Or => "||"@,
        BinOp::Eq => "=="@,
        BinOp::Neq => "!="@,
        BinOp::Lt => "<"@,
        BinOp::Gt => ">"@,
        BinOp::Le => "<="@,
        BinOp::Ge => ">="@,
    }
}

pub open spec fn render_builtin(b: BuiltinFunction) -> Seq<char>
    decreases b, 0int,
{
    match b {
        BuiltinFunction::MoveTo(t) => "move_to<"@ + render_ty(t) + ">"@,
        BuiltinFunction::MoveFrom(t) => "move_from<"@ + render_ty(t) + ">"@,
        BuiltinFunction::BorrowGlobal(mutable, t) => (if mutable {
            "borrow_global_mut<"@
        } else {
            "borrow_global<"@
        }) + render_ty(t) + ">"@,
        BuiltinFunction::Exists(t) => "exists<"@ + render_ty(t) + ">"@,
        BuiltinFunction::Freeze(t) => "freeze<"@ + render_ty(t) + ">"@,
        BuiltinFunction::Assert => "assert"@,
    }
}

/// Every expression renders wrapped with its resolved type.
pub open spec fn render_exp(e: Exp) -> Seq<char>
    decreases e, 0int,
{
    "("@ + render_unexp(e.exp) + ": "@ + render_ty(e.ty) + ")"@
}

pub open spec fn render_unexp(u: UnannotatedExp) -> Seq<char>
    decreases u, 0int,
{
    match u {
        UnannotatedExp::Unit { trailing } => if trailing {
            "/*unit*/"@
        } else {
            "()"@
        },
        UnannotatedExp::Value(v) => render_value(v),
        UnannotatedExp::Move { from_user, var } => "move"@ + (if from_user {
            "@ "@
        } else {
            " "@
        }) + var.text@,
        UnannotatedExp::Copy { from_user, var } => "copy"@ + (if from_user {
            "@ "@
        } else {
            " "@
        }) + var.text@,
        UnannotatedExp::Use(var) => "use "@ + var.text@,
        UnannotatedExp::Constant(m, c) => match m {
            Some(mi) => mi.text@ + "::"@ + c.text@,
            None => c.text@,
        },
        UnannotatedExp::ModuleCall(call) => render_module_call(*call),
        UnannotatedExp::VarCall(v, args) => v.text@ + "("@ + render_exp(*args) + ")"@,
        UnannotatedExp::Builtin(b, args) => render_builtin(*b) + "("@ + render_exp(*args) + ")"@,
        UnannotatedExp::Vector(n, t, elems) => "vector#"@ + dec_seq(n as int) + "<"@ + render_ty(*t)
            + ">"@ + render_exp(*elems),
        UnannotatedExp::IfElse(c, t, f) => "if "@ + render_exp(*c) + " "@ + render_exp(*t)
            + " else "@ + render_exp(*f),
        UnannotatedExp::While(c, b) => "while "@ + render_exp(*c) + " "@ + render_exp(*b),
        UnannotatedExp::Loop { has_break, body } => (if has_break {
            "loop "@
        } else {
            "loop* "@
        }) + render_exp(*body),
        UnannotatedExp::Block(items) => "{ "@ + render_seq_items(items@, 0) + " }"@,
        UnannotatedExp::Lambda(params, body) => "|"@ + render_lvalues(params@, 0) + "| "@
            + render_exp(*body),
        UnannotatedExp::Assign(lvs, _tys, rhs) => render_lvalues(lvs@, 0) + " = "@ + render_exp(
            *rhs,
        ),
        UnannotatedExp::Mutate(l, r) => "*"@ + render_exp(*l) + " = "@ + render_exp(*r),
        UnannotatedExp::Return(e) => "return "@ + render_exp(*e),
        UnannotatedExp::Abort(e) => "abort "@ + render_exp(*e),
        UnannotatedExp::Break => "break"@,
        UnannotatedExp::Continue => "continue"@,
        UnannotatedExp::Dereference(e) => "*"@ + render_exp(*e),
        UnannotatedExp::UnaryExp(op, e) => render_unary(op) + render_exp(*e),
        UnannotatedExp::BinopExp(l, op, _t, r) => render_exp(*l) + " "@ + render_binop(op) + " "@
            + render_exp(*r),
        UnannotatedExp::Pack(m, n, tyargs, fields) => m.text@ + "::"@ + n.text@ + (match tyargs {
            TyList::Nil => Seq::<char>::empty(),
            _ => "<"@ + render_ty_list(tyargs) + ">"@,
        }) + "{"@ + render_pack_fields(fields@, 0) + "}"@,
        UnannotatedExp::ExpList(items) => render_items(items@, 0),
        UnannotatedExp::Borrow(mutable, e, f) => "&"@ + (if mutable {
            "mut "@
        } else {
            Seq::<char>::empty()
        }) + render_exp(*e) + "."@ + f.text@,
        UnannotatedExp::TempBorrow(mutable, e) => "&"@ + (if mutable {
            "mut "@
        } else {
            Seq::<char>::empty()
        }) + "tmp "@ + render_exp(*e),
        UnannotatedExp::BorrowLocal(mutable, v) => "&"@ + (if mutable {
            "mut "@
        } else {
            Seq::<char>::empty()
        }) + v.text@,
        UnannotatedExp::Cast(e, t) => "("@ + render_exp(*e) + " as "@ + render_ty(*t) + ")"@,
        UnannotatedExp::Annotate(e, t) => "("@ + render_exp(*e) + ": "@ + render_ty(*t) + ")"@,
        UnannotatedExp::Spec(anchor) => render_anchor(anchor),
        UnannotatedExp::UnresolvedError => "_|_"@,
    }
}

pub open spec fn render_module_call(c: ModuleCall) -> Seq<char>
    decreases c, 0int,
{
    c.module.text@ + "::"@ + c.function.text@ + (if c.is_macro {
        "!"@
    } else {
        Seq::<char>::empty()
    }) + (match c.type_arguments {
        TyList::Nil => Seq::<char>::empty(),
        _ => "<"@ + render_ty_list(c.type_arguments) + ">"@,
    }) + (if c.acquires@.len() == 0 {
        Seq::<char>::empty()
    } else {
        "[acquires "@ + render_idents(c.acquires@, 0) + "]"@
    }) + "("@ + render_exp(*c.arguments) + ")"@
}

pub open spec fn render_anchor(a: SpecAnchor) -> Seq<char>
    decreases a, 0int,
{
    "spec#"@ + dec_seq(a.id as int) + (match a.origin {
        Some(o) => "@"@ + o.module.text@ + "::"@ + o.function.text@ + "#"@ + dec_seq(o.id as int),
        None => Seq::<char>::empty(),
    }) + "["@ + render_captures(a.used_locals@, 0) + "]["@ + render_lambdas(a.lifted_lambdas@, 0)
        + "]"@
}

pub open spec fn render_captures(s: Seq<SpecCapture>, i: int) -> Seq<char>
    decreases s, s.len() - i,
{
    if i < 0 || i >= s.len() {
        Seq::<char>::empty()
    } else if i + 1 == s.len() {
        render_capture(s[i])
    } else {
        render_capture(s[i]) + ", "@ + render_captures(s, i + 1)
    }
}

pub open spec fn render_capture(c: SpecCapture) -> Seq<char>
    decreases c, 0int,
{
    c.var.text@ + " as "@ + c.renamed.text@ + ": "@ + render_ty(c.ty)
}

pub open spec fn render_lambdas(s: Seq<SpecLambda>, i: int) -> Seq<char>
    decreases s, s.len() - i,
{
    if i < 0 || i >= s.len() {
        Seq::<char>::empty()
    } else if i + 1 == s.len() {
        s[i].name.text@ + " = "@ + render_exp(s[i].body)
    } else {
        s[i].name.text@ + " = "@ + render_exp(s[i].body) + ", "@ + render_lambdas(s, i + 1)
    }
}

pub open spec fn render_items(s: Seq<ExpListItem>, i: int) -> Seq<char>
    decreases s, s.len() - i,
{
    if i < 0 || i >= s.len() {
        Seq::<char>::empty()
    } else if i + 1 == s.len() {
        render_item(s[i])
    } else {
        render_item(s[i]) + ", "@ + render_items(s, i + 1)
    }
}

pub open spec fn render_item(it: ExpListItem) -> Seq<char>
    decreases it, 0int,
{
    match it {
        ExpListItem::Single(e, _t) => render_exp(e),
        ExpListItem::Splat(_loc, e, _tys) => ".."@ + render_exp(e),
    }
}

pub open spec fn render_pack_fields(s: Seq<FieldEntry<Exp>>, i: int) -> Seq<char>
    decreases s, s.len() - i,
{
    if i < 0 || i >= s.len() {
        Seq::<char>::empty()
    } else if i + 1 == s.len() {
        render_pack_field(s[i])
    } else {
        render_pack_field(s[i]) + ", "@ + render_pack_fields(s, i + 1)
    }
}

/// A pack field renders as `(index#name: type): value`, in declared order.
pub open spec fn render_pack_field(f: FieldEntry<Exp>) -> Seq<char>
    decreases f, 0int,
{
    "("@ + dec_seq(f.index as int) + "#"@ + f.field.text@ + ": "@ + render_ty(f.ty) + "): "@
        + render_exp(f.item)
}

pub open spec fn render_field_binds(s: Seq<FieldEntry<(Ty, LValue)>>, i: int) -> Seq<char>
    decreases s, s.len() - i,
{
    if i < 0 || i >= s.len() {
        Seq::<char>::empty()
    } else if i + 1 == s.len() {
        render_field_bind(s[i])
    } else {
        render_field_bind(s[i]) + ", "@ + render_field_binds(s, i + 1)
    }
}

pub open spec fn render_field_bind(f: FieldEntry<(Ty, LValue)>) -> Seq<char>
    decreases f, 0int,
{
    "("@ + dec_seq(f.index as int) + "#"@ + f.field.text@ + ": "@ + render_ty(f.ty) + "): "@
        + render_lvalue(f.item.1)
}

pub open spec fn render_lvalues(s: Seq<LValue>, i: int) -> Seq<char>
    decreases s, s.len() - i,
{
    if i < 0 || i >= s.len() {
        Seq::<char>::empty()
    } else if i + 1 == s.len() {
        render_lvalue(s[i])
    } else {
        render_lvalue(s[i]) + ", "@ + render_lvalues(s, i + 1)
    }
}

pub open spec fn render_lvalue(lv: LValue) -> Seq<char>
    decreases lv, 0int,
{
    match lv {
        LValue::Ignore => "_"@,
        LValue::Var(v, t) => "("@ + v.text@ + ": "@ + render_ty(t) + ")"@,
        LValue::Unpack { module, name, type_args, fields } => module.text@ + "::"@ + name.text@
            + (match type_args {
            TyList::Nil => Seq::<char>::empty(),
            _ => "<"@ + render_ty_list(type_args) + ">"@,
        }) + "{"@ + render_field_binds(fields@, 0) + "}"@,
        LValue::BorrowUnpack { mutable, module, name, type_args, fields } => "&"@ + (if mutable {
            "mut "@
        } else {
            Seq::<char>::empty()
        }) + module.text@ + "::"@ + name.text@ + (match type_args {
            TyList::Nil => Seq::<char>::empty(),
            _ => "<"@ + render_ty_list(type_args) + ">"@,
        }) + "{"@ + render_field_binds(fields@, 0) + "}"@,
    }
}

pub open spec fn render_seq_items(s: Seq<SequenceItem>, i: int) -> Seq<char>
    decreases s, s.len() - i,
{
    if i < 0 || i >= s.len() {
        Seq::<char>::empty()
    } else if i + 1 == s.len() {
        render_seq_item(s[i])
    } else {
        render_seq_item(s[i]) + "; "@ + render_seq_items(s, i + 1)
    }
}

pub open spec fn render_seq_item(it: SequenceItem) -> Seq<char>
    decreases it, 0int,
{
    match it {
        SequenceItem::Bare(e) => render_exp(e),
        SequenceItem::Declare(lvs) => "let "@ + render_lvalues(lvs@, 0),
        SequenceItem::Bind(lvs, _tys, e) => "let "@ + render_lvalues(lvs@, 0) + " = "@ + render_exp(
            e,
        ),
    }
}

pub open spec fn render_visibility(v: Visibility) -> Seq<char> {
    match v {
        Visibility::Public => "public "@,
        Visibility::Friend => "public(friend) "@,
        Visibility::Internal => Seq::<char>::empty(),
    }
}

pub open spec fn render_signature(sig: FunctionSignature) -> Seq<char>
    decreases sig, 0int,
{
    (if sig.type_parameters@.len() == 0 {
        Seq::<char>::empty()
    } else {
        "<"@ + render_idents(sig.type_parameters@, 0) + ">"@
    }) + "("@ + render_params(sig.parameters@, 0) + "): "@ + render_ty(sig.return_type)
}

/// A function renders its visibility, the `entry` and `native` markers
/// where they apply, its signature, its acquires set, and then either its
/// block or a bare `;`.
pub open spec fn render_function(name: Ident, f: Function) -> Seq<char>
    decreases f, 0int,
{
    "  "@ + render_visibility(f.visibility) + (if f.is_entry {
        "entry "@
    } else {
        Seq::<char>::empty()
    }) + (if f.spec_is_native() {
        "native "@
    } else {
        Seq::<char>::empty()
    }) + "fun "@ + name.text@ + render_signature(f.signature) + (if f.acquires@.len() == 0 {
        Seq::<char>::empty()
    } else {
        " acquires "@ + render_idents(f.acquires@, 0)
    }) + (match f.body {
        FunctionBody::Defined(items) => " { "@ + render_seq_items(items@, 0) + " }\n"@,
        FunctionBody::Native => ";\n"@,
    })
}

pub open spec fn render_constant(name: Ident, c: Constant) -> Seq<char>
    decreases c, 0int,
{
    "  const "@ + name.text@ + ": "@ + render_ty(c.signature) + " = "@ + render_exp(c.value)
        + ";\n"@
}

pub open spec fn render_struct(name: Ident, s: StructDefinition) -> Seq<char>
    decreases s, 0int,
{
    "  struct "@ + name.text@ + (if s.type_parameters@.len() == 0 {
        Seq::<char>::empty()
    } else {
        "<"@ + render_idents(s.type_parameters@, 0) + ">"@
    }) + " { "@ + render_params(s.fields@, 0) + " }\n"@
}

pub open spec fn render_structs(m: UniqueMap<StructDefinition>, i: int) -> Seq<char>
    decreases m, m.keys@.len() - i,
{
    if i < 0 || i >= m.keys@.len() {
        Seq::<char>::empty()
    } else {
        render_struct(m.keys@[i], m.values@[i]) + render_structs(m, i + 1)
    }
}

pub open spec fn render_constants(m: UniqueMap<Constant>, i: int) -> Seq<char>
    decreases m, m.keys@.len() - i,
{
    if i < 0 || i >= m.keys@.len() {
        Seq::<char>::empty()
    } else {
        render_constant(m.keys@[i], m.values@[i]) + render_constants(m, i + 1)
    }
}

pub open spec fn render_functions(m: UniqueMap<Function>, i: int) -> Seq<char>
    decreases m, m.keys@.len() - i,
{
    if i < 0 || i >= m.keys@.len() {
        Seq::<char>::empty()
    } else {
        render_function(m.keys@[i], m.values@[i]) + render_functions(m, i + 1)
    }
}

/// A module renders its source/library marker, its dependency rank, its
/// friends, and then structs, constants, and functions in insertion order.
pub open spec fn render_module(name: Ident, m: ModuleDefinition) -> Seq<char>
    decreases m, 0int,
{
    (if m.is_source_module {
        "source module "@
    } else {
        "library module "@
    }) + name.text@ + " {\n  dependency order #"@ + dec_seq(m.dependency_order as int) + "\n"@
        + (if m.friends@.len() == 0 {
        Seq::<char>::empty()
    } else {
        "  friends "@ + render_idents(m.friends@, 0) + "\n"@
    }) + render_structs(m.structs, 0) + render_constants(m.constants, 0) + render_functions(
        m.functions,
        0,
    ) + "}\n"@
}

pub open spec fn render_script(name: Ident, s: Script) -> Seq<char>
    decreases s, 0int,
{
    "script "@ + name.text@ + " {\n"@ + (match s.package_name {
        Some(p) => "  package "@ + p.text@ + "\n"@,
        None => Seq::<char>::empty(),
    }) + render_constants(s.constants, 0) + render_function(s.function_name, s.function) + "}\n"@
}

pub open spec fn render_modules(m: UniqueMap<ModuleDefinition>, i: int) -> Seq<char>
    decreases m, m.keys@.len() - i,
{
    if i < 0 || i >= m.keys@.len() {
        Seq::<char>::empty()
    } else {
        render_module(m.keys@[i], m.values@[i]) + render_modules(m, i + 1)
    }
}

pub open spec fn render_scripts(m: UniqueMap<Script>, i: int) -> Seq<char>
    decreases m, m.keys@.len() - i,
{
    if i < 0 || i >= m.keys@.len() {
        Seq::<char>::empty()
    } else {
        render_script(m.keys@[i], m.values@[i]) + render_scripts(m, i + 1)
    }
}

/// A whole program: its modules, then its scripts, in insertion order.
pub open spec fn render_program(p: Program) -> Seq<char>
    decreases p, 0int,
{
    render_modules(p.modules, 0) + render_scripts(p.scripts, 0)
}

} // verus!
