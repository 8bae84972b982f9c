//! The canonical printer.
//!
//! Each function appends exactly the canonical rendering of its node (the
//! `render` spec functions) to the output buffer.  The traversal is purely
//! structural: it visits each node once, carries no state beyond the
//! buffer, and never panics on a well-formed tree.

use vstd::prelude::*;
use vstd::string::StringExecFns;
use crate::decl::{Constant, Function, FunctionBody, FunctionSignature, StructDefinition,
    Visibility};
use crate::exp::{BinOp, BuiltinFunction, Exp, ExpListItem, FieldEntry, LValue, ModuleCall,
    SequenceItem, SpecAnchor, SpecCapture, SpecLambda, UnannotatedExp, UnaryOp, Value};
use crate::ident::Ident;
use crate::numeral::push_dec;
use crate::program::{ModuleDefinition, Program, Script};
use crate::render::{render_anchor, render_binop, render_builtin, render_bytes, render_capture,
    render_captures, render_constant, render_constants, render_exp, render_field_bind,
    render_field_binds, render_function, render_functions, render_idents, render_item,
    render_items, render_lambdas, render_lvalue, render_lvalues, render_module,
    render_module_call, render_modules, render_pack_field, render_pack_fields, render_params,
    render_program, render_script, render_scripts, render_seq_item, render_seq_items,
    render_signature, render_struct, render_structs, render_ty, render_ty_list, render_unary,
    render_unexp, render_value, render_visibility};
use crate::ty::{Ty, TyList};
use crate::unique_map::UniqueMap;

verus! {

pub fn print_ty(t: &Ty, out: &mut String)
    ensures
        final(out)@ == old(out)@ + render_ty(*t),
    decreases *t, 0int,
{
    match t {
        Ty::Unit => out.append("()"),
        Ty::Bool => out.append("bool"),
        Ty::U8 => out.append("u8"),
        Ty::U64 => out.append("u64"),
        Ty::U128 => out.append("u128"),
        Ty::Address => out.append("address"),
        Ty::Signer => out.append("signer"),
        Ty::Vector(inner) => {
            out.append("vector<");
            print_ty(inner, out);
            out.append(">");
        }
        Ty::Ref { mutable, to } => {
            out.append("&");
            if *mutable {
                out.append("mut ");
            }
            print_ty(to, out);
        }
        Ty::Struct { module, name, type_args } => {
            out.append(module.text.as_str());
            out.append("::");
            out.append(name.text.as_str());
            match type_args {
                TyList::Nil => {}
                _ => {
                    out.append("<");
                    print_ty_list(type_args, out);
                    out.append(">");
                }
            }
        }
        Ty::Param(x) => out.append(x.text.as_str()),
        Ty::Multiple(ts) => {
            out.append("(");
            print_ty_list(ts, out);
            out.append(")");
        }
        Ty::Never => out.append("never"),
        Ty::UnresolvedError => out.append("_"),
    }
    proof {
        assert(out@ =~= old(out)@ + render_ty(*t));
    }
}

pub fn print_ty_list(l: &TyList, out: &mut String)
    ensures
        final(out)@ == old(out)@ + render_ty_list(*l),
    decreases *l, 0int,
{
    match l {
        TyList::Nil => {}
        TyList::Cons(t, rest) => {
            print_ty(t, out);
            match &**rest {
                TyList::Nil => {}
                _ => {
                    out.append(", ");
                    print_ty_list(rest, out);
                }
            }
        }
    }
    proof {
        assert(out@ =~= old(out)@ + render_ty_list(*l));
    }
}

pub fn print_value(v: &Value, out: &mut String)
    ensures
        final(out)@ == old(out)@ + render_value(*v),
    decreases *v, 0int,
{
    match v {
        Value::Bool(b) => {
            if *b {
                out.append("true");
            } else {
                out.append("false");
            }
        }
        Value::U8(n) => {
            push_dec(*n as u128, out);
            out.append("u8");
        }
        Value::U64(n) => {
            push_dec(*n as u128, out);
            out.append("u64");
        }
        Value::U128(n) => {
            push_dec(*n, out);
            out.append("u128");
        }
        Value::Address(a) => {
            out.append("@");
            push_dec(*a, out);
        }
        Value::Bytearray(bs) => {
            out.append("x[");
            print_bytes(bs, 0, out);
            out.append("]");
        }
    }
    proof {
        assert(out@ =~= old(out)@ + render_value(*v));
    }
}

fn print_bytes(bs: &Vec<u8>, i: usize, out: &mut String)
    requires
        i <= bs@.len(),
    ensures
        final(out)@ == old(out)@ + render_bytes(bs@, i as int),
    decreases bs@, bs@.len() - i,
{
    if i < bs.len() {
        push_dec(bs[i] as u128, out);
        if i + 1 < bs.len() {
            out.append(", ");
            print_bytes(bs, i + 1, out);
        }
    }
    proof {
        assert(out@ =~= old(out)@ + render_bytes(bs@, i as int));
    }
}

fn print_idents(s: &Vec<Ident>, i: usize, out: &mut String)
    requires
        i <= s@.len(),
    ensures
        final(out)@ == old(out)@ + render_idents(s@, i as int),
    decreases s@, s@.len() - i,
{
    if i < s.len() {
        out.append(s[i].text.as_str());
        if i + 1 < s.len() {
            out.append(", ");
            print_idents(s, i + 1, out);
        }
    }
    proof {
        assert(out@ =~= old(out)@ + render_idents(s@, i as int));
    }
}

fn print_params(s: &Vec<(Ident, Ty)>, i: usize, out: &mut String)
    requires
        i <= s@.len(),
    ensures
        final(out)@ == old(out)@ + render_params(s@, i as int),
    decreases s@, s@.len() - i,
{
    if i < s.len() {
        out.append(s[i].0.text.as_str());
        out.append(": ");
        print_ty(&s[i].1, out);
        if i + 1 < s.len() {
            out.append(", ");
            print_params(s, i + 1, out);
        }
    }
    proof {
        assert(out@ =~= old(out)@ + render_params(s@, i as int));
    }
}

pub fn print_unary(op: &UnaryOp, out: &mut String)
    ensures
        final(out)@ == old(out)@ + render_unary(*op),
{
    match op {
        UnaryOp::Not => out.append("!"),
    }
}

pub fn print_binop(op: &BinOp, out: &mut String)
    ensures
        final(out)@ == old(out)@ + render_binop(*op),
{
    match op {
        BinOp::Add => out.append("+"),
        BinOp::Sub => out.append("-"),
        BinOp::Mul => out.append("*"),
        BinOp::Mod => out.append("%"),
        BinOp::Div => out.append("/"),
        BinOp::BitOr => out.append("|"),
        BinOp::BitAnd => out.append("&"),
        BinOp::Xor => out.append("^"),
        BinOp::Shl => out.append("<<"),
        BinOp::Shr => out.append(">>"),
        BinOp::And => out.append("&&"),
        BinOp::Or => out.append("||"),
        BinOp::Eq => out.append("=="),
        BinOp::Neq => out.append("!="),
        BinOp::Lt => out.append("<"),
        BinOp::Gt => out.append(">"),
        BinOp::Le => out.append("<="),
        BinOp::Ge => out.append(">="),
    }
}

pub fn print_builtin(b: &BuiltinFunction, out: &mut String)
    ensures
        final(out)@ == old(out)@ + render_builtin(*b),
    decreases *b, 0int,
{
    match b {
        BuiltinFunction::MoveTo(t) => {
            out.append("move_to<");
            print_ty(t, out);
            out.append(">");
        }
        BuiltinFunction::MoveFrom(t) => {
            out.append("move_from<");
            print_ty(t, out);
            out.append(">");
        }
        BuiltinFunction::BorrowGlobal(mutable, t) => {
            if *mutable {
                out.append("borrow_global_mut<");
            } else {
                out.append("borrow_global<");
            }
            print_ty(t, out);
            out.append(">");
        }
        BuiltinFunction::Exists(t) => {
            out.append("exists<");
            print_ty(t, out);
            out.append(">");
        }
        BuiltinFunction::Freeze(t) => {
            out.append("freeze<");
            print_ty(t, out);
            out.append(">");
        }
        BuiltinFunction::Assert => out.append("assert"),
    }
    proof {
        assert(out@ =~= old(out)@ + render_builtin(*b));
    }
}

pub fn print_exp(e: &Exp, out: &mut String)
    ensures
        final(out)@ == old(out)@ + render_exp(*e),
    decreases *e, 0int,
{
    out.append("(");
    print_unexp(&e.exp, out);
    out.append(": ");
    print_ty(&e.ty, out);
    out.append(")");
    proof {
        assert(out@ =~= old(out)@ + render_exp(*e));
    }
}

#[verifier::rlimit(60)]
pub fn print_unexp(u: &UnannotatedExp, out: &mut String)
    ensures
        final(out)@ == old(out)@ + render_unexp(*u),
    decreases *u, 0int,
{
    match u {
        UnannotatedExp::Unit { trailing } => {
            if *trailing {
                out.append("/*unit*/");
            } else {
                out.append("()");
            }
        }
        UnannotatedExp::Value(v) => print_value(v, out),
        UnannotatedExp::Move { from_user, var } => {
            out.append("move");
            if *from_user {
                out.append("@ ");
            } else {
                out.append(" ");
            }
            out.append(var.text.as_str());
        }
        UnannotatedExp::Copy { from_user, var } => {
            out.append("copy");
            if *from_user {
                out.append("@ ");
            } else {
                out.append(" ");
            }
            out.append(var.text.as_str());
        }
        UnannotatedExp::Use(var) => {
            out.append("use ");
            out.append(var.text.as_str());
        }
        UnannotatedExp::Constant(m, c) => {
            match m {
                Some(mi) => {
                    out.append(mi.text.as_str());
                    out.append("::");
                    out.append(c.text.as_str());
                }
                None => out.append(c.text.as_str()),
            }
        }
        UnannotatedExp::ModuleCall(call) => print_module_call(call, out),
        UnannotatedExp::VarCall(v, args) => {
            out.append(v.text.as_str());
            out.append("(");
            print_exp(args, out);
            out.append(")");
        }
        UnannotatedExp::Builtin(b, args) => {
            print_builtin(b, out);
            out.append("(");
            print_exp(args, out);
            out.append(")");
        }
        UnannotatedExp::Vector(n, t, elems) => {
            out.append("vector#");
            push_dec(*n as u128, out);
            out.append("<");
            print_ty(t, out);
            out.append(">");
            print_exp(elems, out);
        }
        UnannotatedExp::IfElse(c, t, f) => {
            out.append("if ");
            print_exp(c, out);
            out.append(" ");
            print_exp(t, out);
            out.append(" else ");
            print_exp(f, out);
        }
        UnannotatedExp::While(c, b) => {
            out.append("while ");
            print_exp(c, out);
            out.append(" ");
            print_exp(b, out);
        }
        UnannotatedExp::Loop { has_break, body } => {
            if *has_break {
                out.append("loop ");
            } else {
                out.append("loop* ");
            }
            print_exp(body, out);
        }
        UnannotatedExp::Block(items) => {
            out.append("{ ");
            print_seq_items(items, 0, out);
            out.append(" }");
        }
        UnannotatedExp::Lambda(params, body) => {
            out.append("|");
            print_lvalues(params, 0, out);
            out.append("| ");
            print_exp(body, out);
        }
        UnannotatedExp::Assign(lvs, _tys, rhs) => {
            print_lvalues(lvs, 0, out);
            out.append(" = ");
            print_exp(rhs, out);
        }
        UnannotatedExp::Mutate(l, r) => {
            out.append("*");
            print_exp(l, out);
            out.append(" = ");
            print_exp(r, out);
        }
        UnannotatedExp::Return(e) => {
            out.append("return ");
            print_exp(e, out);
        }
        UnannotatedExp::Abort(e) => {
            out.append("abort ");
            print_exp(e, out);
        }
        UnannotatedExp::Break => out.append("break"),
        UnannotatedExp::Continue => out.append("continue"),
        UnannotatedExp::Dereference(e) => {
            out.append("*");
            print_exp(e, out);
        }
        UnannotatedExp::UnaryExp(op, e) => {
            print_unary(op, out);
            print_exp(e, out);
        }
        UnannotatedExp::BinopExp(l, op, _t, r) => {
            print_exp(l, out);
            out.append(" ");
            print_binop(op, out);
            out.append(" ");
            print_exp(r, out);
        }
        UnannotatedExp::Pack(m, n, tyargs, fields) => {
            out.append(m.text.as_str());
            out.append("::");
            out.append(n.text.as_str());
            match tyargs {
                TyList::Nil => {}
                _ => {
                    out.append("<");
                    print_ty_list(tyargs, out);
                    out.append(">");
                }
            }
            out.append("{");
            print_pack_fields(fields, 0, out);
            out.append("}");
        }
        UnannotatedExp::ExpList(items) => print_items(items, 0, out),
        UnannotatedExp::Borrow(mutable, e, f) => {
            out.append("&");
            if *mutable {
                out.append("mut ");
            }
            print_exp(e, out);
            out.append(".");
            out.append(f.text.as_str());
        }
        UnannotatedExp::TempBorrow(mutable, e) => {
            out.append("&");
            if *mutable {
                out.append("mut ");
            }
            out.append("tmp ");
            print_exp(e, out);
        }
        UnannotatedExp::BorrowLocal(mutable, v) => {
            out.append("&");
            if *mutable {
                out.append("mut ");
            }
            out.append(v.text.as_str());
        }
        UnannotatedExp::Cast(e, t) => {
            out.append("(");
            print_exp(e, out);
            out.append(" as ");
            print_ty(t, out);
            out.append(")");
        }
        UnannotatedExp::Annotate(e, t) => {
            out.append("(");
            print_exp(e, out);
            out.append(": ");
            print_ty(t, out);
            out.append(")");
        }
        UnannotatedExp::Spec(anchor) => print_anchor(anchor, out),
        UnannotatedExp::UnresolvedError => out.append("_|_"),
    }
    proof {
        assert(out@ =~= old(out)@ + render_unexp(*u));
    }
}

#[verifier::rlimit(100)]
pub fn print_module_call(c: &ModuleCall, out: &mut String)
    ensures
        final(out)@ == old(out)@ + render_module_call(*c),
    decreases *c, 0int,
{
    out.append(c.module.text.as_str());
    out.append("::");
    out.append(c.function.text.as_str());
    if c.is_macro {
        out.append("!");
    }
    match &c.type_arguments {
        TyList::Nil => {}
        _ => {
            out.append("<");
            print_ty_list(&c.type_arguments, out);
            out.append(">");
        }
    }
    if c.acquires.len() > 0 {
        out.append("[acquires ");
        print_idents(&c.acquires, 0, out);
        out.append("]");
    }
    out.append("(");
    print_exp(&c.arguments, out);
    out.append(")");
    proof {
        assert(out@ =~= old(out)@ + render_module_call(*c));
    }
}

pub fn print_anchor(a: &SpecAnchor, out: &mut String)
    ensures
        final(out)@ == old(out)@ + render_anchor(*a),
    decreases *a, 0int,
{
    out.append("spec#");
    push_dec(a.id as u128, out);
    match &a.origin {
        Some(o) => {
            out.append("@");
            out.append(o.module.text.as_str());
            out.append("::");
            out.append(o.function.text.as_str());
            out.append("#");
            push_dec(o.id as u128, out);
        }
        None => {}
    }
    out.append("[");
    print_captures(&a.used_locals, 0, out);
    out.append("][");
    print_lambdas(&a.lifted_lambdas, 0, out);
    out.append("]");
    proof {
        assert(out@ =~= old(out)@ + render_anchor(*a));
    }
}

fn print_captures(s: &Vec<SpecCapture>, i: usize, out: &mut String)
    requires
        i <= s@.len(),
    ensures
        final(out)@ == old(out)@ + render_captures(s@, i as int),
    decreases s@, s@.len() - i,
{
    if i < s.len() {
        print_capture(&s[i], out);
        if i + 1 < s.len() {
            out.append(", ");
            print_captures(s, i + 1, out);
        }
    }
    proof {
        assert(out@ =~= old(out)@ + render_captures(s@, i as int));
    }
}

fn print_capture(c: &SpecCapture, out: &mut String)
    ensures
        final(out)@ == old(out)@ + render_capture(*c),
    decreases *c, 0int,
{
    out.append(c.var.text.as_str());
    out.append(" as ");
    out.append(c.renamed.text.as_str());
    out.append(": ");
    print_ty(&c.ty, out);
    proof {
        assert(out@ =~= old(out)@ + render_capture(*c));
    }
}

fn print_lambdas(s: &Vec<SpecLambda>, i: usize, out: &mut String)
    requires
        i <= s@.len(),
    ensures
        final(out)@ == old(out)@ + render_lambdas(s@, i as int),
    decreases s@, s@.len() - i,
{
    if i < s.len() {
        out.append(s[i].name.text.as_str());
        out.append(" = ");
        print_exp(&s[i].body, out);
        if i + 1 < s.len() {
            out.append(", ");
            print_lambdas(s, i + 1, out);
        }
    }
    proof {
        assert(out@ =~= old(out)@ + render_lambdas(s@, i as int));
    }
}

fn print_items(s: &Vec<ExpListItem>, i: usize, out: &mut String)
    requires
        i <= s@.len(),
    ensures
        final(out)@ == old(out)@ + render_items(s@, i as int),
    decreases s@, s@.len() - i,
{
    if i < s.len() {
        print_item(&s[i], out);
        if i + 1 < s.len() {
            out.append(", ");
            print_items(s, i + 1, out);
        }
    }
    proof {
        assert(out@ =~= old(out)@ + render_items(s@, i as int));
    }
}

pub fn print_item(it: &ExpListItem, out: &mut String)
    ensures
        final(out)@ == old(out)@ + render_item(*it),
    decreases *it, 0int,
{
    match it {
        ExpListItem::Single(e, _t) => print_exp(e, out),
        ExpListItem::Splat(_loc, e, _tys) => {
            out.append("..");
            print_exp(e, out);
        }
    }
    proof {
        assert(out@ =~= old(out)@ + render_item(*it));
    }
}

fn print_pack_fields(s: &Vec<FieldEntry<Exp>>, i: usize, out: &mut String)
    requires
        i <= s@.len(),
    ensures
        final(out)@ == old(out)@ + render_pack_fields(s@, i as int),
    decreases s@, s@.len() - i,
{
    if i < s.len() {
        print_pack_field(&s[i], out);
        if i + 1 < s.len() {
            out.append(", ");
            print_pack_fields(s, i + 1, out);
        }
    }
    proof {
        assert(out@ =~= old(out)@ + render_pack_fields(s@, i as int));
    }
}

pub fn print_pack_field(f: &FieldEntry<Exp>, out: &mut String)
    ensures
        final(out)@ == old(out)@ + render_pack_field(*f),
    decreases *f, 0int,
{
    out.append("(");
    push_dec(f.index as u128, out);
    out.append("#");
    out.append(f.field.text.as_str());
    out.append(": ");
    print_ty(&f.ty, out);
    out.append("): ");
    print_exp(&f.item, out);
    proof {
        assert(out@ =~= old(out)@ + render_pack_field(*f));
    }
}

fn print_field_binds(s: &Vec<FieldEntry<(Ty, LValue)>>, i: usize, out: &mut String)
    requires
        i <= s@.len(),
    ensures
        final(out)@ == old(out)@ + render_field_binds(s@, i as int),
    decreases s@, s@.len() - i,
{
    if i < s.len() {
        print_field_bind(&s[i], out);
        if i + 1 < s.len() {
            out.append(", ");
            print_field_binds(s, i + 1, out);
        }
    }
    proof {
        assert(out@ =~= old(out)@ + render_field_binds(s@, i as int));
    }
}

fn print_field_bind(f: &FieldEntry<(Ty, LValue)>, out: &mut String)
    ensures
        final(out)@ == old(out)@ + render_field_bind(*f),
    decreases *f, 0int,
{
    out.append("(");
    push_dec(f.index as u128, out);
    out.append("#");
    out.append(f.field.text.as_str());
    out.append(": ");
    print_ty(&f.ty, out);
    out.append("): ");
    print_lvalue(&f.item.1, out);
    proof {
        assert(out@ =~= old(out)@ + render_field_bind(*f));
    }
}

fn print_lvalues(s: &Vec<LValue>, i: usize, out: &mut String)
    requires
        i <= s@.len(),
    ensures
        final(out)@ == old(out)@ + render_lvalues(s@, i as int),
    decreases s@, s@.len() - i,
{
    if i < s.len() {
        print_lvalue(&s[i], out);
        if i + 1 < s.len() {
            out.append(", ");
            print_lvalues(s, i + 1, out);
        }
    }
    proof {
        assert(out@ =~= old(out)@ + render_lvalues(s@, i as int));
    }
}

pub fn print_lvalue(lv: &LValue, out: &mut String)
    ensures
        final(out)@ == old(out)@ + render_lvalue(*lv),
    decreases *lv, 0int,
{
    match lv {
        LValue::Ignore => out.append("_"),
        LValue::Var(v, t) => {
            out.append("(");
            out.append(v.text.as_str());
            out.append(": ");
            print_ty(t, out);
            out.append(")");
        }
        LValue::Unpack { module, name, type_args, fields } => {
            out.append(module.text.as_str());
            out.append("::");
            out.append(name.text.as_str());
            match type_args {
                TyList::Nil => {}
                _ => {
                    out.append("<");
                    print_ty_list(type_args, out);
                    out.append(">");
                }
            }
            out.append("{");
            print_field_binds(fields, 0, out);
            out.append("}");
        }
        LValue::BorrowUnpack { mutable, module, name, type_args, fields } => {
            out.append("&");
            if *mutable {
                out.append("mut ");
            }
            out.append(module.text.as_str());
            out.append("::");
            out.append(name.text.as_str());
            match type_args {
                TyList::Nil => {}
                _ => {
                    out.append("<");
                    print_ty_list(type_args, out);
                    out.append(">");
                }
            }
            out.append("{");
            print_field_binds(fields, 0, out);
            out.append("}");
        }
    }
    proof {
        assert(out@ =~= old(out)@ + render_lvalue(*lv));
    }
}

fn print_seq_items(s: &Vec<SequenceItem>, i: usize, out: &mut String)
    requires
        i <= s@.len(),
    ensures
        final(out)@ == old(out)@ + render_seq_items(s@, i as int),
    decreases s@, s@.len() - i,
{
    if i < s.len() {
        print_seq_item(&s[i], out);
        if i + 1 < s.len() {
            out.append("; ");
            print_seq_items(s, i + 1, out);
        }
    }
    proof {
        assert(out@ =~= old(out)@ + render_seq_items(s@, i as int));
    }
}

pub fn print_seq_item(it: &SequenceItem, out: &mut String)
    ensures
        final(out)@ == old(out)@ + render_seq_item(*it),
    decreases *it, 0int,
{
    match it {
        SequenceItem::Bare(e) => print_exp(e, out),
        SequenceItem::Declare(lvs) => {
            out.append("let ");
            print_lvalues(lvs, 0, out);
        }
        SequenceItem::Bind(lvs, _tys, e) => {
            out.append("let ");
            print_lvalues(lvs, 0, out);
            out.append(" = ");
            print_exp(e, out);
        }
    }
    proof {
        assert(out@ =~= old(out)@ + render_seq_item(*it));
    }
}

pub fn print_visibility(v: &Visibility, out: &mut String)
    ensures
        final(out)@ == old(out)@ + render_visibility(*v),
{
    match v {
        Visibility::Public => out.append("public "),
        Visibility::Friend => out.append("public(friend) "),
        Visibility::Internal => {}
    }
    proof {
        assert(out@ =~= old(out)@ + render_visibility(*v));
    }
}

pub fn print_signature(sig: &FunctionSignature, out: &mut String)
    ensures
        final(out)@ == old(out)@ + render_signature(*sig),
    decreases *sig, 0int,
{
    if sig.type_parameters.len() > 0 {
        out.append("<");
        print_idents(&sig.type_parameters, 0, out);
        out.append(">");
    }
    out.append("(");
    print_params(&sig.parameters, 0, out);
    out.append("): ");
    print_ty(&sig.return_type, out);
    proof {
        assert(out@ =~= old(out)@ + render_signature(*sig));
    }
}

#[verifier::rlimit(100)]
pub fn print_function(name: &Ident, f: &Function, out: &mut String)
    ensures
        final(out)@ == old(out)@ + render_function(*name, *f),
    decreases *f, 0int,
{
    out.append("  ");
    print_visibility(&f.visibility, out);
    if f.is_entry {
        out.append("entry ");
    }
    if f.is_native() {
        out.append("native ");
    }
    out.append("fun ");
    out.append(name.text.as_str());
    print_signature(&f.signature, out);
    if f.acquires.len() > 0 {
        out.append(" acquires ");
        print_idents(&f.acquires, 0, out);
    }
    match &f.body {
        FunctionBody::Defined(items) => {
            out.append(" { ");
            print_seq_items(items, 0, out);
            out.append(" }\n");
        }
        FunctionBody::Native => out.append(";\n"),
    }
    proof {
        assert(out@ =~= old(out)@ + render_function(*name, *f));
    }
}

pub fn print_constant(name: &Ident, c: &Constant, out: &mut String)
    ensures
        final(out)@ == old(out)@ + render_constant(*name, *c),
    decreases *c, 0int,
{
    out.append("  const ");
    out.append(name.text.as_str());
    out.append(": ");
    print_ty(&c.signature, out);
    out.append(" = ");
    print_exp(&c.value, out);
    out.append(";\n");
    proof {
        assert(out@ =~= old(out)@ + render_constant(*name, *c));
    }
}

pub fn print_struct(name: &Ident, s: &StructDefinition, out: &mut String)
    ensures
        final(out)@ == old(out)@ + render_struct(*name, *s),
    decreases *s, 0int,
{
    out.append("  struct ");
    out.append(name.text.as_str());
    if s.type_parameters.len() > 0 {
        out.append("<");
        print_idents(&s.type_parameters, 0, out);
        out.append(">");
    }
    out.append(" { ");
    print_params(&s.fields, 0, out);
    out.append(" }\n");
    proof {
        assert(out@ =~= old(out)@ + render_struct(*name, *s));
    }
}

fn print_structs(m: &UniqueMap<StructDefinition>, i: usize, out: &mut String)
    requires
        m.wf(),
        i <= m.keys@.len(),
    ensures
        final(out)@ == old(out)@ + render_structs(*m, i as int),
    decreases *m, m.keys@.len() - i,
{
    if i < m.keys.len() {
        print_struct(&m.keys[i], &m.values[i], out);
        print_structs(m, i + 1, out);
    }
    proof {
        assert(out@ =~= old(out)@ + render_structs(*m, i as int));
    }
}

fn print_constants(m: &UniqueMap<Constant>, i: usize, out: &mut String)
    requires
        m.wf(),
        i <= m.keys@.len(),
    ensures
        final(out)@ == old(out)@ + render_constants(*m, i as int),
    decreases *m, m.keys@.len() - i,
{
    if i < m.keys.len() {
        print_constant(&m.keys[i], &m.values[i], out);
        print_constants(m, i + 1, out);
    }
    proof {
        assert(out@ =~= old(out)@ + render_constants(*m, i as int));
    }
}

fn print_functions(m: &UniqueMap<Function>, i: usize, out: &mut String)
    requires
        m.wf(),
        i <= m.keys@.len(),
    ensures
        final(out)@ == old(out)@ + render_functions(*m, i as int),
    decreases *m, m.keys@.len() - i,
{
    if i < m.keys.len() {
        print_function(&m.keys[i], &m.values[i], out);
        print_functions(m, i + 1, out);
    }
    proof {
        assert(out@ =~= old(out)@ + render_functions(*m, i as int));
    }
}

pub fn print_module(name: &Ident, m: &ModuleDefinition, out: &mut String)
    requires
        m.wf(),
    ensures
        final(out)@ == old(out)@ + render_module(*name, *m),
    decreases *m, 0int,
{
    if m.is_source_module {
        out.append("source module ");
    } else {
        out.append("library module ");
    }
    out.append(name.text.as_str());
    out.append(" {\n  dependency order #");
    push_dec(m.dependency_order as u128, out);
    out.append("\n");
    if m.friends.len() > 0 {
        out.append("  friends ");
        print_idents(&m.friends, 0, out);
        out.append("\n");
    }
    print_structs(&m.structs, 0, out);
    print_constants(&m.constants, 0, out);
    print_functions(&m.functions, 0, out);
    out.append("}\n");
    proof {
        assert(out@ =~= old(out)@ + render_module(*name, *m));
    }
}

pub fn print_script(name: &Ident, s: &Script, out: &mut String)
    requires
        s.wf(),
    ensures
        final(out)@ == old(out)@ + render_script(*name, *s),
    decreases *s, 0int,
{
    out.append("script ");
    out.append(name.text.as_str());
    out.append(" {\n");
    match &s.package_name {
        Some(p) => {
            out.append("  package ");
            out.append(p.text.as_str());
            out.append("\n");
        }
        None => {}
    }
    print_constants(&s.constants, 0, out);
    print_function(&s.function_name, &s.function, out);
    out.append("}\n");
    proof {
        assert(out@ =~= old(out)@ + render_script(*name, *s));
    }
}

fn print_modules(p: &Program, i: usize, out: &mut String)
    requires
        p.wf(),
        i <= p.modules.keys@.len(),
    ensures
        final(out)@ == old(out)@ + render_modules(p.modules, i as int),
    decreases p.modules, p.modules.keys@.len() - i,
{
    if i < p.modules.keys.len() {
        proof {
            assert(p.modules.entries()[i as int].1.wf());
        }
        print_module(&p.modules.keys[i], &p.modules.values[i], out);
        print_modules(p, i + 1, out);
    }
    proof {
        assert(out@ =~= old(out)@ + render_modules(p.modules, i as int));
    }
}

fn print_scripts(p: &Program, i: usize, out: &mut String)
    requires
        p.wf(),
        i <= p.scripts.keys@.len(),
    ensures
        final(out)@ == old(out)@ + render_scripts(p.scripts, i as int),
    decreases p.scripts, p.scripts.keys@.len() - i,
{
    if i < p.scripts.keys.len() {
        proof {
            assert(p.scripts.entries()[i as int].1.wf());
        }
        print_script(&p.scripts.keys[i], &p.scripts.values[i], out);
        print_scripts(p, i + 1, out);
    }
    proof {
        assert(out@ =~= old(out)@ + render_scripts(p.scripts, i as int));
    }
}

/// Renders a whole program as its canonical text.  The text is a function
/// of the tree value alone, so printing the same tree twice, or two
/// structurally equal trees, yields identical text.
pub fn print_program(p: &Program) -> (s: String)
    requires
        p.wf(),
    ensures
        s@ == render_program(*p),
{
    let mut out = String::new();
    print_modules(p, 0, &mut out);
    print_scripts(p, 0, &mut out);
    proof {
        assert(out@ =~= render_program(*p));
    }
    out
}

/// Renders one expression as its canonical text.
pub fn exp_text(e: &Exp) -> (s: String)
    ensures
        s@ == render_exp(*e),
{
    let mut out = String::new();
    print_exp(e, &mut out);
    proof {
        assert(out@ =~= render_exp(*e));
    }
    out
}

/// Renders one type as its canonical text.
pub fn ty_text(t: &Ty) -> (s: String)
    ensures
        s@ == render_ty(*t),
{
    let mut out = String::new();
    print_ty(t, &mut out);
    proof {
        assert(out@ =~= render_ty(*t));
    }
    out
}

} // verus!
