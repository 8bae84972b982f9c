use typed_ast::decl::{Function, FunctionBody, FunctionSignature, Visibility};
use typed_ast::exp::{Exp, UnannotatedExp, Value};
use typed_ast::ident::Ident;
use typed_ast::printer::{exp_text, print_program, ty_text};
use typed_ast::program::{ModuleDefinition, Program};
use typed_ast::ty::{Ty, TyList};
use typed_ast::unique_map::UniqueMap;

fn ident(sym: u64, text: &str) -> Ident {
    Ident::new(sym, text.to_string())
}

fn u64_exp(n: u64) -> Exp {
    Exp { ty: Ty::U64, exp: UnannotatedExp::Value(Value::U64(n)) }
}

fn empty_module(order: usize) -> ModuleDefinition {
    ModuleDefinition {
        is_source_module: true,
        dependency_order: order,
        friends: Vec::new(),
        used_modules: Vec::new(),
        structs: UniqueMap::new(),
        constants: UniqueMap::new(),
        functions: UniqueMap::new(),
    }
}

fn sample_program() -> Program {
    let mut functions = UniqueMap::new();
    let body = vec![typed_ast::exp::SequenceItem::Bare(u64_exp(5))];
    let f = Function {
        visibility: Visibility::Public,
        is_entry: true,
        signature: FunctionSignature {
            type_parameters: Vec::new(),
            parameters: vec![(ident(10, "n"), Ty::U64)],
            return_type: Ty::U64,
        },
        acquires: Vec::new(),
        body: FunctionBody::Defined(body),
    };
    functions.insert(ident(11, "bump"), f).unwrap();
    let mut m = empty_module(2);
    m.functions = functions;
    Program::new(vec![(ident(1, "m"), m)], Vec::new()).unwrap()
}

#[test]
fn printing_same_tree_twice_is_identical() {
    let p = sample_program();
    let first = print_program(&p);
    let second = print_program(&p);
    assert_eq!(first, second);
}

#[test]
fn printing_equal_trees_is_identical() {
    let a = sample_program();
    let b = sample_program();
    assert_eq!(print_program(&a), print_program(&b));
}

#[test]
fn empty_module_prints_exactly() {
    let p = Program::new(vec![(ident(1, "m"), empty_module(0))], Vec::new()).unwrap();
    assert_eq!(print_program(&p), "source module m {\n  dependency order #0\n}\n");
}

#[test]
fn library_module_prints_rank() {
    let mut m = empty_module(37);
    m.is_source_module = false;
    let p = Program::new(vec![(ident(1, "dep"), m)], Vec::new()).unwrap();
    assert_eq!(print_program(&p), "library module dep {\n  dependency order #37\n}\n");
}

#[test]
fn function_line_prints_markers() {
    let p = sample_program();
    let text = print_program(&p);
    assert!(text.contains("  public entry fun bump(n: u64): u64 { (5u64: u64) }\n"));
}

#[test]
fn native_function_prints_bare_semicolon() {
    let mut functions = UniqueMap::new();
    let f = Function {
        visibility: Visibility::Internal,
        is_entry: false,
        signature: FunctionSignature {
            type_parameters: Vec::new(),
            parameters: Vec::new(),
            return_type: Ty::Unit,
        },
        acquires: vec![ident(21, "Vault")],
        body: FunctionBody::Native,
    };
    functions.insert(ident(20, "emit"), f).unwrap();
    let mut m = empty_module(0);
    m.functions = functions;
    let p = Program::new(vec![(ident(1, "m"), m)], Vec::new()).unwrap();
    let text = print_program(&p);
    assert!(text.contains("  native fun emit(): () acquires Vault;\n"));
}

#[test]
fn pack_prints_fields_in_declared_order() {
    let declared = vec![(ident(3, "x"), Ty::U64), (ident(4, "y"), Ty::U64)];
    let provided = vec![(ident(4, "y"), u64_exp(7)), (ident(3, "x"), u64_exp(42))];
    let point_ty = Ty::Struct {
        module: ident(1, "geo"),
        name: ident(2, "Point"),
        type_args: TyList::Nil,
    };
    let e = Exp::pack(ident(1, "geo"), ident(2, "Point"), TyList::Nil, declared, provided,
        point_ty).unwrap();
    assert_eq!(
        exp_text(&e),
        "(geo::Point{(0#x: u64): (42u64: u64), (1#y: u64): (7u64: u64)}: geo::Point)"
    );
}

#[test]
fn numerals_print_exactly() {
    assert_eq!(exp_text(&u64_exp(0)), "(0u64: u64)");
    assert_eq!(exp_text(&u64_exp(12345)), "(12345u64: u64)");
    let big = Exp { ty: Ty::U128, exp: UnannotatedExp::Value(Value::U128(340282366920938463463374607431768211455)) };
    assert_eq!(exp_text(&big), "(340282366920938463463374607431768211455u128: u128)");
}

#[test]
fn types_print_exactly() {
    let t = Ty::Ref {
        mutable: true,
        to: Box::new(Ty::Vector(Box::new(Ty::U8))),
    };
    assert_eq!(ty_text(&t), "&mut vector<u8>");
    let multi = Ty::Multiple(TyList::Cons(
        Box::new(Ty::U64),
        Box::new(TyList::Cons(Box::new(Ty::Bool), Box::new(TyList::Nil))),
    ));
    assert_eq!(ty_text(&multi), "(u64, bool)");
    assert_eq!(ty_text(&Ty::Never), "never");
}

#[test]
fn move_copy_mark_user_origin() {
    let m_user = Exp { ty: Ty::U64, exp: UnannotatedExp::Move { from_user: true, var: ident(5, "a") } };
    let m_auto = Exp { ty: Ty::U64, exp: UnannotatedExp::Move { from_user: false, var: ident(5, "a") } };
    assert_eq!(exp_text(&m_user), "(move@ a: u64)");
    assert_eq!(exp_text(&m_auto), "(move a: u64)");
    let c_user = Exp { ty: Ty::U64, exp: UnannotatedExp::Copy { from_user: true, var: ident(5, "a") } };
    assert_eq!(exp_text(&c_user), "(copy@ a: u64)");
}

#[test]
fn diagnostic_flags_do_not_change_the_rest() {
    // two trees differing only in the from_user flag render identically
    // outside the one marker character
    let m_user = Exp { ty: Ty::U64, exp: UnannotatedExp::Move { from_user: true, var: ident(5, "a") } };
    let m_auto = Exp { ty: Ty::U64, exp: UnannotatedExp::Move { from_user: false, var: ident(5, "a") } };
    assert_eq!(exp_text(&m_user).replace("move@ ", "move "), exp_text(&m_auto));
}
