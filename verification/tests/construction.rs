use typed_ast::decl::{Function, FunctionBody, FunctionSignature, StructDefinition, Visibility};
use typed_ast::errors::Defect;
use typed_ast::exp::{Exp, ExpListItem, LValue, ModuleCall, SequenceItem, UnannotatedExp, Value};
use typed_ast::ident::Ident;
use typed_ast::program::{ModuleDefinition, Program};
use typed_ast::ty::{Ty, TyList};
use typed_ast::unique_map::UniqueMap;

fn ident(sym: u64, text: &str) -> Ident {
    Ident::new(sym, text.to_string())
}

fn u64_exp(n: u64) -> Exp {
    Exp { ty: Ty::U64, exp: UnannotatedExp::Value(Value::U64(n)) }
}

fn unit_exp() -> Exp {
    Exp { ty: Ty::Unit, exp: UnannotatedExp::Unit { trailing: false } }
}

fn empty_module(order: usize) -> ModuleDefinition {
    ModuleDefinition {
        is_source_module: true,
        dependency_order: order,
        friends: Vec::new(),
        used_modules: Vec::new(),
        structs: UniqueMap::new(),
        constants: UniqueMap::new(),
        functions: UniqueMap::new(),
    }
}

fn pair_ty() -> TyList {
    TyList::Cons(Box::new(Ty::U64), Box::new(TyList::Cons(Box::new(Ty::Bool),
        Box::new(TyList::Nil))))
}

#[test]
fn splat_over_unit_type_is_a_defect() {
    let r = ExpListItem::splat(0, unit_exp());
    assert!(matches!(r, Err(Defect::SplatOfNonMultiple)));
}

#[test]
fn splat_over_single_value_type_is_a_defect() {
    let r = ExpListItem::splat(0, u64_exp(9));
    assert!(matches!(r, Err(Defect::SplatOfNonMultiple)));
}

#[test]
fn splat_over_multiple_type_extracts_components() {
    let e = Exp { ty: Ty::Multiple(pair_ty()), exp: UnannotatedExp::UnresolvedError };
    let item = ExpListItem::splat(7, e).unwrap();
    match item {
        ExpListItem::Splat(loc, spliced, tys) => {
            assert_eq!(loc, 7);
            assert_eq!(tys.len(), 2);
            assert_eq!(tys, pair_ty());
            assert_eq!(spliced.ty, Ty::Multiple(pair_ty()));
        }
        _ => panic!("expected a splat item"),
    }
}

#[test]
fn single_item_carries_the_expression_type() {
    let item = ExpListItem::single(u64_exp(3));
    match item {
        ExpListItem::Single(e, t) => {
            assert_eq!(t, Ty::U64);
            assert_eq!(e.ty, Ty::U64);
        }
        _ => panic!("expected a single item"),
    }
}

#[test]
fn duplicate_module_identifier_is_rejected() {
    let r = Program::new(
        vec![(ident(1, "m"), empty_module(0)), (ident(1, "m"), empty_module(1))],
        Vec::new(),
    );
    assert!(matches!(r, Err(Defect::DuplicateKey)));
}

#[test]
fn duplicate_insert_keeps_the_first_entry() {
    let mut m: UniqueMap<u64> = UniqueMap::new();
    m.insert(ident(1, "a"), 10).unwrap();
    let r = m.insert(ident(1, "a"), 20);
    assert!(matches!(r, Err(Defect::DuplicateKey)));
    assert_eq!(m.len(), 1);
    assert_eq!(m.get(&ident(1, "a")), Some(&10));
}

#[test]
fn duplicate_struct_name_in_module_is_rejected() {
    let s = StructDefinition { type_parameters: Vec::new(), fields: Vec::new() };
    let s2 = StructDefinition { type_parameters: Vec::new(), fields: Vec::new() };
    let r = UniqueMap::from_pairs(vec![(ident(5, "S"), s), (ident(5, "S"), s2)]);
    assert!(matches!(r, Err(Defect::DuplicateKey)));
}

#[test]
fn lookup_finds_only_present_keys() {
    let mut m: UniqueMap<u64> = UniqueMap::new();
    m.insert(ident(1, "a"), 10).unwrap();
    m.insert(ident(2, "b"), 20).unwrap();
    assert_eq!(m.get(&ident(2, "b")), Some(&20));
    assert_eq!(m.get(&ident(3, "c")), None);
}

#[test]
fn insertion_order_is_preserved() {
    let mut m: UniqueMap<u64> = UniqueMap::new();
    m.insert(ident(3, "c"), 0).unwrap();
    m.insert(ident(1, "a"), 1).unwrap();
    m.insert(ident(2, "b"), 2).unwrap();
    let mut names = Vec::new();
    for i in 0..m.len() {
        names.push(m.key_at(i).text.clone());
    }
    assert_eq!(names, vec!["c".to_string(), "a".to_string(), "b".to_string()]);
}

#[test]
fn program_keeps_module_insertion_order() {
    let p = Program::new(
        vec![
            (ident(3, "gamma"), empty_module(0)),
            (ident(1, "alpha"), empty_module(1)),
            (ident(2, "beta"), empty_module(2)),
        ],
        Vec::new(),
    )
    .unwrap();
    let mut names = Vec::new();
    for i in 0..p.modules.len() {
        names.push(p.modules.key_at(i).text.clone());
    }
    assert_eq!(names, vec!["gamma".to_string(), "alpha".to_string(), "beta".to_string()]);
}

#[test]
fn dependency_rank_must_increase_along_edges() {
    let dep = empty_module(0);
    let mut user = empty_module(1);
    user.used_modules = vec![ident(1, "dep")];
    let ok = Program::new(vec![(ident(1, "dep"), dep), (ident(2, "user"), user)], Vec::new());
    assert!(ok.is_ok());

    let dep_high = empty_module(1);
    let mut user_low = empty_module(1);
    user_low.used_modules = vec![ident(1, "dep")];
    let bad = Program::new(
        vec![(ident(1, "dep"), dep_high), (ident(2, "user"), user_low)],
        Vec::new(),
    );
    assert!(matches!(bad, Err(Defect::DependencyOrderViolation)));
}

#[test]
fn module_using_itself_is_rejected() {
    let mut m = empty_module(4);
    m.used_modules = vec![ident(1, "m")];
    let r = Program::new(vec![(ident(1, "m"), m)], Vec::new());
    assert!(matches!(r, Err(Defect::DependencyOrderViolation)));
}

#[test]
fn native_body_reports_zero_statements() {
    let f = Function {
        visibility: Visibility::Internal,
        is_entry: false,
        signature: FunctionSignature {
            type_parameters: Vec::new(),
            parameters: Vec::new(),
            return_type: Ty::Unit,
        },
        acquires: Vec::new(),
        body: FunctionBody::Native,
    };
    assert!(f.is_native());
    assert_eq!(f.statement_count(), 0);
    assert!(f.body_sequence().is_none());
}

#[test]
fn defined_body_exposes_its_statements_unmodified() {
    let items = vec![SequenceItem::Bare(u64_exp(1)), SequenceItem::Bare(u64_exp(2))];
    let f = Function {
        visibility: Visibility::Public,
        is_entry: false,
        signature: FunctionSignature {
            type_parameters: Vec::new(),
            parameters: Vec::new(),
            return_type: Ty::Unit,
        },
        acquires: Vec::new(),
        body: FunctionBody::Defined(items),
    };
    assert!(!f.is_native());
    assert_eq!(f.statement_count(), 2);
    let body = f.body_sequence().unwrap();
    assert_eq!(body.len(), 2);
    assert!(matches!(&body[1], SequenceItem::Bare(e) if e.ty == Ty::U64));
}

#[test]
fn loop_without_break_has_never_type() {
    let e = Exp::loop_exp(false, Ty::U64, unit_exp());
    assert_eq!(e.ty, Ty::Never);
    assert!(matches!(e.exp, UnannotatedExp::Loop { has_break: false, .. }));
}

#[test]
fn loop_with_break_has_the_break_type() {
    let e = Exp::loop_exp(true, Ty::U64, unit_exp());
    assert_eq!(e.ty, Ty::U64);
    assert!(matches!(e.exp, UnannotatedExp::Loop { has_break: true, .. }));
}

#[test]
fn bind_arity_is_checked() {
    let lvs = vec![LValue::Ignore, LValue::Ignore];
    let r = SequenceItem::bind(lvs, vec![Ty::U64], u64_exp(1));
    assert!(matches!(r, Err(Defect::ArityMismatch)));
    let lvs2 = vec![LValue::Ignore, LValue::Ignore];
    let ok = SequenceItem::bind(lvs2, vec![Ty::U64, Ty::Bool], u64_exp(1));
    assert!(ok.is_ok());
}

#[test]
fn assign_arity_is_checked_and_yields_unit() {
    let r = Exp::assign(vec![LValue::Ignore], Vec::new(), u64_exp(1));
    assert!(matches!(r, Err(Defect::ArityMismatch)));
    let ok = Exp::assign(vec![LValue::Ignore], vec![None], u64_exp(1)).unwrap();
    assert_eq!(ok.ty, Ty::Unit);
}

#[test]
fn module_call_arity_must_match_the_callee() {
    let sig = FunctionSignature {
        type_parameters: Vec::new(),
        parameters: vec![(ident(8, "a"), Ty::U64), (ident(9, "b"), Ty::Bool)],
        return_type: Ty::Unit,
    };
    let bad = ModuleCall::new(ident(1, "m"), ident(2, "f"), false, TyList::Nil, vec![Ty::U64],
        Vec::new(), unit_exp(), &sig);
    assert!(matches!(bad, Err(Defect::ArityMismatch)));
    let good = ModuleCall::new(ident(1, "m"), ident(2, "f"), false, TyList::Nil,
        vec![Ty::U64, Ty::Bool], Vec::new(), unit_exp(), &sig);
    assert!(good.is_ok());
}

#[test]
fn pack_missing_field_is_rejected() {
    let declared = vec![(ident(3, "x"), Ty::U64), (ident(4, "y"), Ty::U64)];
    let provided = vec![(ident(3, "x"), u64_exp(1))];
    let r = Exp::pack(ident(1, "geo"), ident(2, "Point"), TyList::Nil, declared, provided,
        Ty::Unit);
    assert!(matches!(r, Err(Defect::FieldSetMismatch)));
}

#[test]
fn pack_unknown_field_is_rejected() {
    let declared = vec![(ident(3, "x"), Ty::U64)];
    let provided = vec![(ident(9, "z"), u64_exp(1))];
    let r = Exp::pack(ident(1, "geo"), ident(2, "Point"), TyList::Nil, declared, provided,
        Ty::Unit);
    assert!(matches!(r, Err(Defect::FieldSetMismatch)));
}

#[test]
fn unpack_orders_bindings_by_declared_fields() {
    let declared = vec![(ident(3, "x"), Ty::U64), (ident(4, "y"), Ty::Bool)];
    let provided = vec![
        (ident(4, "y"), (Ty::Bool, LValue::Var(ident(12, "b"), Ty::Bool))),
        (ident(3, "x"), (Ty::U64, LValue::Var(ident(11, "a"), Ty::U64))),
    ];
    let lv = LValue::unpack(ident(1, "geo"), ident(2, "Point"), TyList::Nil, declared, provided)
        .unwrap();
    match lv {
        LValue::Unpack { fields, .. } => {
            assert_eq!(fields.len(), 2);
            assert_eq!(fields[0].field.text, "x");
            assert_eq!(fields[0].index, 0);
            assert_eq!(fields[0].ty, Ty::U64);
            assert!(matches!(&fields[0].item.1, LValue::Var(v, _) if v.text == "a"));
            assert_eq!(fields[1].field.text, "y");
            assert_eq!(fields[1].index, 1);
        }
        _ => panic!("expected an unpack pattern"),
    }
}

#[test]
fn borrow_unpack_keeps_the_mutability_flag() {
    let declared = vec![(ident(3, "x"), Ty::U64)];
    let provided = vec![(ident(3, "x"), (Ty::U64, LValue::Ignore))];
    let lv = LValue::borrow_unpack(true, ident(1, "geo"), ident(2, "Point"), TyList::Nil,
        declared, provided).unwrap();
    assert!(matches!(lv, LValue::BorrowUnpack { mutable: true, .. }));
}
