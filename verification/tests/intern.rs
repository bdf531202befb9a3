use hir_ty::{
    AdtId, BoundVar, DebruijnIndex, FnPointer, FnSig, GenericArg, InternedTy, Lifetime,
    Mutability, Safety, Scalar, Substitution, Ty, TyInterner, TypeCtor,
};

fn var(depth: u32, index: usize) -> Ty {
    Ty::BoundVar(BoundVar::new(DebruijnIndex::new(depth), index))
}

fn tys(v: Vec<Ty>) -> Substitution {
    Substitution::from_iter(v.into_iter().map(GenericArg::Ty).collect())
}

fn vec_of(elem: Ty) -> Ty {
    Ty::Apply(TypeCtor::Adt(AdtId(1)), tys(vec![elem]))
}

#[test]
fn equal_terms_share_a_handle() {
    let mut table = TyInterner::new();
    let a = table.intern(vec_of(Ty::Scalar(Scalar::Bool)));
    let b = table.intern(Ty::Str);
    let again = table.intern(vec_of(Ty::Scalar(Scalar::Bool)));
    assert_eq!(a, again);
    assert_ne!(a, b);
    assert_eq!(table.len(), 2);
    assert!(table.same(a, again));
    assert!(!table.same(a, b));
    assert_eq!(table.lookup(a), &vec_of(Ty::Scalar(Scalar::Bool)));
    assert_eq!(table.lookup(b), &Ty::Str);
}

#[test]
fn handles_stay_valid_as_the_table_grows() {
    let mut table = TyInterner::new();
    let first = table.intern(var(0, 0));
    for depth in 1..50 {
        table.intern(var(depth, 0));
    }
    assert_eq!(first, InternedTy { index: 0 });
    assert_eq!(table.lookup(first), &var(0, 0));
    assert_eq!(table.intern(var(0, 0)), first);
    assert_eq!(table.len(), 50);
    assert_eq!(table.find(&var(49, 0)), Some(InternedTy { index: 49 }));
    assert_eq!(table.find(&var(50, 0)), None);
}

#[test]
fn same_as_compares_whole_terms() {
    let ptr = |safety: Safety, v: Vec<Ty>| {
        Ty::Function(FnPointer {
            num_binders: 1,
            sig: FnSig { safety, variadic: false },
            substitution: tys(v),
        })
    };
    let t = Ty::Ref(
        Mutability::Not,
        Lifetime::Static,
        Box::new(ptr(Safety::Safe, vec![var(0, 0), vec_of(Ty::Never)])),
    );
    assert!(t.same_as(&t.clone()));
    let other = Ty::Ref(
        Mutability::Not,
        Lifetime::Static,
        Box::new(ptr(Safety::Safe, vec![var(0, 0), vec_of(Ty::Str)])),
    );
    assert!(!t.same_as(&other));
    assert!(!ptr(Safety::Safe, vec![Ty::Str]).same_as(&ptr(Safety::Unsafe, vec![Ty::Str])));
    assert!(!tys(vec![Ty::Str]).same_as(&tys(vec![Ty::Str, Ty::Str])));
    assert!(tys(vec![Ty::Str]).same_as(&tys(vec![Ty::Str])));
    assert!(!GenericArg::Lifetime(Lifetime::Static).same_as(&GenericArg::Ty(Ty::Str)));
}
