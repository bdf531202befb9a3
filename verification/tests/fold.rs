use hir_ty::{
    fold_free_vars, fold_tys, BoundVar, DebruijnIndex, FnPointer, FnSig, GenericArg, Lifetime,
    Mutability, Safety, Scalar, Substitution, Ty, TypeCtor,
};

fn var(depth: u32, index: usize) -> Ty {
    Ty::BoundVar(BoundVar::new(DebruijnIndex::new(depth), index))
}

fn tys(v: Vec<Ty>) -> Substitution {
    Substitution::from_iter(v.into_iter().map(GenericArg::Ty).collect())
}

fn fn_ptr(v: Vec<Ty>) -> Ty {
    Ty::Function(FnPointer {
        num_binders: 1,
        sig: FnSig { safety: Safety::Safe, variadic: false },
        substitution: tys(v),
    })
}

fn tuple(v: Vec<Ty>) -> Ty {
    Ty::Apply(TypeCtor::Tuple(v.len()), tys(v))
}

#[test]
fn fold_free_vars_sees_free_type_variables_with_their_depth() {
    let t = Ty::Ref(
        Mutability::Not,
        Lifetime::BoundVar(BoundVar::new(DebruijnIndex::new(0), 9)),
        Box::new(tuple(vec![var(0, 1), fn_ptr(vec![var(0, 0), var(1, 2), var(3, 4)])])),
    );
    let folded = fold_free_vars(t.clone(), |v: BoundVar, binders: DebruijnIndex| {
        Ty::Apply(
            TypeCtor::Tuple(3),
            tys(vec![
                var(v.debruijn.depth(), v.index),
                Ty::Scalar(Scalar::Bool),
                var(binders.depth(), 0),
            ]),
        )
    });
    let seen = |depth: u32, index: usize, binders: u32| {
        tuple(vec![var(depth, index), Ty::Scalar(Scalar::Bool), var(binders, 0)])
    };
    let expected = Ty::Ref(
        Mutability::Not,
        Lifetime::BoundVar(BoundVar::new(DebruijnIndex::new(0), 9)),
        Box::new(tuple(vec![
            seen(0, 1, 0),
            fn_ptr(vec![var(0, 0), seen(0, 2, 1), seen(2, 4, 1)]),
        ])),
    );
    assert_eq!(folded, expected);
}

#[test]
fn fold_free_vars_that_shifts_back_in_is_the_identity() {
    let t = tuple(vec![var(2, 1), fn_ptr(vec![var(0, 0), var(1, 2)]), Ty::Error]);
    let folded = fold_free_vars(t.clone(), |v: BoundVar, binders: DebruijnIndex| {
        Ty::BoundVar(v.shifted_in_from(binders))
    });
    assert_eq!(folded, t);
}

#[test]
fn fold_tys_rewrites_from_the_leaves_up() {
    let t = tuple(vec![Ty::Never, fn_ptr(vec![Ty::Never, Ty::Str])]);
    let folded = fold_tys(
        t.clone(),
        |ty: Ty, binders: DebruijnIndex| match ty {
            Ty::Never => var(binders.depth(), 0),
            Ty::Apply(_, s) => Ty::Slice(Box::new(Ty::Apply(TypeCtor::Tuple(s.len()), s))),
            other => other,
        },
        DebruijnIndex::new(5),
    );
    let expected = Ty::Slice(Box::new(tuple(vec![var(5, 0), fn_ptr(vec![var(6, 0), Ty::Str])])));
    assert_eq!(folded, expected);
}

#[test]
fn fold_tys_with_the_identity_changes_nothing() {
    let t = tuple(vec![var(0, 0), fn_ptr(vec![Ty::Error, Ty::Slice(Box::new(Ty::Str))])]);
    assert_eq!(fold_tys(t.clone(), |ty: Ty, _: DebruijnIndex| ty, DebruijnIndex::innermost()), t);
}

#[test]
fn folds_reach_the_types_of_a_substitution() {
    let s = Substitution::from_iter(vec![
        GenericArg::Lifetime(Lifetime::Static),
        GenericArg::Ty(var(0, 0)),
        GenericArg::Ty(fn_ptr(vec![var(1, 1)])),
    ]);
    let folded = fold_free_vars(s, |v: BoundVar, _: DebruijnIndex| {
        if v.index == 0 {
            Ty::Str
        } else {
            Ty::Never
        }
    });
    assert_eq!(
        folded,
        Substitution::from_iter(vec![
            GenericArg::Lifetime(Lifetime::Static),
            GenericArg::Ty(Ty::Str),
            GenericArg::Ty(fn_ptr(vec![Ty::Never])),
        ])
    );
}

#[test]
fn the_methods_of_a_type_fold_like_the_functions() {
    let t = tuple(vec![var(0, 0), fn_ptr(vec![var(1, 0), Ty::Never])]);
    let f = |v: BoundVar, d: DebruijnIndex| var(v.debruijn.depth() + d.depth() + 1, v.index);
    assert_eq!(t.fold_free_vars(&f), fold_free_vars(t.clone(), f));
    let g = |ty: Ty, _: DebruijnIndex| Ty::Slice(Box::new(ty));
    assert_eq!(
        t.fold_tys(&g, DebruijnIndex::innermost()),
        fold_tys(t.clone(), g, DebruijnIndex::innermost())
    );
}
