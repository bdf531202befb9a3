use hir_ty::{
    subst_prefix, wrap_empty_binders, AdtId, Binders, BoundVar, DebruijnIndex, FnPointer, FnSig,
    GenericArg, Lifetime, Mutability, Safety, Scalar, Substitution, Ty, TypeCtor, VariableKind,
};
use hir_ty::binders::span_of;
use hir_ty::canonical::error_count_of;
use hir_ty::ty::UintTy;
use hir_ty::{
    AliasEq, AliasTy, Const, ConstValue, LifetimeOutlives, ProjectionTy, TraitId, TraitRef,
    TyVariableKind, UniverseIndex, WhereClause,
};
use hir_ty::{fold_tys, replace_errors_with_variables, AssocTypeId};

fn var(depth: u32, index: usize) -> Ty {
    Ty::BoundVar(BoundVar::new(DebruijnIndex::new(depth), index))
}

fn lifetime_var(depth: u32, index: usize) -> Lifetime {
    Lifetime::BoundVar(BoundVar::new(DebruijnIndex::new(depth), index))
}

fn tys(v: Vec<Ty>) -> Substitution {
    Substitution::from_iter(v.into_iter().map(GenericArg::Ty).collect())
}

fn fn_ptr(num_binders: usize, v: Vec<Ty>) -> Ty {
    Ty::Function(FnPointer {
        num_binders,
        sig: FnSig { safety: Safety::Safe, variadic: false },
        substitution: tys(v),
    })
}

fn adt(id: u32, v: Vec<Ty>) -> Ty {
    Ty::Apply(TypeCtor::Adt(AdtId(id)), tys(v))
}

fn usize_ty() -> Ty {
    Ty::Scalar(Scalar::Uint(UintTy::Usize))
}

#[test]
fn debruijn_index_arithmetic() {
    let two = DebruijnIndex::new(2);
    assert_eq!(DebruijnIndex::innermost().depth(), 0);
    assert_eq!(DebruijnIndex::one().depth(), 1);
    assert_eq!(DebruijnIndex::new(0).shifted_in_from(two), two);
    assert_eq!(DebruijnIndex::new(1).shifted_in_from(two), DebruijnIndex::new(3));
    assert_eq!(two.shifted_in_from(DebruijnIndex::one()), DebruijnIndex::new(3));
    assert_eq!(DebruijnIndex::new(1).shifted_out_to(two), None);
    assert_eq!(DebruijnIndex::new(3).shifted_out_to(two), Some(DebruijnIndex::new(1)));
    assert_eq!(DebruijnIndex::innermost().shifted_out(), None);
    assert!(DebruijnIndex::new(1).within(two));
    assert!(!two.within(two));
    assert!(!two.within(DebruijnIndex::innermost()));
}

#[test]
fn bound_var_at_its_binder() {
    let v = BoundVar::new(DebruijnIndex::new(1), 4);
    assert_eq!(v.index_if_innermost(), None);
    assert_eq!(v.index_if_bound_at(DebruijnIndex::one()), Some(4));
    assert_eq!(v.shifted_out().and_then(|w| w.index_if_innermost()), Some(4));
    assert!(v.bound_within(DebruijnIndex::new(2)));
    assert!(!v.bound_within(DebruijnIndex::one()));
    assert_eq!(v.shifted_in(), BoundVar::new(DebruijnIndex::new(2), 4));
}

#[test]
fn shifting_in_renumbers_free_variables_only() {
    let t = Ty::Ref(
        Mutability::Not,
        lifetime_var(0, 0),
        Box::new(adt(1, vec![var(1, 2), fn_ptr(1, vec![var(0, 0), var(1, 0), var(2, 1)])])),
    );
    let expected = Ty::Ref(
        Mutability::Not,
        lifetime_var(2, 0),
        Box::new(adt(1, vec![var(3, 2), fn_ptr(1, vec![var(0, 0), var(3, 0), var(4, 1)])])),
    );
    assert_eq!(t.shifted_in_from(DebruijnIndex::new(2)), expected);
    assert_eq!(t.shifted_in_from(DebruijnIndex::innermost()), t);
}

#[test]
fn shifting_out_fails_on_a_variable_of_the_binder_left() {
    let t = Ty::Ref(Mutability::Not, lifetime_var(0, 0), Box::new(usize_ty()));
    assert_eq!(t.shifted_out(), None);
    let inside = fn_ptr(1, vec![var(1, 0)]);
    assert_eq!(inside.shifted_out(), None);
    assert_eq!(var(1, 0).shifted_out_to(DebruijnIndex::new(2)), None);
}

#[test]
fn shifting_out_lowers_free_variables() {
    let t = adt(3, vec![var(1, 0), fn_ptr(1, vec![var(0, 0), var(2, 0)])]);
    let expected = adt(3, vec![var(0, 0), fn_ptr(1, vec![var(0, 0), var(1, 0)])]);
    assert_eq!(t.shifted_out(), Some(expected));
    assert_eq!(var(5, 1).shifted_out_to(DebruijnIndex::new(3)), Some(var(2, 1)));
}

#[test]
fn shift_in_then_out_is_the_identity() {
    let t = adt(3, vec![var(0, 1), fn_ptr(2, vec![var(0, 0), var(1, 3), Ty::Error])]);
    assert_eq!(t.shifted_in().shifted_out(), Some(t.clone()));
}

#[test]
fn span_counts_depths_and_binders() {
    assert_eq!(usize_ty().span(), Some(0));
    assert_eq!(var(4, 0).span(), Some(5));
    assert_eq!(fn_ptr(0, vec![fn_ptr(0, vec![usize_ty()])]).span(), Some(2));
    assert_eq!(adt(0, vec![var(1, 0), fn_ptr(1, vec![var(0, 0)])]).span(), Some(2));
    assert_eq!(var(u32::MAX, 0).span(), None);
}

#[test]
fn subst_prefix_keeps_the_first_entries() {
    let s = tys(vec![usize_ty(), Ty::Never, Ty::Str]);
    assert_eq!(subst_prefix(&s, 0), Substitution::empty());
    assert_eq!(subst_prefix(&s, 2), tys(vec![usize_ty(), Ty::Never]));
    assert_eq!(subst_prefix(&s, 3), s);
    assert_eq!(subst_prefix(&s, 4), s);
    assert_eq!(subst_prefix(&s, usize::MAX), s);
    assert_eq!(subst_prefix(&Substitution::empty(), 5), Substitution::empty());
}

#[test]
fn substitution_accessors() {
    let s = tys(vec![usize_ty(), Ty::Never]);
    assert_eq!(s.len(), 2);
    assert!(!s.is_empty());
    assert_eq!(s.at(1), &GenericArg::Ty(Ty::Never));
    assert_eq!(s.as_slice().len(), 2);
    assert_eq!(s.at(0).ty(), Some(&usize_ty()));
    assert_eq!(s.at(0).assert_ty_ref(), &usize_ty());
    assert!(Substitution::empty().is_empty());
    assert_eq!(Substitution::from1(GenericArg::Lifetime(Lifetime::Static)).len(), 1);
    assert!(!GenericArg::Lifetime(Lifetime::Static).is_ty());
}

fn generic_value() -> Binders<Ty> {
    Binders::new(
        vec![VariableKind::Ty(TyVariableKind::General), VariableKind::Lifetime],
        Ty::Ref(
            Mutability::Not,
            lifetime_var(0, 1),
            Box::new(adt(7, vec![var(0, 0), var(1, 0), fn_ptr(0, vec![var(1, 0), var(0, 0)])])),
        ),
    )
}

#[test]
fn substitute_instantiates_one_binder() {
    let params = Substitution::from_iter(vec![
        GenericArg::Ty(var(0, 5)),
        GenericArg::Lifetime(Lifetime::Static),
    ]);
    let expected = Ty::Ref(
        Mutability::Not,
        Lifetime::Static,
        Box::new(adt(7, vec![var(0, 5), var(0, 0), fn_ptr(0, vec![var(1, 5), var(0, 0)])])),
    );
    assert_eq!(generic_value().substitute(&params), expected.clone());
    assert_eq!(generic_value().try_substitute(&params), Some(expected));
}

#[test]
fn substitute_refuses_a_substitution_of_another_length() {
    let one_short = Substitution::from_iter(vec![GenericArg::Ty(usize_ty())]);
    let one_long = Substitution::from_iter(vec![
        GenericArg::Ty(usize_ty()),
        GenericArg::Lifetime(Lifetime::Static),
        GenericArg::Ty(usize_ty()),
    ]);
    assert_eq!(generic_value().try_substitute(&one_short), None);
    assert_eq!(generic_value().try_substitute(&one_long), None);
}

#[test]
fn substitute_refuses_an_argument_of_the_wrong_kind() {
    let swapped = Substitution::from_iter(vec![
        GenericArg::Lifetime(Lifetime::Static),
        GenericArg::Ty(usize_ty()),
    ]);
    assert_eq!(generic_value().try_substitute(&swapped), None);
}

#[test]
fn wrapping_in_empty_binders_round_trips() {
    let closed = adt(1, vec![usize_ty(), fn_ptr(1, vec![var(0, 0), Ty::Never])]);
    let wrapped = wrap_empty_binders(closed.clone());
    assert_eq!(wrapped.len(), 0);
    assert_eq!(wrapped.skip_binders(), &closed);
    assert_eq!(wrapped.substitute(&Substitution::empty()), closed);

    let open = adt(1, vec![var(0, 2), fn_ptr(1, vec![var(0, 0), var(3, 1)])]);
    let wrapped = wrap_empty_binders(open.clone());
    assert_eq!(
        wrapped.skip_binders(),
        &adt(1, vec![var(1, 2), fn_ptr(1, vec![var(0, 0), var(4, 1)])])
    );
    assert_eq!(wrapped.substitute(&Substitution::empty()), open);
}

#[test]
fn clone_copies_the_whole_term() {
    let t = generic_value();
    assert_eq!(t.clone(), t);
    assert_eq!(t.value.clone(), t.value);
}

#[test]
fn wrapping_moves_every_term_of_a_value() {
    let s = Substitution::from_iter(vec![
        GenericArg::Ty(var(0, 0)),
        GenericArg::Lifetime(lifetime_var(2, 1)),
    ]);
    let wrapped = wrap_empty_binders(s.clone());
    assert_eq!(
        wrapped.skip_binders(),
        &Substitution::from_iter(vec![
            GenericArg::Ty(var(1, 0)),
            GenericArg::Lifetime(lifetime_var(3, 1)),
        ])
    );
    assert_eq!(wrapped.substitute(&Substitution::empty()), s);
    assert_eq!(
        wrap_empty_binders(GenericArg::Lifetime(lifetime_var(0, 0))).value,
        GenericArg::Lifetime(lifetime_var(1, 0))
    );
    assert_eq!(wrap_empty_binders(lifetime_var(0, 0)).value, lifetime_var(1, 0));
}

#[test]
fn universes_see_themselves_and_those_before() {
    let root = UniverseIndex::root();
    let next = UniverseIndex { counter: 1 };
    assert!(root.can_see(root));
    assert!(next.can_see(root));
    assert!(!root.can_see(next));
}

#[test]
fn bound_vars_as_terms() {
    let v = BoundVar::new(DebruijnIndex::new(1), 2);
    assert_eq!(v.to_ty(), var(1, 2));
    assert_eq!(v.to_lifetime(), lifetime_var(1, 2));
    assert_eq!(v.to_const(usize_ty()), Const { ty: usize_ty(), value: ConstValue::BoundVar(v) });
}

#[test]
fn measures_of_values_that_hold_terms() {
    let s = Substitution::from_iter(vec![
        GenericArg::Lifetime(lifetime_var(3, 0)),
        GenericArg::Ty(fn_ptr(1, vec![Ty::Error, var(0, 0)])),
        GenericArg::Ty(Ty::Error),
    ]);
    assert_eq!(span_of(&s), Some(4));
    assert_eq!(s.span(), Some(4));
    assert_eq!(error_count_of(&s), Some(2));
    assert_eq!(span_of(&Substitution::empty()), Some(0));
    assert_eq!(Lifetime::Static.span(), Some(0));
}

fn trait_ref(id: u32, v: Vec<Ty>) -> TraitRef {
    TraitRef { trait_id: TraitId(id), substitution: tys(v) }
}

#[test]
fn trait_refs_name_their_self_type() {
    assert_eq!(trait_ref(0, vec![usize_ty(), Ty::Str]).self_type_parameter(), usize_ty());
}

#[test]
fn where_clauses_are_instantiated_term_by_term() {
    let params = Substitution::from_iter(vec![
        GenericArg::Ty(usize_ty()),
        GenericArg::Lifetime(Lifetime::Static),
    ]);
    let kinds = || vec![VariableKind::Ty(TyVariableKind::General), VariableKind::Lifetime];

    let implemented = WhereClause::Implemented(trait_ref(4, vec![var(0, 0), var(1, 0)]));
    assert_eq!(
        Binders::new(kinds(), implemented).substitute(&params),
        WhereClause::Implemented(trait_ref(4, vec![usize_ty(), var(0, 0)]))
    );

    let outlives =
        WhereClause::LifetimeOutlives(LifetimeOutlives { a: lifetime_var(0, 1), b: lifetime_var(2, 0) });
    assert_eq!(
        Binders::new(kinds(), outlives).substitute(&params),
        WhereClause::LifetimeOutlives(LifetimeOutlives { a: Lifetime::Static, b: lifetime_var(1, 0) })
    );

    let alias = |ty: Ty, of: Ty| {
        WhereClause::AliasEq(AliasEq {
            alias: AliasTy::Projection(ProjectionTy {
                associated_ty_id: AssocTypeId(9),
                substitution: tys(vec![of]),
            }),
            ty,
        })
    };
    assert_eq!(
        Binders::new(kinds(), alias(var(1, 1), var(0, 0))).substitute(&params),
        alias(var(0, 1), usize_ty())
    );
    let swapped = Substitution::from_iter(vec![
        GenericArg::Lifetime(Lifetime::Static),
        GenericArg::Ty(usize_ty()),
    ]);
    assert_eq!(Binders::new(kinds(), alias(var(1, 1), var(0, 0))).try_substitute(&swapped), None);
}

#[test]
fn where_clauses_are_made_canonical_and_folded() {
    let clause = WhereClause::AliasEq(AliasEq {
        alias: AliasTy::Projection(ProjectionTy {
            associated_ty_id: AssocTypeId(9),
            substitution: tys(vec![Ty::Error]),
        }),
        ty: Ty::Error,
    });
    let canonical = replace_errors_with_variables(clause.clone());
    assert_eq!(
        canonical.value,
        WhereClause::AliasEq(AliasEq {
            alias: AliasTy::Projection(ProjectionTy {
                associated_ty_id: AssocTypeId(9),
                substitution: tys(vec![var(0, 0)]),
            }),
            ty: var(0, 1),
        })
    );
    assert_eq!(canonical.binders.len(), 2);
    let folded = fold_tys(
        clause,
        |ty: Ty, _: DebruijnIndex| if ty == Ty::Error { Ty::Never } else { ty },
        DebruijnIndex::innermost(),
    );
    assert_eq!(
        folded,
        WhereClause::AliasEq(AliasEq {
            alias: AliasTy::Projection(ProjectionTy {
                associated_ty_id: AssocTypeId(9),
                substitution: tys(vec![Ty::Never]),
            }),
            ty: Ty::Never,
        })
    );
}
