use hir_ty::{
    make_canonical, make_only_type_binders, replace_errors_recording,
    replace_errors_with_variables, AdtId, Binders, BoundVar, CallableSig, Canonical,
    CanonicalVarKind, Const,
    ConstValue, DebruijnIndex, FnPointer, FnSig, GenericArg, InferenceVar, Lifetime, Mutability,
    Safety, Scalar, Substitution, Ty, TyVariableKind, TypeCtor, UniverseIndex, VariableKind,
};
use hir_ty::ty::UintTy;

fn var(depth: u32, index: usize) -> Ty {
    Ty::BoundVar(BoundVar::new(DebruijnIndex::new(depth), index))
}

fn tys(v: Vec<Ty>) -> Substitution {
    Substitution::from_iter(v.into_iter().map(GenericArg::Ty).collect())
}

fn fn_ptr(v: Vec<Ty>) -> Ty {
    Ty::Function(FnPointer {
        num_binders: 0,
        sig: FnSig { safety: Safety::Safe, variadic: false },
        substitution: tys(v),
    })
}

fn tuple(v: Vec<Ty>) -> Ty {
    Ty::Apply(TypeCtor::Tuple(v.len()), tys(v))
}

fn bool_ty() -> Ty {
    Ty::Scalar(Scalar::Bool)
}

fn general(n: usize) -> Vec<CanonicalVarKind> {
    (0..n)
        .map(|_| {
            CanonicalVarKind::new(VariableKind::Ty(TyVariableKind::General), UniverseIndex::root())
        })
        .collect()
}

#[test]
fn errors_become_variables_from_left_to_right() {
    let t = tuple(vec![
        Ty::Error,
        fn_ptr(vec![Ty::Error, bool_ty()]),
        Ty::Slice(Box::new(Ty::Error)),
    ]);
    let expected = tuple(vec![
        var(0, 0),
        fn_ptr(vec![var(1, 1), bool_ty()]),
        Ty::Slice(Box::new(var(0, 2))),
    ]);
    let canonical = replace_errors_with_variables(t.clone());
    assert_eq!(canonical, Canonical { value: expected, binders: general(3) });
}

#[test]
fn errors_in_array_types_and_lengths_are_counted_in_order() {
    let len = Const { ty: Ty::Error, value: ConstValue::InferenceVar(InferenceVar { index: 0 }) };
    let t = Ty::Array(Box::new(tuple(vec![Ty::Error, Ty::Error])), Box::new(len));
    let canonical = replace_errors_with_variables(t.clone());
    let expected_len =
        Const { ty: var(0, 2), value: ConstValue::InferenceVar(InferenceVar { index: 0 }) };
    assert_eq!(
        canonical.value,
        Ty::Array(Box::new(tuple(vec![var(0, 0), var(0, 1)])), Box::new(expected_len))
    );
    assert_eq!(canonical.binders.len(), 3);
    assert_eq!(t.error_count(), Some(3));
}

#[test]
fn a_type_without_errors_is_its_own_canonical_form() {
    let t = Ty::Ref(
        Mutability::Mut,
        Lifetime::Static,
        Box::new(tuple(vec![bool_ty(), fn_ptr(vec![Ty::Never])])),
    );
    let canonical = replace_errors_with_variables(t.clone());
    assert_eq!(canonical, Canonical { value: t, binders: Vec::new() });
    let sig = CallableSig::from_params_and_return(vec![bool_ty()], Ty::Never, false);
    assert_eq!(
        replace_errors_with_variables(sig.clone()),
        Canonical { value: sig, binders: Vec::new() }
    );
}

#[test]
fn filling_the_variables_gives_the_skeleton_without_errors() {
    let t = tuple(vec![Ty::Error, fn_ptr(vec![Ty::Error, bool_ty()]), Ty::Error]);
    let canonical = replace_errors_with_variables(t.clone());
    let usize_ty = Ty::Scalar(Scalar::Uint(UintTy::Usize));
    let fill = tys(vec![bool_ty(), Ty::Never, usize_ty.clone()]);
    let kinds = canonical.binders.iter().map(|k| k.kind.clone()).collect();
    let filled = Binders::new(kinds, canonical.value).substitute(&fill);
    assert_eq!(filled, tuple(vec![bool_ty(), fn_ptr(vec![Ty::Never, bool_ty()]), usize_ty]));
    assert_eq!(filled.error_count(), Some(0));
}

#[test]
fn an_inference_variable_is_kept_and_reported() {
    let v = Ty::InferenceVar(InferenceVar { index: 3 }, TyVariableKind::Integer);
    let t = tuple(vec![Ty::Error, v.clone()]);
    let replaced = replace_errors_recording(t.clone());
    assert!(replaced.inference_var_met);
    assert_eq!(replaced.canonical.value, tuple(vec![var(0, 0), v]));
    assert_eq!(replaced.canonical.binders, general(1));
    assert!(!replace_errors_recording(tuple(vec![Ty::Error])).inference_var_met);
}

#[test]
fn make_canonical_puts_each_kind_in_the_root_universe() {
    let value = Ty::Apply(TypeCtor::Adt(AdtId(0)), tys(vec![var(0, 0), var(0, 1)]));
    let canonical =
        make_canonical(value.clone(), vec![TyVariableKind::Integer, TyVariableKind::General]);
    assert_eq!(canonical.value, value);
    assert_eq!(
        canonical.binders,
        vec![
            CanonicalVarKind {
                kind: VariableKind::Ty(TyVariableKind::Integer),
                universe: UniverseIndex { counter: 0 },
            },
            CanonicalVarKind {
                kind: VariableKind::Ty(TyVariableKind::General),
                universe: UniverseIndex { counter: 0 },
            },
        ]
    );
    assert_eq!(make_canonical(7u8, Vec::new()), Canonical { value: 7u8, binders: Vec::new() });
}

#[test]
fn make_only_type_binders_declares_general_types() {
    let b = make_only_type_binders(2, var(0, 1));
    assert_eq!(
        b,
        Binders::new(
            vec![
                VariableKind::Ty(TyVariableKind::General),
                VariableKind::Ty(TyVariableKind::General)
            ],
            var(0, 1)
        )
    );
    assert_eq!(make_only_type_binders(0, ()).len(), 0);
}

#[test]
fn errors_of_a_substitution_are_numbered_across_its_arguments() {
    let s = Substitution::from_iter(vec![
        GenericArg::Ty(Ty::Error),
        GenericArg::Lifetime(Lifetime::Static),
        GenericArg::Ty(tuple(vec![Ty::Error, bool_ty()])),
    ]);
    let canonical = replace_errors_with_variables(s);
    assert_eq!(
        canonical.value,
        Substitution::from_iter(vec![
            GenericArg::Ty(var(0, 0)),
            GenericArg::Lifetime(Lifetime::Static),
            GenericArg::Ty(tuple(vec![var(0, 1), bool_ty()])),
        ])
    );
    assert_eq!(canonical.binders, general(2));
}

#[test]
fn errors_of_a_signature_are_numbered_across_its_types() {
    let sig = CallableSig::from_params_and_return(vec![Ty::Error, bool_ty()], Ty::Error, true);
    let canonical = replace_errors_with_variables(sig);
    assert_eq!(
        canonical.value,
        CallableSig::from_params_and_return(vec![var(0, 0), bool_ty()], var(0, 1), true)
    );
    assert_eq!(canonical.binders, general(2));
}

#[test]
fn errors_of_a_pair_are_numbered_across_both() {
    let pair = (tuple(vec![Ty::Error, bool_ty()]), Ty::Slice(Box::new(Ty::Error)));
    let canonical = replace_errors_with_variables(pair);
    assert_eq!(canonical.value, (tuple(vec![var(0, 0), bool_ty()]), Ty::Slice(Box::new(var(0, 1)))));
    assert_eq!(canonical.binders, general(2));

    let mixed = (Lifetime::Static, (Ty::Error, tys(vec![Ty::Error])));
    let canonical = replace_errors_with_variables(mixed);
    assert_eq!(canonical.value, (Lifetime::Static, (var(0, 0), tys(vec![var(0, 1)]))));
    assert_eq!(canonical.binders, general(2));
}
