use hir_ty::ty::UintTy;
use hir_ty::{
    dummy_usize_const, static_lifetime, BoundVar, CallableSig, ConcreteConst, Const, ConstScalar,
    ConstValue, DebruijnIndex, FnPointer, FnSig, GenericArg, Lifetime, Mutability, PolyFnSig,
    Safety, Scalar,
    Substitution, Ty, TyVariableKind, VariableKind,
};

fn var(depth: u32, index: usize) -> Ty {
    Ty::BoundVar(BoundVar::new(DebruijnIndex::new(depth), index))
}

fn tys(v: Vec<Ty>) -> Substitution {
    Substitution::from_iter(v.into_iter().map(GenericArg::Ty).collect())
}

fn usize_ty() -> Ty {
    Ty::Scalar(Scalar::Uint(UintTy::Usize))
}

#[test]
fn params_and_return_are_kept_apart() {
    let sig = CallableSig::from_params_and_return(vec![usize_ty(), Ty::Str], Ty::Never, true);
    assert_eq!(sig.params(), &[usize_ty(), Ty::Str]);
    assert_eq!(sig.ret(), &Ty::Never);
    assert!(sig.is_varargs());

    let nullary = CallableSig::from_params_and_return(Vec::new(), usize_ty(), false);
    assert!(nullary.params().is_empty());
    assert_eq!(nullary.ret(), &usize_ty());
    assert!(!nullary.is_varargs());
}

#[test]
fn from_fn_ptr_lifts_the_types_out_of_the_pointer() {
    let ptr = FnPointer {
        num_binders: 1,
        sig: FnSig { safety: Safety::Unsafe, variadic: true },
        substitution: tys(vec![var(1, 0), var(2, 3), usize_ty()]),
    };
    let sig = CallableSig::from_fn_ptr(&ptr);
    assert_eq!(
        sig,
        CallableSig::from_params_and_return(vec![var(0, 0), var(1, 3)], usize_ty(), true)
    );
}

#[test]
fn to_fn_ptr_is_safe_and_declares_no_lifetimes() {
    let sig = CallableSig::from_params_and_return(vec![var(0, 0)], Ty::Never, true);
    assert_eq!(
        sig.to_fn_ptr(),
        FnPointer {
            num_binders: 0,
            sig: FnSig { safety: Safety::Safe, variadic: true },
            substitution: tys(vec![var(0, 0), Ty::Never]),
        }
    );
}

#[test]
fn fn_ptr_round_trip_loses_safety_only() {
    let ptr = FnPointer {
        num_binders: 0,
        sig: FnSig { safety: Safety::Unsafe, variadic: true },
        substitution: tys(vec![usize_ty(), Ty::Slice(Box::new(Ty::Str)), Ty::Never]),
    };
    let back = CallableSig::from_fn_ptr(&ptr).to_fn_ptr();
    assert_ne!(back, ptr);
    assert_eq!(
        back,
        FnPointer { sig: FnSig { safety: Safety::Safe, variadic: true }, ..ptr.clone() }
    );

    let safe = FnPointer { sig: FnSig { safety: Safety::Safe, variadic: false }, ..ptr };
    assert_eq!(CallableSig::from_fn_ptr(&safe).to_fn_ptr(), safe);
}

#[test]
fn fn_ptr_round_trip_lowers_free_variables() {
    let ptr = FnPointer {
        num_binders: 0,
        sig: FnSig { safety: Safety::Safe, variadic: false },
        substitution: tys(vec![var(1, 0)]),
    };
    let back = CallableSig::from_fn_ptr(&ptr).to_fn_ptr();
    assert_eq!(back.substitution, tys(vec![var(0, 0)]));
}

#[test]
fn poly_fn_sig_is_instantiated_type_by_type() {
    let sig = CallableSig::from_params_and_return(vec![var(0, 1), var(1, 0)], var(0, 0), false);
    let poly: PolyFnSig = PolyFnSig::new(
        vec![VariableKind::Ty(TyVariableKind::General), VariableKind::Ty(TyVariableKind::General)],
        sig,
    );
    let instance = poly.substitute(&tys(vec![usize_ty(), Ty::Str]));
    assert_eq!(
        instance,
        CallableSig::from_params_and_return(vec![Ty::Str, var(0, 0)], usize_ty(), false)
    );
    assert_eq!(instance.clone(), instance);
}

#[test]
fn static_lifetime_is_static() {
    assert_eq!(static_lifetime(), Lifetime::Static);
}

#[test]
fn dummy_usize_const_is_an_unknown_usize() {
    assert_eq!(
        dummy_usize_const(),
        Const {
            ty: usize_ty(),
            value: ConstValue::Concrete(ConcreteConst { interned: ConstScalar::Unknown }),
        }
    );
}

#[test]
fn a_pointer_that_names_its_own_lifetimes_has_no_signature() {
    let own = Lifetime::BoundVar(BoundVar::new(DebruijnIndex::innermost(), 0));
    let ptr = FnPointer {
        num_binders: 1,
        sig: FnSig { safety: Safety::Safe, variadic: false },
        substitution: tys(vec![Ty::Ref(Mutability::Not, own, Box::new(Ty::Str)), usize_ty()]),
    };
    assert_eq!(ptr.substitution.shifted_out_to(DebruijnIndex::one()), None);

    let erased = FnPointer {
        substitution: tys(vec![
            Ty::Ref(Mutability::Not, Lifetime::Erased, Box::new(Ty::Str)),
            usize_ty(),
        ]),
        ..ptr
    };
    assert_eq!(
        CallableSig::from_fn_ptr(&erased).params(),
        &[Ty::Ref(Mutability::Not, Lifetime::Erased, Box::new(Ty::Str))]
    );
}
