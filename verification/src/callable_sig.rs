//! Function signatures as type inference sees them: the parameter types and
//! the return type in one flat sequence, without a binder of their own.

use vstd::prelude::*;
use vstd::slice::slice_subrange;
use crate::binders::Binders;
use crate::shift::{args_mention, args_shift, args_span, lemma_args_span_index, ty_shifted};
use crate::term::{same_kind, same_kinds, Fold};
use crate::ty::{arg_view, args_view, tys_view, FnPointer, FnPointerView, FnSig, GenericArg,
    GenericArgView, Safety, Substitution, Ty, TyView};

verus! {

/// A function signature: several parameter types and one return type.
#[derive(Debug, PartialEq, Eq, Hash)]
pub struct CallableSig {
    params_and_return: Vec<Ty>,
    is_varargs: bool,
}

/// A signature below the binder of its generic parameters.
pub type PolyFnSig = Binders<CallableSig>;

/// The model of a signature. The last type is the return type, so the
/// sequence of a signature is never empty.
pub struct CallableSigView {
    pub params_and_return: Seq<TyView>,
    pub is_varargs: bool,
}

impl View for CallableSig {
    type V = CallableSigView;

    closed spec fn view(&self) -> CallableSigView {
        CallableSigView {
            params_and_return: tys_view(self.params_and_return@),
            is_varargs: self.is_varargs,
        }
    }
}

/// Whether each of the arguments is a type.
pub open spec fn all_types(s: Seq<GenericArgView>) -> bool {
    forall|i: int| 0 <= i < s.len() ==> #[trigger] s[i] is Ty
}

/// The types that the arguments are, in order.
pub open spec fn arg_types(s: Seq<GenericArgView>) -> Seq<TyView> {
    Seq::new(s.len(), |i: int| s[i]->Ty_0)
}

/// The types as generic arguments, in order.
pub open spec fn type_args(s: Seq<TyView>) -> Seq<GenericArgView> {
    Seq::new(s.len(), |i: int| GenericArgView::Ty(s[i]))
}

/// The signature that a function pointer type stands for: its arguments,
/// lifted out of the binder of the pointer, and whether it is variadic. The
/// binder and the safety of the pointer are not part of a signature.
pub open spec fn sig_of_fn_ptr(f: FnPointerView) -> CallableSigView {
    CallableSigView {
        params_and_return: arg_types(args_shift(f.substitution, -1, 0)),
        is_varargs: f.sig.variadic,
    }
}

/// The function pointer type that a signature reads as: safe, with no
/// lifetime variables of its own, and with the types of the signature as
/// they stand.
pub open spec fn fn_ptr_of_sig(s: CallableSigView) -> FnPointerView {
    FnPointerView {
        num_binders: 0,
        sig: FnSig { safety: Safety::Safe, variadic: s.is_varargs },
        substitution: type_args(s.params_and_return),
    }
}

impl CallableSig {
    #[verifier::type_invariant]
    spec fn has_return_type(self) -> bool {
        self.params_and_return@.len() > 0
    }

    pub fn from_params_and_return(params: Vec<Ty>, ret: Ty, is_varargs: bool) -> (r: CallableSig)
        ensures
            r@ == (CallableSigView {
                params_and_return: tys_view(params@).push(ret@),
                is_varargs,
            }),
    {
        let mut params = params;
        let ghost before = params@;
        params.push(ret);
        assert(tys_view(params@) =~= tys_view(before).push(ret@));
        CallableSig { params_and_return: params, is_varargs }
    }

    /// The signature of a function pointer type. The pointer holds at least
    /// its return type, holds types only, and none of them names a lifetime
    /// variable that the pointer itself declares.
    pub fn from_fn_ptr(fn_ptr: &FnPointer) -> (r: CallableSig)
        requires
            fn_ptr@.substitution.len() > 0,
            all_types(fn_ptr@.substitution),
            !args_mention(fn_ptr@.substitution, 0, 1),
            args_span(fn_ptr@.substitution) <= u32::MAX,
        ensures
            r@ == sig_of_fn_ptr(fn_ptr@),
    {
        let args = &fn_ptr.substitution.args;
        let ghost s = args_view(*args);
        let mut tys: Vec<Ty> = Vec::new();
        let mut i: usize = 0;
        while i < args.len()
            invariant
                i <= args.len(),
                tys@.len() == i,
                s == args_view(*args),
                all_types(s),
                !args_mention(s, 0, 1),
                args_span(s) <= u32::MAX,
                forall|j: int|
                    0 <= j < i ==> (#[trigger] tys@[j])@ == args_shift(s, -1, 0)[j]->Ty_0,
            decreases args.len() - i,
        {
            proof {
                lemma_args_span_index(s, i as int);
                assert(s[i as int] == arg_view(args[i as int]));
                assert(s[i as int] is Ty);
            }
            match &args[i] {
                GenericArg::Ty(t) => match ty_shifted(t, true, 1, 0) {
                    Some(x) => {
                        tys.push(x);
                    },
                    None => {
                        assert(false);
                    },
                },
                _ => {
                    assert(false);
                },
            }
            i += 1;
        }
        assert(tys_view(tys@) =~= arg_types(args_shift(s, -1, 0)));
        CallableSig { params_and_return: tys, is_varargs: fn_ptr.sig.variadic }
    }

    /// The signature as a function pointer type. The result is always safe
    /// and declares no lifetime variables: a signature keeps neither.
    pub fn to_fn_ptr(&self) -> (r: FnPointer)
        ensures
            r@ == fn_ptr_of_sig(self@),
    {
        let mut args: Vec<GenericArg> = Vec::new();
        let mut i: usize = 0;
        while i < self.params_and_return.len()
            invariant
                i <= self.params_and_return.len(),
                args.len() == i,
                forall|j: int|
                    0 <= j < i ==> arg_view(#[trigger] args[j]) == GenericArgView::Ty(
                        self.params_and_return@[j]@,
                    ),
            decreases self.params_and_return.len() - i,
        {
            args.push(GenericArg::Ty(self.params_and_return[i].clone()));
            i += 1;
        }
        assert(args_view(args) =~= type_args(tys_view(self.params_and_return@)));
        FnPointer {
            num_binders: 0,
            sig: FnSig { safety: Safety::Safe, variadic: self.is_varargs },
            substitution: Substitution { args },
        }
    }

    /// The parameter types.
    pub fn params(&self) -> (r: &[Ty])
        ensures
            self@.params_and_return.len() > 0,
            tys_view(r@) == self@.params_and_return.drop_last(),
    {
        proof {
            use_type_invariant(self);
        }
        let n = self.params_and_return.len() - 1;
        let r = slice_subrange(self.params_and_return.as_slice(), 0, n);
        assert(tys_view(r@) =~= tys_view(self.params_and_return@).drop_last());
        r
    }

    /// The return type.
    pub fn ret(&self) -> (r: &Ty)
        ensures
            self@.params_and_return.len() > 0,
            r@ == self@.params_and_return.last(),
    {
        proof {
            use_type_invariant(self);
        }
        &self.params_and_return[self.params_and_return.len() - 1]
    }

    pub fn is_varargs(&self) -> (b: bool)
        ensures
            b == self@.is_varargs,
    {
        self.is_varargs
    }
}

impl Clone for CallableSig {
    fn clone(&self) -> (r: CallableSig)
        ensures
            r@ == self@,
    {
        proof {
            use_type_invariant(self);
        }
        let mut tys: Vec<Ty> = Vec::new();
        let mut i: usize = 0;
        while i < self.params_and_return.len()
            invariant
                i <= self.params_and_return.len(),
                tys@.len() == i,
                forall|j: int| 0 <= j < i ==> (#[trigger] tys@[j])@ == self.params_and_return@[j]@,
            decreases self.params_and_return.len() - i,
        {
            tys.push(self.params_and_return[i].clone());
            i += 1;
        }
        assert(tys_view(tys@) =~= tys_view(self.params_and_return@));
        CallableSig { params_and_return: tys, is_varargs: self.is_varargs }
    }
}

/// A signature holds its types, the return type last.
impl Fold for CallableSig {
    open spec fn parts(v: CallableSigView) -> Seq<GenericArgView> {
        type_args(v.params_and_return)
    }

    open spec fn rebuilt(v: CallableSigView, parts: Seq<GenericArgView>) -> CallableSigView {
        CallableSigView { params_and_return: arg_types(parts), is_varargs: v.is_varargs }
    }

    proof fn lemma_parts_rebuilt(v: CallableSigView, parts: Seq<GenericArgView>) {
        assert forall|i: int| 0 <= i < parts.len() implies #[trigger] parts[i] is Ty by {
            assert(same_kind(parts[i], Self::parts(v)[i]));
        }
        assert(type_args(arg_types(parts)) =~= parts);
    }

    proof fn lemma_rebuilt_parts(v: CallableSigView) {
        assert(arg_types(type_args(v.params_and_return)) =~= v.params_and_return);
    }

    proof fn lemma_rebuilt_twice(
        v: CallableSigView,
        first: Seq<GenericArgView>,
        parts: Seq<GenericArgView>,
    ) {
    }

    fn to_parts(&self) -> (r: Vec<GenericArg>) {
        self.to_fn_ptr().substitution.args
    }

    fn with_parts(&self, parts: Vec<GenericArg>) -> (r: CallableSig) {
        proof {
            use_type_invariant(self);
        }
        let ghost s = args_view(parts);
        let mut tys: Vec<Ty> = Vec::new();
        let mut i: usize = 0;
        while i < parts.len()
            invariant
                i <= parts.len(),
                tys@.len() == i,
                s == args_view(parts),
                same_kinds(s, Self::parts(self@)),
                forall|j: int| 0 <= j < i ==> (#[trigger] tys@[j])@ == s[j]->Ty_0,
            decreases parts.len() - i,
        {
            proof {
                assert(same_kind(s[i as int], Self::parts(self@)[i as int]));
                assert(s[i as int] == arg_view(parts[i as int]));
            }
            match &parts[i] {
                GenericArg::Ty(t) => {
                    tys.push(t.clone());
                },
                _ => {
                    assert(false);
                },
            }
            i += 1;
        }
        assert(tys_view(tys@) =~= arg_types(s));
        CallableSig { params_and_return: tys, is_varargs: self.is_varargs }
    }
}

} // verus!
