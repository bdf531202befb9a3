//! Canonical forms for terms that hold unknown types: each occurrence of the
//! error marker becomes a variable of its own, bound by the canonical form.

use vstd::prelude::*;
use crate::binders::{type_kinds_in_root, Canonical, CanonicalVarKind, VariableKind};
use crate::index::{BoundVar, BoundVarView, DebruijnIndex, TyVariableKind, UniverseIndex};
use crate::shift::{arg_span, args_span, const_span, lemma_args_span_index, ty_span};
use crate::term::{same_kinds, Fold};
use crate::ty::{arg_view, args_view, Const, ConstView, FnPointer, FnPointerView, GenericArg,
    GenericArgView, Substitution, Ty, TyView};

verus! {

// ---------------------------------------------------------------------------
// The model

/// The number of occurrences of the error marker in `t`.
pub open spec fn ty_errors(t: TyView) -> nat
    decreases t,
{
    match t {
        TyView::Apply(_, s) => args_errors(s),
        TyView::Array(elem, len) => ty_errors(*elem) + const_errors(*len),
        TyView::Slice(elem) => ty_errors(*elem),
        TyView::Raw(_, pointee) => ty_errors(*pointee),
        TyView::Ref(_, _, pointee) => ty_errors(*pointee),
        TyView::Function(f) => args_errors(f.substitution),
        TyView::Error => 1,
        _ => 0,
    }
}

pub open spec fn const_errors(c: ConstView) -> nat
    decreases c,
{
    ty_errors(c.ty)
}

pub open spec fn arg_errors(a: GenericArgView) -> nat
    decreases a,
{
    match a {
        GenericArgView::Ty(t) => ty_errors(t),
        GenericArgView::Lifetime(_) => 0,
        GenericArgView::Const(c) => const_errors(c),
    }
}

pub open spec fn args_errors(s: Seq<GenericArgView>) -> nat
    decreases s,
{
    if s.len() == 0 {
        0
    } else {
        args_errors(s.drop_last()) + arg_errors(s.last())
    }
}

/// The type `t`, found below `depth` binders, with its occurrences of the
/// error marker, taken from left to right, replaced by the variables at the
/// positions `next`, `next + 1`, .. of the binder just outside those `depth`
/// binders.
pub open spec fn ty_replace_errors(t: TyView, next: nat, depth: nat) -> TyView
    decreases t,
{
    match t {
        TyView::Apply(ctor, s) => TyView::Apply(ctor, args_replace_errors(s, next, depth)),
        TyView::Array(elem, len) => TyView::Array(
            Box::new(ty_replace_errors(*elem, next, depth)),
            Box::new(const_replace_errors(*len, next + ty_errors(*elem), depth)),
        ),
        TyView::Slice(elem) => TyView::Slice(Box::new(ty_replace_errors(*elem, next, depth))),
        TyView::Raw(m, pointee) => TyView::Raw(
            m,
            Box::new(ty_replace_errors(*pointee, next, depth)),
        ),
        TyView::Ref(m, l, pointee) => TyView::Ref(
            m,
            l,
            Box::new(ty_replace_errors(*pointee, next, depth)),
        ),
        TyView::Function(f) => TyView::Function(
            FnPointerView {
                num_binders: f.num_binders,
                sig: f.sig,
                substitution: args_replace_errors(f.substitution, next, depth + 1),
            },
        ),
        TyView::Error => TyView::BoundVar(BoundVarView { depth, index: next }),
        _ => t,
    }
}

pub open spec fn const_replace_errors(c: ConstView, next: nat, depth: nat) -> ConstView
    decreases c,
{
    ConstView { ty: ty_replace_errors(c.ty, next, depth), value: c.value }
}

pub open spec fn arg_replace_errors(a: GenericArgView, next: nat, depth: nat) -> GenericArgView
    decreases a,
{
    match a {
        GenericArgView::Ty(t) => GenericArgView::Ty(ty_replace_errors(t, next, depth)),
        GenericArgView::Lifetime(_) => a,
        GenericArgView::Const(c) => GenericArgView::Const(const_replace_errors(c, next, depth)),
    }
}

/// Each argument takes its variables after those of the arguments to its
/// left.
pub open spec fn args_replace_errors(s: Seq<GenericArgView>, next: nat, depth: nat) -> Seq<
    GenericArgView,
>
    decreases s,
{
    Seq::new(
        s.len(),
        |i: int|
            if 0 <= i < s.len() {
                arg_replace_errors(s[i], next + args_errors(s.take(i)), depth)
            } else {
                arbitrary()
            },
    )
}

/// The type `t` with its occurrences of the error marker, taken from left
/// to right, replaced by the types at the positions `next`, `next + 1`, ..
/// of `fill`.
pub open spec fn ty_fill_errors(t: TyView, fill: Seq<TyView>, next: nat) -> TyView
    decreases t,
{
    match t {
        TyView::Apply(ctor, s) => TyView::Apply(ctor, args_fill_errors(s, fill, next)),
        TyView::Array(elem, len) => TyView::Array(
            Box::new(ty_fill_errors(*elem, fill, next)),
            Box::new(const_fill_errors(*len, fill, next + ty_errors(*elem))),
        ),
        TyView::Slice(elem) => TyView::Slice(Box::new(ty_fill_errors(*elem, fill, next))),
        TyView::Raw(m, pointee) => TyView::Raw(m, Box::new(ty_fill_errors(*pointee, fill, next))),
        TyView::Ref(m, l, pointee) => TyView::Ref(
            m,
            l,
            Box::new(ty_fill_errors(*pointee, fill, next)),
        ),
        TyView::Function(f) => TyView::Function(
            FnPointerView {
                num_binders: f.num_binders,
                sig: f.sig,
                substitution: args_fill_errors(f.substitution, fill, next),
            },
        ),
        TyView::Error => fill[next as int],
        _ => t,
    }
}

pub open spec fn const_fill_errors(c: ConstView, fill: Seq<TyView>, next: nat) -> ConstView
    decreases c,
{
    ConstView { ty: ty_fill_errors(c.ty, fill, next), value: c.value }
}

pub open spec fn arg_fill_errors(a: GenericArgView, fill: Seq<TyView>, next: nat) -> GenericArgView
    decreases a,
{
    match a {
        GenericArgView::Ty(t) => GenericArgView::Ty(ty_fill_errors(t, fill, next)),
        GenericArgView::Lifetime(_) => a,
        GenericArgView::Const(c) => GenericArgView::Const(const_fill_errors(c, fill, next)),
    }
}

pub open spec fn args_fill_errors(s: Seq<GenericArgView>, fill: Seq<TyView>, next: nat) -> Seq<
    GenericArgView,
>
    decreases s,
{
    Seq::new(
        s.len(),
        |i: int|
            if 0 <= i < s.len() {
                arg_fill_errors(s[i], fill, next + args_errors(s.take(i)))
            } else {
                arbitrary()
            },
    )
}

/// Whether a type variable that is still being inferred occurs in `t`.
pub open spec fn ty_has_inference_var(t: TyView) -> bool
    decreases t,
{
    match t {
        TyView::Apply(_, s) => args_have_inference_var(s),
        TyView::Array(elem, len) => ty_has_inference_var(*elem) || ty_has_inference_var(len.ty),
        TyView::Slice(elem) => ty_has_inference_var(*elem),
        TyView::Raw(_, pointee) => ty_has_inference_var(*pointee),
        TyView::Ref(_, _, pointee) => ty_has_inference_var(*pointee),
        TyView::Function(f) => args_have_inference_var(f.substitution),
        TyView::InferenceVar(_, _) => true,
        _ => false,
    }
}

pub open spec fn arg_has_inference_var(a: GenericArgView) -> bool
    decreases a,
{
    match a {
        GenericArgView::Ty(t) => ty_has_inference_var(t),
        GenericArgView::Lifetime(_) => false,
        GenericArgView::Const(c) => ty_has_inference_var(c.ty),
    }
}

pub open spec fn args_have_inference_var(s: Seq<GenericArgView>) -> bool
    decreases s,
{
    exists|i: int| 0 <= i < s.len() && arg_has_inference_var(#[trigger] s[i])
}

/// The arguments up to one position hold no more errors than all of them.
pub proof fn lemma_args_errors_take(s: Seq<GenericArgView>, i: int)
    requires
        0 <= i < s.len(),
    ensures
        args_errors(s.take(i + 1)) == args_errors(s.take(i)) + arg_errors(s[i]),
        args_errors(s.take(i + 1)) <= args_errors(s),
    decreases s.len() - i,
{
    assert(s.take(i + 1).drop_last() =~= s.take(i));
    assert(s.take(i + 1).last() == s[i]);
    if i + 1 < s.len() {
        lemma_args_errors_take(s, i + 1);
    } else {
        assert(s.take(i + 1) =~= s);
    }
}

// ---------------------------------------------------------------------------
// The traversal
//
// Each function returns the rewritten term, the position that the next
// variable takes, and whether a type variable under inference was met.

fn ty_errors_replaced(t: &Ty, next: usize, depth: u32) -> (r: (Ty, usize, bool))
    requires
        next + ty_errors(t@) <= usize::MAX,
        depth + ty_span(t@) <= u32::MAX,
    ensures
        r.0@ == ty_replace_errors(t@, next as nat, depth as nat),
        r.1 == next + ty_errors(t@),
        r.2 == ty_has_inference_var(t@),
    decreases *t,
{
    match t {
        Ty::Apply(ctor, s) => {
            let (args, n, seen) = args_errors_replaced(&s.args, next, depth);
            (Ty::Apply(*ctor, Substitution { args }), n, seen)
        },
        Ty::Scalar(s) => (Ty::Scalar(*s), next, false),
        Ty::Array(elem, len) => {
            proof {
                assert(len@.ty == len.ty@);
                assert(const_errors(len@) == ty_errors(len.ty@));
                assert(const_span(len@) >= ty_span(len.ty@));
            }
            let (e, n1, seen1) = ty_errors_replaced(elem, next, depth);
            let (ty, n2, seen2) = ty_errors_replaced(&len.ty, n1, depth);
            let n = Const { ty, value: len.value };
            assert(n@ == const_replace_errors(len@, n1 as nat, depth as nat));
            (Ty::Array(Box::new(e), Box::new(n)), n2, seen1 || seen2)
        },
        Ty::Slice(elem) => {
            let (e, n, seen) = ty_errors_replaced(elem, next, depth);
            (Ty::Slice(Box::new(e)), n, seen)
        },
        Ty::Raw(m, pointee) => {
            let (p, n, seen) = ty_errors_replaced(pointee, next, depth);
            (Ty::Raw(*m, Box::new(p)), n, seen)
        },
        Ty::Ref(m, l, pointee) => {
            let (p, n, seen) = ty_errors_replaced(pointee, next, depth);
            (Ty::Ref(*m, *l, Box::new(p)), n, seen)
        },
        Ty::Str => (Ty::Str, next, false),
        Ty::Never => (Ty::Never, next, false),
        Ty::Foreign(id) => (Ty::Foreign(*id), next, false),
        Ty::Error => (
            Ty::BoundVar(BoundVar { debruijn: DebruijnIndex { depth }, index: next }),
            next + 1,
            false,
        ),
        Ty::Placeholder(p) => (Ty::Placeholder(*p), next, false),
        Ty::Function(f) => {
            let (args, n, seen) = args_errors_replaced(&f.substitution.args, next, depth + 1);
            (
                Ty::Function(
                    FnPointer {
                        num_binders: f.num_binders,
                        sig: f.sig,
                        substitution: Substitution { args },
                    },
                ),
                n,
                seen,
            )
        },
        Ty::BoundVar(v) => (Ty::BoundVar(*v), next, false),
        Ty::InferenceVar(v, k) => (Ty::InferenceVar(*v, *k), next, true),
    }
}

fn arg_errors_replaced(a: &GenericArg, next: usize, depth: u32) -> (r: (GenericArg, usize, bool))
    requires
        next + arg_errors(a@) <= usize::MAX,
        depth + arg_span(a@) <= u32::MAX,
    ensures
        r.0@ == arg_replace_errors(a@, next as nat, depth as nat),
        r.1 == next + arg_errors(a@),
        r.2 == arg_has_inference_var(a@),
    decreases *a,
{
    match a {
        GenericArg::Ty(t) => {
            let (x, n, seen) = ty_errors_replaced(t, next, depth);
            (GenericArg::Ty(x), n, seen)
        },
        GenericArg::Lifetime(l) => (GenericArg::Lifetime(*l), next, false),
        GenericArg::Const(c) => {
            proof {
                assert(c@.ty == c.ty@);
                assert(const_errors(c@) == ty_errors(c.ty@));
                assert(const_span(c@) >= ty_span(c.ty@));
            }
            let (ty, n, seen) = ty_errors_replaced(&c.ty, next, depth);
            let k = Const { ty, value: c.value };
            assert(k@ == const_replace_errors(c@, next as nat, depth as nat));
            (GenericArg::Const(k), n, seen)
        },
    }
}

fn args_errors_replaced(v: &Vec<GenericArg>, next: usize, depth: u32) -> (r: (
    Vec<GenericArg>,
    usize,
    bool,
))
    requires
        next + args_errors(args_view(*v)) <= usize::MAX,
        depth + args_span(args_view(*v)) <= u32::MAX,
    ensures
        args_view(r.0) == args_replace_errors(args_view(*v), next as nat, depth as nat),
        r.1 == next + args_errors(args_view(*v)),
        r.2 == args_have_inference_var(args_view(*v)),
    decreases *v,
{
    let ghost s = args_view(*v);
    let mut w: Vec<GenericArg> = Vec::new();
    let mut cur: usize = next;
    let mut seen: bool = false;
    let mut i: usize = 0;
    while i < v.len()
        invariant
            i <= v.len(),
            w.len() == i,
            s == args_view(*v),
            next + args_errors(s) <= usize::MAX,
            depth + args_span(s) <= u32::MAX,
            cur == next + args_errors(s.take(i as int)),
            seen == (exists|j: int| 0 <= j < i && arg_has_inference_var(#[trigger] s[j])),
            forall|j: int|
                0 <= j < i ==> arg_view(#[trigger] w[j]) == arg_replace_errors(
                    s[j],
                    next as nat + args_errors(s.take(j)),
                    depth as nat,
                ),
        decreases v.len() - i,
    {
        proof {
            lemma_args_span_index(s, i as int);
            lemma_args_errors_take(s, i as int);
            assert(s[i as int] == arg_view(v[i as int]));
        }
        let (a, n, f) = arg_errors_replaced(&v[i], cur, depth);
        w.push(a);
        cur = n;
        seen = seen || f;
        i += 1;
    }
    proof {
        assert(s.take(v.len() as int) =~= s);
        assert(args_view(w) =~= args_replace_errors(s, next as nat, depth as nat));
    }
    (w, cur, seen)
}

fn ty_errors_from(t: &Ty, acc: usize) -> (r: Option<usize>)
    ensures
        r == (if acc + ty_errors(t@) <= usize::MAX {
            Some((acc + ty_errors(t@)) as usize)
        } else {
            None
        }),
    decreases *t,
{
    match t {
        Ty::Apply(_, s) => args_errors_from(&s.args, acc),
        Ty::Array(elem, len) => {
            proof {
                assert(len@.ty == len.ty@);
                assert(const_errors(len@) == ty_errors(len.ty@));
            }
            match ty_errors_from(elem, acc) {
                Some(n) => ty_errors_from(&len.ty, n),
                None => None,
            }
        },
        Ty::Slice(elem) => ty_errors_from(elem, acc),
        Ty::Raw(_, pointee) => ty_errors_from(pointee, acc),
        Ty::Ref(_, _, pointee) => ty_errors_from(pointee, acc),
        Ty::Function(f) => args_errors_from(&f.substitution.args, acc),
        Ty::Error => if acc < usize::MAX {
            Some(acc + 1)
        } else {
            None
        },
        _ => Some(acc),
    }
}

fn arg_errors_from(a: &GenericArg, acc: usize) -> (r: Option<usize>)
    ensures
        r == (if acc + arg_errors(a@) <= usize::MAX {
            Some((acc + arg_errors(a@)) as usize)
        } else {
            None
        }),
    decreases *a,
{
    match a {
        GenericArg::Ty(t) => ty_errors_from(t, acc),
        GenericArg::Lifetime(_) => Some(acc),
        GenericArg::Const(c) => {
            proof {
                assert(c@.ty == c.ty@);
                assert(const_errors(c@) == ty_errors(c.ty@));
            }
            ty_errors_from(&c.ty, acc)
        },
    }
}

fn args_errors_from(v: &Vec<GenericArg>, acc: usize) -> (r: Option<usize>)
    ensures
        r == (if acc + args_errors(args_view(*v)) <= usize::MAX {
            Some((acc + args_errors(args_view(*v))) as usize)
        } else {
            None
        }),
    decreases *v,
{
    let ghost s = args_view(*v);
    let mut cur: usize = acc;
    let mut i: usize = 0;
    while i < v.len()
        invariant
            i <= v.len(),
            s == args_view(*v),
            cur == acc + args_errors(s.take(i as int)),
        decreases v.len() - i,
    {
        proof {
            lemma_args_errors_take(s, i as int);
            assert(s[i as int] == arg_view(v[i as int]));
        }
        match arg_errors_from(&v[i], cur) {
            Some(n) => {
                cur = n;
            },
            None => {
                return None;
            },
        }
        i += 1;
    }
    proof {
        assert(s.take(v.len() as int) =~= s);
    }
    Some(cur)
}

impl Ty {
    /// The number of error markers in the type, or `None` where the machine
    /// cannot count that far.
    pub fn error_count(&self) -> (r: Option<usize>)
        ensures
            r == (if ty_errors(self@) <= usize::MAX {
                Some(ty_errors(self@) as usize)
            } else {
                None
            }),
    {
        ty_errors_from(self, 0)
    }
}

/// What `replace_errors_with_variables` found and made.
pub struct ErrorsReplaced<T> {
    /// The canonical form: the value with a variable for each occurrence of
    /// the error marker, and one kind for each of those variables.
    pub canonical: Canonical<T>,
    /// Whether the value held a type variable that is still being inferred.
    /// Such a variable is left as it is; that it is there at all breaks what
    /// this operation expects of its callers.
    pub inference_var_met: bool,
}

/// The kinds of `n` general type variables.
pub open spec fn general_kinds(n: nat) -> Seq<TyVariableKind> {
    Seq::new(n, |i: int| TyVariableKind::General)
}

fn general_type_kinds(n: usize) -> (r: Vec<CanonicalVarKind>)
    ensures
        type_kinds_in_root(r@, general_kinds(n as nat)),
{
    let mut binders: Vec<CanonicalVarKind> = Vec::new();
    let mut i: usize = 0;
    while i < n
        invariant
            i <= n,
            type_kinds_in_root(binders@, general_kinds(i as nat)),
        decreases n - i,
    {
        binders.push(
            CanonicalVarKind::new(VariableKind::Ty(TyVariableKind::General), UniverseIndex::root()),
        );
        i += 1;
    }
    binders
}

/// Replacing errors turns types into types and leaves lifetimes and
/// constants what they are.
pub proof fn lemma_replace_errors_same_kinds(s: Seq<GenericArgView>, next: nat, depth: nat)
    ensures
        same_kinds(args_replace_errors(s, next, depth), s),
{
}

/// The value `v` with the occurrences of the error marker in its terms,
/// taken from left to right, replaced by the variables `0`, `1`, .. of a
/// binder just outside it.
pub open spec fn errors_replaced<T: Fold>(v: T::V) -> T::V {
    T::rebuilt(v, args_replace_errors(T::parts(v), 0, 0))
}

/// The number of occurrences of the error marker in the terms of `v`.
pub open spec fn errors<T: Fold>(v: T::V) -> nat {
    args_errors(T::parts(v))
}

/// The number of occurrences of the error marker in the terms of a value,
/// or `None` where the machine cannot count that far.
pub fn error_count_of<T: Fold>(t: &T) -> (r: Option<usize>)
    ensures
        r == (if errors::<T>(t@) <= usize::MAX {
            Some(errors::<T>(t@) as usize)
        } else {
            None
        }),
{
    let parts = t.to_parts();
    args_errors_from(&parts, 0)
}

/// As `replace_errors_with_variables`, and reports whether a type variable
/// under inference was met on the way.
pub fn replace_errors_recording<T: Fold>(t: T) -> (r: ErrorsReplaced<T>)
    requires
        args_span(T::parts(t@)) <= u32::MAX,
        errors::<T>(t@) <= usize::MAX,
    ensures
        r.canonical.value@ == errors_replaced::<T>(t@),
        type_kinds_in_root(r.canonical.binders@, general_kinds(errors::<T>(t@))),
        r.inference_var_met == args_have_inference_var(T::parts(t@)),
{
    let parts = t.to_parts();
    let (replaced, vars, seen) = args_errors_replaced(&parts, 0, 0);
    proof {
        lemma_replace_errors_same_kinds(T::parts(t@), 0, 0);
    }
    ErrorsReplaced {
        canonical: Canonical { value: t.with_parts(replaced), binders: general_type_kinds(vars) },
        inference_var_met: seen,
    }
}

/// The canonical form of a value that may hold unknown types: each
/// occurrence of the error marker, from left to right, becomes the variable
/// at position `0`, `1`, .. of the canonical binder, and the canonical form
/// declares one general type variable, in the root universe, for each.
/// Everything else in the value stays as it is.
pub fn replace_errors_with_variables<T: Fold>(t: T) -> (r: Canonical<T>)
    requires
        args_span(T::parts(t@)) <= u32::MAX,
        errors::<T>(t@) <= usize::MAX,
    ensures
        r.value@ == errors_replaced::<T>(t@),
        type_kinds_in_root(r.binders@, general_kinds(errors::<T>(t@))),
{
    replace_errors_recording(t).canonical
}

} // verus!
