//! Rewriting terms with a function of the caller: the free type variables
//! of a term, or each of its types from the leaves up.

use vstd::prelude::*;
use crate::index::{BoundVar, DebruijnIndex};
use crate::shift::{arg_span, args_span, const_span, lemma_args_span_index, ty_span};
use crate::term::{same_kind, same_kinds, Fold};
use crate::ty::{arg_view, args_view, Const, FnPointer, GenericArg, Substitution, Ty};

verus! {

// ---------------------------------------------------------------------------
// Free type variables

/// The variable as it is handed to the caller's function: numbered from
/// outside the `outer` binders it was found below.
pub open spec fn free_var(v: BoundVar, outer: u32) -> BoundVar {
    BoundVar { debruijn: DebruijnIndex { depth: (v.debruijn.depth - outer) as u32 }, index: v.index }
}

/// Whether `r` is `t`, found below `outer` binders, with each type variable
/// that is free there replaced by what `f` returned for it and for the
/// number of binders it was found below, and with all else as it was.
pub open spec fn ty_free_vars_folded<F: Fn(BoundVar, DebruijnIndex) -> Ty>(
    f: F,
    t: Ty,
    outer: u32,
    r: Ty,
) -> bool
    decreases t,
{
    match t {
        Ty::Apply(ctor, s) => r matches Ty::Apply(ctor2, s2) && ctor2 == ctor
            && args_free_vars_folded(f, s.args, outer, s2.args),
        Ty::Array(elem, len) => r matches Ty::Array(elem2, len2) && ty_free_vars_folded(
            f,
            *elem,
            outer,
            *elem2,
        ) && const_free_vars_folded(f, *len, outer, *len2),
        Ty::Slice(elem) => r matches Ty::Slice(elem2) && ty_free_vars_folded(
            f,
            *elem,
            outer,
            *elem2,
        ),
        Ty::Raw(m, pointee) => r matches Ty::Raw(m2, pointee2) && m2 == m && ty_free_vars_folded(
            f,
            *pointee,
            outer,
            *pointee2,
        ),
        Ty::Ref(m, l, pointee) => r matches Ty::Ref(m2, l2, pointee2) && m2 == m && l2 == l
            && ty_free_vars_folded(f, *pointee, outer, *pointee2),
        Ty::Function(ptr) => r matches Ty::Function(folded) && folded.num_binders
            == ptr.num_binders && folded.sig == ptr.sig && args_free_vars_folded(
            f,
            ptr.substitution.args,
            (outer + 1) as u32,
            folded.substitution.args,
        ),
        Ty::BoundVar(v) => if v.debruijn.depth >= outer {
            call_ensures(f, (free_var(v, outer), DebruijnIndex { depth: outer }), r)
        } else {
            r == t
        },
        _ => r == t,
    }
}

pub open spec fn const_free_vars_folded<F: Fn(BoundVar, DebruijnIndex) -> Ty>(
    f: F,
    c: Const,
    outer: u32,
    r: Const,
) -> bool
    decreases c,
{
    r.value == c.value && ty_free_vars_folded(f, c.ty, outer, r.ty)
}

pub open spec fn arg_free_vars_folded<F: Fn(BoundVar, DebruijnIndex) -> Ty>(
    f: F,
    a: GenericArg,
    outer: u32,
    r: GenericArg,
) -> bool
    decreases a,
{
    match a {
        GenericArg::Ty(t) => r matches GenericArg::Ty(t2) && ty_free_vars_folded(f, t, outer, t2),
        GenericArg::Lifetime(l) => r == a,
        GenericArg::Const(c) => r matches GenericArg::Const(c2) && const_free_vars_folded(
            f,
            c,
            outer,
            c2,
        ),
    }
}

pub open spec fn args_free_vars_folded<F: Fn(BoundVar, DebruijnIndex) -> Ty>(
    f: F,
    v: Vec<GenericArg>,
    outer: u32,
    r: Vec<GenericArg>,
) -> bool
    decreases v,
{
    r.len() == v.len() && forall|i: int|
        0 <= i < v.len() ==> arg_free_vars_folded(f, #[trigger] v[i], outer, r[i])
}

fn ty_fold_free_vars<F: Fn(BoundVar, DebruijnIndex) -> Ty>(t: &Ty, f: &F, outer: u32) -> (r: Ty)
    requires
        forall|v: BoundVar, d: DebruijnIndex| call_requires(*f, (v, d)),
        outer + ty_span(t@) <= u32::MAX,
    ensures
        ty_free_vars_folded(*f, *t, outer, r),
    decreases *t,
{
    match t {
        Ty::Apply(ctor, s) => Ty::Apply(
            *ctor,
            Substitution { args: args_fold_free_vars(&s.args, f, outer) },
        ),
        Ty::Scalar(s) => Ty::Scalar(*s),
        Ty::Array(elem, len) => {
            proof {
                assert(len@.ty == len.ty@);
                assert(const_span(len@) >= ty_span(len.ty@));
            }
            let e = ty_fold_free_vars(elem, f, outer);
            let n = Const { ty: ty_fold_free_vars(&len.ty, f, outer), value: len.value };
            assert(const_free_vars_folded(*f, **len, outer, n));
            Ty::Array(Box::new(e), Box::new(n))
        },
        Ty::Slice(elem) => Ty::Slice(Box::new(ty_fold_free_vars(elem, f, outer))),
        Ty::Raw(m, pointee) => Ty::Raw(*m, Box::new(ty_fold_free_vars(pointee, f, outer))),
        Ty::Ref(m, l, pointee) => Ty::Ref(*m, *l, Box::new(ty_fold_free_vars(pointee, f, outer))),
        Ty::Str => Ty::Str,
        Ty::Never => Ty::Never,
        Ty::Foreign(id) => Ty::Foreign(*id),
        Ty::Error => Ty::Error,
        Ty::Placeholder(p) => Ty::Placeholder(*p),
        Ty::Function(p) => Ty::Function(
            FnPointer {
                num_binders: p.num_binders,
                sig: p.sig,
                substitution: Substitution {
                    args: args_fold_free_vars(&p.substitution.args, f, outer + 1),
                },
            },
        ),
        Ty::BoundVar(v) => {
            if v.debruijn.depth >= outer {
                f(
                    BoundVar {
                        debruijn: DebruijnIndex { depth: v.debruijn.depth - outer },
                        index: v.index,
                    },
                    DebruijnIndex { depth: outer },
                )
            } else {
                Ty::BoundVar(*v)
            }
        },
        Ty::InferenceVar(v, k) => Ty::InferenceVar(*v, *k),
    }
}

fn arg_fold_free_vars<F: Fn(BoundVar, DebruijnIndex) -> Ty>(a: &GenericArg, f: &F, outer: u32) -> (r:
    GenericArg)
    requires
        forall|v: BoundVar, d: DebruijnIndex| call_requires(*f, (v, d)),
        outer + arg_span(a@) <= u32::MAX,
    ensures
        arg_free_vars_folded(*f, *a, outer, r),
    decreases *a,
{
    match a {
        GenericArg::Ty(t) => GenericArg::Ty(ty_fold_free_vars(t, f, outer)),
        GenericArg::Lifetime(l) => GenericArg::Lifetime(*l),
        GenericArg::Const(c) => {
            proof {
                assert(c@.ty == c.ty@);
                assert(const_span(c@) >= ty_span(c.ty@));
            }
            let k = Const { ty: ty_fold_free_vars(&c.ty, f, outer), value: c.value };
            assert(const_free_vars_folded(*f, *c, outer, k));
            GenericArg::Const(k)
        },
    }
}

fn args_fold_free_vars<F: Fn(BoundVar, DebruijnIndex) -> Ty>(
    v: &Vec<GenericArg>,
    f: &F,
    outer: u32,
) -> (r: Vec<GenericArg>)
    requires
        forall|v: BoundVar, d: DebruijnIndex| call_requires(*f, (v, d)),
        outer + args_span(args_view(*v)) <= u32::MAX,
    ensures
        args_free_vars_folded(*f, *v, outer, r),
    decreases *v,
{
    let mut w: Vec<GenericArg> = Vec::new();
    let mut i: usize = 0;
    while i < v.len()
        invariant
            i <= v.len(),
            w.len() == i,
            forall|v: BoundVar, d: DebruijnIndex| call_requires(*f, (v, d)),
            outer + args_span(args_view(*v)) <= u32::MAX,
            forall|j: int| 0 <= j < i ==> arg_free_vars_folded(*f, #[trigger] v[j], outer, w[j]),
        decreases v.len() - i,
    {
        proof {
            lemma_args_span_index(args_view(*v), i as int);
            assert(args_view(*v)[i as int] == arg_view(v[i as int]));
        }
        w.push(arg_fold_free_vars(&v[i], f, outer));
        i += 1;
    }
    w
}

/// A rewriting of free type variables turns types into types and leaves
/// lifetimes and constants what they are.
pub proof fn lemma_free_vars_folded_kinds<F: Fn(BoundVar, DebruijnIndex) -> Ty>(
    f: F,
    p: Vec<GenericArg>,
    outer: u32,
    q: Vec<GenericArg>,
)
    requires
        args_free_vars_folded(f, p, outer, q),
    ensures
        same_kinds(args_view(q), args_view(p)),
{
    assert forall|i: int| 0 <= i < p.len() implies same_kind(
        #[trigger] args_view(q)[i],
        args_view(p)[i],
    ) by {
        assert(arg_free_vars_folded(f, p[i], outer, q[i]));
    }
}

/// Whether `r` is `v` with each free type variable of its terms replaced
/// by what `f` returned for it, and with all else as it was.
pub open spec fn free_vars_folded<T: Fold, F: Fn(BoundVar, DebruijnIndex) -> Ty>(
    f: F,
    v: T::V,
    r: T::V,
) -> bool {
    exists|p: Vec<GenericArg>, q: Vec<GenericArg>|
        #![trigger args_free_vars_folded(f, p, 0, q)]
        args_view(p) == T::parts(v) && args_free_vars_folded(f, p, 0, q) && r == T::rebuilt(
            v,
            args_view(q),
        )
}

impl Ty {
    /// Rewrites the free type variables of the type. The function `f` is
    /// called once for each occurrence of a type variable that no binder
    /// inside the type declares, with the variable as numbered from outside
    /// those binders and with the number of those binders; what it returns
    /// takes the place of the occurrence.
    pub fn fold_free_vars<F: Fn(BoundVar, DebruijnIndex) -> Ty>(&self, f: &F) -> (r: Ty)
        requires
            forall|v: BoundVar, d: DebruijnIndex| call_requires(*f, (v, d)),
            ty_span(self@) <= u32::MAX,
        ensures
            ty_free_vars_folded(*f, *self, 0, r),
    {
        ty_fold_free_vars(self, f, 0)
    }
}

/// Rewrites the free type variables of a value. The function `f` is called
/// once for each occurrence of a type variable that no binder inside `t`
/// declares, with the variable as numbered from outside the binders it was
/// found below and with the number of those binders; what it returns takes
/// the place of the occurrence. It is called on nothing else, and all else
/// stays.
pub fn fold_free_vars<T: Fold, F: Fn(BoundVar, DebruijnIndex) -> Ty>(t: T, f: F) -> (r: T)
    requires
        forall|v: BoundVar, d: DebruijnIndex| call_requires(f, (v, d)),
        args_span(T::parts(t@)) <= u32::MAX,
    ensures
        free_vars_folded::<T, F>(f, t@, r@),
{
    let parts = t.to_parts();
    let folded = args_fold_free_vars(&parts, &f, 0);
    proof {
        lemma_free_vars_folded_kinds(f, parts, 0, folded);
    }
    t.with_parts(folded)
}

// ---------------------------------------------------------------------------
// Every type, from the leaves up

/// Whether `r` is what `f` returned for `t` once the types inside `t` were
/// rewritten in the same way, and for the number of binders that `t` was
/// found below.
pub open spec fn ty_tys_folded<F: Fn(Ty, DebruijnIndex) -> Ty>(f: F, t: Ty, outer: u32, r: Ty) -> bool
    decreases t, 1nat,
{
    exists|mid: Ty|
        ty_parts_folded(f, t, outer, mid) && #[trigger] call_ensures(
            f,
            (mid, DebruijnIndex { depth: outer }),
            r,
        )
}

/// Whether `r` is `t` with each type directly inside it rewritten by `f`,
/// from its own leaves up, and with all else as it was.
pub open spec fn ty_parts_folded<F: Fn(Ty, DebruijnIndex) -> Ty>(
    f: F,
    t: Ty,
    outer: u32,
    r: Ty,
) -> bool
    decreases t, 0nat,
{
    match t {
        Ty::Apply(ctor, s) => r matches Ty::Apply(ctor2, s2) && ctor2 == ctor && args_tys_folded(
            f,
            s.args,
            outer,
            s2.args,
        ),
        Ty::Array(elem, len) => r matches Ty::Array(elem2, len2) && ty_tys_folded(
            f,
            *elem,
            outer,
            *elem2,
        ) && const_tys_folded(f, *len, outer, *len2),
        Ty::Slice(elem) => r matches Ty::Slice(elem2) && ty_tys_folded(f, *elem, outer, *elem2),
        Ty::Raw(m, pointee) => r matches Ty::Raw(m2, pointee2) && m2 == m && ty_tys_folded(
            f,
            *pointee,
            outer,
            *pointee2,
        ),
        Ty::Ref(m, l, pointee) => r matches Ty::Ref(m2, l2, pointee2) && m2 == m && l2 == l
            && ty_tys_folded(f, *pointee, outer, *pointee2),
        Ty::Function(ptr) => r matches Ty::Function(folded) && folded.num_binders
            == ptr.num_binders && folded.sig == ptr.sig && args_tys_folded(
            f,
            ptr.substitution.args,
            (outer + 1) as u32,
            folded.substitution.args,
        ),
        _ => r == t,
    }
}

pub open spec fn const_tys_folded<F: Fn(Ty, DebruijnIndex) -> Ty>(
    f: F,
    c: Const,
    outer: u32,
    r: Const,
) -> bool
    decreases c, 2nat,
{
    r.value == c.value && ty_tys_folded(f, c.ty, outer, r.ty)
}

pub open spec fn arg_tys_folded<F: Fn(Ty, DebruijnIndex) -> Ty>(
    f: F,
    a: GenericArg,
    outer: u32,
    r: GenericArg,
) -> bool
    decreases a, 2nat,
{
    match a {
        GenericArg::Ty(t) => r matches GenericArg::Ty(t2) && ty_tys_folded(f, t, outer, t2),
        GenericArg::Lifetime(l) => r == a,
        GenericArg::Const(c) => r matches GenericArg::Const(c2) && const_tys_folded(
            f,
            c,
            outer,
            c2,
        ),
    }
}

pub open spec fn args_tys_folded<F: Fn(Ty, DebruijnIndex) -> Ty>(
    f: F,
    v: Vec<GenericArg>,
    outer: u32,
    r: Vec<GenericArg>,
) -> bool
    decreases v, 2nat,
{
    r.len() == v.len() && forall|i: int|
        0 <= i < v.len() ==> arg_tys_folded(f, #[trigger] v[i], outer, r[i])
}

fn ty_fold_tys<F: Fn(Ty, DebruijnIndex) -> Ty>(t: &Ty, f: &F, outer: u32) -> (r: Ty)
    requires
        forall|x: Ty, d: DebruijnIndex| call_requires(*f, (x, d)),
        outer + ty_span(t@) <= u32::MAX,
    ensures
        ty_tys_folded(*f, *t, outer, r),
    decreases *t,
{
    let mid = match t {
        Ty::Apply(ctor, s) => Ty::Apply(*ctor, Substitution { args: args_fold_tys(&s.args, f, outer) }),
        Ty::Scalar(s) => Ty::Scalar(*s),
        Ty::Array(elem, len) => {
            proof {
                assert(len@.ty == len.ty@);
                assert(const_span(len@) >= ty_span(len.ty@));
            }
            let e = ty_fold_tys(elem, f, outer);
            let n = Const { ty: ty_fold_tys(&len.ty, f, outer), value: len.value };
            assert(const_tys_folded(*f, **len, outer, n));
            Ty::Array(Box::new(e), Box::new(n))
        },
        Ty::Slice(elem) => Ty::Slice(Box::new(ty_fold_tys(elem, f, outer))),
        Ty::Raw(m, pointee) => Ty::Raw(*m, Box::new(ty_fold_tys(pointee, f, outer))),
        Ty::Ref(m, l, pointee) => Ty::Ref(*m, *l, Box::new(ty_fold_tys(pointee, f, outer))),
        Ty::Str => Ty::Str,
        Ty::Never => Ty::Never,
        Ty::Foreign(id) => Ty::Foreign(*id),
        Ty::Error => Ty::Error,
        Ty::Placeholder(p) => Ty::Placeholder(*p),
        Ty::Function(p) => Ty::Function(
            FnPointer {
                num_binders: p.num_binders,
                sig: p.sig,
                substitution: Substitution {
                    args: args_fold_tys(&p.substitution.args, f, outer + 1),
                },
            },
        ),
        Ty::BoundVar(v) => Ty::BoundVar(*v),
        Ty::InferenceVar(v, k) => Ty::InferenceVar(*v, *k),
    };
    let ghost m = mid;
    assert(ty_parts_folded(*f, *t, outer, m));
    let r = f(mid, DebruijnIndex { depth: outer });
    assert(call_ensures(*f, (m, DebruijnIndex { depth: outer }), r));
    r
}

fn arg_fold_tys<F: Fn(Ty, DebruijnIndex) -> Ty>(a: &GenericArg, f: &F, outer: u32) -> (r: GenericArg)
    requires
        forall|x: Ty, d: DebruijnIndex| call_requires(*f, (x, d)),
        outer + arg_span(a@) <= u32::MAX,
    ensures
        arg_tys_folded(*f, *a, outer, r),
    decreases *a,
{
    match a {
        GenericArg::Ty(t) => GenericArg::Ty(ty_fold_tys(t, f, outer)),
        GenericArg::Lifetime(l) => GenericArg::Lifetime(*l),
        GenericArg::Const(c) => {
            proof {
                assert(c@.ty == c.ty@);
                assert(const_span(c@) >= ty_span(c.ty@));
            }
            let k = Const { ty: ty_fold_tys(&c.ty, f, outer), value: c.value };
            assert(const_tys_folded(*f, *c, outer, k));
            GenericArg::Const(k)
        },
    }
}

fn args_fold_tys<F: Fn(Ty, DebruijnIndex) -> Ty>(v: &Vec<GenericArg>, f: &F, outer: u32) -> (r: Vec<
    GenericArg,
>)
    requires
        forall|x: Ty, d: DebruijnIndex| call_requires(*f, (x, d)),
        outer + args_span(args_view(*v)) <= u32::MAX,
    ensures
        args_tys_folded(*f, *v, outer, r),
    decreases *v,
{
    let mut w: Vec<GenericArg> = Vec::new();
    let mut i: usize = 0;
    while i < v.len()
        invariant
            i <= v.len(),
            w.len() == i,
            forall|x: Ty, d: DebruijnIndex| call_requires(*f, (x, d)),
            outer + args_span(args_view(*v)) <= u32::MAX,
            forall|j: int| 0 <= j < i ==> arg_tys_folded(*f, #[trigger] v[j], outer, w[j]),
        decreases v.len() - i,
    {
        proof {
            lemma_args_span_index(args_view(*v), i as int);
            assert(args_view(*v)[i as int] == arg_view(v[i as int]));
        }
        w.push(arg_fold_tys(&v[i], f, outer));
        i += 1;
    }
    w
}

/// A rewriting of types turns types into types and leaves lifetimes and
/// constants what they are.
pub proof fn lemma_tys_folded_kinds<F: Fn(Ty, DebruijnIndex) -> Ty>(
    f: F,
    p: Vec<GenericArg>,
    outer: u32,
    q: Vec<GenericArg>,
)
    requires
        args_tys_folded(f, p, outer, q),
    ensures
        same_kinds(args_view(q), args_view(p)),
{
    assert forall|i: int| 0 <= i < p.len() implies same_kind(
        #[trigger] args_view(q)[i],
        args_view(p)[i],
    ) by {
        assert(arg_tys_folded(f, p[i], outer, q[i]));
    }
}

/// Whether `r` is `v` with each type of its terms rewritten by `f` from the
/// leaves up, the binders counted from `binders`.
pub open spec fn tys_folded<T: Fold, F: Fn(Ty, DebruijnIndex) -> Ty>(
    f: F,
    v: T::V,
    binders: u32,
    r: T::V,
) -> bool {
    exists|p: Vec<GenericArg>, q: Vec<GenericArg>|
        #![trigger args_tys_folded(f, p, binders, q)]
        args_view(p) == T::parts(v) && args_tys_folded(f, p, binders, q) && r == T::rebuilt(
            v,
            args_view(q),
        )
}

impl Ty {
    /// Rewrites every type inside the type, and the type itself, from the
    /// leaves up. The function `f` is called once for each, after the types
    /// inside it were rewritten, with the number of binders that it was
    /// found below, counted from `binders`; what it returns takes its place.
    pub fn fold_tys<F: Fn(Ty, DebruijnIndex) -> Ty>(&self, f: &F, binders: DebruijnIndex) -> (r: Ty)
        requires
            forall|x: Ty, d: DebruijnIndex| call_requires(*f, (x, d)),
            binders@ + ty_span(self@) <= u32::MAX,
        ensures
            ty_tys_folded(*f, *self, binders.depth, r),
    {
        ty_fold_tys(self, f, binders.depth)
    }
}

/// Rewrites every type of `t` from the leaves up. The function `f` is
/// called once for each type in the terms of `t`, after the types inside it
/// were rewritten, and with the number of binders that the type was found
/// below, counted from `binders` at `t`; what it returns takes the place of
/// the type.
pub fn fold_tys<T: Fold, F: Fn(Ty, DebruijnIndex) -> Ty>(t: T, f: F, binders: DebruijnIndex) -> (r:
    T)
    requires
        forall|x: Ty, d: DebruijnIndex| call_requires(f, (x, d)),
        binders@ + args_span(T::parts(t@)) <= u32::MAX,
    ensures
        tys_folded::<T, F>(f, t@, binders.depth, r@),
{
    let parts = t.to_parts();
    let folded = args_fold_tys(&parts, &f, binders.depth);
    proof {
        lemma_tys_folded_kinds(f, parts, binders.depth, folded);
    }
    t.with_parts(folded)
}

} // verus!
