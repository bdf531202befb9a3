//! Substitutions: ordered generic arguments, and what it means to put them
//! in place of the variables of one binder.

use vstd::prelude::*;
use crate::index::{BoundVar, DebruijnIndex};
use crate::shift::{arg_span, args_span, const_shift, const_shifted,
    const_span, lemma_args_span_index, lifetime_shift, lifetime_shifted, ty_shift,
    ty_shifted, ty_span, var_shift};
use crate::term::same_kinds;
use crate::ty::{arg_view, args_view, Const, ConstValue, ConstValueView, ConstView, FnPointer,
    FnPointerView, GenericArg, GenericArgView, Lifetime, LifetimeView, Substitution, Ty, TyView};

verus! {

// ---------------------------------------------------------------------------
// The model

pub open spec fn lifetime_instantiable(
    l: LifetimeView,
    params: Seq<GenericArgView>,
    cutoff: nat,
) -> bool {
    match l {
        LifetimeView::BoundVar(v) => v.depth == cutoff ==> v.index < params.len()
            && params[v.index as int] is Lifetime,
        _ => true,
    }
}

/// Whether every variable of `t` that names the binder being instantiated
/// has a position inside `params`, and finds there an argument of its own
/// kind: a type for a type variable, a lifetime for a lifetime variable, a
/// constant for a constant variable.
pub open spec fn ty_instantiable(t: TyView, params: Seq<GenericArgView>, cutoff: nat) -> bool
    decreases t,
{
    match t {
        TyView::Apply(_, s) => args_instantiable(s, params, cutoff),
        TyView::Array(elem, len) => ty_instantiable(*elem, params, cutoff) && const_instantiable(
            *len,
            params,
            cutoff,
        ),
        TyView::Slice(elem) => ty_instantiable(*elem, params, cutoff),
        TyView::Raw(_, pointee) => ty_instantiable(*pointee, params, cutoff),
        TyView::Ref(_, l, pointee) => lifetime_instantiable(l, params, cutoff) && ty_instantiable(
            *pointee,
            params,
            cutoff,
        ),
        TyView::Function(f) => args_instantiable(f.substitution, params, cutoff + 1),
        TyView::BoundVar(v) => v.depth == cutoff ==> v.index < params.len()
            && params[v.index as int] is Ty,
        _ => true,
    }
}

pub open spec fn const_instantiable(c: ConstView, params: Seq<GenericArgView>, cutoff: nat) -> bool
    decreases c,
{
    ty_instantiable(c.ty, params, cutoff) && match c.value {
        ConstValueView::BoundVar(v) => v.depth == cutoff ==> v.index < params.len()
            && params[v.index as int] is Const,
        _ => true,
    }
}

pub open spec fn arg_instantiable(a: GenericArgView, params: Seq<GenericArgView>, cutoff: nat) -> bool
    decreases a,
{
    match a {
        GenericArgView::Ty(t) => ty_instantiable(t, params, cutoff),
        GenericArgView::Lifetime(l) => lifetime_instantiable(l, params, cutoff),
        GenericArgView::Const(c) => const_instantiable(c, params, cutoff),
    }
}

pub open spec fn args_instantiable(
    s: Seq<GenericArgView>,
    params: Seq<GenericArgView>,
    cutoff: nat,
) -> bool
    decreases s,
{
    forall|i: int| 0 <= i < s.len() ==> arg_instantiable(#[trigger] s[i], params, cutoff)
}

pub open spec fn lifetime_subst(
    l: LifetimeView,
    params: Seq<GenericArgView>,
    cutoff: nat,
) -> LifetimeView {
    match l {
        LifetimeView::BoundVar(v) => if v.depth == cutoff {
            match params[v.index as int] {
                GenericArgView::Lifetime(p) => lifetime_shift(p, cutoff as int, 0),
                _ => l,
            }
        } else {
            LifetimeView::BoundVar(var_shift(v, -1, cutoff))
        },
        _ => l,
    }
}

/// The type `t`, found below `cutoff` binders of its own term, with the
/// binder just outside those instantiated: a variable that names it gives
/// way to the argument at its position, moved below the `cutoff` binders,
/// and a variable that names a binder further out names it from one level
/// less.
pub open spec fn ty_subst(t: TyView, params: Seq<GenericArgView>, cutoff: nat) -> TyView
    decreases t,
{
    match t {
        TyView::Apply(ctor, s) => TyView::Apply(ctor, args_subst(s, params, cutoff)),
        TyView::Array(elem, len) => TyView::Array(
            Box::new(ty_subst(*elem, params, cutoff)),
            Box::new(const_subst(*len, params, cutoff)),
        ),
        TyView::Slice(elem) => TyView::Slice(Box::new(ty_subst(*elem, params, cutoff))),
        TyView::Raw(m, pointee) => TyView::Raw(m, Box::new(ty_subst(*pointee, params, cutoff))),
        TyView::Ref(m, l, pointee) => TyView::Ref(
            m,
            lifetime_subst(l, params, cutoff),
            Box::new(ty_subst(*pointee, params, cutoff)),
        ),
        TyView::Function(f) => TyView::Function(
            FnPointerView {
                num_binders: f.num_binders,
                sig: f.sig,
                substitution: args_subst(f.substitution, params, cutoff + 1),
            },
        ),
        TyView::BoundVar(v) => if v.depth == cutoff {
            match params[v.index as int] {
                GenericArgView::Ty(p) => ty_shift(p, cutoff as int, 0),
                _ => t,
            }
        } else {
            TyView::BoundVar(var_shift(v, -1, cutoff))
        },
        _ => t,
    }
}

pub open spec fn const_subst(c: ConstView, params: Seq<GenericArgView>, cutoff: nat) -> ConstView
    decreases c,
{
    match c.value {
        ConstValueView::BoundVar(v) => if v.depth == cutoff {
            match params[v.index as int] {
                GenericArgView::Const(p) => const_shift(p, cutoff as int, 0),
                _ => c,
            }
        } else {
            ConstView {
                ty: ty_subst(c.ty, params, cutoff),
                value: ConstValueView::BoundVar(var_shift(v, -1, cutoff)),
            }
        },
        _ => ConstView { ty: ty_subst(c.ty, params, cutoff), value: c.value },
    }
}

pub open spec fn arg_subst(a: GenericArgView, params: Seq<GenericArgView>, cutoff: nat) -> GenericArgView
    decreases a,
{
    match a {
        GenericArgView::Ty(t) => GenericArgView::Ty(ty_subst(t, params, cutoff)),
        GenericArgView::Lifetime(l) => GenericArgView::Lifetime(lifetime_subst(l, params, cutoff)),
        GenericArgView::Const(c) => GenericArgView::Const(const_subst(c, params, cutoff)),
    }
}

pub open spec fn args_subst(
    s: Seq<GenericArgView>,
    params: Seq<GenericArgView>,
    cutoff: nat,
) -> Seq<GenericArgView>
    decreases s,
{
    Seq::new(
        s.len(),
        |i: int|
            if 0 <= i < s.len() {
                arg_subst(s[i], params, cutoff)
            } else {
                arbitrary()
            },
    )
}

/// Instantiating a binder turns types into types, lifetimes into lifetimes
/// and constants into constants.
pub proof fn lemma_subst_same_kinds(s: Seq<GenericArgView>, params: Seq<GenericArgView>, cutoff: nat)
    ensures
        same_kinds(args_subst(s, params, cutoff), s),
{
}

// ---------------------------------------------------------------------------
// The traversal

fn lifetime_substituted(l: &Lifetime, params: &Vec<GenericArg>, cutoff: u32) -> (r: Lifetime)
    requires
        lifetime_instantiable(l@, args_view(*params), cutoff as nat),
        cutoff + args_span(args_view(*params)) <= u32::MAX,
    ensures
        r@ == lifetime_subst(l@, args_view(*params), cutoff as nat),
{
    match l {
        Lifetime::BoundVar(v) => {
            if v.debruijn.depth == cutoff {
                proof {
                    lemma_args_span_index(args_view(*params), v.index as int);
                }
                match &params[v.index] {
                    GenericArg::Lifetime(p) => match lifetime_shifted(p, false, cutoff, 0) {
                        Some(x) => x,
                        None => vstd::pervasive::unreached(),
                    },
                    _ => vstd::pervasive::unreached(),
                }
            } else {
                match lifetime_shifted(l, true, 1, cutoff) {
                    Some(x) => x,
                    None => vstd::pervasive::unreached(),
                }
            }
        },
        _ => *l,
    }
}

pub(crate) fn ty_substituted(t: &Ty, params: &Vec<GenericArg>, cutoff: u32) -> (r: Ty)
    requires
        ty_instantiable(t@, args_view(*params), cutoff as nat),
        cutoff + ty_span(t@) + args_span(args_view(*params)) <= u32::MAX,
    ensures
        r@ == ty_subst(t@, args_view(*params), cutoff as nat),
    decreases *t,
{
    match t {
        Ty::Apply(ctor, s) => Ty::Apply(
            *ctor,
            Substitution { args: args_substituted(&s.args, params, cutoff) },
        ),
        Ty::Scalar(s) => Ty::Scalar(*s),
        Ty::Array(elem, len) => Ty::Array(
            Box::new(ty_substituted(elem, params, cutoff)),
            Box::new(const_substituted(len, params, cutoff)),
        ),
        Ty::Slice(elem) => Ty::Slice(Box::new(ty_substituted(elem, params, cutoff))),
        Ty::Raw(m, pointee) => Ty::Raw(*m, Box::new(ty_substituted(pointee, params, cutoff))),
        Ty::Ref(m, l, pointee) => Ty::Ref(
            *m,
            lifetime_substituted(l, params, cutoff),
            Box::new(ty_substituted(pointee, params, cutoff)),
        ),
        Ty::Str => Ty::Str,
        Ty::Never => Ty::Never,
        Ty::Foreign(id) => Ty::Foreign(*id),
        Ty::Error => Ty::Error,
        Ty::Placeholder(p) => Ty::Placeholder(*p),
        Ty::Function(f) => Ty::Function(
            FnPointer {
                num_binders: f.num_binders,
                sig: f.sig,
                substitution: Substitution {
                    args: args_substituted(&f.substitution.args, params, cutoff + 1),
                },
            },
        ),
        Ty::BoundVar(v) => {
            if v.debruijn.depth == cutoff {
                proof {
                    lemma_args_span_index(args_view(*params), v.index as int);
                }
                match &params[v.index] {
                    GenericArg::Ty(p) => match ty_shifted(p, false, cutoff, 0) {
                        Some(x) => x,
                        None => vstd::pervasive::unreached(),
                    },
                    _ => vstd::pervasive::unreached(),
                }
            } else {
                match ty_shifted(t, true, 1, cutoff) {
                    Some(x) => x,
                    None => vstd::pervasive::unreached(),
                }
            }
        },
        Ty::InferenceVar(v, k) => Ty::InferenceVar(*v, *k),
    }
}

fn const_substituted(c: &Const, params: &Vec<GenericArg>, cutoff: u32) -> (r: Const)
    requires
        const_instantiable(c@, args_view(*params), cutoff as nat),
        cutoff + const_span(c@) + args_span(args_view(*params)) <= u32::MAX,
    ensures
        r@ == const_subst(c@, args_view(*params), cutoff as nat),
    decreases *c,
{
    match c.value {
        ConstValue::BoundVar(v) => {
            if v.debruijn.depth == cutoff {
                proof {
                    lemma_args_span_index(args_view(*params), v.index as int);
                }
                match &params[v.index] {
                    GenericArg::Const(p) => match const_shifted(p, false, cutoff, 0) {
                        Some(x) => x,
                        None => vstd::pervasive::unreached(),
                    },
                    _ => vstd::pervasive::unreached(),
                }
            } else {
                let ty = ty_substituted(&c.ty, params, cutoff);
                let w = if v.debruijn.depth < cutoff {
                    v
                } else {
                    BoundVar { debruijn: DebruijnIndex { depth: v.debruijn.depth - 1 }, index: v.index }
                };
                Const { ty, value: ConstValue::BoundVar(w) }
            }
        },
        _ => Const { ty: ty_substituted(&c.ty, params, cutoff), value: c.value },
    }
}

fn arg_substituted(a: &GenericArg, params: &Vec<GenericArg>, cutoff: u32) -> (r: GenericArg)
    requires
        arg_instantiable(a@, args_view(*params), cutoff as nat),
        cutoff + arg_span(a@) + args_span(args_view(*params)) <= u32::MAX,
    ensures
        r@ == arg_subst(a@, args_view(*params), cutoff as nat),
    decreases *a,
{
    match a {
        GenericArg::Ty(t) => GenericArg::Ty(ty_substituted(t, params, cutoff)),
        GenericArg::Lifetime(l) => GenericArg::Lifetime(lifetime_substituted(l, params, cutoff)),
        GenericArg::Const(c) => GenericArg::Const(const_substituted(c, params, cutoff)),
    }
}

pub(crate) fn args_substituted(v: &Vec<GenericArg>, params: &Vec<GenericArg>, cutoff: u32) -> (r:
    Vec<GenericArg>)
    requires
        args_instantiable(args_view(*v), args_view(*params), cutoff as nat),
        cutoff + args_span(args_view(*v)) + args_span(args_view(*params)) <= u32::MAX,
    ensures
        args_view(r) == args_subst(args_view(*v), args_view(*params), cutoff as nat),
    decreases *v,
{
    let mut w: Vec<GenericArg> = Vec::new();
    let mut i: usize = 0;
    while i < v.len()
        invariant
            i <= v.len(),
            w.len() == i,
            args_instantiable(args_view(*v), args_view(*params), cutoff as nat),
            cutoff + args_span(args_view(*v)) + args_span(args_view(*params)) <= u32::MAX,
            forall|j: int|
                0 <= j < i ==> arg_view(#[trigger] w[j]) == arg_subst(
                    arg_view(v[j]),
                    args_view(*params),
                    cutoff as nat,
                ),
        decreases v.len() - i,
    {
        proof {
            lemma_args_span_index(args_view(*v), i as int);
            assert(args_view(*v)[i as int] == arg_view(v[i as int]));
        }
        w.push(arg_substituted(&v[i], params, cutoff));
        i += 1;
    }
    assert(args_view(w) =~= args_subst(args_view(*v), args_view(*params), cutoff as nat));
    w
}

// ---------------------------------------------------------------------------
// Testing a term against a substitution

fn lifetime_is_instantiable(l: &Lifetime, params: &Vec<GenericArg>, cutoff: u32) -> (b: bool)
    ensures
        b == lifetime_instantiable(l@, args_view(*params), cutoff as nat),
{
    match l {
        Lifetime::BoundVar(v) => {
            if v.debruijn.depth == cutoff {
                v.index < params.len() && match &params[v.index] {
                    GenericArg::Lifetime(_) => true,
                    _ => false,
                }
            } else {
                true
            }
        },
        _ => true,
    }
}

pub(crate) fn ty_is_instantiable(t: &Ty, params: &Vec<GenericArg>, cutoff: u32) -> (b: bool)
    requires
        cutoff + ty_span(t@) <= u32::MAX,
    ensures
        b == ty_instantiable(t@, args_view(*params), cutoff as nat),
    decreases *t,
{
    match t {
        Ty::Apply(_, s) => args_are_instantiable(&s.args, params, cutoff),
        Ty::Array(elem, len) => ty_is_instantiable(elem, params, cutoff) && const_is_instantiable(
            len,
            params,
            cutoff,
        ),
        Ty::Slice(elem) => ty_is_instantiable(elem, params, cutoff),
        Ty::Raw(_, pointee) => ty_is_instantiable(pointee, params, cutoff),
        Ty::Ref(_, l, pointee) => lifetime_is_instantiable(l, params, cutoff) && ty_is_instantiable(
            pointee,
            params,
            cutoff,
        ),
        Ty::Function(f) => args_are_instantiable(&f.substitution.args, params, cutoff + 1),
        Ty::BoundVar(v) => {
            if v.debruijn.depth == cutoff {
                v.index < params.len() && match &params[v.index] {
                    GenericArg::Ty(_) => true,
                    _ => false,
                }
            } else {
                true
            }
        },
        _ => true,
    }
}

fn const_is_instantiable(c: &Const, params: &Vec<GenericArg>, cutoff: u32) -> (b: bool)
    requires
        cutoff + const_span(c@) <= u32::MAX,
    ensures
        b == const_instantiable(c@, args_view(*params), cutoff as nat),
    decreases *c,
{
    ty_is_instantiable(&c.ty, params, cutoff) && match c.value {
        ConstValue::BoundVar(v) => {
            if v.debruijn.depth == cutoff {
                v.index < params.len() && match &params[v.index] {
                    GenericArg::Const(_) => true,
                    _ => false,
                }
            } else {
                true
            }
        },
        _ => true,
    }
}

fn arg_is_instantiable(a: &GenericArg, params: &Vec<GenericArg>, cutoff: u32) -> (b: bool)
    requires
        cutoff + arg_span(a@) <= u32::MAX,
    ensures
        b == arg_instantiable(a@, args_view(*params), cutoff as nat),
    decreases *a,
{
    match a {
        GenericArg::Ty(t) => ty_is_instantiable(t, params, cutoff),
        GenericArg::Lifetime(l) => lifetime_is_instantiable(l, params, cutoff),
        GenericArg::Const(c) => const_is_instantiable(c, params, cutoff),
    }
}

pub(crate) fn args_are_instantiable(v: &Vec<GenericArg>, params: &Vec<GenericArg>, cutoff: u32) -> (b: bool)
    requires
        cutoff + args_span(args_view(*v)) <= u32::MAX,
    ensures
        b == args_instantiable(args_view(*v), args_view(*params), cutoff as nat),
    decreases *v,
{
    let ghost s = args_view(*v);
    let mut i: usize = 0;
    while i < v.len()
        invariant
            i <= v.len(),
            s == args_view(*v),
            cutoff + args_span(s) <= u32::MAX,
            forall|j: int|
                0 <= j < i ==> arg_instantiable(#[trigger] s[j], args_view(*params), cutoff as nat),
        decreases v.len() - i,
    {
        proof {
            lemma_args_span_index(s, i as int);
            assert(s[i as int] == arg_view(v[i as int]));
        }
        if !arg_is_instantiable(&v[i], params, cutoff) {
            return false;
        }
        i += 1;
    }
    true
}

// ---------------------------------------------------------------------------
// Substitutions as values

impl Substitution {
    /// The substitution that holds the given arguments in order.
    pub fn from_iter(elements: Vec<GenericArg>) -> (r: Substitution)
        ensures
            r@ == args_view(elements),
    {
        Substitution { args: elements }
    }

    /// The substitution that holds one argument.
    pub fn from1(element: GenericArg) -> (r: Substitution)
        ensures
            r@ == seq![element@],
    {
        let mut args: Vec<GenericArg> = Vec::new();
        args.push(element);
        assert(args_view(args) =~= seq![element@]);
        Substitution { args }
    }

    pub fn empty() -> (r: Substitution)
        ensures
            r@ == Seq::<GenericArgView>::empty(),
    {
        let args: Vec<GenericArg> = Vec::new();
        assert(args_view(args) =~= Seq::<GenericArgView>::empty());
        Substitution { args }
    }

    pub fn len(&self) -> (n: usize)
        ensures
            n == self@.len(),
    {
        self.args.len()
    }

    pub fn is_empty(&self) -> (b: bool)
        ensures
            b == (self@.len() == 0),
    {
        self.args.len() == 0
    }

    pub fn at(&self, index: usize) -> (r: &GenericArg)
        requires
            index < self@.len(),
        ensures
            r@ == self@[index as int],
    {
        &self.args[index]
    }

    pub fn as_slice(&self) -> (r: &[GenericArg])
        ensures
            r@ == self.args@,
    {
        self.args.as_slice()
    }
}

/// The first `n` arguments of `s` in order, or all of `s` where it holds
/// fewer.
pub fn subst_prefix(s: &Substitution, n: usize) -> (r: Substitution)
    ensures
        n >= s@.len() ==> r@ == s@,
        n < s@.len() ==> r@ == s@.take(n as int),
{
    let len = if s.args.len() < n {
        s.args.len()
    } else {
        n
    };
    let mut args: Vec<GenericArg> = Vec::new();
    let mut i: usize = 0;
    while i < len
        invariant
            i <= len <= s.args.len(),
            args.len() == i,
            forall|j: int| 0 <= j < i ==> arg_view(#[trigger] args[j]) == arg_view(s.args[j]),
        decreases len - i,
    {
        args.push(s.args[i].clone());
        i += 1;
    }
    assert(args_view(args) =~= s@.take(len as int));
    assert(s@.take(s@.len() as int) =~= s@);
    Substitution { args }
}

} // verus!
