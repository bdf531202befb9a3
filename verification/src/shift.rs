//! Moving terms into and out of binders.
//!
//! A term that is relocated below more binders has its free variables
//! renumbered upwards, so that they still name the binders they named
//! before; a term that is lifted out of binders has them renumbered
//! downwards, which is possible only where it names none of the binders it
//! leaves.

use vstd::prelude::*;
use crate::index::{BoundVar, BoundVarView, DebruijnIndex};
use crate::ty::{arg_view, args_view, Const, ConstValue, ConstValueView,
    ConstView, FnPointer, FnPointerView, GenericArg, GenericArgView, Lifetime, LifetimeView,
    Substitution, Ty, TyView};

verus! {

// ---------------------------------------------------------------------------
// How far a term reaches: the machine limit of every traversal

/// The least `n` such that every variable of the term has a depth below `n`
/// and the term nests at most `n` binders. A traversal that starts at depth
/// `d` handles no depth above `d + n`.
pub open spec fn ty_span(t: TyView) -> nat
    decreases t,
{
    match t {
        TyView::Apply(_, s) => args_span(s),
        TyView::Array(elem, len) => max_nat(ty_span(*elem), const_span(*len)),
        TyView::Slice(elem) => ty_span(*elem),
        TyView::Raw(_, pointee) => ty_span(*pointee),
        TyView::Ref(_, l, pointee) => max_nat(lifetime_span(l), ty_span(*pointee)),
        TyView::Function(f) => args_span(f.substitution) + 1,
        TyView::BoundVar(v) => v.depth + 1,
        _ => 0,
    }
}

pub open spec fn max_nat(a: nat, b: nat) -> nat {
    if a >= b {
        a
    } else {
        b
    }
}

pub open spec fn lifetime_span(l: LifetimeView) -> nat {
    match l {
        LifetimeView::BoundVar(v) => v.depth + 1,
        _ => 0,
    }
}

pub open spec fn const_span(c: ConstView) -> nat
    decreases c,
{
    max_nat(
        ty_span(c.ty),
        match c.value {
            ConstValueView::BoundVar(v) => v.depth + 1,
            _ => 0,
        },
    )
}

pub open spec fn arg_span(a: GenericArgView) -> nat
    decreases a,
{
    match a {
        GenericArgView::Ty(t) => ty_span(t),
        GenericArgView::Lifetime(l) => lifetime_span(l),
        GenericArgView::Const(c) => const_span(c),
    }
}

pub open spec fn args_span(s: Seq<GenericArgView>) -> nat
    decreases s,
{
    if s.len() == 0 {
        0
    } else {
        max_nat(args_span(s.drop_last()), arg_span(s.last()))
    }
}

/// Each argument reaches no further than the sequence.
pub proof fn lemma_args_span_index(s: Seq<GenericArgView>, i: int)
    requires
        0 <= i < s.len(),
    ensures
        arg_span(s[i]) <= args_span(s),
    decreases s.len(),
{
    if i < s.len() - 1 {
        lemma_args_span_index(s.drop_last(), i);
    }
}

/// A sequence reaches no further than the furthest of its arguments.
pub proof fn lemma_args_span_bound(s: Seq<GenericArgView>, n: nat)
    requires
        forall|i: int| 0 <= i < s.len() ==> arg_span(#[trigger] s[i]) <= n,
    ensures
        args_span(s) <= n,
    decreases s.len(),
{
    if s.len() > 0 {
        assert forall|i: int| 0 <= i < s.drop_last().len() implies arg_span(
            #[trigger] s.drop_last()[i],
        ) <= n by {
            assert(s.drop_last()[i] == s[i]);
        }
        lemma_args_span_bound(s.drop_last(), n);
        assert(s.last() == s[s.len() - 1]);
    }
}

// ---------------------------------------------------------------------------
// Renumbering

/// The variable `v` after the free variables (those at depth `cutoff` and
/// above) are renumbered by `delta`.
pub open spec fn var_shift(v: BoundVarView, delta: int, cutoff: nat) -> BoundVarView {
    if v.depth >= cutoff {
        BoundVarView { depth: (v.depth + delta) as nat, index: v.index }
    } else {
        v
    }
}

pub open spec fn lifetime_shift(l: LifetimeView, delta: int, cutoff: nat) -> LifetimeView {
    match l {
        LifetimeView::BoundVar(v) => LifetimeView::BoundVar(var_shift(v, delta, cutoff)),
        _ => l,
    }
}

/// The type `t`, found below `cutoff` binders of its own term, with each
/// variable that is free there renumbered by `delta`.
pub open spec fn ty_shift(t: TyView, delta: int, cutoff: nat) -> TyView
    decreases t,
{
    match t {
        TyView::Apply(ctor, s) => TyView::Apply(ctor, args_shift(s, delta, cutoff)),
        TyView::Array(elem, len) => TyView::Array(
            Box::new(ty_shift(*elem, delta, cutoff)),
            Box::new(const_shift(*len, delta, cutoff)),
        ),
        TyView::Slice(elem) => TyView::Slice(Box::new(ty_shift(*elem, delta, cutoff))),
        TyView::Raw(m, pointee) => TyView::Raw(m, Box::new(ty_shift(*pointee, delta, cutoff))),
        TyView::Ref(m, l, pointee) => TyView::Ref(
            m,
            lifetime_shift(l, delta, cutoff),
            Box::new(ty_shift(*pointee, delta, cutoff)),
        ),
        TyView::Function(f) => TyView::Function(
            FnPointerView {
                num_binders: f.num_binders,
                sig: f.sig,
                substitution: args_shift(f.substitution, delta, cutoff + 1),
            },
        ),
        TyView::BoundVar(v) => TyView::BoundVar(var_shift(v, delta, cutoff)),
        _ => t,
    }
}

pub open spec fn const_shift(c: ConstView, delta: int, cutoff: nat) -> ConstView
    decreases c,
{
    ConstView {
        ty: ty_shift(c.ty, delta, cutoff),
        value: match c.value {
            ConstValueView::BoundVar(v) => ConstValueView::BoundVar(var_shift(v, delta, cutoff)),
            _ => c.value,
        },
    }
}

pub open spec fn arg_shift(a: GenericArgView, delta: int, cutoff: nat) -> GenericArgView
    decreases a,
{
    match a {
        GenericArgView::Ty(t) => GenericArgView::Ty(ty_shift(t, delta, cutoff)),
        GenericArgView::Lifetime(l) => GenericArgView::Lifetime(lifetime_shift(l, delta, cutoff)),
        GenericArgView::Const(c) => GenericArgView::Const(const_shift(c, delta, cutoff)),
    }
}

pub open spec fn args_shift(s: Seq<GenericArgView>, delta: int, cutoff: nat) -> Seq<
    GenericArgView,
>
    decreases s,
{
    Seq::new(
        s.len(),
        |i: int|
            if 0 <= i < s.len() {
                arg_shift(s[i], delta, cutoff)
            } else {
                arbitrary()
            },
    )
}

// ---------------------------------------------------------------------------
// Which binders a term names

/// Whether `v`, found below `cutoff` binders, names one of the binders at
/// depths `lo` to `hi - 1` as counted from outside those `cutoff` binders.
pub open spec fn var_mentions(v: BoundVarView, lo: nat, hi: nat) -> bool {
    lo <= v.depth < hi
}

pub open spec fn lifetime_mentions(l: LifetimeView, lo: nat, hi: nat) -> bool {
    match l {
        LifetimeView::BoundVar(v) => var_mentions(v, lo, hi),
        _ => false,
    }
}

/// Whether some variable of `t` has a depth from `lo` to `hi - 1`, where both
/// bounds grow by one below each binder of `t`.
pub open spec fn ty_mentions(t: TyView, lo: nat, hi: nat) -> bool
    decreases t,
{
    match t {
        TyView::Apply(_, s) => args_mention(s, lo, hi),
        TyView::Array(elem, len) => ty_mentions(*elem, lo, hi) || const_mentions(*len, lo, hi),
        TyView::Slice(elem) => ty_mentions(*elem, lo, hi),
        TyView::Raw(_, pointee) => ty_mentions(*pointee, lo, hi),
        TyView::Ref(_, l, pointee) => lifetime_mentions(l, lo, hi) || ty_mentions(
            *pointee,
            lo,
            hi,
        ),
        TyView::Function(f) => args_mention(f.substitution, lo + 1, hi + 1),
        TyView::BoundVar(v) => var_mentions(v, lo, hi),
        _ => false,
    }
}

pub open spec fn const_mentions(c: ConstView, lo: nat, hi: nat) -> bool
    decreases c,
{
    ty_mentions(c.ty, lo, hi) || match c.value {
        ConstValueView::BoundVar(v) => var_mentions(v, lo, hi),
        _ => false,
    }
}

pub open spec fn arg_mentions(a: GenericArgView, lo: nat, hi: nat) -> bool
    decreases a,
{
    match a {
        GenericArgView::Ty(t) => ty_mentions(t, lo, hi),
        GenericArgView::Lifetime(l) => lifetime_mentions(l, lo, hi),
        GenericArgView::Const(c) => const_mentions(c, lo, hi),
    }
}

pub open spec fn args_mention(s: Seq<GenericArgView>, lo: nat, hi: nat) -> bool
    decreases s,
{
    exists|i: int| 0 <= i < s.len() && arg_mentions(#[trigger] s[i], lo, hi)
}

/// Whether every variable of `t`, found below `cutoff` binders, names one of
/// those binders or a binder inside `t`: no variable of `t` is free.
pub open spec fn ty_closed(t: TyView, cutoff: nat) -> bool
    decreases t,
{
    match t {
        TyView::Apply(_, s) => args_closed(s, cutoff),
        TyView::Array(elem, len) => ty_closed(*elem, cutoff) && const_closed(*len, cutoff),
        TyView::Slice(elem) => ty_closed(*elem, cutoff),
        TyView::Raw(_, pointee) => ty_closed(*pointee, cutoff),
        TyView::Ref(_, l, pointee) => lifetime_closed(l, cutoff) && ty_closed(*pointee, cutoff),
        TyView::Function(f) => args_closed(f.substitution, cutoff + 1),
        TyView::BoundVar(v) => v.depth < cutoff,
        _ => true,
    }
}

pub open spec fn lifetime_closed(l: LifetimeView, cutoff: nat) -> bool {
    match l {
        LifetimeView::BoundVar(v) => v.depth < cutoff,
        _ => true,
    }
}

pub open spec fn const_closed(c: ConstView, cutoff: nat) -> bool
    decreases c,
{
    ty_closed(c.ty, cutoff) && match c.value {
        ConstValueView::BoundVar(v) => v.depth < cutoff,
        _ => true,
    }
}

pub open spec fn arg_closed(a: GenericArgView, cutoff: nat) -> bool
    decreases a,
{
    match a {
        GenericArgView::Ty(t) => ty_closed(t, cutoff),
        GenericArgView::Lifetime(l) => lifetime_closed(l, cutoff),
        GenericArgView::Const(c) => const_closed(c, cutoff),
    }
}

pub open spec fn args_closed(s: Seq<GenericArgView>, cutoff: nat) -> bool
    decreases s,
{
    forall|i: int| 0 <= i < s.len() ==> arg_closed(#[trigger] s[i], cutoff)
}

// ---------------------------------------------------------------------------
// The traversal

/// By how much the free variables are renumbered: downwards on the way out
/// of binders, upwards on the way in.
pub open spec fn shift_delta(out: bool, by: nat) -> int {
    if out {
        -(by as int)
    } else {
        by as int
    }
}

/// The headroom that renumbering needs: none on the way out.
pub open spec fn shift_room(out: bool, by: nat) -> nat {
    if out {
        0
    } else {
        by
    }
}

pub(crate) fn var_shifted(v: BoundVar, out: bool, by: u32, cutoff: u32) -> (r: Option<BoundVar>)
    requires
        v@.depth + shift_room(out, by as nat) <= u32::MAX,
    ensures
        r is None <==> out && var_mentions(v@, cutoff as nat, (cutoff + by) as nat),
        r matches Some(w) ==> w@ == var_shift(v@, shift_delta(out, by as nat), cutoff as nat),
{
    if v.debruijn.depth < cutoff {
        Some(v)
    } else if out {
        if v.debruijn.depth - cutoff < by {
            None
        } else {
            Some(BoundVar { debruijn: DebruijnIndex { depth: v.debruijn.depth - by }, index: v.index })
        }
    } else {
        Some(BoundVar { debruijn: DebruijnIndex { depth: v.debruijn.depth + by }, index: v.index })
    }
}

pub(crate) fn lifetime_shifted(l: &Lifetime, out: bool, by: u32, cutoff: u32) -> (r: Option<Lifetime>)
    requires
        out || lifetime_span(l@) + by <= u32::MAX,
    ensures
        r is None <==> out && lifetime_mentions(l@, cutoff as nat, (cutoff + by) as nat),
        r matches Some(m) ==> m@ == lifetime_shift(
            l@,
            shift_delta(out, by as nat),
            cutoff as nat,
        ),
{
    match l {
        Lifetime::BoundVar(v) => match var_shifted(*v, out, by, cutoff) {
            Some(w) => Some(Lifetime::BoundVar(w)),
            None => None,
        },
        _ => Some(*l),
    }
}

pub(crate) fn ty_shifted(t: &Ty, out: bool, by: u32, cutoff: u32) -> (r: Option<Ty>)
    requires
        cutoff + ty_span(t@) + shift_room(out, by as nat) <= u32::MAX,
    ensures
        r is None <==> out && ty_mentions(t@, cutoff as nat, (cutoff + by) as nat),
        r matches Some(x) ==> x@ == ty_shift(t@, shift_delta(out, by as nat), cutoff as nat),
    decreases *t,
{
    match t {
        Ty::Apply(ctor, s) => match args_shifted(&s.args, out, by, cutoff) {
            Some(args) => Some(Ty::Apply(*ctor, Substitution { args })),
            None => None,
        },
        Ty::Scalar(s) => Some(Ty::Scalar(*s)),
        Ty::Array(elem, len) => match ty_shifted(elem, out, by, cutoff) {
            Some(e) => match const_shifted(len, out, by, cutoff) {
                Some(n) => Some(Ty::Array(Box::new(e), Box::new(n))),
                None => None,
            },
            None => None,
        },
        Ty::Slice(elem) => match ty_shifted(elem, out, by, cutoff) {
            Some(e) => Some(Ty::Slice(Box::new(e))),
            None => None,
        },
        Ty::Raw(m, pointee) => match ty_shifted(pointee, out, by, cutoff) {
            Some(p) => Some(Ty::Raw(*m, Box::new(p))),
            None => None,
        },
        Ty::Ref(m, l, pointee) => match lifetime_shifted(l, out, by, cutoff) {
            Some(k) => match ty_shifted(pointee, out, by, cutoff) {
                Some(p) => Some(Ty::Ref(*m, k, Box::new(p))),
                None => None,
            },
            None => None,
        },
        Ty::Str => Some(Ty::Str),
        Ty::Never => Some(Ty::Never),
        Ty::Foreign(id) => Some(Ty::Foreign(*id)),
        Ty::Error => Some(Ty::Error),
        Ty::Placeholder(p) => Some(Ty::Placeholder(*p)),
        Ty::Function(f) => match args_shifted(&f.substitution.args, out, by, cutoff + 1) {
            Some(args) => Some(
                Ty::Function(
                    FnPointer {
                        num_binders: f.num_binders,
                        sig: f.sig,
                        substitution: Substitution { args },
                    },
                ),
            ),
            None => None,
        },
        Ty::BoundVar(v) => match var_shifted(*v, out, by, cutoff) {
            Some(w) => Some(Ty::BoundVar(w)),
            None => None,
        },
        Ty::InferenceVar(v, k) => Some(Ty::InferenceVar(*v, *k)),
    }
}

pub(crate) fn const_shifted(c: &Const, out: bool, by: u32, cutoff: u32) -> (r: Option<Const>)
    requires
        cutoff + const_span(c@) + shift_room(out, by as nat) <= u32::MAX,
    ensures
        r is None <==> out && const_mentions(c@, cutoff as nat, (cutoff + by) as nat),
        r matches Some(x) ==> x@ == const_shift(c@, shift_delta(out, by as nat), cutoff as nat),
    decreases *c,
{
    match ty_shifted(&c.ty, out, by, cutoff) {
        Some(ty) => match c.value {
            ConstValue::BoundVar(v) => match var_shifted(v, out, by, cutoff) {
                Some(w) => Some(Const { ty, value: ConstValue::BoundVar(w) }),
                None => None,
            },
            _ => Some(Const { ty, value: c.value }),
        },
        None => None,
    }
}

pub(crate) fn arg_shifted(a: &GenericArg, out: bool, by: u32, cutoff: u32) -> (r: Option<GenericArg>)
    requires
        cutoff + arg_span(a@) + shift_room(out, by as nat) <= u32::MAX,
    ensures
        r is None <==> out && arg_mentions(a@, cutoff as nat, (cutoff + by) as nat),
        r matches Some(x) ==> x@ == arg_shift(a@, shift_delta(out, by as nat), cutoff as nat),
    decreases *a,
{
    match a {
        GenericArg::Ty(t) => match ty_shifted(t, out, by, cutoff) {
            Some(x) => Some(GenericArg::Ty(x)),
            None => None,
        },
        GenericArg::Lifetime(l) => match lifetime_shifted(l, out, by, cutoff) {
            Some(x) => Some(GenericArg::Lifetime(x)),
            None => None,
        },
        GenericArg::Const(c) => match const_shifted(c, out, by, cutoff) {
            Some(x) => Some(GenericArg::Const(x)),
            None => None,
        },
    }
}

pub(crate) fn args_shifted(v: &Vec<GenericArg>, out: bool, by: u32, cutoff: u32) -> (r: Option<
    Vec<GenericArg>,
>)
    requires
        cutoff + args_span(args_view(*v)) + shift_room(out, by as nat) <= u32::MAX,
    ensures
        r is None <==> out && args_mention(args_view(*v), cutoff as nat, (cutoff + by) as nat),
        r matches Some(w) ==> args_view(w) == args_shift(
            args_view(*v),
            shift_delta(out, by as nat),
            cutoff as nat,
        ),
    decreases *v,
{
    let mut w: Vec<GenericArg> = Vec::new();
    let mut i: usize = 0;
    while i < v.len()
        invariant
            i <= v.len(),
            w.len() == i,
            cutoff + args_span(args_view(*v)) + shift_room(out, by as nat) <= u32::MAX,
            forall|j: int|
                0 <= j < i ==> arg_view(#[trigger] w[j]) == arg_shift(
                    arg_view(v[j]),
                    shift_delta(out, by as nat),
                    cutoff as nat,
                ),
            forall|j: int|
                0 <= j < i ==> !(out && arg_mentions(
                    #[trigger] args_view(*v)[j],
                    cutoff as nat,
                    (cutoff + by) as nat,
                )),
        decreases v.len() - i,
    {
        proof {
            lemma_args_span_index(args_view(*v), i as int);
        }
        match arg_shifted(&v[i], out, by, cutoff) {
            Some(a) => {
                w.push(a);
            },
            None => {
                assert(args_view(*v)[i as int] == arg_view(v[i as int]));
                return None;
            },
        }
        i += 1;
    }
    assert(args_view(w) =~= args_shift(
        args_view(*v),
        shift_delta(out, by as nat),
        cutoff as nat,
    ));
    Some(w)
}


// ---------------------------------------------------------------------------
// Terms into and out of binders

impl Ty {
    /// The type as it reads below one more binder.
    pub fn shifted_in(&self) -> (r: Ty)
        requires
            ty_span(self@) + 1 <= u32::MAX,
        ensures
            r@ == ty_shift(self@, 1, 0),
    {
        self.shifted_in_from(DebruijnIndex::one())
    }

    /// The type as it reads below `source_binder` more binders: each free
    /// variable names the binder it named before.
    pub fn shifted_in_from(&self, source_binder: DebruijnIndex) -> (r: Ty)
        requires
            ty_span(self@) + source_binder@ <= u32::MAX,
        ensures
            r@ == ty_shift(self@, source_binder@ as int, 0),
    {
        match ty_shifted(self, false, source_binder.depth, 0) {
            Some(t) => t,
            None => vstd::pervasive::unreached(),
        }
    }

    /// The type as it reads above the innermost binder, or `None` where it
    /// names that binder.
    pub fn shifted_out(&self) -> (r: Option<Ty>)
        requires
            ty_span(self@) <= u32::MAX,
        ensures
            r is None <==> ty_mentions(self@, 0, 1),
            r matches Some(t) ==> t@ == ty_shift(self@, -1, 0),
    {
        self.shifted_out_to(DebruijnIndex::one())
    }

    /// The type as it reads above the `target_binder` innermost binders, or
    /// `None` where it names one of them.
    pub fn shifted_out_to(&self, target_binder: DebruijnIndex) -> (r: Option<Ty>)
        requires
            ty_span(self@) <= u32::MAX,
        ensures
            r is None <==> ty_mentions(self@, 0, target_binder@),
            r matches Some(t) ==> t@ == ty_shift(self@, -(target_binder@ as int), 0),
    {
        ty_shifted(self, true, target_binder.depth, 0)
    }
}

impl Lifetime {
    pub fn shifted_in_from(&self, source_binder: DebruijnIndex) -> (r: Lifetime)
        requires
            lifetime_span(self@) + source_binder@ <= u32::MAX,
        ensures
            r@ == lifetime_shift(self@, source_binder@ as int, 0),
    {
        match lifetime_shifted(self, false, source_binder.depth, 0) {
            Some(l) => l,
            None => vstd::pervasive::unreached(),
        }
    }

    pub fn shifted_out_to(&self, target_binder: DebruijnIndex) -> (r: Option<Lifetime>)
        ensures
            r is None <==> lifetime_mentions(self@, 0, target_binder@),
            r matches Some(l) ==> l@ == lifetime_shift(self@, -(target_binder@ as int), 0),
    {
        lifetime_shifted(self, true, target_binder.depth, 0)
    }
}

impl Const {
    pub fn shifted_in_from(&self, source_binder: DebruijnIndex) -> (r: Const)
        requires
            const_span(self@) + source_binder@ <= u32::MAX,
        ensures
            r@ == const_shift(self@, source_binder@ as int, 0),
    {
        match const_shifted(self, false, source_binder.depth, 0) {
            Some(c) => c,
            None => vstd::pervasive::unreached(),
        }
    }

    pub fn shifted_out_to(&self, target_binder: DebruijnIndex) -> (r: Option<Const>)
        requires
            const_span(self@) <= u32::MAX,
        ensures
            r is None <==> const_mentions(self@, 0, target_binder@),
            r matches Some(c) ==> c@ == const_shift(self@, -(target_binder@ as int), 0),
    {
        const_shifted(self, true, target_binder.depth, 0)
    }
}

impl GenericArg {
    pub fn shifted_in_from(&self, source_binder: DebruijnIndex) -> (r: GenericArg)
        requires
            arg_span(self@) + source_binder@ <= u32::MAX,
        ensures
            r@ == arg_shift(self@, source_binder@ as int, 0),
    {
        match arg_shifted(self, false, source_binder.depth, 0) {
            Some(a) => a,
            None => vstd::pervasive::unreached(),
        }
    }

    pub fn shifted_out_to(&self, target_binder: DebruijnIndex) -> (r: Option<GenericArg>)
        requires
            arg_span(self@) <= u32::MAX,
        ensures
            r is None <==> arg_mentions(self@, 0, target_binder@),
            r matches Some(a) ==> a@ == arg_shift(self@, -(target_binder@ as int), 0),
    {
        arg_shifted(self, true, target_binder.depth, 0)
    }
}

impl Substitution {
    pub fn shifted_in_from(&self, source_binder: DebruijnIndex) -> (r: Substitution)
        requires
            args_span(self@) + source_binder@ <= u32::MAX,
        ensures
            r@ == args_shift(self@, source_binder@ as int, 0),
    {
        match args_shifted(&self.args, false, source_binder.depth, 0) {
            Some(args) => Substitution { args },
            None => vstd::pervasive::unreached(),
        }
    }

    pub fn shifted_out_to(&self, target_binder: DebruijnIndex) -> (r: Option<Substitution>)
        requires
            args_span(self@) <= u32::MAX,
        ensures
            r is None <==> args_mention(self@, 0, target_binder@),
            r matches Some(s) ==> s@ == args_shift(self@, -(target_binder@ as int), 0),
    {
        match args_shifted(&self.args, true, target_binder.depth, 0) {
            Some(args) => Some(Substitution { args }),
            None => None,
        }
    }
}

// ---------------------------------------------------------------------------
// Measuring a term

fn max_span(a: Option<u32>, b: Option<u32>) -> (r: Option<u32>)
    ensures
        r == (match (a, b) {
            (Some(x), Some(y)) => Some(
                if x >= y {
                    x
                } else {
                    y
                },
            ),
            _ => None,
        }),
{
    match (a, b) {
        (Some(x), Some(y)) => Some(
            if x >= y {
                x
            } else {
                y
            },
        ),
        _ => None,
    }
}

/// Whether `r` is the span `n`: the number itself where it fits, and `None`
/// where it is beyond the machine's range of depths.
pub open spec fn is_span(r: Option<u32>, n: nat) -> bool {
    match r {
        Some(k) => k == n,
        None => n > u32::MAX,
    }
}

fn var_span_of(v: BoundVar) -> (r: Option<u32>)
    ensures
        is_span(r, v@.depth + 1),
{
    if v.debruijn.depth < u32::MAX {
        Some(v.debruijn.depth + 1)
    } else {
        None
    }
}

fn ty_span_of(t: &Ty) -> (r: Option<u32>)
    ensures
        is_span(r, ty_span(t@)),
    decreases *t,
{
    match t {
        Ty::Apply(_, s) => args_span_of(&s.args),
        Ty::Array(elem, len) => max_span(ty_span_of(elem), const_span_of(len)),
        Ty::Slice(elem) => ty_span_of(elem),
        Ty::Raw(_, pointee) => ty_span_of(pointee),
        Ty::Ref(_, l, pointee) => max_span(l.span(), ty_span_of(pointee)),
        Ty::Function(f) => match args_span_of(&f.substitution.args) {
            Some(n) => if n < u32::MAX {
                Some(n + 1)
            } else {
                None
            },
            None => None,
        },
        Ty::BoundVar(v) => var_span_of(*v),
        _ => Some(0),
    }
}

fn const_span_of(c: &Const) -> (r: Option<u32>)
    ensures
        is_span(r, const_span(c@)),
    decreases *c,
{
    let of_value = match c.value {
        ConstValue::BoundVar(v) => var_span_of(v),
        _ => Some(0),
    };
    max_span(ty_span_of(&c.ty), of_value)
}

fn arg_span_of(a: &GenericArg) -> (r: Option<u32>)
    ensures
        is_span(r, arg_span(a@)),
    decreases *a,
{
    match a {
        GenericArg::Ty(t) => ty_span_of(t),
        GenericArg::Lifetime(l) => l.span(),
        GenericArg::Const(c) => const_span_of(c),
    }
}

pub(crate) fn args_span_of(v: &Vec<GenericArg>) -> (r: Option<u32>)
    ensures
        is_span(r, args_span(args_view(*v))),
    decreases *v,
{
    let ghost s = args_view(*v);
    let mut cur: u32 = 0;
    let mut i: usize = 0;
    while i < v.len()
        invariant
            i <= v.len(),
            s == args_view(*v),
            cur == args_span(s.take(i as int)),
        decreases v.len() - i,
    {
        proof {
            assert(s.take(i + 1).drop_last() =~= s.take(i as int));
            assert(s.take(i + 1).last() == arg_view(v[i as int]));
        }
        match arg_span_of(&v[i]) {
            Some(n) => {
                if n > cur {
                    cur = n;
                }
            },
            None => {
                proof {
                    lemma_args_span_index(s, i as int);
                }
                return None;
            },
        }
        i += 1;
    }
    proof {
        assert(s.take(v.len() as int) =~= s);
    }
    Some(cur)
}

impl Lifetime {
    /// How far the lifetime reaches: one more than the depth of its
    /// variable, if it is one.
    pub fn span(&self) -> (r: Option<u32>)
        ensures
            is_span(r, lifetime_span(self@)),
    {
        match self {
            Lifetime::BoundVar(v) => var_span_of(*v),
            _ => Some(0),
        }
    }
}

impl Ty {
    /// How far the type reaches, or `None` where that is beyond the
    /// machine's range of depths.
    pub fn span(&self) -> (r: Option<u32>)
        ensures
            is_span(r, ty_span(self@)),
    {
        ty_span_of(self)
    }
}

impl Substitution {
    /// How far the arguments reach, or `None` where that is beyond the
    /// machine's range of depths.
    pub fn span(&self) -> (r: Option<u32>)
        ensures
            is_span(r, args_span(self@)),
    {
        args_span_of(&self.args)
    }
}

} // verus!
