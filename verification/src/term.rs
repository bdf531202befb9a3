//! Values that hold terms. Whatever is built of types, lifetimes and
//! constants can be moved into and out of binders, instantiated and made
//! canonical: it hands out the terms it holds and is rebuilt around the
//! terms that come back.

use vstd::prelude::*;
use crate::ty::{arg_view, args_view, Const, ConstView, GenericArg, GenericArgView, Lifetime,
    LifetimeView, Substitution, Ty, TyView};

verus! {

/// Whether the two arguments are of one kind: both types, both lifetimes or
/// both constants.
pub open spec fn same_kind(a: GenericArgView, b: GenericArgView) -> bool {
    match a {
        GenericArgView::Ty(_) => b is Ty,
        GenericArgView::Lifetime(_) => b is Lifetime,
        GenericArgView::Const(_) => b is Const,
    }
}

/// Whether the sequences are of one length and agree in kind at each
/// position.
pub open spec fn same_kinds(p: Seq<GenericArgView>, q: Seq<GenericArgView>) -> bool {
    &&& p.len() == q.len()
    &&& forall|i: int| 0 <= i < p.len() ==> same_kind(#[trigger] p[i], q[i])
}

/// A value that holds terms.
pub trait Fold: View + Sized {
    /// The terms that the value holds, from left to right. All of them stand
    /// at the binder depth of the value itself.
    spec fn parts(v: Self::V) -> Seq<GenericArgView>;

    /// The value with `parts` in place of the terms it holds.
    spec fn rebuilt(v: Self::V, parts: Seq<GenericArgView>) -> Self::V;

    /// A value that is rebuilt around terms holds those terms.
    proof fn lemma_parts_rebuilt(v: Self::V, parts: Seq<GenericArgView>)
        requires
            same_kinds(parts, Self::parts(v)),
        ensures
            Self::parts(Self::rebuilt(v, parts)) == parts,
    ;

    /// A value that is rebuilt around its own terms is the value.
    proof fn lemma_rebuilt_parts(v: Self::V)
        ensures
            Self::rebuilt(v, Self::parts(v)) == v,
    ;

    /// Rebuilding keeps nothing of the terms that were held before.
    proof fn lemma_rebuilt_twice(v: Self::V, first: Seq<GenericArgView>, parts: Seq<GenericArgView>)
        requires
            same_kinds(first, Self::parts(v)),
        ensures
            Self::rebuilt(Self::rebuilt(v, first), parts) == Self::rebuilt(v, parts),
    ;

    /// A copy of the terms that the value holds.
    fn to_parts(&self) -> (r: Vec<GenericArg>)
        ensures
            args_view(r) == Self::parts(self@),
    ;

    /// The value rebuilt around `parts`.
    fn with_parts(&self, parts: Vec<GenericArg>) -> (r: Self)
        requires
            same_kinds(args_view(parts), Self::parts(self@)),
        ensures
            r@ == Self::rebuilt(self@, args_view(parts)),
    ;
}

fn one_part(a: GenericArg) -> (r: Vec<GenericArg>)
    ensures
        args_view(r) == seq![a@],
{
    let mut v: Vec<GenericArg> = Vec::new();
    v.push(a);
    assert(args_view(v) =~= seq![a@]);
    v
}

impl Fold for GenericArg {
    open spec fn parts(v: GenericArgView) -> Seq<GenericArgView> {
        seq![v]
    }

    open spec fn rebuilt(v: GenericArgView, parts: Seq<GenericArgView>) -> GenericArgView {
        parts[0]
    }

    proof fn lemma_parts_rebuilt(v: GenericArgView, parts: Seq<GenericArgView>) {
        assert(seq![parts[0]] =~= parts);
    }

    proof fn lemma_rebuilt_parts(v: GenericArgView) {
    }

    proof fn lemma_rebuilt_twice(v: GenericArgView, first: Seq<GenericArgView>, parts: Seq<GenericArgView>) {
    }

    fn to_parts(&self) -> (r: Vec<GenericArg>) {
        one_part(self.clone())
    }

    fn with_parts(&self, parts: Vec<GenericArg>) -> (r: GenericArg) {
        assert(args_view(parts)[0] == arg_view(parts[0]));
        parts[0].clone()
    }
}

impl Fold for Ty {
    open spec fn parts(v: TyView) -> Seq<GenericArgView> {
        seq![GenericArgView::Ty(v)]
    }

    open spec fn rebuilt(v: TyView, parts: Seq<GenericArgView>) -> TyView {
        parts[0]->Ty_0
    }

    proof fn lemma_parts_rebuilt(v: TyView, parts: Seq<GenericArgView>) {
        assert(same_kind(parts[0], Self::parts(v)[0]));
        assert(seq![GenericArgView::Ty(parts[0]->Ty_0)] =~= parts);
    }

    proof fn lemma_rebuilt_parts(v: TyView) {
    }

    proof fn lemma_rebuilt_twice(v: TyView, first: Seq<GenericArgView>, parts: Seq<GenericArgView>) {
    }

    fn to_parts(&self) -> (r: Vec<GenericArg>) {
        one_part(GenericArg::Ty(self.clone()))
    }

    fn with_parts(&self, parts: Vec<GenericArg>) -> (r: Ty) {
        assert(same_kind(args_view(parts)[0], Self::parts(self@)[0]));
        assert(args_view(parts)[0] == arg_view(parts[0]));
        match &parts[0] {
            GenericArg::Ty(t) => t.clone(),
            _ => vstd::pervasive::unreached(),
        }
    }
}

impl Fold for Lifetime {
    open spec fn parts(v: LifetimeView) -> Seq<GenericArgView> {
        seq![GenericArgView::Lifetime(v)]
    }

    open spec fn rebuilt(v: LifetimeView, parts: Seq<GenericArgView>) -> LifetimeView {
        parts[0]->Lifetime_0
    }

    proof fn lemma_parts_rebuilt(v: LifetimeView, parts: Seq<GenericArgView>) {
        assert(same_kind(parts[0], Self::parts(v)[0]));
        assert(seq![GenericArgView::Lifetime(parts[0]->Lifetime_0)] =~= parts);
    }

    proof fn lemma_rebuilt_parts(v: LifetimeView) {
    }

    proof fn lemma_rebuilt_twice(v: LifetimeView, first: Seq<GenericArgView>, parts: Seq<GenericArgView>) {
    }

    fn to_parts(&self) -> (r: Vec<GenericArg>) {
        one_part(GenericArg::Lifetime(*self))
    }

    fn with_parts(&self, parts: Vec<GenericArg>) -> (r: Lifetime) {
        assert(same_kind(args_view(parts)[0], Self::parts(self@)[0]));
        assert(args_view(parts)[0] == arg_view(parts[0]));
        match &parts[0] {
            GenericArg::Lifetime(l) => *l,
            _ => vstd::pervasive::unreached(),
        }
    }
}

impl Fold for Const {
    open spec fn parts(v: ConstView) -> Seq<GenericArgView> {
        seq![GenericArgView::Const(v)]
    }

    open spec fn rebuilt(v: ConstView, parts: Seq<GenericArgView>) -> ConstView {
        parts[0]->Const_0
    }

    proof fn lemma_parts_rebuilt(v: ConstView, parts: Seq<GenericArgView>) {
        assert(same_kind(parts[0], Self::parts(v)[0]));
        assert(seq![GenericArgView::Const(parts[0]->Const_0)] =~= parts);
    }

    proof fn lemma_rebuilt_parts(v: ConstView) {
    }

    proof fn lemma_rebuilt_twice(v: ConstView, first: Seq<GenericArgView>, parts: Seq<GenericArgView>) {
    }

    fn to_parts(&self) -> (r: Vec<GenericArg>) {
        one_part(GenericArg::Const(self.clone()))
    }

    fn with_parts(&self, parts: Vec<GenericArg>) -> (r: Const) {
        assert(same_kind(args_view(parts)[0], Self::parts(self@)[0]));
        assert(args_view(parts)[0] == arg_view(parts[0]));
        match &parts[0] {
            GenericArg::Const(c) => c.clone(),
            _ => vstd::pervasive::unreached(),
        }
    }
}

impl Fold for Substitution {
    open spec fn parts(v: Seq<GenericArgView>) -> Seq<GenericArgView> {
        v
    }

    open spec fn rebuilt(v: Seq<GenericArgView>, parts: Seq<GenericArgView>) -> Seq<
        GenericArgView,
    > {
        parts
    }

    proof fn lemma_parts_rebuilt(v: Seq<GenericArgView>, parts: Seq<GenericArgView>) {
    }

    proof fn lemma_rebuilt_parts(v: Seq<GenericArgView>) {
    }

    proof fn lemma_rebuilt_twice(v: Seq<GenericArgView>, first: Seq<GenericArgView>, parts: Seq<GenericArgView>) {
    }

    fn to_parts(&self) -> (r: Vec<GenericArg>) {
        self.clone().args
    }

    fn with_parts(&self, parts: Vec<GenericArg>) -> (r: Substitution) {
        Substitution { args: parts }
    }
}

fn copy_range(v: &Vec<GenericArg>, from: usize, to: usize) -> (r: Vec<GenericArg>)
    requires
        from <= to <= v.len(),
    ensures
        args_view(r) == args_view(*v).subrange(from as int, to as int),
{
    let mut w: Vec<GenericArg> = Vec::new();
    let mut i: usize = from;
    while i < to
        invariant
            from <= i <= to <= v.len(),
            w.len() == i - from,
            forall|j: int| 0 <= j < w.len() ==> arg_view(#[trigger] w[j]) == arg_view(v[from + j]),
        decreases to - i,
    {
        w.push(v[i].clone());
        i += 1;
    }
    assert(args_view(w) =~= args_view(*v).subrange(from as int, to as int));
    w
}

/// A pair holds the terms of its first value, then those of its second.
impl<A: Fold, B: Fold> Fold for (A, B) {
    open spec fn parts(v: (A::V, B::V)) -> Seq<GenericArgView> {
        A::parts(v.0) + B::parts(v.1)
    }

    open spec fn rebuilt(v: (A::V, B::V), parts: Seq<GenericArgView>) -> (A::V, B::V) {
        let n = A::parts(v.0).len() as int;
        (A::rebuilt(v.0, parts.subrange(0, n)), B::rebuilt(v.1, parts.subrange(n, parts.len() as int)))
    }

    proof fn lemma_parts_rebuilt(v: (A::V, B::V), parts: Seq<GenericArgView>) {
        let n = A::parts(v.0).len() as int;
        let first = parts.subrange(0, n);
        let second = parts.subrange(n, parts.len() as int);
        assert forall|i: int| 0 <= i < first.len() implies same_kind(
            #[trigger] first[i],
            A::parts(v.0)[i],
        ) by {
            assert(same_kind(parts[i], Self::parts(v)[i]));
        }
        assert forall|i: int| 0 <= i < second.len() implies same_kind(
            #[trigger] second[i],
            B::parts(v.1)[i],
        ) by {
            assert(same_kind(parts[n + i], Self::parts(v)[n + i]));
        }
        A::lemma_parts_rebuilt(v.0, first);
        B::lemma_parts_rebuilt(v.1, second);
        assert(first + second =~= parts);
    }

    proof fn lemma_rebuilt_parts(v: (A::V, B::V)) {
        let n = A::parts(v.0).len() as int;
        let all = Self::parts(v);
        assert(all.subrange(0, n) =~= A::parts(v.0));
        assert(all.subrange(n, all.len() as int) =~= B::parts(v.1));
        A::lemma_rebuilt_parts(v.0);
        B::lemma_rebuilt_parts(v.1);
    }

    proof fn lemma_rebuilt_twice(
        v: (A::V, B::V),
        first: Seq<GenericArgView>,
        parts: Seq<GenericArgView>,
    ) {
        let n = A::parts(v.0).len() as int;
        let a = first.subrange(0, n);
        let b = first.subrange(n, first.len() as int);
        assert forall|i: int| 0 <= i < a.len() implies same_kind(
            #[trigger] a[i],
            A::parts(v.0)[i],
        ) by {
            assert(same_kind(first[i], Self::parts(v)[i]));
        }
        assert forall|i: int| 0 <= i < b.len() implies same_kind(
            #[trigger] b[i],
            B::parts(v.1)[i],
        ) by {
            assert(same_kind(first[n + i], Self::parts(v)[n + i]));
        }
        A::lemma_parts_rebuilt(v.0, a);
        A::lemma_rebuilt_twice(v.0, a, parts.subrange(0, n));
        B::lemma_rebuilt_twice(v.1, b, parts.subrange(n, parts.len() as int));
    }

    fn to_parts(&self) -> (r: Vec<GenericArg>) {
        let mut all = self.0.to_parts();
        let second = self.1.to_parts();
        let ghost first = args_view(all);
        let mut i: usize = 0;
        while i < second.len()
            invariant
                i <= second.len(),
                all.len() == first.len() + i,
                forall|j: int| 0 <= j < first.len() ==> arg_view(#[trigger] all[j]) == first[j],
                forall|k: int|
                    first.len() <= k < all.len() ==> arg_view(#[trigger] all[k]) == arg_view(
                        second[k - first.len()],
                    ),
            decreases second.len() - i,
        {
            all.push(second[i].clone());
            i += 1;
        }
        assert(args_view(all) =~= first + args_view(second));
        all
    }

    fn with_parts(&self, parts: Vec<GenericArg>) -> (r: (A, B)) {
        let n = self.0.to_parts().len();
        let ghost v = self@;
        let ghost all = args_view(parts);
        let first = copy_range(&parts, 0, n);
        let second = copy_range(&parts, n, parts.len());
        proof {
            assert forall|i: int| 0 <= i < n implies same_kind(
                #[trigger] args_view(first)[i],
                A::parts(v.0)[i],
            ) by {
                assert(same_kind(all[i], Self::parts(v)[i]));
            }
            assert forall|i: int| 0 <= i < all.len() - n implies same_kind(
                #[trigger] args_view(second)[i],
                B::parts(v.1)[i],
            ) by {
                assert(same_kind(all[n + i], Self::parts(v)[n + i]));
            }
        }
        (self.0.with_parts(first), self.1.with_parts(second))
    }
}

} // verus!
