//! The vocabulary that is handed to a trait solver and comes back from it:
//! trait references, where clauses, and the shapes of a verdict. These are
//! values that hold terms; deciding them is the solver's part.

use vstd::prelude::*;
use crate::binders::{Binders, Canonical};
use crate::subst::subst_prefix;
use crate::term::{same_kind, Fold};
use crate::ty::{arg_view, args_view, AssocTypeId, GenericArg, GenericArgView, Lifetime,
    LifetimeView, OpaqueTyId, Substitution, TraitId, Ty, TyView};

verus! {

/// A trait applied to its arguments, the first of which is the type that
/// implements it.
#[derive(Clone, Debug, PartialEq, Eq, Hash)]
pub struct TraitRef {
    pub trait_id: TraitId,
    pub substitution: Substitution,
}

pub struct TraitRefView {
    pub trait_id: TraitId,
    pub substitution: Seq<GenericArgView>,
}

impl View for TraitRef {
    type V = TraitRefView;

    open spec fn view(&self) -> TraitRefView {
        TraitRefView { trait_id: self.trait_id, substitution: self.substitution@ }
    }
}

impl TraitRef {
    /// The type that the reference says implements the trait.
    pub fn self_type_parameter(&self) -> (r: Ty)
        requires
            self@.substitution.len() > 0,
            self@.substitution[0] is Ty,
        ensures
            r@ == self@.substitution[0]->Ty_0,
    {
        match self.substitution.at(0) {
            GenericArg::Ty(t) => t.clone(),
            _ => vstd::pervasive::unreached(),
        }
    }
}

impl Fold for TraitRef {
    open spec fn parts(v: TraitRefView) -> Seq<GenericArgView> {
        v.substitution
    }

    open spec fn rebuilt(v: TraitRefView, parts: Seq<GenericArgView>) -> TraitRefView {
        TraitRefView { trait_id: v.trait_id, substitution: parts }
    }

    proof fn lemma_parts_rebuilt(v: TraitRefView, parts: Seq<GenericArgView>) {
    }

    proof fn lemma_rebuilt_parts(v: TraitRefView) {
    }

    proof fn lemma_rebuilt_twice(
        v: TraitRefView,
        first: Seq<GenericArgView>,
        parts: Seq<GenericArgView>,
    ) {
    }

    fn to_parts(&self) -> (r: Vec<GenericArg>) {
        self.substitution.clone().args
    }

    fn with_parts(&self, parts: Vec<GenericArg>) -> (r: TraitRef) {
        TraitRef { trait_id: self.trait_id, substitution: Substitution { args: parts } }
    }
}

/// `<Self as Trait>::Name<..>`: an associated type that is not normalized.
#[derive(Clone, Debug, PartialEq, Eq, Hash)]
pub struct ProjectionTy {
    pub associated_ty_id: AssocTypeId,
    pub substitution: Substitution,
}

/// An opaque type seen from where its hidden type may be revealed.
#[derive(Clone, Debug, PartialEq, Eq, Hash)]
pub struct OpaqueTy {
    pub opaque_ty_id: OpaqueTyId,
    pub substitution: Substitution,
}

#[derive(Clone, Debug, PartialEq, Eq, Hash)]
pub enum AliasTy {
    Projection(ProjectionTy),
    Opaque(OpaqueTy),
}

pub enum AliasTyView {
    Projection(AssocTypeId, Seq<GenericArgView>),
    Opaque(OpaqueTyId, Seq<GenericArgView>),
}

impl View for AliasTy {
    type V = AliasTyView;

    open spec fn view(&self) -> AliasTyView {
        match self {
            AliasTy::Projection(p) => AliasTyView::Projection(p.associated_ty_id, p.substitution@),
            AliasTy::Opaque(o) => AliasTyView::Opaque(o.opaque_ty_id, o.substitution@),
        }
    }
}

impl Fold for AliasTy {
    open spec fn parts(v: AliasTyView) -> Seq<GenericArgView> {
        match v {
            AliasTyView::Projection(_, s) => s,
            AliasTyView::Opaque(_, s) => s,
        }
    }

    open spec fn rebuilt(v: AliasTyView, parts: Seq<GenericArgView>) -> AliasTyView {
        match v {
            AliasTyView::Projection(id, _) => AliasTyView::Projection(id, parts),
            AliasTyView::Opaque(id, _) => AliasTyView::Opaque(id, parts),
        }
    }

    proof fn lemma_parts_rebuilt(v: AliasTyView, parts: Seq<GenericArgView>) {
    }

    proof fn lemma_rebuilt_parts(v: AliasTyView) {
    }

    proof fn lemma_rebuilt_twice(
        v: AliasTyView,
        first: Seq<GenericArgView>,
        parts: Seq<GenericArgView>,
    ) {
    }

    fn to_parts(&self) -> (r: Vec<GenericArg>) {
        match self {
            AliasTy::Projection(p) => p.substitution.clone().args,
            AliasTy::Opaque(o) => o.substitution.clone().args,
        }
    }

    fn with_parts(&self, parts: Vec<GenericArg>) -> (r: AliasTy) {
        match self {
            AliasTy::Projection(p) => AliasTy::Projection(
                ProjectionTy {
                    associated_ty_id: p.associated_ty_id,
                    substitution: Substitution { args: parts },
                },
            ),
            AliasTy::Opaque(o) => AliasTy::Opaque(
                OpaqueTy { opaque_ty_id: o.opaque_ty_id, substitution: Substitution { args: parts } },
            ),
        }
    }
}

/// The alias stands for the type.
#[derive(Clone, Debug, PartialEq, Eq, Hash)]
pub struct AliasEq {
    pub alias: AliasTy,
    pub ty: Ty,
}

pub struct AliasEqView {
    pub alias: AliasTyView,
    pub ty: TyView,
}

impl View for AliasEq {
    type V = AliasEqView;

    open spec fn view(&self) -> AliasEqView {
        AliasEqView { alias: self.alias@, ty: self.ty@ }
    }
}

/// An alias equation holds the arguments of the alias, then the type.
impl Fold for AliasEq {
    open spec fn parts(v: AliasEqView) -> Seq<GenericArgView> {
        AliasTy::parts(v.alias).push(GenericArgView::Ty(v.ty))
    }

    open spec fn rebuilt(v: AliasEqView, parts: Seq<GenericArgView>) -> AliasEqView {
        AliasEqView {
            alias: AliasTy::rebuilt(v.alias, parts.drop_last()),
            ty: parts.last()->Ty_0,
        }
    }

    proof fn lemma_parts_rebuilt(v: AliasEqView, parts: Seq<GenericArgView>) {
        assert(same_kind(parts[parts.len() - 1], Self::parts(v)[parts.len() - 1]));
        assert(Self::parts(Self::rebuilt(v, parts)) =~= parts);
    }

    proof fn lemma_rebuilt_parts(v: AliasEqView) {
        assert(Self::parts(v).drop_last() =~= AliasTy::parts(v.alias));
    }

    proof fn lemma_rebuilt_twice(
        v: AliasEqView,
        first: Seq<GenericArgView>,
        parts: Seq<GenericArgView>,
    ) {
    }

    fn to_parts(&self) -> (r: Vec<GenericArg>) {
        let mut parts = self.alias.to_parts();
        let ghost before = args_view(parts);
        parts.push(GenericArg::Ty(self.ty.clone()));
        assert(args_view(parts) =~= before.push(GenericArgView::Ty(self.ty@)));
        parts
    }

    fn with_parts(&self, parts: Vec<GenericArg>) -> (r: AliasEq) {
        let all = Substitution { args: parts };
        let n = all.args.len() - 1;
        proof {
            assert(same_kind(all@[n as int], Self::parts(self@)[n as int]));
            assert(all@[n as int] == arg_view(all.args[n as int]));
            assert(all@.take(n as int) =~= all@.drop_last());
            assert forall|i: int| 0 <= i < n implies same_kind(
                #[trigger] all@.drop_last()[i],
                AliasTy::parts(self@.alias)[i],
            ) by {
                assert(same_kind(all@[i], Self::parts(self@)[i]));
            }
        }
        let alias = self.alias.with_parts(subst_prefix(&all, n).args);
        match &all.args[n] {
            GenericArg::Ty(t) => AliasEq { alias, ty: t.clone() },
            _ => vstd::pervasive::unreached(),
        }
    }
}

/// `'a: 'b`.
#[derive(Clone, Copy, Debug, PartialEq, Eq, Hash)]
pub struct LifetimeOutlives {
    pub a: Lifetime,
    pub b: Lifetime,
}

/// `T: 'a`.
#[derive(Clone, Debug, PartialEq, Eq, Hash)]
pub struct TypeOutlives {
    pub ty: Ty,
    pub lifetime: Lifetime,
}

#[derive(Clone, Debug, PartialEq, Eq, Hash)]
pub enum WhereClause {
    Implemented(TraitRef),
    AliasEq(AliasEq),
    LifetimeOutlives(LifetimeOutlives),
    TypeOutlives(TypeOutlives),
}

pub enum WhereClauseView {
    Implemented(TraitRefView),
    AliasEq(AliasEqView),
    LifetimeOutlives(LifetimeView, LifetimeView),
    TypeOutlives(TyView, LifetimeView),
}

impl View for WhereClause {
    type V = WhereClauseView;

    open spec fn view(&self) -> WhereClauseView {
        match self {
            WhereClause::Implemented(t) => WhereClauseView::Implemented(t@),
            WhereClause::AliasEq(e) => WhereClauseView::AliasEq(e@),
            WhereClause::LifetimeOutlives(o) => WhereClauseView::LifetimeOutlives(o.a@, o.b@),
            WhereClause::TypeOutlives(o) => WhereClauseView::TypeOutlives(o.ty@, o.lifetime@),
        }
    }
}

fn two_parts(a: GenericArg, b: GenericArg) -> (r: Vec<GenericArg>)
    ensures
        args_view(r) == seq![a@, b@],
{
    let mut v: Vec<GenericArg> = Vec::new();
    v.push(a);
    v.push(b);
    assert(args_view(v) =~= seq![a@, b@]);
    v
}

/// A where clause holds the terms of the clause it is, from left to right.
impl Fold for WhereClause {
    open spec fn parts(v: WhereClauseView) -> Seq<GenericArgView> {
        match v {
            WhereClauseView::Implemented(t) => TraitRef::parts(t),
            WhereClauseView::AliasEq(e) => AliasEq::parts(e),
            WhereClauseView::LifetimeOutlives(a, b) => seq![
                GenericArgView::Lifetime(a),
                GenericArgView::Lifetime(b),
            ],
            WhereClauseView::TypeOutlives(ty, l) => seq![
                GenericArgView::Ty(ty),
                GenericArgView::Lifetime(l),
            ],
        }
    }

    open spec fn rebuilt(v: WhereClauseView, parts: Seq<GenericArgView>) -> WhereClauseView {
        match v {
            WhereClauseView::Implemented(t) => WhereClauseView::Implemented(
                TraitRef::rebuilt(t, parts),
            ),
            WhereClauseView::AliasEq(e) => WhereClauseView::AliasEq(AliasEq::rebuilt(e, parts)),
            WhereClauseView::LifetimeOutlives(_, _) => WhereClauseView::LifetimeOutlives(
                parts[0]->Lifetime_0,
                parts[1]->Lifetime_0,
            ),
            WhereClauseView::TypeOutlives(_, _) => WhereClauseView::TypeOutlives(
                parts[0]->Ty_0,
                parts[1]->Lifetime_0,
            ),
        }
    }

    proof fn lemma_parts_rebuilt(v: WhereClauseView, parts: Seq<GenericArgView>) {
        match v {
            WhereClauseView::Implemented(t) => {
                TraitRef::lemma_parts_rebuilt(t, parts);
            },
            WhereClauseView::AliasEq(e) => {
                AliasEq::lemma_parts_rebuilt(e, parts);
            },
            _ => {
                assert(same_kind(parts[0], Self::parts(v)[0]));
                assert(same_kind(parts[1], Self::parts(v)[1]));
                assert(Self::parts(Self::rebuilt(v, parts)) =~= parts);
            },
        }
    }

    proof fn lemma_rebuilt_parts(v: WhereClauseView) {
        match v {
            WhereClauseView::Implemented(t) => {
                TraitRef::lemma_rebuilt_parts(t);
            },
            WhereClauseView::AliasEq(e) => {
                AliasEq::lemma_rebuilt_parts(e);
            },
            _ => {},
        }
    }

    proof fn lemma_rebuilt_twice(
        v: WhereClauseView,
        first: Seq<GenericArgView>,
        parts: Seq<GenericArgView>,
    ) {
        match v {
            WhereClauseView::Implemented(t) => {
                TraitRef::lemma_rebuilt_twice(t, first, parts);
            },
            WhereClauseView::AliasEq(e) => {
                AliasEq::lemma_rebuilt_twice(e, first, parts);
            },
            _ => {},
        }
    }

    fn to_parts(&self) -> (r: Vec<GenericArg>) {
        match self {
            WhereClause::Implemented(t) => t.to_parts(),
            WhereClause::AliasEq(e) => e.to_parts(),
            WhereClause::LifetimeOutlives(o) => two_parts(
                GenericArg::Lifetime(o.a),
                GenericArg::Lifetime(o.b),
            ),
            WhereClause::TypeOutlives(o) => two_parts(
                GenericArg::Ty(o.ty.clone()),
                GenericArg::Lifetime(o.lifetime),
            ),
        }
    }

    fn with_parts(&self, parts: Vec<GenericArg>) -> (r: WhereClause) {
        match self {
            WhereClause::Implemented(t) => WhereClause::Implemented(t.with_parts(parts)),
            WhereClause::AliasEq(e) => WhereClause::AliasEq(e.with_parts(parts)),
            WhereClause::LifetimeOutlives(_) => {
                proof {
                    assert(same_kind(args_view(parts)[0], Self::parts(self@)[0]));
                    assert(same_kind(args_view(parts)[1], Self::parts(self@)[1]));
                    assert(args_view(parts)[0] == arg_view(parts[0]));
                    assert(args_view(parts)[1] == arg_view(parts[1]));
                }
                match (&parts[0], &parts[1]) {
                    (GenericArg::Lifetime(a), GenericArg::Lifetime(b)) => {
                        WhereClause::LifetimeOutlives(LifetimeOutlives { a: *a, b: *b })
                    },
                    _ => vstd::pervasive::unreached(),
                }
            },
            WhereClause::TypeOutlives(_) => {
                proof {
                    assert(same_kind(args_view(parts)[0], Self::parts(self@)[0]));
                    assert(same_kind(args_view(parts)[1], Self::parts(self@)[1]));
                    assert(args_view(parts)[0] == arg_view(parts[0]));
                    assert(args_view(parts)[1] == arg_view(parts[1]));
                }
                match (&parts[0], &parts[1]) {
                    (GenericArg::Ty(ty), GenericArg::Lifetime(l)) => {
                        WhereClause::TypeOutlives(TypeOutlives { ty: ty.clone(), lifetime: *l })
                    },
                    _ => vstd::pervasive::unreached(),
                }
            },
        }
    }
}

/// A where clause below a binder of its own, as in `for<'a> T: Trait<'a>`.
pub type QuantifiedWhereClause = Binders<WhereClause>;

/// What a solver may leave open beside a substitution.
#[derive(Clone, Debug, PartialEq, Eq, Hash)]
pub enum Constraint {
    LifetimeOutlives(Lifetime, Lifetime),
    TypeOutlives(Ty, Lifetime),
}

#[derive(Clone, Debug, PartialEq, Eq, Hash)]
pub struct ConstrainedSubst {
    pub subst: Substitution,
    pub constraints: Vec<Constraint>,
}

/// What a solver knows where it found no single answer.
#[derive(Clone, Debug, PartialEq, Eq, Hash)]
pub enum Guidance {
    /// Every answer, if there is one, agrees with this substitution.
    Definite(Canonical<Substitution>),
    /// Some answers agree with this substitution; it is a good guess.
    Suggested(Canonical<Substitution>),
    Unknown,
}

/// The verdict of a solver on a goal that has a solution. That a goal has
/// none is told by the absence of a verdict.
#[derive(Clone, Debug, PartialEq, Eq, Hash)]
pub enum Solution {
    Unique(Canonical<ConstrainedSubst>),
    Ambig(Guidance),
}

} // verus!
