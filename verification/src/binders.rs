//! Binders: a list of variable kinds over a payload whose variables name
//! them by position, and canonical forms, whose binder closes over what was
//! free or unknown in the payload.

use vstd::prelude::*;
use crate::index::{TyVariableKind, UniverseIndex};
use crate::shift::{args_shift, args_shifted, args_span, args_span_of, is_span};
use crate::subst::{args_are_instantiable, args_instantiable, args_subst, args_substituted,
    lemma_subst_same_kinds};
use crate::term::{same_kinds, Fold};
use crate::ty::{args_view, GenericArgView, Substitution, Ty, TyView};

verus! {

/// The kind of one variable of a binder.
#[derive(Debug, PartialEq, Eq, Hash)]
pub enum VariableKind {
    Ty(TyVariableKind),
    Lifetime,
    /// A constant of the given type.
    Const(Ty),
}

pub enum VariableKindView {
    Ty(TyVariableKind),
    Lifetime,
    Const(TyView),
}

impl View for VariableKind {
    type V = VariableKindView;

    open spec fn view(&self) -> VariableKindView {
        match *self {
            VariableKind::Ty(k) => VariableKindView::Ty(k),
            VariableKind::Lifetime => VariableKindView::Lifetime,
            VariableKind::Const(t) => VariableKindView::Const(t@),
        }
    }
}

impl Clone for VariableKind {
    fn clone(&self) -> (r: VariableKind)
        ensures
            r@ == self@,
    {
        match self {
            VariableKind::Ty(k) => VariableKind::Ty(*k),
            VariableKind::Lifetime => VariableKind::Lifetime,
            VariableKind::Const(t) => VariableKind::Const(t.clone()),
        }
    }
}

/// The kind of one variable of a canonical form, and the universe it lives
/// in.
#[derive(Clone, Debug, PartialEq, Eq, Hash)]
pub struct CanonicalVarKind {
    pub kind: VariableKind,
    pub universe: UniverseIndex,
}

impl CanonicalVarKind {
    pub fn new(kind: VariableKind, universe: UniverseIndex) -> (r: CanonicalVarKind)
        ensures
            r == (CanonicalVarKind { kind, universe }),
    {
        CanonicalVarKind { kind, universe }
    }
}

/// A payload below one binder. A variable of depth `0` in the payload names
/// the kind at its position in `binders`.
#[derive(Clone, Debug, PartialEq, Eq, Hash)]
pub struct Binders<T> {
    pub binders: Vec<VariableKind>,
    pub value: T,
}

/// A payload together with the kinds of the variables that were free or
/// unknown in it and that are now bound, by position, just outside it.
#[derive(Clone, Debug, PartialEq, Eq, Hash)]
pub struct Canonical<T> {
    pub value: T,
    pub binders: Vec<CanonicalVarKind>,
}

impl<T> Binders<T> {
    pub fn new(binders: Vec<VariableKind>, value: T) -> (r: Binders<T>)
        ensures
            r == (Binders { binders, value }),
    {
        Binders { binders, value }
    }

    /// The payload below a binder without variables.
    pub fn empty(value: T) -> (r: Binders<T>)
        ensures
            r.binders@.len() == 0,
            r.value == value,
    {
        Binders { binders: Vec::new(), value }
    }

    /// The payload, with its variables still naming the binder.
    pub fn skip_binders(&self) -> (r: &T)
        ensures
            *r == self.value,
    {
        &self.value
    }

    /// The number of variables that the binder declares.
    pub fn len(&self) -> (n: usize)
        ensures
            n == self.binders@.len(),
    {
        self.binders.len()
    }
}

/// Whether each of the kinds is that of a general type variable.
pub open spec fn only_general_types(kinds: Seq<VariableKind>) -> bool {
    forall|i: int|
        0 <= i < kinds.len() ==> #[trigger] kinds[i] == VariableKind::Ty(TyVariableKind::General)
}

/// The payload below a binder of `num_vars` general type variables.
pub fn make_only_type_binders<T>(num_vars: usize, value: T) -> (r: Binders<T>)
    ensures
        r.value == value,
        r.binders@.len() == num_vars,
        only_general_types(r.binders@),
{
    let mut binders: Vec<VariableKind> = Vec::new();
    let mut i: usize = 0;
    while i < num_vars
        invariant
            i <= num_vars,
            binders@.len() == i,
            only_general_types(binders@),
        decreases num_vars - i,
    {
        binders.push(VariableKind::Ty(TyVariableKind::General));
        i += 1;
    }
    Binders { binders, value }
}

/// Whether the canonical kinds are type variables of the kinds given, in
/// order, each in the root universe.
pub open spec fn type_kinds_in_root(binders: Seq<CanonicalVarKind>, kinds: Seq<TyVariableKind>) -> bool {
    &&& binders.len() == kinds.len()
    &&& forall|i: int|
        0 <= i < binders.len() ==> #[trigger] binders[i] == (CanonicalVarKind {
            kind: VariableKind::Ty(kinds[i]),
            universe: UniverseIndex { counter: 0 },
        })
}

/// The canonical form of a payload whose free variables are known: type
/// variables of the kinds given, in order, each in the root universe.
pub fn make_canonical<T>(value: T, kinds: Vec<TyVariableKind>) -> (r: Canonical<T>)
    ensures
        r.value == value,
        type_kinds_in_root(r.binders@, kinds@),
{
    let mut binders: Vec<CanonicalVarKind> = Vec::new();
    let mut i: usize = 0;
    while i < kinds.len()
        invariant
            i <= kinds.len(),
            type_kinds_in_root(binders@, kinds@.take(i as int)),
        decreases kinds.len() - i,
    {
        binders.push(CanonicalVarKind::new(VariableKind::Ty(kinds[i]), UniverseIndex::root()));
        i += 1;
    }
    assert(kinds@.take(kinds.len() as int) =~= kinds@);
    Canonical { value, binders }
}

/// The value `v` with its terms moved below one more binder (`delta` of
/// `1`) or lifted out of one (`delta` of `-1`).
pub open spec fn shifted<T: Fold>(v: T::V, delta: int) -> T::V {
    T::rebuilt(v, args_shift(T::parts(v), delta, 0))
}

/// The value `v` with the binder just outside it instantiated.
pub open spec fn substituted<T: Fold>(v: T::V, parameters: Seq<GenericArgView>) -> T::V {
    T::rebuilt(v, args_subst(T::parts(v), parameters, 0))
}

/// How far the terms of a value reach, or `None` where that is beyond the
/// machine's range of depths.
pub fn span_of<T: Fold>(t: &T) -> (r: Option<u32>)
    ensures
        is_span(r, args_span(T::parts(t@))),
{
    let parts = t.to_parts();
    args_span_of(&parts)
}

/// A value that is not generic, stored where a generic one is expected: the
/// value below a binder without variables. Its free variables are
/// renumbered so that they name, from below the new binder, what they named
/// before.
pub fn wrap_empty_binders<T: Fold>(value: T) -> (r: Binders<T>)
    requires
        args_span(T::parts(value@)) + 1 <= u32::MAX,
    ensures
        r.binders@.len() == 0,
        r.value@ == shifted::<T>(value@, 1),
{
    let parts = value.to_parts();
    match args_shifted(&parts, false, 1, 0) {
        Some(moved) => {
            assert(same_kinds(args_view(moved), T::parts(value@)));
            Binders::empty(value.with_parts(moved))
        },
        None => vstd::pervasive::unreached(),
    }
}

impl<T: Fold> Binders<T> {
    /// Whether `parameters` can take the place of the variables of the
    /// binder: it holds one argument for each variable, each of the kind
    /// that the payload uses it at, and payload and arguments together stay
    /// inside the machine's range of depths.
    pub open spec fn accepts(&self, parameters: Seq<GenericArgView>) -> bool {
        &&& parameters.len() == self.binders@.len()
        &&& args_instantiable(T::parts(self.value@), parameters, 0)
        &&& args_span(T::parts(self.value@)) + args_span(parameters) <= u32::MAX
    }

    /// The payload with `parameters` in place of the variables of the
    /// binder: the variable at position `i` gives way to the argument at
    /// position `i`. The substitution holds one argument for each variable
    /// of the binder, each of the kind that the payload uses it at.
    pub fn substitute(&self, parameters: &Substitution) -> (r: T)
        requires
            self.accepts(parameters@),
        ensures
            r@ == substituted::<T>(self.value@, parameters@),
    {
        let parts = self.value.to_parts();
        let instance = args_substituted(&parts, &parameters.args, 0);
        proof {
            lemma_subst_same_kinds(T::parts(self.value@), parameters@, 0);
        }
        self.value.with_parts(instance)
    }

    /// As `substitute`, for a caller who cannot vouch for `parameters`:
    /// `None` where the binder does not accept them.
    pub fn try_substitute(&self, parameters: &Substitution) -> (r: Option<T>)
        ensures
            r is Some <==> self.accepts(parameters@),
            r matches Some(t) ==> t@ == substituted::<T>(self.value@, parameters@),
    {
        if parameters.args.len() != self.binders.len() {
            return None;
        }
        let parts = self.value.to_parts();
        match (args_span_of(&parts), parameters.span()) {
            (Some(a), Some(b)) => {
                if a > u32::MAX - b {
                    None
                } else if args_are_instantiable(&parts, &parameters.args, 0) {
                    let instance = args_substituted(&parts, &parameters.args, 0);
                    proof {
                        lemma_subst_same_kinds(T::parts(self.value@), parameters@, 0);
                    }
                    Some(self.value.with_parts(instance))
                } else {
                    None
                }
            },
            _ => None,
        }
    }
}

} // verus!
