//! Binder-relative indices: how a variable occurrence names the binder that
//! declares it, and the position inside that binder.

use vstd::prelude::*;

verus! {

/// Counts the binders that lie between a variable occurrence and the binder
/// that declares it. Depth `0` names the innermost enclosing binder.
#[derive(Clone, Copy, Debug, PartialEq, Eq, Hash, PartialOrd, Ord, Structural)]
pub struct DebruijnIndex {
    pub depth: u32,
}

impl View for DebruijnIndex {
    type V = nat;

    open spec fn view(&self) -> nat {
        self.depth as nat
    }
}

impl DebruijnIndex {
    /// The index of the innermost binder.
    pub fn innermost() -> (r: DebruijnIndex)
        ensures
            r@ == 0,
    {
        DebruijnIndex { depth: 0 }
    }

    /// The index one level above the innermost binder.
    pub fn one() -> (r: DebruijnIndex)
        ensures
            r@ == 1,
    {
        DebruijnIndex { depth: 1 }
    }

    pub fn new(depth: u32) -> (r: DebruijnIndex)
        ensures
            r@ == depth,
    {
        DebruijnIndex { depth }
    }

    pub fn depth(self) -> (d: u32)
        ensures
            d == self@,
    {
        self.depth
    }

    /// Whether the binder that `self` names lies strictly inside the binder
    /// that `outer_binder` names.
    pub fn within(self, outer_binder: DebruijnIndex) -> (b: bool)
        ensures
            b == (self@ < outer_binder@),
    {
        self.depth < outer_binder.depth
    }

    /// The index of the same binder as seen from below one more binder.
    pub fn shifted_in(self) -> (r: DebruijnIndex)
        requires
            self@ + 1 <= u32::MAX,
        ensures
            r@ == self@ + 1,
    {
        DebruijnIndex { depth: self.depth + 1 }
    }

    /// The index of the same binder as seen from below `outer_binder` more
    /// binders.
    pub fn shifted_in_from(self, outer_binder: DebruijnIndex) -> (r: DebruijnIndex)
        requires
            self@ + outer_binder@ <= u32::MAX,
        ensures
            r@ == self@ + outer_binder@,
    {
        DebruijnIndex { depth: self.depth + outer_binder.depth }
    }

    /// The index of the same binder as seen from above the innermost binder,
    /// or `None` where `self` names that binder.
    pub fn shifted_out(self) -> (r: Option<DebruijnIndex>)
        ensures
            self@ < 1 <==> r is None,
            r matches Some(d) ==> d@ == self@ - 1,
    {
        if self.depth < 1 {
            None
        } else {
            Some(DebruijnIndex { depth: self.depth - 1 })
        }
    }

    /// The index of the same binder as seen from above the `outer_binder`
    /// innermost binders, or `None` where `self` names one of them.
    pub fn shifted_out_to(self, outer_binder: DebruijnIndex) -> (r: Option<DebruijnIndex>)
        ensures
            self@ < outer_binder@ <==> r is None,
            r matches Some(d) ==> d@ == self@ - outer_binder@,
    {
        if self.depth < outer_binder.depth {
            None
        } else {
            Some(DebruijnIndex { depth: self.depth - outer_binder.depth })
        }
    }
}

/// A variable occurrence in the model: the binder it names and its position
/// among that binder's variables, both unbounded.
pub struct BoundVarView {
    pub depth: nat,
    pub index: nat,
}

/// A variable occurrence: the binder it names and its position among that
/// binder's variables.
#[derive(Clone, Copy, Debug, PartialEq, Eq, Hash, PartialOrd, Ord, Structural)]
pub struct BoundVar {
    pub debruijn: DebruijnIndex,
    pub index: usize,
}

impl View for BoundVar {
    type V = BoundVarView;

    open spec fn view(&self) -> BoundVarView {
        BoundVarView { depth: self.debruijn@, index: self.index as nat }
    }
}

impl BoundVar {
    pub fn new(debruijn: DebruijnIndex, index: usize) -> (r: BoundVar)
        ensures
            r == (BoundVar { debruijn, index }),
    {
        BoundVar { debruijn, index }
    }

    /// Whether the variable is declared by one of the `outer_binder`
    /// innermost binders.
    pub fn bound_within(self, outer_binder: DebruijnIndex) -> (b: bool)
        ensures
            b == (self@.depth < outer_binder@),
    {
        self.debruijn.within(outer_binder)
    }

    pub fn shifted_in(self) -> (r: BoundVar)
        requires
            self@.depth + 1 <= u32::MAX,
        ensures
            r@ == (BoundVarView { depth: self@.depth + 1, index: self@.index }),
    {
        BoundVar { debruijn: self.debruijn.shifted_in(), index: self.index }
    }

    pub fn shifted_in_from(self, outer_binder: DebruijnIndex) -> (r: BoundVar)
        requires
            self@.depth + outer_binder@ <= u32::MAX,
        ensures
            r@ == (BoundVarView { depth: self@.depth + outer_binder@, index: self@.index }),
    {
        BoundVar { debruijn: self.debruijn.shifted_in_from(outer_binder), index: self.index }
    }

    pub fn shifted_out(self) -> (r: Option<BoundVar>)
        ensures
            self@.depth < 1 <==> r is None,
            r matches Some(v) ==> v@ == (BoundVarView {
                depth: (self@.depth - 1) as nat,
                index: self@.index,
            }),
    {
        match self.debruijn.shifted_out() {
            Some(debruijn) => Some(BoundVar { debruijn, index: self.index }),
            None => None,
        }
    }

    pub fn shifted_out_to(self, outer_binder: DebruijnIndex) -> (r: Option<BoundVar>)
        ensures
            self@.depth < outer_binder@ <==> r is None,
            r matches Some(v) ==> v@ == (BoundVarView {
                depth: (self@.depth - outer_binder@) as nat,
                index: self@.index,
            }),
    {
        match self.debruijn.shifted_out_to(outer_binder) {
            Some(debruijn) => Some(BoundVar { debruijn, index: self.index }),
            None => None,
        }
    }

    /// The position of the variable, where the innermost binder declares it.
    pub fn index_if_innermost(self) -> (r: Option<usize>)
        ensures
            r == (if self@.depth == 0 {
                Some(self.index)
            } else {
                None
            }),
    {
        self.index_if_bound_at(DebruijnIndex::innermost())
    }

    /// The position of the variable, where the binder at `debruijn` declares
    /// it.
    pub fn index_if_bound_at(self, debruijn: DebruijnIndex) -> (r: Option<usize>)
        ensures
            r == (if self@.depth == debruijn@ {
                Some(self.index)
            } else {
                None
            }),
    {
        if self.debruijn.depth == debruijn.depth {
            Some(self.index)
        } else {
            None
        }
    }
}

/// The universe a placeholder or a canonical variable lives in.
#[derive(Clone, Copy, Debug, PartialEq, Eq, Hash, PartialOrd, Ord, Structural)]
pub struct UniverseIndex {
    pub counter: usize,
}

impl UniverseIndex {
    /// The root universe, which every other universe can see.
    pub fn root() -> (r: UniverseIndex)
        ensures
            r.counter == 0,
    {
        UniverseIndex { counter: 0 }
    }

    /// Whether names of universe `ui` are visible in `self`.
    pub fn can_see(self, ui: UniverseIndex) -> (b: bool)
        ensures
            b == (self.counter >= ui.counter),
    {
        self.counter >= ui.counter
    }
}

/// A type, lifetime or constant whose value is still being inferred.
#[derive(Clone, Copy, Debug, PartialEq, Eq, Hash, PartialOrd, Ord, Structural)]
pub struct InferenceVar {
    pub index: u32,
}

/// A universally quantified parameter that was moved into the environment:
/// its universe and its position there.
#[derive(Clone, Copy, Debug, PartialEq, Eq, Hash, PartialOrd, Ord, Structural)]
pub struct PlaceholderIndex {
    pub ui: UniverseIndex,
    pub idx: usize,
}

/// What is known of a type variable beyond its being a type.
#[derive(Clone, Copy, Debug, PartialEq, Eq, Hash, Structural)]
pub enum TyVariableKind {
    General,
    Integer,
    Float,
}

} // verus!
