//! Interning: one handle for each type, however often it is built. Handles
//! compare in one step, and two handles of one table are equal exactly
//! where the types they stand for are the same term.

use vstd::prelude::*;
use crate::ty::{Ty, TyView};

verus! {

/// The handle of a type in the table that handed it out.
#[derive(Clone, Copy, Debug, PartialEq, Eq, Hash, Structural)]
pub struct InternedTy {
    pub index: usize,
}

/// Whether no term stands twice in the sequence.
pub open spec fn distinct(s: Seq<TyView>) -> bool {
    forall|i: int, j: int| 0 <= i < j < s.len() ==> s[i] != s[j]
}

/// In a sequence that holds no term twice, a term has one position.
pub proof fn lemma_one_handle_per_term(s: Seq<TyView>, i: int, j: int)
    requires
        distinct(s),
        0 <= i < s.len(),
        0 <= j < s.len(),
        s[i] == s[j],
    ensures
        i == j,
{
    if i < j {
        assert(s[i] != s[j]);
    } else if j < i {
        assert(s[j] != s[i]);
    }
}

/// A table of types. Entries are added at the end and never change or
/// leave.
pub struct TyInterner {
    table: Vec<Ty>,
}

impl View for TyInterner {
    type V = Seq<TyView>;

    closed spec fn view(&self) -> Seq<TyView> {
        Seq::new(self.table@.len(), |i: int| self.table@[i]@)
    }
}

impl TyInterner {
    /// Whether the table is well formed: it holds no term twice.
    pub open spec fn wf(&self) -> bool {
        distinct(self@)
    }

    pub fn new() -> (r: TyInterner)
        ensures
            r@.len() == 0,
            r.wf(),
    {
        TyInterner { table: Vec::new() }
    }

    /// The number of types in the table.
    pub fn len(&self) -> (n: usize)
        ensures
            n == self@.len(),
    {
        self.table.len()
    }

    /// The handle of the type in the table, where the table holds it.
    pub fn find(&self, ty: &Ty) -> (r: Option<InternedTy>)
        ensures
            r matches Some(h) ==> h.index < self@.len() && self@[h.index as int] == ty@,
            r is None ==> !self@.contains(ty@),
    {
        let mut i: usize = 0;
        while i < self.table.len()
            invariant
                i <= self.table.len(),
                forall|j: int| 0 <= j < i ==> self@[j] != ty@,
            decreases self.table.len() - i,
        {
            if self.table[i].same_as(ty) {
                return Some(InternedTy { index: i });
            }
            i += 1;
        }
        None
    }

    /// The handle of the type. A type that the table holds keeps its handle
    /// and leaves the table as it is; another type is added at the end.
    /// Either way the entries that were there stay what and where they were.
    pub fn intern(&mut self, ty: Ty) -> (h: InternedTy)
        requires
            old(self).wf(),
        ensures
            final(self).wf(),
            h.index < final(self)@.len(),
            final(self)@[h.index as int] == ty@,
            old(self)@.contains(ty@) ==> final(self)@ == old(self)@,
            !old(self)@.contains(ty@) ==> final(self)@ == old(self)@.push(ty@),
    {
        match self.find(&ty) {
            Some(h) => h,
            None => {
                let index = self.table.len();
                let ghost before = self@;
                self.table.push(ty);
                assert(self@ =~= before.push(ty@));
                InternedTy { index }
            },
        }
    }

    /// The type that the handle stands for.
    pub fn lookup(&self, h: InternedTy) -> (r: &Ty)
        requires
            h.index < self@.len(),
        ensures
            r@ == self@[h.index as int],
    {
        &self.table[h.index]
    }

    /// Whether the two handles stand for the same type, decided on the
    /// handles alone.
    pub fn same(&self, a: InternedTy, b: InternedTy) -> (r: bool)
        requires
            self.wf(),
            a.index < self@.len(),
            b.index < self@.len(),
        ensures
            r == (a == b),
            r == (self@[a.index as int] == self@[b.index as int]),
    {
        a.index == b.index
    }
}

} // verus!
