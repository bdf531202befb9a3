//! Keys for opaque types, and positions of generic parameters.

use vstd::prelude::*;
use crate::binders::Binders;
use crate::traits::QuantifiedWhereClause;

verus! {

#[derive(Clone, Copy, Debug, PartialEq, Eq, Hash, Structural)]
pub struct FunctionId(pub u32);

#[derive(Clone, Copy, Debug, PartialEq, Eq, Hash, Structural)]
pub struct StaticId(pub u32);

#[derive(Clone, Copy, Debug, PartialEq, Eq, Hash, Structural)]
pub struct ConstId(pub u32);

/// An item that owns a body.
#[derive(Clone, Copy, Debug, PartialEq, Eq, Hash, Structural)]
pub enum DefWithBodyId {
    FunctionId(FunctionId),
    StaticId(StaticId),
    ConstId(ConstId),
}

/// An expression of a body.
#[derive(Clone, Copy, Debug, PartialEq, Eq, Hash, Structural)]
pub struct ExprId(pub u32);

/// The identity of one opaque type: the function that returns it and its
/// position among the opaque types of that function's return type, or the
/// body and the expression of the `async` block that it is the type of.
/// Two keys are equal exactly where their parts are.
#[derive(Clone, Copy, Debug, PartialEq, Eq, Hash, Structural)]
pub enum ImplTraitId {
    ReturnTypeImplTrait(FunctionId, u16),
    AsyncBlockTypeImplTrait(DefWithBodyId, ExprId),
}

/// The bounds of one opaque type, below the binder of the type itself.
#[derive(Clone, Debug, PartialEq, Eq, Hash)]
pub struct ReturnTypeImplTrait {
    pub bounds: Binders<Vec<QuantifiedWhereClause>>,
}

/// The opaque types of the return type of one function, by position.
#[derive(Clone, Debug, PartialEq, Eq, Hash)]
pub struct ReturnTypeImplTraits {
    pub impl_traits: Vec<ReturnTypeImplTrait>,
}

/// An item that can declare generic parameters.
#[derive(Clone, Copy, Debug, PartialEq, Eq, Hash, Structural)]
pub struct GenericDefId(pub u32);

/// A type parameter: the item that declares it and its number there.
#[derive(Clone, Copy, Debug, PartialEq, Eq, Hash, Structural)]
pub struct TypeParamId {
    pub parent: GenericDefId,
    pub local_id: u32,
}

/// Whether `i` is the first position of `id` in `params`.
pub open spec fn is_param_idx(params: Seq<TypeParamId>, id: TypeParamId, i: int) -> bool {
    &&& 0 <= i < params.len()
    &&& params[i] == id
    &&& forall|j: int| 0 <= j < i ==> #[trigger] params[j] != id
}

/// The position of a type parameter among the type parameters that are in
/// scope at its declaration, given in the order of the binder: those of the
/// enclosing items first. `None` where it is not among them.
pub fn param_idx(params: &Vec<TypeParamId>, id: TypeParamId) -> (r: Option<usize>)
    ensures
        r matches Some(i) ==> is_param_idx(params@, id, i as int),
        r is None ==> !params@.contains(id),
{
    let mut i: usize = 0;
    while i < params.len()
        invariant
            i <= params.len(),
            forall|j: int| 0 <= j < i ==> #[trigger] params@[j] != id,
        decreases params.len() - i,
    {
        if params[i] == id {
            return Some(i);
        }
        i += 1;
    }
    None
}

} // verus!
