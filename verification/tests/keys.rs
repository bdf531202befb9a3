use std::collections::hash_map::DefaultHasher;
use std::hash::{Hash, Hasher};

use hir_ty::impl_trait::{DefWithBodyId, ExprId, FunctionId, GenericDefId, TypeParamId};
use hir_ty::{param_idx, ImplTraitId};

fn hash_of(id: &ImplTraitId) -> u64 {
    let mut hasher = DefaultHasher::new();
    id.hash(&mut hasher);
    hasher.finish()
}

#[test]
fn impl_trait_ids_are_equal_where_their_parts_are() {
    let f = FunctionId(10);
    let g = FunctionId(11);
    let a = ImplTraitId::ReturnTypeImplTrait(f, 0);
    let again = ImplTraitId::ReturnTypeImplTrait(f, 0);
    let next = ImplTraitId::ReturnTypeImplTrait(f, 1);
    let other = ImplTraitId::ReturnTypeImplTrait(g, 0);
    assert_eq!(a, again);
    assert_eq!(hash_of(&a), hash_of(&again));
    assert_ne!(a, next);
    assert_ne!(a, other);
    assert_ne!(next, other);
}

#[test]
fn async_block_ids_differ_from_return_type_ids() {
    let block = ImplTraitId::AsyncBlockTypeImplTrait(DefWithBodyId::FunctionId(FunctionId(10)), ExprId(0));
    assert_ne!(block, ImplTraitId::ReturnTypeImplTrait(FunctionId(10), 0));
    assert_eq!(
        block,
        ImplTraitId::AsyncBlockTypeImplTrait(DefWithBodyId::FunctionId(FunctionId(10)), ExprId(0))
    );
    assert_ne!(
        block,
        ImplTraitId::AsyncBlockTypeImplTrait(DefWithBodyId::FunctionId(FunctionId(10)), ExprId(1))
    );
}

#[test]
fn param_idx_is_the_position_in_the_binder() {
    let outer = GenericDefId(1);
    let inner = GenericDefId(2);
    let params = vec![
        TypeParamId { parent: outer, local_id: 0 },
        TypeParamId { parent: outer, local_id: 1 },
        TypeParamId { parent: inner, local_id: 0 },
    ];
    assert_eq!(param_idx(&params, TypeParamId { parent: outer, local_id: 1 }), Some(1));
    assert_eq!(param_idx(&params, TypeParamId { parent: inner, local_id: 0 }), Some(2));
    assert_eq!(param_idx(&params, TypeParamId { parent: inner, local_id: 1 }), None);
    assert_eq!(param_idx(&Vec::new(), TypeParamId { parent: outer, local_id: 0 }), None);
}
