//! The type-term kernel of a static type system for a language with generics
//! and interface bounds.
//!
//! - `index`: de Bruijn indices and bound variables.
//! - `ty`: types, lifetimes, constants and generic arguments, with the
//!   mathematical model (the `*View` types) that every contract speaks of.
//! - `intern`: a table that hands out one handle for each type.
//! - `term`: what it means for a value to hold terms (`Fold`).
//! - `shift`: moving terms into and out of binders.
//! - `subst`: substitutions, and instantiating one binder.
//! - `binders`: binders and canonical forms over any value that holds terms.
//! - `canonical`: replacing unknown types by variables of a canonical form.
//! - `callable_sig`: flattened function signatures.
//! - `fold`: rewriting terms with a function of the caller.
//! - `traits`: the vocabulary shared with a trait solver.
//! - `impl_trait`: keys for opaque types, positions of generic parameters.
//! - `laws`: what holds of every term, proved.
//! - `assists`: what a check of a code assist decides.
//!
//! Every executable function carries a contract, and every contract is
//! machine checked. A function that could fail on some input either says in
//! its `requires` what it needs or returns an `Option` and says exactly when
//! it is `None`; none of them panics.

pub mod index;
pub mod ty;
pub mod intern;
pub mod term;
pub mod shift;
pub mod subst;
pub mod binders;
pub mod canonical;
pub mod callable_sig;
pub mod fold;
pub mod laws;
pub mod traits;
pub mod impl_trait;
pub mod assists;

pub use binders::{make_canonical, make_only_type_binders, wrap_empty_binders, Binders, Canonical,
    CanonicalVarKind, VariableKind};
pub use callable_sig::{CallableSig, PolyFnSig};
pub use canonical::{replace_errors_recording, replace_errors_with_variables, ErrorsReplaced};
pub use fold::{fold_free_vars, fold_tys};
pub use impl_trait::{param_idx, ImplTraitId, ReturnTypeImplTrait, ReturnTypeImplTraits};
pub use intern::{InternedTy, TyInterner};
pub use index::{BoundVar, DebruijnIndex, InferenceVar, PlaceholderIndex, TyVariableKind,
    UniverseIndex};
pub use subst::subst_prefix;
pub use term::Fold;
pub use traits::{AliasEq, AliasTy, ConstrainedSubst, Guidance, LifetimeOutlives, OpaqueTy,
    ProjectionTy, QuantifiedWhereClause, Solution, TraitRef, WhereClause};
pub use ty::{dummy_usize_const, static_lifetime, AdtId, AssocTypeId, ClosureId,
    ConcreteConst, Const, ConstScalar, ConstValue, FloatTy, FnDefId, FnPointer, FnSig,
    ForeignDefId, IntTy, UintTy,
    GenericArg, Lifetime, Mutability, OpaqueTyId, Safety, Scalar, Substitution, TraitId, Ty,
    TypeCtor};
