//! Terms: types, lifetimes, constants and generic arguments, each with the
//! mathematical model (its view) that the contracts of this crate speak of.
//!
//! A term is a finite tree. Variables are de Bruijn indexed: an occurrence
//! names its binder by the number of binders between the two. Function
//! pointer types are the binders that occur inside terms.

use vstd::prelude::*;
use crate::index::{BoundVar, BoundVarView, InferenceVar, PlaceholderIndex, TyVariableKind,
    UniverseIndex};

verus! {

#[derive(Clone, Copy, Debug, PartialEq, Eq, Hash, Structural)]
pub enum IntTy {
    Isize,
    I8,
    I16,
    I32,
    I64,
    I128,
}

#[derive(Clone, Copy, Debug, PartialEq, Eq, Hash, Structural)]
pub enum UintTy {
    Usize,
    U8,
    U16,
    U32,
    U64,
    U128,
}

#[derive(Clone, Copy, Debug, PartialEq, Eq, Hash, Structural)]
pub enum FloatTy {
    F32,
    F64,
}

/// The primitive scalar types.
#[derive(Clone, Copy, Debug, PartialEq, Eq, Hash, Structural)]
pub enum Scalar {
    Bool,
    Char,
    Int(IntTy),
    Uint(UintTy),
    Float(FloatTy),
}

/// Whether a function may be called from safe code.
#[derive(Clone, Copy, Debug, PartialEq, Eq, Hash, Structural)]
pub enum Safety {
    Safe,
    Unsafe,
}

#[derive(Clone, Copy, Debug, PartialEq, Eq, Hash, Structural)]
pub enum Mutability {
    Mut,
    Not,
}

#[derive(Clone, Copy, Debug, PartialEq, Eq, Hash, Structural)]
pub struct AdtId(pub u32);

#[derive(Clone, Copy, Debug, PartialEq, Eq, Hash, Structural)]
pub struct AssocTypeId(pub u32);

#[derive(Clone, Copy, Debug, PartialEq, Eq, Hash, Structural)]
pub struct OpaqueTyId(pub u32);

#[derive(Clone, Copy, Debug, PartialEq, Eq, Hash, Structural)]
pub struct FnDefId(pub u32);

#[derive(Clone, Copy, Debug, PartialEq, Eq, Hash, Structural)]
pub struct ClosureId(pub u32);

#[derive(Clone, Copy, Debug, PartialEq, Eq, Hash, Structural)]
pub struct ForeignDefId(pub u32);

#[derive(Clone, Copy, Debug, PartialEq, Eq, Hash, Structural)]
pub struct TraitId(pub u32);

/// The head of a type that is a constructor applied to generic arguments.
#[derive(Clone, Copy, Debug, PartialEq, Eq, Hash, Structural)]
pub enum TypeCtor {
    /// A struct, union or enum.
    Adt(AdtId),
    /// An associated type that was resolved to its declaration.
    AssociatedType(AssocTypeId),
    /// A tuple of the given arity.
    Tuple(usize),
    /// An opaque type: an unnamed implementation of its bounds.
    OpaqueType(OpaqueTyId),
    /// The type of a function item.
    FnDef(FnDefId),
    /// The type of a closure expression.
    Closure(ClosureId),
    /// A projection `<T as Trait>::Item` that is not yet normalized.
    Projection(AssocTypeId),
}

/// The value of a constant where it is known.
#[derive(Clone, Copy, Debug, PartialEq, Eq, Hash, Structural)]
pub enum ConstScalar {
    Usize(u64),
    Unknown,
}

#[derive(Clone, Copy, Debug, PartialEq, Eq, Hash, Structural)]
pub struct ConcreteConst {
    pub interned: ConstScalar,
}

/// The calling convention of a function pointer, as far as the kernel keeps
/// it: whether it is safe to call and whether it is variadic.
#[derive(Clone, Copy, Debug, PartialEq, Eq, Hash, Structural)]
pub struct FnSig {
    pub safety: Safety,
    pub variadic: bool,
}

// ---------------------------------------------------------------------------
// The model

pub enum LifetimeView {
    BoundVar(BoundVarView),
    InferenceVar(InferenceVar),
    Placeholder(PlaceholderIndex),
    Static,
    Empty(UniverseIndex),
    Erased,
}

pub enum ConstValueView {
    BoundVar(BoundVarView),
    InferenceVar(InferenceVar),
    Placeholder(PlaceholderIndex),
    Concrete(ConcreteConst),
}

pub struct ConstView {
    pub ty: TyView,
    pub value: ConstValueView,
}

pub enum GenericArgView {
    Ty(TyView),
    Lifetime(LifetimeView),
    Const(ConstView),
}

/// `for<'a0, .., 'an> fn(..) -> ..`: the arguments are the parameter types
/// followed by the return type, and stand below one binder.
pub struct FnPointerView {
    pub num_binders: nat,
    pub sig: FnSig,
    pub substitution: Seq<GenericArgView>,
}

pub enum TyView {
    Apply(TypeCtor, Seq<GenericArgView>),
    Scalar(Scalar),
    Array(Box<TyView>, Box<ConstView>),
    Slice(Box<TyView>),
    Raw(Mutability, Box<TyView>),
    Ref(Mutability, LifetimeView, Box<TyView>),
    Str,
    Never,
    Foreign(ForeignDefId),
    Error,
    Placeholder(PlaceholderIndex),
    Function(FnPointerView),
    BoundVar(BoundVarView),
    InferenceVar(InferenceVar, TyVariableKind),
}

// ---------------------------------------------------------------------------
// The terms

#[derive(Clone, Copy, Debug, PartialEq, Eq, Hash, Structural)]
pub enum Lifetime {
    BoundVar(BoundVar),
    InferenceVar(InferenceVar),
    Placeholder(PlaceholderIndex),
    Static,
    /// A lifetime shorter than any other of its universe.
    Empty(UniverseIndex),
    Erased,
}

#[derive(Clone, Copy, Debug, PartialEq, Eq, Hash, Structural)]
pub enum ConstValue {
    BoundVar(BoundVar),
    InferenceVar(InferenceVar),
    Placeholder(PlaceholderIndex),
    Concrete(ConcreteConst),
}

/// A constant: its type and its value.
#[derive(Debug, PartialEq, Eq, Hash)]
pub struct Const {
    pub ty: Ty,
    pub value: ConstValue,
}

#[derive(Debug, PartialEq, Eq, Hash)]
pub enum GenericArg {
    Ty(Ty),
    Lifetime(Lifetime),
    Const(Const),
}

/// An ordered sequence of generic arguments.
#[derive(Debug, PartialEq, Eq, Hash)]
pub struct Substitution {
    pub args: Vec<GenericArg>,
}

#[derive(Debug, PartialEq, Eq, Hash)]
pub struct FnPointer {
    pub num_binders: usize,
    pub sig: FnSig,
    pub substitution: Substitution,
}

#[derive(Debug, PartialEq, Eq, Hash)]
pub enum Ty {
    /// A type constructor applied to its generic arguments.
    Apply(TypeCtor, Substitution),
    Scalar(Scalar),
    Array(Box<Ty>, Box<Const>),
    Slice(Box<Ty>),
    Raw(Mutability, Box<Ty>),
    Ref(Mutability, Lifetime, Box<Ty>),
    Str,
    Never,
    Foreign(ForeignDefId),
    /// The marker for a type that is unknown or in error.
    Error,
    Placeholder(PlaceholderIndex),
    Function(FnPointer),
    BoundVar(BoundVar),
    InferenceVar(InferenceVar, TyVariableKind),
}

// ---------------------------------------------------------------------------
// Views

impl View for Lifetime {
    type V = LifetimeView;

    open spec fn view(&self) -> LifetimeView {
        match *self {
            Lifetime::BoundVar(v) => LifetimeView::BoundVar(v@),
            Lifetime::InferenceVar(v) => LifetimeView::InferenceVar(v),
            Lifetime::Placeholder(p) => LifetimeView::Placeholder(p),
            Lifetime::Static => LifetimeView::Static,
            Lifetime::Empty(u) => LifetimeView::Empty(u),
            Lifetime::Erased => LifetimeView::Erased,
        }
    }
}

impl View for ConstValue {
    type V = ConstValueView;

    open spec fn view(&self) -> ConstValueView {
        match *self {
            ConstValue::BoundVar(v) => ConstValueView::BoundVar(v@),
            ConstValue::InferenceVar(v) => ConstValueView::InferenceVar(v),
            ConstValue::Placeholder(p) => ConstValueView::Placeholder(p),
            ConstValue::Concrete(c) => ConstValueView::Concrete(c),
        }
    }
}

pub open spec fn ty_view(t: Ty) -> TyView
    decreases t,
{
    match t {
        Ty::Apply(ctor, s) => TyView::Apply(ctor, args_view(s.args)),
        Ty::Scalar(s) => TyView::Scalar(s),
        Ty::Array(elem, len) => TyView::Array(Box::new(ty_view(*elem)), Box::new(const_view(*len))),
        Ty::Slice(elem) => TyView::Slice(Box::new(ty_view(*elem))),
        Ty::Raw(m, pointee) => TyView::Raw(m, Box::new(ty_view(*pointee))),
        Ty::Ref(m, l, pointee) => TyView::Ref(m, l@, Box::new(ty_view(*pointee))),
        Ty::Str => TyView::Str,
        Ty::Never => TyView::Never,
        Ty::Foreign(id) => TyView::Foreign(id),
        Ty::Error => TyView::Error,
        Ty::Placeholder(p) => TyView::Placeholder(p),
        Ty::Function(f) => TyView::Function(
            FnPointerView {
                num_binders: f.num_binders as nat,
                sig: f.sig,
                substitution: args_view(f.substitution.args),
            },
        ),
        Ty::BoundVar(v) => TyView::BoundVar(v@),
        Ty::InferenceVar(v, k) => TyView::InferenceVar(v, k),
    }
}

pub open spec fn const_view(c: Const) -> ConstView
    decreases c,
{
    ConstView { ty: ty_view(c.ty), value: c.value@ }
}

pub open spec fn arg_view(a: GenericArg) -> GenericArgView
    decreases a,
{
    match a {
        GenericArg::Ty(t) => GenericArgView::Ty(ty_view(t)),
        GenericArg::Lifetime(l) => GenericArgView::Lifetime(l@),
        GenericArg::Const(c) => GenericArgView::Const(const_view(c)),
    }
}

pub open spec fn args_view(v: Vec<GenericArg>) -> Seq<GenericArgView>
    decreases v,
{
    Seq::new(
        v.len() as nat,
        |i: int|
            if 0 <= i < v.len() {
                arg_view(v[i])
            } else {
                arbitrary()
            },
    )
}

/// The views of a sequence of types, in order.
pub open spec fn tys_view(s: Seq<Ty>) -> Seq<TyView> {
    Seq::new(s.len(), |i: int| ty_view(s[i]))
}

impl View for Ty {
    type V = TyView;

    open spec fn view(&self) -> TyView {
        ty_view(*self)
    }
}

impl View for Const {
    type V = ConstView;

    open spec fn view(&self) -> ConstView {
        const_view(*self)
    }
}

impl View for GenericArg {
    type V = GenericArgView;

    open spec fn view(&self) -> GenericArgView {
        arg_view(*self)
    }
}

impl View for Substitution {
    type V = Seq<GenericArgView>;

    open spec fn view(&self) -> Seq<GenericArgView> {
        args_view(self.args)
    }
}

impl View for FnPointer {
    type V = FnPointerView;

    open spec fn view(&self) -> FnPointerView {
        FnPointerView {
            num_binders: self.num_binders as nat,
            sig: self.sig,
            substitution: self.substitution@,
        }
    }
}

// ---------------------------------------------------------------------------
// Copies

fn ty_clone(t: &Ty) -> (r: Ty)
    ensures
        r@ == t@,
    decreases *t,
{
    match t {
        Ty::Apply(ctor, s) => Ty::Apply(*ctor, Substitution { args: args_clone(&s.args) }),
        Ty::Scalar(s) => Ty::Scalar(*s),
        Ty::Array(elem, len) => Ty::Array(Box::new(ty_clone(elem)), Box::new(const_clone(len))),
        Ty::Slice(elem) => Ty::Slice(Box::new(ty_clone(elem))),
        Ty::Raw(m, pointee) => Ty::Raw(*m, Box::new(ty_clone(pointee))),
        Ty::Ref(m, l, pointee) => Ty::Ref(*m, *l, Box::new(ty_clone(pointee))),
        Ty::Str => Ty::Str,
        Ty::Never => Ty::Never,
        Ty::Foreign(id) => Ty::Foreign(*id),
        Ty::Error => Ty::Error,
        Ty::Placeholder(p) => Ty::Placeholder(*p),
        Ty::Function(f) => Ty::Function(
            FnPointer {
                num_binders: f.num_binders,
                sig: f.sig,
                substitution: Substitution { args: args_clone(&f.substitution.args) },
            },
        ),
        Ty::BoundVar(v) => Ty::BoundVar(*v),
        Ty::InferenceVar(v, k) => Ty::InferenceVar(*v, *k),
    }
}

fn const_clone(c: &Const) -> (r: Const)
    ensures
        r@ == c@,
    decreases *c,
{
    Const { ty: ty_clone(&c.ty), value: c.value }
}

fn arg_clone(a: &GenericArg) -> (r: GenericArg)
    ensures
        r@ == a@,
    decreases *a,
{
    match a {
        GenericArg::Ty(t) => GenericArg::Ty(ty_clone(t)),
        GenericArg::Lifetime(l) => GenericArg::Lifetime(*l),
        GenericArg::Const(c) => GenericArg::Const(const_clone(c)),
    }
}

fn args_clone(v: &Vec<GenericArg>) -> (r: Vec<GenericArg>)
    ensures
        args_view(r) == args_view(*v),
    decreases *v,
{
    let mut w: Vec<GenericArg> = Vec::new();
    let mut i: usize = 0;
    while i < v.len()
        invariant
            i <= v.len(),
            w.len() == i,
            forall|j: int| 0 <= j < i ==> arg_view(#[trigger] w[j]) == arg_view(v[j]),
        decreases v.len() - i,
    {
        w.push(arg_clone(&v[i]));
        i += 1;
    }
    assert(args_view(w) =~= args_view(*v));
    w
}

impl Clone for Ty {
    fn clone(&self) -> (r: Ty)
        ensures
            r@ == self@,
    {
        ty_clone(self)
    }
}

impl Clone for Const {
    fn clone(&self) -> (r: Const)
        ensures
            r@ == self@,
    {
        const_clone(self)
    }
}

impl Clone for GenericArg {
    fn clone(&self) -> (r: GenericArg)
        ensures
            r@ == self@,
    {
        arg_clone(self)
    }
}

impl Clone for Substitution {
    fn clone(&self) -> (r: Substitution)
        ensures
            r@ == self@,
    {
        Substitution { args: args_clone(&self.args) }
    }
}

impl Clone for FnPointer {
    fn clone(&self) -> (r: FnPointer)
        ensures
            r@ == self@,
    {
        FnPointer {
            num_binders: self.num_binders,
            sig: self.sig,
            substitution: Substitution { args: args_clone(&self.substitution.args) },
        }
    }
}

// ---------------------------------------------------------------------------
// Equality of terms

fn ty_eq(a: &Ty, b: &Ty) -> (r: bool)
    ensures
        r == (a@ == b@),
    decreases *a,
{
    match (a, b) {
        (Ty::Apply(c1, s1), Ty::Apply(c2, s2)) => *c1 == *c2 && args_eq(&s1.args, &s2.args),
        (Ty::Scalar(x), Ty::Scalar(y)) => *x == *y,
        (Ty::Array(e1, n1), Ty::Array(e2, n2)) => ty_eq(e1, e2) && const_eq(n1, n2),
        (Ty::Slice(e1), Ty::Slice(e2)) => ty_eq(e1, e2),
        (Ty::Raw(m, x), Ty::Raw(n, y)) => *m == *n && ty_eq(x, y),
        (Ty::Ref(m, k, x), Ty::Ref(n, l, y)) => *m == *n && *k == *l && ty_eq(x, y),
        (Ty::Str, Ty::Str) => true,
        (Ty::Never, Ty::Never) => true,
        (Ty::Foreign(x), Ty::Foreign(y)) => *x == *y,
        (Ty::Error, Ty::Error) => true,
        (Ty::Placeholder(x), Ty::Placeholder(y)) => *x == *y,
        (Ty::Function(f1), Ty::Function(f2)) => f1.num_binders == f2.num_binders && f1.sig
            == f2.sig && args_eq(&f1.substitution.args, &f2.substitution.args),
        (Ty::BoundVar(x), Ty::BoundVar(y)) => *x == *y,
        (Ty::InferenceVar(x, k1), Ty::InferenceVar(y, k2)) => *x == *y && *k1 == *k2,
        _ => false,
    }
}

fn const_eq(a: &Const, b: &Const) -> (r: bool)
    ensures
        r == (a@ == b@),
    decreases *a,
{
    a.value == b.value && ty_eq(&a.ty, &b.ty)
}

fn arg_eq(a: &GenericArg, b: &GenericArg) -> (r: bool)
    ensures
        r == (a@ == b@),
    decreases *a,
{
    match (a, b) {
        (GenericArg::Ty(x), GenericArg::Ty(y)) => ty_eq(x, y),
        (GenericArg::Lifetime(x), GenericArg::Lifetime(y)) => *x == *y,
        (GenericArg::Const(x), GenericArg::Const(y)) => const_eq(x, y),
        _ => false,
    }
}

fn args_eq(v: &Vec<GenericArg>, w: &Vec<GenericArg>) -> (r: bool)
    ensures
        r == (args_view(*v) == args_view(*w)),
    decreases *v,
{
    if v.len() != w.len() {
        assert(args_view(*v).len() != args_view(*w).len());
        return false;
    }
    let mut i: usize = 0;
    while i < v.len()
        invariant
            i <= v.len(),
            v.len() == w.len(),
            forall|j: int| 0 <= j < i ==> arg_view(#[trigger] v[j]) == arg_view(w[j]),
        decreases v.len() - i,
    {
        if !arg_eq(&v[i], &w[i]) {
            assert(args_view(*v)[i as int] != args_view(*w)[i as int]);
            return false;
        }
        i += 1;
    }
    assert(args_view(*v) =~= args_view(*w));
    true
}

impl Ty {
    /// Whether the two types are the same term.
    pub fn same_as(&self, other: &Ty) -> (r: bool)
        ensures
            r == (self@ == other@),
    {
        ty_eq(self, other)
    }
}

impl Const {
    /// Whether the two constants are the same term.
    pub fn same_as(&self, other: &Const) -> (r: bool)
        ensures
            r == (self@ == other@),
    {
        const_eq(self, other)
    }
}

impl GenericArg {
    /// Whether the two arguments are the same term.
    pub fn same_as(&self, other: &GenericArg) -> (r: bool)
        ensures
            r == (self@ == other@),
    {
        arg_eq(self, other)
    }
}

impl Substitution {
    /// Whether the two substitutions hold the same terms in the same order.
    pub fn same_as(&self, other: &Substitution) -> (r: bool)
        ensures
            r == (self@ == other@),
    {
        args_eq(&self.args, &other.args)
    }
}

// ---------------------------------------------------------------------------
// Terms that stand for themselves

/// The lifetime `'static`.
pub fn static_lifetime() -> (r: Lifetime)
    ensures
        r == Lifetime::Static,
{
    Lifetime::Static
}

/// A constant of type `usize` whose value is not known.
pub fn dummy_usize_const() -> (r: Const)
    ensures
        r@ == (ConstView {
            ty: TyView::Scalar(Scalar::Uint(UintTy::Usize)),
            value: ConstValueView::Concrete(ConcreteConst { interned: ConstScalar::Unknown }),
        }),
{
    Const {
        ty: Ty::Scalar(Scalar::Uint(UintTy::Usize)),
        value: ConstValue::Concrete(ConcreteConst { interned: ConstScalar::Unknown }),
    }
}

impl BoundVar {
    /// The variable as a type.
    pub fn to_ty(self) -> (r: Ty)
        ensures
            r@ == TyView::BoundVar(self@),
    {
        Ty::BoundVar(self)
    }

    /// The variable as a lifetime.
    pub fn to_lifetime(self) -> (r: Lifetime)
        ensures
            r@ == LifetimeView::BoundVar(self@),
    {
        Lifetime::BoundVar(self)
    }

    /// The variable as a constant of type `ty`.
    pub fn to_const(self, ty: Ty) -> (r: Const)
        ensures
            r@ == (ConstView { ty: ty@, value: ConstValueView::BoundVar(self@) }),
    {
        Const { ty, value: ConstValue::BoundVar(self) }
    }
}

impl GenericArg {
    /// The type that the argument is.
    pub fn assert_ty_ref(&self) -> (r: &Ty)
        requires
            self@ is Ty,
        ensures
            r@ == self@->Ty_0,
    {
        match self {
            GenericArg::Ty(t) => t,
            _ => vstd::pervasive::unreached(),
        }
    }

    /// The type that the argument is, if it is one.
    pub fn ty(&self) -> (r: Option<&Ty>)
        ensures
            self@ is Ty <==> r is Some,
            r matches Some(t) ==> t@ == self@->Ty_0,
    {
        match self {
            GenericArg::Ty(t) => Some(t),
            _ => None,
        }
    }

    pub fn is_ty(&self) -> (b: bool)
        ensures
            b == (self@ is Ty),
    {
        match self {
            GenericArg::Ty(_) => true,
            _ => false,
        }
    }
}

} // verus!
