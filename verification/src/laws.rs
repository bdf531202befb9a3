//! Laws of the kernel: what holds of every term, stated over the model and
//! proved.

use vstd::prelude::*;
use crate::callable_sig::{all_types, arg_types, fn_ptr_of_sig, sig_of_fn_ptr, type_args};
use crate::binders::{shifted, substituted};
use crate::canonical::{arg_errors, arg_fill_errors, arg_replace_errors, args_errors,
    args_fill_errors, args_replace_errors, const_errors, const_fill_errors, const_replace_errors,
    errors, errors_replaced, general_kinds, lemma_args_errors_take,
    lemma_replace_errors_same_kinds, ty_errors, ty_fill_errors, ty_replace_errors};
use crate::shift::{arg_closed, arg_mentions, arg_shift, arg_span, args_closed, args_mention,
    args_shift, args_span, const_closed, const_mentions, const_shift, const_span,
    lemma_args_span_bound, lemma_args_span_index, ty_closed, ty_mentions, ty_shift, ty_span};
use crate::term::{same_kinds, Fold};
use crate::subst::{arg_instantiable, arg_subst, args_instantiable, args_subst, const_instantiable,
    const_subst, ty_instantiable, ty_subst};
use crate::ty::{ConstView, FnPointerView, FnSig, GenericArgView, Safety, Ty, TyView};

verus! {

// ---------------------------------------------------------------------------
// Into a binder and out again

/// A type that was moved below one more binder names none of that binder's
/// variables, so the binder can be instantiated with any arguments at all,
/// and instantiating it gives the type back.
pub proof fn lemma_ty_shift_in_subst(t: TyView, params: Seq<GenericArgView>, cutoff: nat)
    ensures
        ty_instantiable(ty_shift(t, 1, cutoff), params, cutoff),
        ty_subst(ty_shift(t, 1, cutoff), params, cutoff) == t,
    decreases t,
{
    match t {
        TyView::Apply(_, s) => {
            lemma_args_shift_in_subst(s, params, cutoff);
        },
        TyView::Array(elem, len) => {
            lemma_ty_shift_in_subst(*elem, params, cutoff);
            lemma_const_shift_in_subst(*len, params, cutoff);
        },
        TyView::Slice(elem) => {
            lemma_ty_shift_in_subst(*elem, params, cutoff);
        },
        TyView::Raw(_, pointee) => {
            lemma_ty_shift_in_subst(*pointee, params, cutoff);
        },
        TyView::Ref(_, _, pointee) => {
            lemma_ty_shift_in_subst(*pointee, params, cutoff);
        },
        TyView::Function(f) => {
            lemma_args_shift_in_subst(f.substitution, params, cutoff + 1);
        },
        _ => {},
    }
}

pub proof fn lemma_const_shift_in_subst(c: ConstView, params: Seq<GenericArgView>, cutoff: nat)
    ensures
        const_instantiable(const_shift(c, 1, cutoff), params, cutoff),
        const_subst(const_shift(c, 1, cutoff), params, cutoff) == c,
    decreases c,
{
    lemma_ty_shift_in_subst(c.ty, params, cutoff);
}

pub proof fn lemma_arg_shift_in_subst(a: GenericArgView, params: Seq<GenericArgView>, cutoff: nat)
    ensures
        arg_instantiable(arg_shift(a, 1, cutoff), params, cutoff),
        arg_subst(arg_shift(a, 1, cutoff), params, cutoff) == a,
    decreases a,
{
    match a {
        GenericArgView::Ty(t) => {
            lemma_ty_shift_in_subst(t, params, cutoff);
        },
        GenericArgView::Lifetime(_) => {},
        GenericArgView::Const(c) => {
            lemma_const_shift_in_subst(c, params, cutoff);
        },
    }
}

pub proof fn lemma_args_shift_in_subst(
    s: Seq<GenericArgView>,
    params: Seq<GenericArgView>,
    cutoff: nat,
)
    ensures
        args_instantiable(args_shift(s, 1, cutoff), params, cutoff),
        args_subst(args_shift(s, 1, cutoff), params, cutoff) == s,
    decreases s,
{
    assert forall|i: int| 0 <= i < s.len() implies arg_instantiable(
        #[trigger] args_shift(s, 1, cutoff)[i],
        params,
        cutoff,
    ) && arg_subst(args_shift(s, 1, cutoff)[i], params, cutoff) == s[i] by {
        lemma_arg_shift_in_subst(s[i], params, cutoff);
    }
    assert(args_subst(args_shift(s, 1, cutoff), params, cutoff) =~= s);
}

/// Moving a type below `by` more binders makes it reach at most `by`
/// further.
pub proof fn lemma_ty_shift_span(t: TyView, by: nat, cutoff: nat)
    ensures
        ty_span(ty_shift(t, by as int, cutoff)) <= ty_span(t) + by,
    decreases t,
{
    match t {
        TyView::Apply(_, s) => {
            lemma_args_shift_span(s, by, cutoff);
        },
        TyView::Array(elem, len) => {
            lemma_ty_shift_span(*elem, by, cutoff);
            lemma_const_shift_span(*len, by, cutoff);
        },
        TyView::Slice(elem) => {
            lemma_ty_shift_span(*elem, by, cutoff);
        },
        TyView::Raw(_, pointee) => {
            lemma_ty_shift_span(*pointee, by, cutoff);
        },
        TyView::Ref(_, _, pointee) => {
            lemma_ty_shift_span(*pointee, by, cutoff);
        },
        TyView::Function(f) => {
            lemma_args_shift_span(f.substitution, by, cutoff + 1);
        },
        _ => {},
    }
}

pub proof fn lemma_const_shift_span(c: ConstView, by: nat, cutoff: nat)
    ensures
        const_span(const_shift(c, by as int, cutoff)) <= const_span(c) + by,
    decreases c,
{
    lemma_ty_shift_span(c.ty, by, cutoff);
}

pub proof fn lemma_arg_shift_span(a: GenericArgView, by: nat, cutoff: nat)
    ensures
        arg_span(arg_shift(a, by as int, cutoff)) <= arg_span(a) + by,
    decreases a,
{
    match a {
        GenericArgView::Ty(t) => {
            lemma_ty_shift_span(t, by, cutoff);
        },
        GenericArgView::Lifetime(_) => {},
        GenericArgView::Const(c) => {
            lemma_const_shift_span(c, by, cutoff);
        },
    }
}

pub proof fn lemma_args_shift_span(s: Seq<GenericArgView>, by: nat, cutoff: nat)
    ensures
        args_span(args_shift(s, by as int, cutoff)) <= args_span(s) + by,
    decreases s,
{
    let moved = args_shift(s, by as int, cutoff);
    assert forall|i: int| 0 <= i < moved.len() implies arg_span(#[trigger] moved[i]) <= args_span(
        s,
    ) + by by {
        lemma_arg_shift_span(s[i], by, cutoff);
        lemma_args_span_index(s, i);
    }
    lemma_args_span_bound(moved, args_span(s) + by);
}

/// A value that is wrapped in a binder without variables and then
/// instantiated with no arguments is the value itself, and the wrapped
/// value reaches one binder further than the value did.
pub proof fn law_wrap_empty_binders_round_trip<T: Fold>(v: T::V)
    ensures
        args_instantiable(T::parts(shifted::<T>(v, 1)), Seq::empty(), 0),
        args_span(T::parts(shifted::<T>(v, 1))) <= args_span(T::parts(v)) + 1,
        substituted::<T>(shifted::<T>(v, 1), Seq::empty()) == v,
{
    let parts = T::parts(v);
    let moved = args_shift(parts, 1, 0);
    T::lemma_parts_rebuilt(v, moved);
    lemma_args_shift_in_subst(parts, Seq::empty(), 0);
    lemma_args_shift_span(parts, 1, 0);
    T::lemma_rebuilt_twice(v, moved, parts);
    T::lemma_rebuilt_parts(v);
}

// ---------------------------------------------------------------------------
// Terms without errors

/// Where no argument holds an error, none of them does.
pub proof fn lemma_args_errors_zero(s: Seq<GenericArgView>, i: int)
    requires
        args_errors(s) == 0,
        0 <= i < s.len(),
    ensures
        arg_errors(s[i]) == 0,
        args_errors(s.take(i)) == 0,
    decreases s.len() - i,
{
    lemma_args_errors_take(s, i);
}

/// Replacing the errors of a type that holds none changes nothing.
pub proof fn lemma_ty_replace_no_errors(t: TyView, next: nat, depth: nat)
    requires
        ty_errors(t) == 0,
    ensures
        ty_replace_errors(t, next, depth) == t,
    decreases t,
{
    match t {
        TyView::Apply(_, s) => {
            lemma_args_replace_no_errors(s, next, depth);
        },
        TyView::Array(elem, len) => {
            assert(const_errors(*len) == ty_errors(len.ty));
            lemma_ty_replace_no_errors(*elem, next, depth);
            lemma_ty_replace_no_errors(len.ty, next + ty_errors(*elem), depth);
            assert(const_replace_errors(*len, next + ty_errors(*elem), depth) == *len);
        },
        TyView::Slice(elem) => {
            lemma_ty_replace_no_errors(*elem, next, depth);
        },
        TyView::Raw(_, pointee) => {
            lemma_ty_replace_no_errors(*pointee, next, depth);
        },
        TyView::Ref(_, _, pointee) => {
            lemma_ty_replace_no_errors(*pointee, next, depth);
        },
        TyView::Function(f) => {
            lemma_args_replace_no_errors(f.substitution, next, depth + 1);
        },
        _ => {},
    }
}

pub proof fn lemma_arg_replace_no_errors(a: GenericArgView, next: nat, depth: nat)
    requires
        arg_errors(a) == 0,
    ensures
        arg_replace_errors(a, next, depth) == a,
    decreases a,
{
    match a {
        GenericArgView::Ty(t) => {
            lemma_ty_replace_no_errors(t, next, depth);
        },
        GenericArgView::Lifetime(_) => {},
        GenericArgView::Const(c) => {
            assert(const_errors(c) == ty_errors(c.ty));
            lemma_ty_replace_no_errors(c.ty, next, depth);
            assert(const_replace_errors(c, next, depth) == c);
        },
    }
}

pub proof fn lemma_args_replace_no_errors(s: Seq<GenericArgView>, next: nat, depth: nat)
    requires
        args_errors(s) == 0,
    ensures
        args_replace_errors(s, next, depth) == s,
    decreases s,
{
    assert forall|i: int| 0 <= i < s.len() implies #[trigger] args_replace_errors(
        s,
        next,
        depth,
    )[i] == s[i] by {
        lemma_args_errors_zero(s, i);
        lemma_arg_replace_no_errors(s[i], next + args_errors(s.take(i)), depth);
    }
    assert(args_replace_errors(s, next, depth) =~= s);
}

/// The canonical form of a value without error markers is the value
/// itself, below a binder without variables.
pub proof fn law_canonical_of_error_free<T: Fold>(v: T::V)
    requires
        errors::<T>(v) == 0,
    ensures
        errors_replaced::<T>(v) == v,
        general_kinds(errors::<T>(v)).len() == 0,
{
    lemma_args_replace_no_errors(T::parts(v), 0, 0);
    T::lemma_rebuilt_parts(v);
}

// ---------------------------------------------------------------------------
// Closed terms

/// Renumbering the free variables of a type that has none changes nothing,
/// and such a type names no binder outside itself.
pub proof fn lemma_ty_closed_shift(t: TyView, delta: int, cutoff: nat, hi: nat)
    requires
        ty_closed(t, cutoff),
    ensures
        ty_shift(t, delta, cutoff) == t,
        !ty_mentions(t, cutoff, hi),
    decreases t,
{
    match t {
        TyView::Apply(_, s) => {
            lemma_args_closed_shift(s, delta, cutoff, hi);
        },
        TyView::Array(elem, len) => {
            lemma_ty_closed_shift(*elem, delta, cutoff, hi);
            lemma_const_closed_shift(*len, delta, cutoff, hi);
        },
        TyView::Slice(elem) => {
            lemma_ty_closed_shift(*elem, delta, cutoff, hi);
        },
        TyView::Raw(_, pointee) => {
            lemma_ty_closed_shift(*pointee, delta, cutoff, hi);
        },
        TyView::Ref(_, _, pointee) => {
            lemma_ty_closed_shift(*pointee, delta, cutoff, hi);
        },
        TyView::Function(f) => {
            lemma_args_closed_shift(f.substitution, delta, cutoff + 1, hi + 1);
        },
        _ => {},
    }
}

pub proof fn lemma_const_closed_shift(c: ConstView, delta: int, cutoff: nat, hi: nat)
    requires
        const_closed(c, cutoff),
    ensures
        const_shift(c, delta, cutoff) == c,
        !const_mentions(c, cutoff, hi),
    decreases c,
{
    lemma_ty_closed_shift(c.ty, delta, cutoff, hi);
}

pub proof fn lemma_arg_closed_shift(a: GenericArgView, delta: int, cutoff: nat, hi: nat)
    requires
        arg_closed(a, cutoff),
    ensures
        arg_shift(a, delta, cutoff) == a,
        !arg_mentions(a, cutoff, hi),
    decreases a,
{
    match a {
        GenericArgView::Ty(t) => {
            lemma_ty_closed_shift(t, delta, cutoff, hi);
        },
        GenericArgView::Lifetime(_) => {},
        GenericArgView::Const(c) => {
            lemma_const_closed_shift(c, delta, cutoff, hi);
        },
    }
}

pub proof fn lemma_args_closed_shift(s: Seq<GenericArgView>, delta: int, cutoff: nat, hi: nat)
    requires
        args_closed(s, cutoff),
    ensures
        args_shift(s, delta, cutoff) == s,
        !args_mention(s, cutoff, hi),
    decreases s,
{
    assert forall|i: int| 0 <= i < s.len() implies arg_shift(#[trigger] s[i], delta, cutoff)
        == s[i] && !arg_mentions(s[i], cutoff, hi) by {
        lemma_arg_closed_shift(s[i], delta, cutoff, hi);
    }
    assert(args_shift(s, delta, cutoff) =~= s);
}

// ---------------------------------------------------------------------------
// Signatures and function pointers

/// A function pointer type that declares no lifetime variables, holds types
/// only and has no free variables survives the way through a signature and
/// back in all but its safety: the pointer that comes back is safe.
pub proof fn law_fn_ptr_through_sig(f: FnPointerView)
    requires
        f.num_binders == 0,
        all_types(f.substitution),
        args_closed(f.substitution, 0),
    ensures
        !args_mention(f.substitution, 0, 1),
        fn_ptr_of_sig(sig_of_fn_ptr(f)) == (FnPointerView {
            num_binders: f.num_binders,
            sig: FnSig { safety: Safety::Safe, variadic: f.sig.variadic },
            substitution: f.substitution,
        }),
{
    lemma_args_closed_shift(f.substitution, -1, 0, 1);
    assert(type_args(arg_types(f.substitution)) =~= f.substitution);
}

// ---------------------------------------------------------------------------
// Errors replaced by variables, variables replaced by types

/// Whether each of the types is ground: without free variables and without
/// error markers.
pub open spec fn all_ground(fill: Seq<TyView>) -> bool {
    forall|i: int|
        0 <= i < fill.len() ==> ty_closed(#[trigger] fill[i], 0) && ty_errors(fill[i]) == 0
}

/// Arguments that hold no error each hold none together.
pub proof fn lemma_args_errors_none(s: Seq<GenericArgView>)
    requires
        forall|i: int| 0 <= i < s.len() ==> arg_errors(#[trigger] s[i]) == 0,
    ensures
        args_errors(s) == 0,
    decreases s.len(),
{
    if s.len() > 0 {
        assert forall|i: int| 0 <= i < s.drop_last().len() implies arg_errors(
            #[trigger] s.drop_last()[i],
        ) == 0 by {
            assert(s.drop_last()[i] == s[i]);
        }
        lemma_args_errors_none(s.drop_last());
        assert(s.last() == s[s.len() - 1]);
    }
}

/// In a type without free variables, found below `depth` binders, the
/// variables that took the place of the errors can be instantiated with
/// ground types, and doing so puts each type where its error was.
pub proof fn lemma_ty_replace_then_fill(t: TyView, fill: Seq<TyView>, next: nat, depth: nat)
    requires
        ty_closed(t, depth),
        next + ty_errors(t) <= fill.len(),
        all_ground(fill),
    ensures
        ty_instantiable(ty_replace_errors(t, next, depth), type_args(fill), depth),
        ty_subst(ty_replace_errors(t, next, depth), type_args(fill), depth) == ty_fill_errors(
            t,
            fill,
            next,
        ),
        ty_errors(ty_fill_errors(t, fill, next)) == 0,
    decreases t,
{
    match t {
        TyView::Apply(_, s) => {
            lemma_args_replace_then_fill(s, fill, next, depth);
        },
        TyView::Array(elem, len) => {
            assert(const_errors(*len) == ty_errors(len.ty));
            lemma_ty_replace_then_fill(*elem, fill, next, depth);
            lemma_const_replace_then_fill(*len, fill, next + ty_errors(*elem), depth);
        },
        TyView::Slice(elem) => {
            lemma_ty_replace_then_fill(*elem, fill, next, depth);
        },
        TyView::Raw(_, pointee) => {
            lemma_ty_replace_then_fill(*pointee, fill, next, depth);
        },
        TyView::Ref(_, _, pointee) => {
            lemma_ty_replace_then_fill(*pointee, fill, next, depth);
        },
        TyView::Function(f) => {
            lemma_args_replace_then_fill(f.substitution, fill, next, depth + 1);
        },
        TyView::Error => {
            assert(type_args(fill)[next as int] == GenericArgView::Ty(fill[next as int]));
            lemma_ty_closed_shift(fill[next as int], depth as int, 0, 0);
        },
        _ => {},
    }
}

pub proof fn lemma_const_replace_then_fill(c: ConstView, fill: Seq<TyView>, next: nat, depth: nat)
    requires
        const_closed(c, depth),
        next + const_errors(c) <= fill.len(),
        all_ground(fill),
    ensures
        const_instantiable(const_replace_errors(c, next, depth), type_args(fill), depth),
        const_subst(const_replace_errors(c, next, depth), type_args(fill), depth)
            == const_fill_errors(c, fill, next),
        const_errors(const_fill_errors(c, fill, next)) == 0,
    decreases c,
{
    lemma_ty_replace_then_fill(c.ty, fill, next, depth);
}

pub proof fn lemma_arg_replace_then_fill(a: GenericArgView, fill: Seq<TyView>, next: nat, depth: nat)
    requires
        arg_closed(a, depth),
        next + arg_errors(a) <= fill.len(),
        all_ground(fill),
    ensures
        arg_instantiable(arg_replace_errors(a, next, depth), type_args(fill), depth),
        arg_subst(arg_replace_errors(a, next, depth), type_args(fill), depth) == arg_fill_errors(
            a,
            fill,
            next,
        ),
        arg_errors(arg_fill_errors(a, fill, next)) == 0,
    decreases a,
{
    match a {
        GenericArgView::Ty(t) => {
            lemma_ty_replace_then_fill(t, fill, next, depth);
        },
        GenericArgView::Lifetime(_) => {},
        GenericArgView::Const(c) => {
            lemma_const_replace_then_fill(c, fill, next, depth);
        },
    }
}

pub proof fn lemma_args_replace_then_fill(
    s: Seq<GenericArgView>,
    fill: Seq<TyView>,
    next: nat,
    depth: nat,
)
    requires
        args_closed(s, depth),
        next + args_errors(s) <= fill.len(),
        all_ground(fill),
    ensures
        args_instantiable(args_replace_errors(s, next, depth), type_args(fill), depth),
        args_subst(args_replace_errors(s, next, depth), type_args(fill), depth)
            == args_fill_errors(s, fill, next),
        args_errors(args_fill_errors(s, fill, next)) == 0,
    decreases s,
{
    let replaced = args_replace_errors(s, next, depth);
    let filled = args_fill_errors(s, fill, next);
    assert forall|i: int| 0 <= i < s.len() implies arg_instantiable(
        #[trigger] replaced[i],
        type_args(fill),
        depth,
    ) && arg_subst(replaced[i], type_args(fill), depth) == filled[i] && arg_errors(filled[i])
        == 0 by {
        lemma_args_errors_take(s, i);
        lemma_arg_replace_then_fill(s[i], fill, next + args_errors(s.take(i)), depth);
    }
    assert(args_subst(replaced, type_args(fill), depth) =~= filled);
    lemma_args_errors_none(filled);
}

/// The value `v` with the occurrences of the error marker in its terms,
/// taken from left to right, replaced by the types of `fill` in order.
pub open spec fn errors_filled<T: Fold>(v: T::V, fill: Seq<TyView>) -> T::V {
    T::rebuilt(v, args_fill_errors(T::parts(v), fill, 0))
}

/// A value without free variables has as many variables in its canonical
/// form as it holds error markers, numbered from left to right; putting
/// that many ground types in their place gives the value with each error
/// marker replaced by the type of its number, and no error marker is left.
pub proof fn law_errors_replaced_then_filled<T: Fold>(v: T::V, fill: Seq<TyView>)
    requires
        args_closed(T::parts(v), 0),
        fill.len() == errors::<T>(v),
        all_ground(fill),
    ensures
        general_kinds(errors::<T>(v)).len() == fill.len(),
        args_instantiable(T::parts(errors_replaced::<T>(v)), type_args(fill), 0),
        substituted::<T>(errors_replaced::<T>(v), type_args(fill)) == errors_filled::<T>(v, fill),
        errors::<T>(errors_filled::<T>(v, fill)) == 0,
{
    let parts = T::parts(v);
    let replaced = args_replace_errors(parts, 0, 0);
    let filled = args_fill_errors(parts, fill, 0);
    lemma_args_replace_then_fill(parts, fill, 0, 0);
    lemma_replace_errors_same_kinds(parts, 0, 0);
    T::lemma_parts_rebuilt(v, replaced);
    T::lemma_rebuilt_twice(v, replaced, filled);
    assert(same_kinds(filled, parts));
    T::lemma_parts_rebuilt(v, filled);
}

/// Arguments whose errors are filled with error markers are what they
/// were.
pub proof fn lemma_args_fill_with_errors(s: Seq<GenericArgView>, fill: Seq<TyView>, next: nat)
    requires
        next + args_errors(s) <= fill.len(),
        forall|i: int| 0 <= i < fill.len() ==> #[trigger] fill[i] == TyView::Error,
    ensures
        args_fill_errors(s, fill, next) == s,
    decreases s,
{
    assert forall|i: int| 0 <= i < s.len() implies #[trigger] args_fill_errors(s, fill, next)[i]
        == s[i] by {
        lemma_args_errors_take(s, i);
        lemma_arg_fill_with_errors(s[i], fill, next + args_errors(s.take(i)));
    }
    assert(args_fill_errors(s, fill, next) =~= s);
}

pub proof fn lemma_arg_fill_with_errors(a: GenericArgView, fill: Seq<TyView>, next: nat)
    requires
        next + arg_errors(a) <= fill.len(),
        forall|i: int| 0 <= i < fill.len() ==> #[trigger] fill[i] == TyView::Error,
    ensures
        arg_fill_errors(a, fill, next) == a,
    decreases a,
{
    match a {
        GenericArgView::Ty(t) => {
            lemma_ty_fill_with_errors(t, fill, next);
        },
        GenericArgView::Lifetime(_) => {},
        GenericArgView::Const(c) => {
            assert(const_errors(c) == ty_errors(c.ty));
            lemma_ty_fill_with_errors(c.ty, fill, next);
            assert(const_fill_errors(c, fill, next) == c);
        },
    }
}

pub proof fn lemma_ty_fill_with_errors(t: TyView, fill: Seq<TyView>, next: nat)
    requires
        next + ty_errors(t) <= fill.len(),
        forall|i: int| 0 <= i < fill.len() ==> #[trigger] fill[i] == TyView::Error,
    ensures
        ty_fill_errors(t, fill, next) == t,
    decreases t,
{
    match t {
        TyView::Apply(_, s) => {
            lemma_args_fill_with_errors(s, fill, next);
        },
        TyView::Array(elem, len) => {
            assert(const_errors(*len) == ty_errors(len.ty));
            lemma_ty_fill_with_errors(*elem, fill, next);
            lemma_ty_fill_with_errors(len.ty, fill, next + ty_errors(*elem));
            assert(const_fill_errors(*len, fill, next + ty_errors(*elem)) == *len);
        },
        TyView::Slice(elem) => {
            lemma_ty_fill_with_errors(*elem, fill, next);
        },
        TyView::Raw(_, pointee) => {
            lemma_ty_fill_with_errors(*pointee, fill, next);
        },
        TyView::Ref(_, _, pointee) => {
            lemma_ty_fill_with_errors(*pointee, fill, next);
        },
        TyView::Function(f) => {
            lemma_args_fill_with_errors(f.substitution, fill, next);
        },
        _ => {},
    }
}

/// Filling the errors of a value with error markers gives the value back:
/// filling touches the error markers and nothing else.
pub proof fn law_fill_with_errors<T: Fold>(v: T::V, fill: Seq<TyView>)
    requires
        fill.len() == errors::<T>(v),
        forall|i: int| 0 <= i < fill.len() ==> #[trigger] fill[i] == TyView::Error,
    ensures
        errors_filled::<T>(v, fill) == v,
{
    lemma_args_fill_with_errors(T::parts(v), fill, 0);
    T::lemma_rebuilt_parts(v);
}

/// No error marker is left where the errors were replaced by variables.
pub proof fn lemma_ty_replaced_has_no_errors(t: TyView, next: nat, depth: nat)
    ensures
        ty_errors(ty_replace_errors(t, next, depth)) == 0,
    decreases t,
{
    match t {
        TyView::Apply(_, s) => {
            lemma_args_replaced_have_no_errors(s, next, depth);
        },
        TyView::Array(elem, len) => {
            lemma_ty_replaced_has_no_errors(*elem, next, depth);
            lemma_ty_replaced_has_no_errors(len.ty, next + ty_errors(*elem), depth);
            assert(const_errors(const_replace_errors(*len, next + ty_errors(*elem), depth)) == 0);
        },
        TyView::Slice(elem) => {
            lemma_ty_replaced_has_no_errors(*elem, next, depth);
        },
        TyView::Raw(_, pointee) => {
            lemma_ty_replaced_has_no_errors(*pointee, next, depth);
        },
        TyView::Ref(_, _, pointee) => {
            lemma_ty_replaced_has_no_errors(*pointee, next, depth);
        },
        TyView::Function(f) => {
            lemma_args_replaced_have_no_errors(f.substitution, next, depth + 1);
        },
        _ => {},
    }
}

pub proof fn lemma_arg_replaced_has_no_errors(a: GenericArgView, next: nat, depth: nat)
    ensures
        arg_errors(arg_replace_errors(a, next, depth)) == 0,
    decreases a,
{
    match a {
        GenericArgView::Ty(t) => {
            lemma_ty_replaced_has_no_errors(t, next, depth);
        },
        GenericArgView::Lifetime(_) => {},
        GenericArgView::Const(c) => {
            lemma_ty_replaced_has_no_errors(c.ty, next, depth);
            assert(const_errors(const_replace_errors(c, next, depth)) == 0);
        },
    }
}

pub proof fn lemma_args_replaced_have_no_errors(s: Seq<GenericArgView>, next: nat, depth: nat)
    ensures
        args_errors(args_replace_errors(s, next, depth)) == 0,
    decreases s,
{
    let replaced = args_replace_errors(s, next, depth);
    assert forall|i: int| 0 <= i < replaced.len() implies arg_errors(#[trigger] replaced[i])
        == 0 by {
        lemma_arg_replaced_has_no_errors(s[i], next + args_errors(s.take(i)), depth);
    }
    lemma_args_errors_none(replaced);
}

/// The payload of a canonical form holds no error marker.
pub proof fn law_canonical_has_no_errors<T: Fold>(v: T::V)
    ensures
        errors::<T>(errors_replaced::<T>(v)) == 0,
{
    let parts = T::parts(v);
    lemma_args_replaced_have_no_errors(parts, 0, 0);
    lemma_replace_errors_same_kinds(parts, 0, 0);
    T::lemma_parts_rebuilt(v, args_replace_errors(parts, 0, 0));
}

// ---------------------------------------------------------------------------
// A type as a value that holds one term

/// What the operations on values say of a type: the type is its own one
/// term.
pub proof fn lemma_ty_as_term(t: TyView, delta: int, params: Seq<GenericArgView>)
    ensures
        args_span(Ty::parts(t)) == ty_span(t),
        errors::<Ty>(t) == ty_errors(t),
        shifted::<Ty>(t, delta) == ty_shift(t, delta, 0),
        args_instantiable(Ty::parts(t), params, 0) == ty_instantiable(t, params, 0),
        substituted::<Ty>(t, params) == ty_subst(t, params, 0),
        errors_replaced::<Ty>(t) == ty_replace_errors(t, 0, 0),
{
    let s = Ty::parts(t);
    assert(s.drop_last() =~= Seq::<GenericArgView>::empty());
    assert(s.last() == GenericArgView::Ty(t));
    assert(args_span(s.drop_last()) == 0);
    assert(args_errors(s.drop_last()) == 0);
    assert(arg_span(s.last()) == ty_span(t));
    assert(arg_errors(s.last()) == ty_errors(t));
    assert(s.take(0) =~= Seq::<GenericArgView>::empty());
    assert(args_errors(s.take(0)) == 0);
    assert(arg_shift(s[0], delta, 0) == GenericArgView::Ty(ty_shift(t, delta, 0)));
    assert(arg_subst(s[0], params, 0) == GenericArgView::Ty(ty_subst(t, params, 0)));
    assert(arg_replace_errors(s[0], 0, 0) == GenericArgView::Ty(ty_replace_errors(t, 0, 0)));
    assert(arg_instantiable(s[0], params, 0) == ty_instantiable(t, params, 0));
}

} // verus!
