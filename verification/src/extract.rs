use vstd::prelude::*;
use crate::convert::IntoResult;

verus! {

// Unconditional extraction.
//
// Each function here consumes its target exactly once and descends into the
// success arm of the two-armed outcome that the target converts to, or into
// the variant chosen by a selector closure. A selector yields the captured
// payload on a match and hands the whole item back, untouched, otherwise;
// its contract is carried through `call_ensures`, so a caller that knows its
// selector learns exactly which payload came out.

/// Extracts the success payload of `x`.
///
/// Unconditional extraction without a fallback is the one abnormal exit of
/// the library: on the failure arm there is nothing to yield and the
/// operation panics. Verified callers therefore must show that `x`
/// converts to the success arm, and never panic.
pub fn inner<T, E, V: IntoResult<T, E>>(x: V) -> (r: T)
    requires
        x.into_result_spec() is Ok,
    ensures
        r == x.into_result_spec()->Ok_0,
{
    match x.into_result() {
        Result::Ok(q) => q,
        Result::Err(_) => vstd::pervasive::unreached(),
    }
}

/// Extracts the success payload of `x`, or evaluates `f` if `x` converts to
/// the failure arm. The fallback runs only on the failure path.
pub fn inner_else<T, E, V: IntoResult<T, E>, F: FnOnce() -> T>(x: V, f: F) -> (r: T)
    requires
        x.into_result_spec() is Err ==> call_requires(f, ()),
    ensures
        x.into_result_spec() is Ok ==> r == x.into_result_spec()->Ok_0,
        x.into_result_spec() is Err ==> call_ensures(f, (), r),
{
    match x.into_result() {
        Result::Ok(q) => q,
        Result::Err(_) => f(),
    }
}

/// Extracts the success payload of `x`, or evaluates `f` on the failure
/// payload if `x` converts to the failure arm. The binder of `f` receives
/// the failure payload, not the whole item.
pub fn inner_else_bind<T, E, V: IntoResult<T, E>, F: FnOnce(E) -> T>(x: V, f: F) -> (r: T)
    requires
        forall|e: E| x.into_result_spec() == Result::<T, E>::Err(e) ==> call_requires(f, (e,)),
    ensures
        x.into_result_spec() is Ok ==> r == x.into_result_spec()->Ok_0,
        x.into_result_spec() is Err ==> call_ensures(f, (x.into_result_spec()->Err_0,), r),
{
    match x.into_result() {
        Result::Ok(q) => q,
        Result::Err(e) => f(e),
    }
}

/// Extracts the payload captured by the selector `sel` from `x`.
///
/// Like [`inner`], this form has no fallback, and on a non-matching item
/// it panics. Verified callers therefore must show that the selector
/// matches, and never panic.
pub fn inner_if<V, T, S: FnOnce(V) -> Result<T, V>>(x: V, sel: S) -> (r: T)
    requires
        call_requires(sel, (x,)),
        forall|s: Result<T, V>| call_ensures(sel, (x,), s) ==> s is Ok,
    ensures
        call_ensures(sel, (x,), Result::<T, V>::Ok(r)),
{
    match sel(x) {
        Result::Ok(q) => q,
        Result::Err(_) => vstd::pervasive::unreached(),
    }
}

/// Extracts the payload captured by the selector `sel` from `x`, or
/// evaluates `f` if the selector does not match. The fallback runs only on
/// the mismatch path and the non-matching item is dropped.
pub fn inner_if_else<V, T, S: FnOnce(V) -> Result<T, V>, F: FnOnce() -> T>(
    x: V,
    sel: S,
    f: F,
) -> (r: T)
    requires
        call_requires(sel, (x,)),
        forall|s: Result<T, V>|
            call_ensures(sel, (x,), s) && s is Err ==> call_requires(f, ()),
    ensures
        exists|s: Result<T, V>|
            {
                &&& #[trigger] call_ensures(sel, (x,), s)
                &&& s is Ok ==> r == s->Ok_0
                &&& s is Err ==> call_ensures(f, (), r)
            },
{
    match sel(x) {
        Result::Ok(q) => q,
        Result::Err(_) => f(),
    }
}

/// Extracts the payload captured by the selector `sel` from `x`, or
/// evaluates `f` on the non-matching item if the selector does not match.
/// The binder of `f` receives the entire original item, not a sub-field.
pub fn inner_if_else_bind<V, T, S: FnOnce(V) -> Result<T, V>, F: FnOnce(V) -> T>(
    x: V,
    sel: S,
    f: F,
) -> (r: T)
    requires
        call_requires(sel, (x,)),
        forall|v: V| call_ensures(sel, (x,), Result::<T, V>::Err(v)) ==> call_requires(f, (v,)),
    ensures
        exists|s: Result<T, V>|
            {
                &&& #[trigger] call_ensures(sel, (x,), s)
                &&& s is Ok ==> r == s->Ok_0
                &&& s is Err ==> call_ensures(f, (s->Err_0,), r)
            },
{
    match sel(x) {
        Result::Ok(q) => q,
        Result::Err(v) => f(v),
    }
}

} // verus!
