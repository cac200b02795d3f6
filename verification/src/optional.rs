use vstd::prelude::*;
use crate::variant::optional_of;

verus! {

// Optional-producing extraction.
//
// These forms turn a variant match into an `Option`: the captured payload
// wrapped as present on a match, and on a mismatch either the absent case
// or a caller-supplied fallback whose value replaces the whole result. A
// selector is always required; there is no conversion-based path here.

/// Wraps the payload captured by the selector `sel` from `x` as present,
/// or yields the absent case if the selector does not match.
pub fn some_if<V, T, S: FnOnce(V) -> Result<T, V>>(x: V, sel: S) -> (r: Option<T>)
    requires
        call_requires(sel, (x,)),
    ensures
        exists|s: Result<T, V>| #[trigger] call_ensures(sel, (x,), s) && r == optional_of(s),
{
    match sel(x) {
        Result::Ok(q) => Option::Some(q),
        Result::Err(_) => Option::None,
    }
}

/// Wraps the payload captured by the selector `sel` from `x` as present,
/// or evaluates `f` if the selector does not match. The fallback's value
/// replaces the whole result, so it must itself be an optional value; the
/// non-matching item is dropped.
pub fn some_if_else<V, T, S: FnOnce(V) -> Result<T, V>, F: FnOnce() -> Option<T>>(
    x: V,
    sel: S,
    f: F,
) -> (r: Option<T>)
    requires
        call_requires(sel, (x,)),
        forall|s: Result<T, V>|
            call_ensures(sel, (x,), s) && s is Err ==> call_requires(f, ()),
    ensures
        exists|s: Result<T, V>|
            {
                &&& #[trigger] call_ensures(sel, (x,), s)
                &&& s is Ok ==> r == Option::Some(s->Ok_0)
                &&& s is Err ==> call_ensures(f, (), r)
            },
{
    match sel(x) {
        Result::Ok(q) => Option::Some(q),
        Result::Err(_) => f(),
    }
}

/// Wraps the payload captured by the selector `sel` from `x` as present,
/// or evaluates `f` on the non-matching item if the selector does not
/// match. The binder of `f` receives the entire original item, and the
/// fallback's value, which must itself be an optional value, replaces the
/// whole result.
pub fn some_if_else_bind<V, T, S: FnOnce(V) -> Result<T, V>, F: FnOnce(V) -> Option<T>>(
    x: V,
    sel: S,
    f: F,
) -> (r: Option<T>)
    requires
        call_requires(sel, (x,)),
        forall|v: V| call_ensures(sel, (x,), Result::<T, V>::Err(v)) ==> call_requires(f, (v,)),
    ensures
        exists|s: Result<T, V>|
            {
                &&& #[trigger] call_ensures(sel, (x,), s)
                &&& s is Ok ==> r == Option::Some(s->Ok_0)
                &&& s is Err ==> call_ensures(f, (s->Err_0,), r)
            },
{
    match sel(x) {
        Result::Ok(q) => Option::Some(q),
        Result::Err(v) => f(v),
    }
}

} // verus!
