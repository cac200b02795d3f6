use vstd::prelude::*;

verus! {

// Result-producing extraction.
//
// These forms turn a variant match into a `Result`. On a match every form
// yields success with the captured payload. On a mismatch the plain form
// keeps the entire non-matching item as the failure payload; the `or`
// forms wrap a caller-supplied replacement value as the failure payload;
// and the `else` forms evaluate a caller-supplied expression whose value,
// itself a two-armed outcome, replaces the whole result.

/// Wraps the payload captured by the selector `sel` from `x` as success,
/// or the entire non-matching item as failure if the selector does not
/// match.
pub fn ok_if<V, T, S: FnOnce(V) -> Result<T, V>>(x: V, sel: S) -> (r: Result<T, V>)
    requires
        call_requires(sel, (x,)),
    ensures
        call_ensures(sel, (x,), r),
{
    sel(x)
}

/// Wraps the payload captured by the selector `sel` from `x` as success,
/// or evaluates `f` and wraps its value as the failure payload if the
/// selector does not match. The wrapping is automatic; the non-matching
/// item is dropped.
pub fn ok_if_or<V, T, U, S: FnOnce(V) -> Result<T, V>, F: FnOnce() -> U>(
    x: V,
    sel: S,
    f: F,
) -> (r: Result<T, U>)
    requires
        call_requires(sel, (x,)),
        forall|s: Result<T, V>|
            call_ensures(sel, (x,), s) && s is Err ==> call_requires(f, ()),
    ensures
        exists|s: Result<T, V>|
            {
                &&& #[trigger] call_ensures(sel, (x,), s)
                &&& s is Ok ==> r == Result::<T, U>::Ok(s->Ok_0)
                &&& s is Err ==> r is Err && call_ensures(f, (), r->Err_0)
            },
{
    match sel(x) {
        Result::Ok(q) => Result::Ok(q),
        Result::Err(_) => Result::Err(f()),
    }
}

/// Wraps the payload captured by the selector `sel` from `x` as success,
/// or evaluates `f` on the non-matching item and wraps its value as the
/// failure payload if the selector does not match. The binder of `f`
/// receives the entire original item; the wrapping is automatic.
pub fn ok_if_or_bind<V, T, U, S: FnOnce(V) -> Result<T, V>, F: FnOnce(V) -> U>(
    x: V,
    sel: S,
    f: F,
) -> (r: Result<T, U>)
    requires
        call_requires(sel, (x,)),
        forall|v: V| call_ensures(sel, (x,), Result::<T, V>::Err(v)) ==> call_requires(f, (v,)),
    ensures
        exists|s: Result<T, V>|
            {
                &&& #[trigger] call_ensures(sel, (x,), s)
                &&& s is Ok ==> r == Result::<T, U>::Ok(s->Ok_0)
                &&& s is Err ==> r is Err && call_ensures(f, (s->Err_0,), r->Err_0)
            },
{
    match sel(x) {
        Result::Ok(q) => Result::Ok(q),
        Result::Err(v) => Result::Err(f(v)),
    }
}

/// Wraps the payload captured by the selector `sel` from `x` as success,
/// or evaluates `f` if the selector does not match. The fallback's value
/// replaces the whole result, so it must itself be a two-armed outcome;
/// the non-matching item is dropped.
pub fn ok_if_else<V, T, U, S: FnOnce(V) -> Result<T, V>, F: FnOnce() -> Result<T, U>>(
    x: V,
    sel: S,
    f: F,
) -> (r: Result<T, U>)
    requires
        call_requires(sel, (x,)),
        forall|s: Result<T, V>|
            call_ensures(sel, (x,), s) && s is Err ==> call_requires(f, ()),
    ensures
        exists|s: Result<T, V>|
            {
                &&& #[trigger] call_ensures(sel, (x,), s)
                &&& s is Ok ==> r == Result::<T, U>::Ok(s->Ok_0)
                &&& s is Err ==> call_ensures(f, (), r)
            },
{
    match sel(x) {
        Result::Ok(q) => Result::Ok(q),
        Result::Err(_) => f(),
    }
}

/// Wraps the payload captured by the selector `sel` from `x` as success,
/// or evaluates `f` on the non-matching item if the selector does not
/// match. The binder of `f` receives the entire original item, and the
/// fallback's value, itself a two-armed outcome, replaces the whole
/// result.
pub fn ok_if_else_bind<V, T, U, S: FnOnce(V) -> Result<T, V>, F: FnOnce(V) -> Result<T, U>>(
    x: V,
    sel: S,
    f: F,
) -> (r: Result<T, U>)
    requires
        call_requires(sel, (x,)),
        forall|v: V| call_ensures(sel, (x,), Result::<T, V>::Err(v)) ==> call_requires(f, (v,)),
    ensures
        exists|s: Result<T, V>|
            {
                &&& #[trigger] call_ensures(sel, (x,), s)
                &&& s is Ok ==> r == Result::<T, U>::Ok(s->Ok_0)
                &&& s is Err ==> call_ensures(f, (s->Err_0,), r)
            },
{
    match sel(x) {
        Result::Ok(q) => Result::Ok(q),
        Result::Err(v) => f(v),
    }
}

} // verus!
