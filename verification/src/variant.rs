use vstd::prelude::*;

verus! {

// The mathematical model of a variant selector.
//
// A selector for one variant of an enumeration `V` with captured payload
// type `T` is described by the partial projection `p`: `p(v)` is the
// payload when `v` is the chosen variant and nothing otherwise. Applying a
// selector is `apply_selector(p, v)`; the spec functions below state what
// each extraction form makes of the selector's outcome, and the lemmas
// state the laws of the forms.

/// What a variant selector yields on `v`: the captured payload on a match,
/// the entire original item otherwise.
pub open spec fn apply_selector<V, T>(p: spec_fn(V) -> Option<T>, v: V) -> Result<T, V> {
    match p(v) {
        Option::Some(t) => Result::Ok(t),
        Option::None => Result::Err(v),
    }
}

/// What the optional-producing form makes of a selector outcome: the
/// payload wrapped as present on a match, absent otherwise.
pub open spec fn optional_of<T, V>(s: Result<T, V>) -> Option<T> {
    match s {
        Result::Ok(t) => Option::Some(t),
        Result::Err(_) => Option::None,
    }
}

/// What the result-producing replacement form (`or`) makes of a selector
/// outcome: the payload as success on a match, the replacement `rep`
/// wrapped as failure otherwise.
pub open spec fn replaced_of<T, V, U>(s: Result<T, V>, rep: U) -> Result<T, U> {
    match s {
        Result::Ok(t) => Result::Ok(t),
        Result::Err(_) => Result::Err(rep),
    }
}

/// What the result-producing fallback form (`else`) makes of a selector
/// outcome: the payload as success on a match, the fallback outcome `alt`
/// whole otherwise.
pub open spec fn fallback_of<T, V, U>(s: Result<T, V>, alt: Result<T, U>) -> Result<T, U> {
    match s {
        Result::Ok(t) => Result::Ok(t),
        Result::Err(_) => alt,
    }
}

/// On a matching variant a selector yields exactly the captured payload;
/// on a non-matching variant it yields the entire original item, not a
/// sub-field. This is also the law of the plain result-producing form,
/// which passes the selector's outcome through unchanged: success with the
/// payload on a match, failure carrying the whole item on a mismatch.
pub proof fn lemma_selector<V, T>(p: spec_fn(V) -> Option<T>, v: V)
    ensures
        p(v) is Some ==> apply_selector(p, v) == Result::<T, V>::Ok(p(v)->0),
        p(v) is None ==> apply_selector(p, v) == Result::<T, V>::Err(v),
{
}

/// The optional-form law: converting a value through a selector gives the
/// present case of the payload exactly when the variant matches, and the
/// absent case otherwise — that is, exactly the selector's projection.
pub proof fn lemma_optional_form<V, T>(p: spec_fn(V) -> Option<T>, v: V)
    ensures
        optional_of(apply_selector(p, v)) == p(v),
{
}

/// The replacement result-form law: success with the payload on a match,
/// failure carrying the replacement value on a mismatch — whatever the
/// mismatched payload was.
pub proof fn lemma_result_replaced_form<V, T, U>(p: spec_fn(V) -> Option<T>, v: V, rep: U)
    ensures
        p(v) is Some ==> replaced_of(apply_selector(p, v), rep) == Result::<T, U>::Ok(p(v)->0),
        p(v) is None ==> replaced_of(apply_selector(p, v), rep) == Result::<T, U>::Err(rep),
{
}

/// The fallback result-form law: success with the payload on a match, and
/// on a mismatch whatever two-armed outcome the fallback evaluates to.
pub proof fn lemma_result_fallback_form<V, T, U>(
    p: spec_fn(V) -> Option<T>,
    v: V,
    alt: Result<T, U>,
)
    ensures
        p(v) is Some ==> fallback_of(apply_selector(p, v), alt) == Result::<T, U>::Ok(p(v)->0),
        p(v) is None ==> fallback_of(apply_selector(p, v), alt) == alt,
{
}

} // verus!
