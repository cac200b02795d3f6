use vstd::prelude::*;

verus! {

/// Converts a value into a `Result`.
///
/// A type implementing this trait declares that each of its values stands
/// for exactly one two-armed outcome: a success payload of type `T` or a
/// failure payload of type `E`. Implement it for your own types to use the
/// selector-less extraction forms on them.
///
/// The conversion is total: it consumes the value once and returns the
/// outcome given by [`IntoResult::into_result_spec`], deterministically and
/// without side effects.
pub trait IntoResult<T, E>: Sized {
    /// The two-armed outcome that this value stands for.
    spec fn into_result_spec(self) -> Result<T, E>;

    /// Performs the conversion.
    fn into_result(self) -> (r: Result<T, E>)
        ensures
            r == self.into_result_spec(),
    ;
}

/// A result-shaped value converts to itself, unchanged.
impl<T, E> IntoResult<T, E> for Result<T, E> {
    open spec fn into_result_spec(self) -> Result<T, E> {
        self
    }

    fn into_result(self) -> (r: Result<T, E>) {
        self
    }
}

/// An optional-shaped value converts to a result whose failure payload is
/// the unit value.
impl<T> IntoResult<T, ()> for Option<T> {
    open spec fn into_result_spec(self) -> Result<T, ()> {
        match self {
            Option::Some(t) => Result::Ok(t),
            Option::None => Result::Err(()),
        }
    }

    fn into_result(self) -> (r: Result<T, ()>) {
        match self {
            Option::Some(t) => Result::Ok(t),
            Option::None => Result::Err(()),
        }
    }
}

} // verus!
