use vstd::prelude::*;
use crate::convert::IntoResult;

verus! {

/// A sample two-variant enumeration, written the way a user of this
/// library would write one. Implementing [`IntoResult`] for it lets the
/// selector-less extraction forms treat an apple as the success arm,
/// carrying its `i32` payload, and an orange as the failure arm, carrying
/// its `i16` payload.
#[derive(Debug, PartialEq, Eq)]
pub enum Fruit {
    Apple(i32),
    Orange(i16),
}

impl IntoResult<i32, i16> for Fruit {
    open spec fn into_result_spec(self) -> Result<i32, i16> {
        match self {
            Fruit::Apple(i) => Result::Ok(i),
            Fruit::Orange(i) => Result::Err(i),
        }
    }

    fn into_result(self) -> (r: Result<i32, i16>) {
        match self {
            Fruit::Apple(i) => Result::Ok(i),
            Fruit::Orange(i) => Result::Err(i),
        }
    }
}

} // verus!
