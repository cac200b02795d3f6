//! Ergonomic extraction of the payload carried inside a sum-typed value.
//!
//! The `inner` family of functions descends into the success case of a
//! two-armed value (anything implementing [`IntoResult`]) or into a chosen
//! variant of a user enumeration, with a fallback evaluated only when the
//! value does not match. The `some_if` family turns a variant match into an
//! `Option`, and the `ok_if` family turns it into a `Result` that keeps the
//! whole non-matching item on mismatch.
//!
//! A variant of a user enumeration is chosen by a selector closure that
//! yields the captured payload on a match and returns the item itself,
//! untouched, otherwise. Every form consumes its target exactly once.

mod convert;
mod extract;
mod fruit;
mod optional;
mod outcome;
mod variant;

pub use convert::IntoResult;
pub use extract::inner;
pub use extract::inner_else;
pub use extract::inner_else_bind;
pub use extract::inner_if;
pub use extract::inner_if_else;
pub use extract::inner_if_else_bind;
pub use fruit::Fruit;
pub use optional::some_if;
pub use optional::some_if_else;
pub use optional::some_if_else_bind;
pub use outcome::ok_if;
pub use outcome::ok_if_else;
pub use outcome::ok_if_else_bind;
pub use outcome::ok_if_or;
pub use outcome::ok_if_or_bind;
pub use variant::apply_selector;
pub use variant::fallback_of;
pub use variant::lemma_optional_form;
pub use variant::lemma_result_fallback_form;
pub use variant::lemma_result_replaced_form;
pub use variant::lemma_selector;
pub use variant::optional_of;
pub use variant::replaced_of;
