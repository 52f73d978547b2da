//! Structural "is it empty?" and "is it the default?" predicates: the two
//! capabilities, their meaning for the built-in types, and the generator that
//! composes them for user-defined records and tagged unions.

pub mod default;
pub mod empty;
pub mod error;
pub mod eval;
pub mod generate;
pub mod json;
pub mod laws;
pub mod predicate;
pub mod prelude;
pub mod render;
pub mod resolve;
pub mod shape;

pub use crate::default::IsDefault;
pub use crate::empty::IsEmpty;
pub use crate::generate::{
    derive_is_default, derive_is_default_impl, derive_is_empty, derive_is_empty_impl,
};
