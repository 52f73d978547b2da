//! The ways in which generation can fail.

use crate::shape::texts;
use vstd::prelude::*;

verus! {

/// What a generation failure is.
pub enum ErrorModel {
    UnsupportedShape,
    MultipleDefaultMarkers { variants: Seq<Seq<char>> },
}

/// A failure of generation. Each one aborts generation for the type it
/// concerns: no predicate is produced for that type.
#[derive(Debug, PartialEq, Eq)]
pub enum GenerationError {
    /// The type definition is neither a record nor a tagged union.
    UnsupportedShape,
    /// More than one variant of a tagged union claims to be the default; the
    /// names of all of them are given, in declaration order.
    MultipleDefaultMarkers { variants: Vec<String> },
}

impl View for GenerationError {
    type V = ErrorModel;

    open spec fn view(&self) -> ErrorModel {
        match self {
            GenerationError::UnsupportedShape => ErrorModel::UnsupportedShape,
            GenerationError::MultipleDefaultMarkers { variants } => {
                ErrorModel::MultipleDefaultMarkers { variants: texts(variants@) }
            },
        }
    }
}

} // verus!
