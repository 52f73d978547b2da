//! The two generators, one per predicate family: from a type definition to
//! the predicate that is attached to the type.

use crate::error::{ErrorModel, GenerationError};
use crate::predicate::{
    default_body_of, empty_body, synthesize_is_default, synthesize_is_empty, Family,
    GeneratedPredicate, PredicateModel,
};
use crate::render::{diagnostic_text, impl_text};
use crate::shape::{classify, extract_shape, DefinitionModel, TypeDefinition};
use vstd::prelude::*;

verus! {

/// The is-empty predicate of a definition: that of its shape, attached to the
/// definition's name; a failure where the definition has no shape.
pub open spec fn derived_is_empty(definition: DefinitionModel) -> Result<
    PredicateModel,
    ErrorModel,
> {
    match classify(definition.data) {
        Some(shape) => Ok(
            PredicateModel {
                owning_type: definition.name,
                family: Family::IsEmpty,
                body: empty_body(shape),
            },
        ),
        None => Err(ErrorModel::UnsupportedShape),
    }
}

/// The is-default predicate of a definition: that of its shape, attached to
/// the definition's name; a failure where the definition has no shape or
/// where several variants are marked as the default.
pub open spec fn derived_is_default(definition: DefinitionModel) -> Result<
    PredicateModel,
    ErrorModel,
> {
    match classify(definition.data) {
        Some(shape) => match default_body_of(shape) {
            Ok(body) => Ok(
                PredicateModel {
                    owning_type: definition.name,
                    family: Family::IsDefault,
                    body,
                },
            ),
            Err(e) => Err(e),
        },
        None => Err(ErrorModel::UnsupportedShape),
    }
}

/// Generates the is-empty predicate for a type definition.
///
/// Fails with an unsupported shape where the definition is neither a record
/// nor a tagged union, and then produces nothing.
pub fn derive_is_empty_impl(definition: &TypeDefinition) -> (r: Result<
    GeneratedPredicate,
    GenerationError,
>)
    ensures
        match derived_is_empty(definition@) {
            Ok(p) => r is Ok && r->Ok_0@ == p,
            Err(e) => r is Err && r->Err_0@ == e,
        },
{
    match extract_shape(definition) {
        Ok(shape) => Ok(
            GeneratedPredicate {
                owning_type: definition.name.clone(),
                family: Family::IsEmpty,
                body: synthesize_is_empty(&shape),
            },
        ),
        Err(_) => Err(GenerationError::UnsupportedShape),
    }
}

/// Generates the is-default predicate for a type definition.
///
/// Fails with an unsupported shape where the definition is neither a record
/// nor a tagged union, and with the names of all marked variants where
/// several variants of a tagged union are marked as the default. A failure
/// produces nothing.
pub fn derive_is_default_impl(definition: &TypeDefinition) -> (r: Result<
    GeneratedPredicate,
    GenerationError,
>)
    ensures
        match derived_is_default(definition@) {
            Ok(p) => r is Ok && r->Ok_0@ == p,
            Err(e) => r is Err && r->Err_0@ == e,
        },
{
    match extract_shape(definition) {
        Ok(shape) => match synthesize_is_default(&shape) {
            Ok(body) => Ok(
                GeneratedPredicate {
                    owning_type: definition.name.clone(),
                    family: Family::IsDefault,
                    body,
                },
            ),
            Err(e) => Err(e),
        },
        Err(_) => Err(GenerationError::UnsupportedShape),
    }
}

/// The source text that is-empty generation answers a definition with: the
/// implementation, or the diagnostic of the failure.
pub open spec fn is_empty_source(definition: DefinitionModel) -> Seq<char> {
    match derived_is_empty(definition) {
        Ok(p) => impl_text(p),
        Err(e) => diagnostic_text(e, Family::IsEmpty),
    }
}

/// The source text that is-default generation answers a definition with: the
/// implementation, or the diagnostic of the failure.
pub open spec fn is_default_source(definition: DefinitionModel) -> Seq<char> {
    match derived_is_default(definition) {
        Ok(p) => impl_text(p),
        Err(e) => diagnostic_text(e, Family::IsDefault),
    }
}

/// Answers a request for the is-empty predicate of a type with source text:
/// the implementation of the trait for the type, or, where generation fails,
/// a diagnostic that stops the build and nothing else.
pub fn derive_is_empty(definition: &TypeDefinition) -> (r: String)
    ensures
        r@ == is_empty_source(definition@),
{
    match derive_is_empty_impl(definition) {
        Ok(predicate) => predicate.render(),
        Err(error) => error.diagnostic(Family::IsEmpty),
    }
}

/// Answers a request for the is-default predicate of a type with source
/// text: the implementation of the trait for the type, or, where generation
/// fails, a diagnostic that stops the build and nothing else.
pub fn derive_is_default(definition: &TypeDefinition) -> (r: String)
    ensures
        r@ == is_default_source(definition@),
{
    match derive_is_default_impl(definition) {
        Ok(predicate) => predicate.render(),
        Err(error) => error.diagnostic(Family::IsDefault),
    }
}

} // verus!
