//! Generated predicates: the expression that decides emptiness or
//! defaultness of a composite value, and how it is built from a shape.

use crate::error::{ErrorModel, GenerationError};
use crate::resolve::{position, resolution, resolve_default_variant};
use crate::shape::{
    variant_models, RecordModel, RecordShape, ShapeModel, TypeShape, Variant, VariantModel,
};
use vstd::prelude::*;

verus! {

/// The predicate family that a generated predicate belongs to.
#[derive(Clone, Copy, PartialEq, Eq, Debug)]
pub enum Family {
    IsEmpty,
    IsDefault,
}

/// What a member call is made on.
pub enum OperandModel {
    Named { name: Seq<char> },
    Indexed { index: nat },
}

/// The member that one predicate call is made on: a field by its name, or a
/// field by its zero-based position.
#[derive(Debug, PartialEq, Eq)]
pub enum Operand {
    Named { name: String },
    Indexed { index: usize },
}

impl View for Operand {
    type V = OperandModel;

    open spec fn view(&self) -> OperandModel {
        match self {
            Operand::Named { name } => OperandModel::Named { name: name@ },
            Operand::Indexed { index } => OperandModel::Indexed { index: *index as nat },
        }
    }
}

/// The models of a sequence of operands, in order.
pub open spec fn operand_models(operands: Seq<Operand>) -> Seq<OperandModel> {
    Seq::new(operands.len(), |i: int| operands[i]@)
}

/// The form of the pattern that selects a variant and binds its fields.
#[derive(Clone, Copy, PartialEq, Eq, Debug)]
pub enum PatternKind {
    /// The bare variant.
    Unit,
    /// The variant with its fields bound by position.
    Tuple,
    /// The variant with its fields bound by name.
    Struct,
}

/// What one arm of a dispatch is.
pub struct ArmModel {
    pub index: nat,
    pub variant: Seq<char>,
    pub pattern: PatternKind,
    pub condition: Seq<OperandModel>,
}

/// One arm of a dispatch over variants: the variant it selects, by position
/// and name, the form of its pattern, and the members whose predicate calls
/// are joined by AND in its body. The pattern binds exactly those members.
#[derive(Debug, PartialEq, Eq)]
pub struct Arm {
    pub index: usize,
    pub variant: String,
    pub pattern: PatternKind,
    pub condition: Vec<Operand>,
}

impl View for Arm {
    type V = ArmModel;

    open spec fn view(&self) -> ArmModel {
        ArmModel {
            index: self.index as nat,
            variant: self.variant@,
            pattern: self.pattern,
            condition: operand_models(self.condition@),
        }
    }
}

/// The models of a sequence of arms, in order.
pub open spec fn arm_models(arms: Seq<Arm>) -> Seq<ArmModel> {
    Seq::new(arms.len(), |i: int| arms[i]@)
}

/// What a predicate's body is.
pub enum BodyModel {
    Conjunction { operands: Seq<OperandModel> },
    Dispatch { arms: Seq<ArmModel>, catch_all: bool },
    EqualsDefault,
}

/// The body of a generated predicate.
#[derive(Debug, PartialEq, Eq)]
pub enum Body {
    /// The AND of the predicate calls on the value's own members, evaluated
    /// left to right; with no members it is the literal `true`.
    Conjunction { operands: Vec<Operand> },
    /// A dispatch over the value's variant, one arm after the other; with
    /// `catch_all`, a last arm gives `false` for every variant that has no
    /// arm of its own.
    Dispatch { arms: Vec<Arm>, catch_all: bool },
    /// Equality of the value with the default value of its type.
    EqualsDefault,
}

impl View for Body {
    type V = BodyModel;

    open spec fn view(&self) -> BodyModel {
        match self {
            Body::Conjunction { operands } => BodyModel::Conjunction {
                operands: operand_models(operands@),
            },
            Body::Dispatch { arms, catch_all } => BodyModel::Dispatch {
                arms: arm_models(arms@),
                catch_all: *catch_all,
            },
            Body::EqualsDefault => BodyModel::EqualsDefault,
        }
    }
}

/// What a generated predicate is.
pub struct PredicateModel {
    pub owning_type: Seq<char>,
    pub family: Family,
    pub body: BodyModel,
}

/// One generated predicate: the type it is attached to, the family it
/// belongs to, and its body.
#[derive(Debug, PartialEq, Eq)]
pub struct GeneratedPredicate {
    pub owning_type: String,
    pub family: Family,
    pub body: Body,
}

impl View for GeneratedPredicate {
    type V = PredicateModel;

    open spec fn view(&self) -> PredicateModel {
        PredicateModel { owning_type: self.owning_type@, family: self.family, body: self.body@ }
    }
}

/// The members of a record as operands, in declaration order.
pub open spec fn operands_of(members: RecordModel) -> Seq<OperandModel> {
    match members {
        RecordModel::Unit => Seq::empty(),
        RecordModel::Named { fields } => Seq::new(
            fields.len(),
            |i: int| OperandModel::Named { name: fields[i] },
        ),
        RecordModel::Positional { arity } => Seq::new(
            arity,
            |i: int| OperandModel::Indexed { index: i as nat },
        ),
    }
}

/// The form of the pattern that binds a variant's members.
pub open spec fn pattern_of(members: RecordModel) -> PatternKind {
    match members {
        RecordModel::Unit => PatternKind::Unit,
        RecordModel::Named { .. } => PatternKind::Struct,
        RecordModel::Positional { .. } => PatternKind::Tuple,
    }
}

/// The arm for the variant at position `i`.
pub open spec fn arm_of(variants: Seq<VariantModel>, i: int) -> ArmModel {
    ArmModel {
        index: i as nat,
        variant: variants[i].name,
        pattern: pattern_of(variants[i].shape),
        condition: operands_of(variants[i].shape),
    }
}

/// The body of the is-empty predicate for a shape: for a record the AND over
/// its members, for a tagged union one arm per variant and no catch-all.
pub open spec fn empty_body(shape: ShapeModel) -> BodyModel {
    match shape {
        ShapeModel::Record { members } => BodyModel::Conjunction { operands: operands_of(members) },
        ShapeModel::TaggedUnion { variants } => BodyModel::Dispatch {
            arms: Seq::new(variants.len(), |i: int| arm_of(variants, i)),
            catch_all: false,
        },
    }
}

/// The body of the is-default predicate for a shape and a resolved default
/// variant: for a record the AND over its members; for a tagged union with a
/// default variant the one arm of that variant and a catch-all; for a tagged
/// union without one, equality with the default value.
pub open spec fn default_body(shape: ShapeModel, choice: Option<nat>) -> BodyModel {
    match shape {
        ShapeModel::Record { members } => BodyModel::Conjunction { operands: operands_of(members) },
        ShapeModel::TaggedUnion { variants } => match choice {
            Some(d) => BodyModel::Dispatch { arms: seq![arm_of(variants, d as int)], catch_all: true },
            None => BodyModel::EqualsDefault,
        },
    }
}

/// The is-default body of a shape, or the failure to resolve its default
/// variant.
pub open spec fn default_body_of(shape: ShapeModel) -> Result<BodyModel, ErrorModel> {
    match shape {
        ShapeModel::Record { .. } => Ok(default_body(shape, None)),
        ShapeModel::TaggedUnion { variants } => match resolution(variants) {
            Ok(choice) => Ok(default_body(shape, choice)),
            Err(e) => Err(e),
        },
    }
}

/// Lists a record's members as operands, in declaration order.
pub fn conjunction_over(members: &RecordShape) -> (r: Vec<Operand>)
    ensures
        operand_models(r@) == operands_of(members@),
{
    let mut out: Vec<Operand> = Vec::new();
    match members {
        RecordShape::UnitRecord => {},
        RecordShape::NamedRecord { fields } => {
            let mut i: usize = 0;
            while i < fields.len()
                invariant
                    i <= fields.len(),
                    out.len() == i,
                    forall|k: int| 0 <= k < i ==> out[k]@ == (OperandModel::Named { name: fields[k]@ }),
                decreases fields.len() - i,
            {
                out.push(Operand::Named { name: fields[i].clone() });
                i += 1;
            }
        },
        RecordShape::PositionalRecord { arity } => {
            let mut i: usize = 0;
            while i < *arity
                invariant
                    i <= *arity,
                    out.len() == i,
                    forall|k: int| 0 <= k < i ==> out[k]@ == (OperandModel::Indexed { index: k as nat }),
                decreases *arity - i,
            {
                out.push(Operand::Indexed { index: i });
                i += 1;
            }
        },
    }
    out
}

/// Gives the form of the pattern that binds a variant's members.
pub fn pattern_for(members: &RecordShape) -> (r: PatternKind)
    ensures
        r == pattern_of(members@),
{
    match members {
        RecordShape::UnitRecord => PatternKind::Unit,
        RecordShape::NamedRecord { .. } => PatternKind::Struct,
        RecordShape::PositionalRecord { .. } => PatternKind::Tuple,
    }
}

/// Builds the arm for the variant at position `index`.
pub fn arm_for(variants: &Vec<Variant>, index: usize) -> (r: Arm)
    requires
        index < variants.len(),
    ensures
        r@ == arm_of(variant_models(variants@), index as int),
{
    let v = &variants[index];
    Arm {
        index,
        variant: v.name.clone(),
        pattern: pattern_for(&v.shape),
        condition: conjunction_over(&v.shape),
    }
}

/// Synthesizes the body of the is-empty predicate for a shape.
pub fn synthesize_is_empty(shape: &TypeShape) -> (r: Body)
    ensures
        r@ == empty_body(shape@),
{
    match shape {
        TypeShape::Record { members } => Body::Conjunction { operands: conjunction_over(members) },
        TypeShape::TaggedUnion { variants } => {
            let mut arms: Vec<Arm> = Vec::new();
            let mut i: usize = 0;
            while i < variants.len()
                invariant
                    i <= variants.len(),
                    arms.len() == i,
                    forall|k: int| 0 <= k < i ==> arms[k]@ == arm_of(variant_models(variants@), k),
                decreases variants.len() - i,
            {
                arms.push(arm_for(variants, i));
                i += 1;
            }
            assert(arm_models(arms@) =~= Seq::new(
                variant_models(variants@).len(),
                |i: int| arm_of(variant_models(variants@), i),
            ));
            Body::Dispatch { arms, catch_all: false }
        },
    }
}

/// Synthesizes the body of the is-default predicate for a shape, given the
/// default variant that resolution found. For a record the choice plays no
/// part.
pub fn synthesize_with_choice(shape: &TypeShape, choice: Option<usize>) -> (r: Body)
    requires
        shape@ matches ShapeModel::TaggedUnion { variants } ==> (choice matches Some(d) ==> d
            < variants.len()),
    ensures
        r@ == default_body(shape@, position(choice)),
{
    match shape {
        TypeShape::Record { members } => Body::Conjunction { operands: conjunction_over(members) },
        TypeShape::TaggedUnion { variants } => match choice {
            Some(d) => {
                let mut arms: Vec<Arm> = Vec::new();
                arms.push(arm_for(variants, d));
                assert(arm_models(arms@) =~= seq![arm_of(variant_models(variants@), d as int)]);
                Body::Dispatch { arms, catch_all: true }
            },
            None => Body::EqualsDefault,
        },
    }
}

/// Synthesizes the body of the is-default predicate for a shape: resolves
/// the default variant of a tagged union, fails where several are marked,
/// and builds the body for what was resolved.
pub fn synthesize_is_default(shape: &TypeShape) -> (r: Result<Body, GenerationError>)
    ensures
        match default_body_of(shape@) {
            Ok(body) => r is Ok && r->Ok_0@ == body,
            Err(e) => r is Err && r->Err_0@ == e,
        },
{
    match shape {
        TypeShape::Record { .. } => Ok(synthesize_with_choice(shape, None)),
        TypeShape::TaggedUnion { variants } => {
            match resolve_default_variant(variants) {
                Ok(choice) => {
                    proof {
                        crate::resolve::lemma_marked_before(
                            variant_models(variants@),
                            variants.len() as int,
                        );
                    }
                    Ok(synthesize_with_choice(shape, choice))
                },
                Err(e) => Err(e),
            }
        },
    }
}

} // verus!
