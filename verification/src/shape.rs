//! Type definitions as the host hands them over, the normalized shapes the
//! generator works on, and the classification that leads from one to the
//! other.

use crate::error::GenerationError;
use vstd::prelude::*;

verus! {

/// The texts of a sequence of strings, in order.
pub open spec fn texts(names: Seq<String>) -> Seq<Seq<char>> {
    Seq::new(names.len(), |i: int| names[i]@)
}

/// The marker that tags a union's variant as the default one.
pub open spec fn default_marker() -> Seq<char> {
    "default"@
}

/// What a record's field list is: nothing, names in declaration order, or a
/// number of positions.
pub enum RecordModel {
    Unit,
    Named { fields: Seq<Seq<char>> },
    Positional { arity: nat },
}

impl RecordModel {
    /// The number of members.
    pub open spec fn width(self) -> nat {
        match self {
            RecordModel::Unit => 0,
            RecordModel::Named { fields } => fields.len(),
            RecordModel::Positional { arity } => arity,
        }
    }
}

/// The members of a record or of one variant of a tagged union.
#[derive(Debug, PartialEq, Eq)]
pub enum RecordShape {
    /// No fields.
    UnitRecord,
    /// Named fields, in declaration order.
    NamedRecord { fields: Vec<String> },
    /// Fields addressed by zero-based index.
    PositionalRecord { arity: usize },
}

impl View for RecordShape {
    type V = RecordModel;

    open spec fn view(&self) -> RecordModel {
        match self {
            RecordShape::UnitRecord => RecordModel::Unit,
            RecordShape::NamedRecord { fields } => RecordModel::Named { fields: texts(fields@) },
            RecordShape::PositionalRecord { arity } => RecordModel::Positional {
                arity: *arity as nat,
            },
        }
    }
}

/// Copies a list of names.
pub fn copy_names(names: &Vec<String>) -> (r: Vec<String>)
    ensures
        texts(r@) == texts(names@),
{
    let mut out: Vec<String> = Vec::new();
    let mut i: usize = 0;
    while i < names.len()
        invariant
            i <= names.len(),
            out.len() == i,
            forall|k: int| 0 <= k < i ==> out[k]@ == names[k]@,
        decreases names.len() - i,
    {
        out.push(names[i].clone());
        i += 1;
    }
    out
}

impl RecordShape {
    /// The number of members.
    pub fn width(&self) -> (r: usize)
        ensures
            r == self@.width(),
    {
        match self {
            RecordShape::UnitRecord => 0,
            RecordShape::NamedRecord { fields } => fields.len(),
            RecordShape::PositionalRecord { arity } => *arity,
        }
    }

    /// Copies the shape.
    pub fn duplicate(&self) -> (r: RecordShape)
        ensures
            r@ == self@,
    {
        match self {
            RecordShape::UnitRecord => RecordShape::UnitRecord,
            RecordShape::NamedRecord { fields } => RecordShape::NamedRecord {
                fields: copy_names(fields),
            },
            RecordShape::PositionalRecord { arity } => RecordShape::PositionalRecord {
                arity: *arity,
            },
        }
    }
}

/// What a variant of a tagged union is.
pub struct VariantModel {
    pub name: Seq<char>,
    pub shape: RecordModel,
    pub is_marked_default: bool,
}

/// One variant of a tagged union.
#[derive(Debug, PartialEq, Eq)]
pub struct Variant {
    pub name: String,
    pub shape: RecordShape,
    /// Whether the variant carries the default marker.
    pub is_marked_default: bool,
}

impl View for Variant {
    type V = VariantModel;

    open spec fn view(&self) -> VariantModel {
        VariantModel {
            name: self.name@,
            shape: self.shape@,
            is_marked_default: self.is_marked_default,
        }
    }
}

/// The models of a sequence of variants, in order.
pub open spec fn variant_models(variants: Seq<Variant>) -> Seq<VariantModel> {
    Seq::new(variants.len(), |i: int| variants[i]@)
}

/// What a type's shape is: a record, or a tagged union of variants in
/// declaration order.
pub enum ShapeModel {
    Record { members: RecordModel },
    TaggedUnion { variants: Seq<VariantModel> },
}

/// The normalized description of one type definition.
#[derive(Debug, PartialEq, Eq)]
pub enum TypeShape {
    /// A record: without fields, with named fields or with positional ones.
    Record { members: RecordShape },
    /// A tagged union.
    TaggedUnion { variants: Vec<Variant> },
}

impl View for TypeShape {
    type V = ShapeModel;

    open spec fn view(&self) -> ShapeModel {
        match self {
            TypeShape::Record { members } => ShapeModel::Record { members: members@ },
            TypeShape::TaggedUnion { variants } => ShapeModel::TaggedUnion {
                variants: variant_models(variants@),
            },
        }
    }
}

/// What the host says of one variant.
pub struct VariantDefinitionModel {
    pub name: Seq<char>,
    pub attributes: Seq<Seq<char>>,
    pub fields: RecordModel,
}

/// One variant of a tagged union as the host declares it: its name, the
/// names of the attributes written on it, and its fields.
#[derive(Debug, PartialEq, Eq)]
pub struct VariantDefinition {
    pub name: String,
    pub attributes: Vec<String>,
    pub fields: RecordShape,
}

impl View for VariantDefinition {
    type V = VariantDefinitionModel;

    open spec fn view(&self) -> VariantDefinitionModel {
        VariantDefinitionModel {
            name: self.name@,
            attributes: texts(self.attributes@),
            fields: self.fields@,
        }
    }
}

/// The models of a sequence of declared variants, in order.
pub open spec fn definition_models(variants: Seq<VariantDefinition>) -> Seq<
    VariantDefinitionModel,
> {
    Seq::new(variants.len(), |i: int| variants[i]@)
}

/// What the host says of a type's content.
pub enum DataModel {
    Struct { fields: RecordModel },
    Enum { variants: Seq<VariantDefinitionModel> },
    Union,
}

/// The content of a type definition, by kind.
#[derive(Debug, PartialEq, Eq)]
pub enum DefinitionData {
    /// A record.
    Struct { fields: RecordShape },
    /// A tagged union.
    Enum { variants: Vec<VariantDefinition> },
    /// An untagged union, whose active member is unknown.
    Union,
}

impl View for DefinitionData {
    type V = DataModel;

    open spec fn view(&self) -> DataModel {
        match self {
            DefinitionData::Struct { fields } => DataModel::Struct { fields: fields@ },
            DefinitionData::Enum { variants } => DataModel::Enum {
                variants: definition_models(variants@),
            },
            DefinitionData::Union => DataModel::Union,
        }
    }
}

/// What the host says of a type.
pub struct DefinitionModel {
    pub name: Seq<char>,
    pub data: DataModel,
}

/// One type definition as the host supplies it.
#[derive(Debug, PartialEq, Eq)]
pub struct TypeDefinition {
    pub name: String,
    pub data: DefinitionData,
}

impl View for TypeDefinition {
    type V = DefinitionModel;

    open spec fn view(&self) -> DefinitionModel {
        DefinitionModel { name: self.name@, data: self.data@ }
    }
}

/// Whether a list of attribute names holds the default marker.
pub open spec fn has_marker(attributes: Seq<Seq<char>>) -> bool {
    attributes.contains(default_marker())
}

/// The variant that a declared variant is classified as.
pub open spec fn classify_variant(v: VariantDefinitionModel) -> VariantModel {
    VariantModel { name: v.name, shape: v.fields, is_marked_default: has_marker(v.attributes) }
}

/// The shape that a definition is classified as; `None` where the
/// definition is of no kind that has a shape.
pub open spec fn classify(data: DataModel) -> Option<ShapeModel> {
    match data {
        DataModel::Struct { fields } => Some(ShapeModel::Record { members: fields }),
        DataModel::Enum { variants } => Some(
            ShapeModel::TaggedUnion {
                variants: Seq::new(variants.len(), |i: int| classify_variant(variants[i])),
            },
        ),
        DataModel::Union => None,
    }
}

/// Tells whether a variant's attributes hold the default marker.
pub fn has_default_attr(attributes: &Vec<String>) -> (r: bool)
    ensures
        r == has_marker(texts(attributes@)),
{
    let marker = String::from_str("default");
    let mut i: usize = 0;
    while i < attributes.len()
        invariant
            i <= attributes.len(),
            marker@ == default_marker(),
            forall|k: int| 0 <= k < i ==> attributes[k]@ != default_marker(),
        decreases attributes.len() - i,
    {
        if attributes[i] == marker {
            assert(texts(attributes@)[i as int] == default_marker());
            return true;
        }
        i += 1;
    }
    false
}

/// Classifies one declared variant.
pub fn extract_variant(v: &VariantDefinition) -> (r: Variant)
    ensures
        r@ == classify_variant(v@),
{
    Variant {
        name: v.name.clone(),
        shape: v.fields.duplicate(),
        is_marked_default: has_default_attr(&v.attributes),
    }
}

/// Classifies a type definition into its shape.
///
/// A record keeps its field list; a tagged union has each of its variants
/// classified in turn, in declaration order. Any other kind of definition is
/// rejected as an unsupported shape.
pub fn extract_shape(definition: &TypeDefinition) -> (r: Result<TypeShape, GenerationError>)
    ensures
        match classify(definition@.data) {
            Some(shape) => r is Ok && r->Ok_0@ == shape,
            None => r is Err && r->Err_0 is UnsupportedShape,
        },
{
    match &definition.data {
        DefinitionData::Struct { fields } => Ok(TypeShape::Record { members: fields.duplicate() }),
        DefinitionData::Enum { variants } => {
            let mut out: Vec<Variant> = Vec::new();
            let mut i: usize = 0;
            while i < variants.len()
                invariant
                    i <= variants.len(),
                    out.len() == i,
                    forall|k: int| 0 <= k < i ==> out[k]@ == classify_variant(variants[k]@),
                decreases variants.len() - i,
            {
                out.push(extract_variant(&variants[i]));
                i += 1;
            }
            assert(variant_models(out@) =~= Seq::new(
                definition_models(variants@).len(),
                |i: int| classify_variant(definition_models(variants@)[i]),
            ));
            Ok(TypeShape::TaggedUnion { variants: out })
        },
        DefinitionData::Union => Err(GenerationError::UnsupportedShape),
    }
}

} // verus!
