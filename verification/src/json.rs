//! Emptiness and defaultness of JSON values.

use crate::default::IsDefault;
use crate::empty::IsEmpty;
use vstd::prelude::*;

verus! {

/// `serde_json::Value`, carried as an opaque value: nothing is known of what
/// one holds but through [`json_extent`].
#[verifier::external_type_specification]
#[verifier::external_body]
pub struct ExJsonValue(serde_json::Value);

/// What the two predicates read of a JSON value: its kind and, for a string,
/// an array or an object, how much it holds.
#[derive(Clone, Copy, Debug, PartialEq, Eq)]
pub enum JsonExtent {
    Null,
    Bool,
    Number,
    /// A string of `length` bytes.
    Text { length: usize },
    /// An array of `length` items.
    Array { length: usize },
    /// An object of `length` entries.
    Object { length: usize },
}

/// The extent of a JSON value.
pub uninterp spec fn json_extent(value: serde_json::Value) -> JsonExtent;

/// Tells the variants of `serde_json::Value` apart and takes the length of
/// the string, the array or the object that a value holds (`String::len`,
/// `Vec::len`, `serde_json::Map::len`). Nothing is proved of it: the extent of
/// a value is whatever this function reads.
#[verifier::external_body]
fn measure(value: &serde_json::Value) -> (r: JsonExtent)
    ensures
        r == json_extent(*value),
{
    match value {
        serde_json::Value::Null => JsonExtent::Null,
        serde_json::Value::Bool(_) => JsonExtent::Bool,
        serde_json::Value::Number(_) => JsonExtent::Number,
        serde_json::Value::String(text) => JsonExtent::Text { length: text.len() },
        serde_json::Value::Array(items) => JsonExtent::Array { length: items.len() },
        serde_json::Value::Object(entries) => JsonExtent::Object { length: entries.len() },
    }
}

impl JsonExtent {
    /// A JSON value is empty when it is null, or a string, an array or an
    /// object that holds nothing. A boolean or a number is never empty.
    pub open spec fn holds_nothing_spec(self) -> bool {
        match self {
            JsonExtent::Null => true,
            JsonExtent::Text { length } => length == 0,
            JsonExtent::Array { length } => length == 0,
            JsonExtent::Object { length } => length == 0,
            JsonExtent::Bool => false,
            JsonExtent::Number => false,
        }
    }

    /// Tells whether a value of this extent is empty.
    pub fn holds_nothing(&self) -> (r: bool)
        ensures
            r == self.holds_nothing_spec(),
    {
        match self {
            JsonExtent::Null => true,
            JsonExtent::Text { length } => *length == 0,
            JsonExtent::Array { length } => *length == 0,
            JsonExtent::Object { length } => *length == 0,
            _ => false,
        }
    }

    /// Tells whether a value of this extent is null.
    pub fn is_null(&self) -> (r: bool)
        ensures
            r == (*self is Null),
    {
        match self {
            JsonExtent::Null => true,
            _ => false,
        }
    }
}

/// A JSON value is empty when it is null, an empty string, an empty array or
/// an empty object.
impl IsEmpty for serde_json::Value {
    open spec fn is_empty_spec(&self) -> bool {
        json_extent(*self).holds_nothing_spec()
    }

    fn is_empty(&self) -> (r: bool) {
        measure(self).holds_nothing()
    }
}

/// A JSON value is the default when it is null.
impl IsDefault for serde_json::Value {
    open spec fn is_default_spec(&self) -> bool {
        json_extent(*self) is Null
    }

    fn is_default(&self) -> (r: bool) {
        measure(self).is_null()
    }
}

} // verus!
