//! The "is this value the default?" capability, and its meaning for the
//! built-in types.

use std::collections::{BTreeMap, BTreeSet, HashMap, HashSet};
use std::marker::PhantomData;
use vstd::prelude::*;

verus! {

/// A value that can tell whether it is its type's default value.
///
/// A composite type is the default when every one of its members is.
pub trait IsDefault: Default {
    /// What it means for a value of this type to be the default.
    spec fn is_default_spec(&self) -> bool;

    /// Returns `true` exactly when the value is the default.
    fn is_default(&self) -> (r: bool)
        ensures
            r == self.is_default_spec(),
    ;

    /// Returns `true` exactly when the value is not the default.
    fn is_not_default(&self) -> (r: bool)
        ensures
            r == !self.is_default_spec(),
    {
        !self.is_default()
    }
}

/// A boolean is the default when it is `false`.
impl IsDefault for bool {
    open spec fn is_default_spec(&self) -> bool {
        !*self
    }

    fn is_default(&self) -> (r: bool) {
        !*self
    }
}

/// A `usize` is the default when it is zero.
impl IsDefault for usize {
    open spec fn is_default_spec(&self) -> bool {
        *self == 0
    }

    fn is_default(&self) -> (r: bool) {
        *self == 0usize
    }
}

/// A `isize` is the default when it is zero.
impl IsDefault for isize {
    open spec fn is_default_spec(&self) -> bool {
        *self == 0
    }

    fn is_default(&self) -> (r: bool) {
        *self == 0isize
    }
}

/// A `u8` is the default when it is zero.
impl IsDefault for u8 {
    open spec fn is_default_spec(&self) -> bool {
        *self == 0
    }

    fn is_default(&self) -> (r: bool) {
        *self == 0u8
    }
}

/// A `u16` is the default when it is zero.
impl IsDefault for u16 {
    open spec fn is_default_spec(&self) -> bool {
        *self == 0
    }

    fn is_default(&self) -> (r: bool) {
        *self == 0u16
    }
}

/// A `u32` is the default when it is zero.
impl IsDefault for u32 {
    open spec fn is_default_spec(&self) -> bool {
        *self == 0
    }

    fn is_default(&self) -> (r: bool) {
        *self == 0u32
    }
}

/// A `u64` is the default when it is zero.
impl IsDefault for u64 {
    open spec fn is_default_spec(&self) -> bool {
        *self == 0
    }

    fn is_default(&self) -> (r: bool) {
        *self == 0u64
    }
}

/// A `u128` is the default when it is zero.
impl IsDefault for u128 {
    open spec fn is_default_spec(&self) -> bool {
        *self == 0
    }

    fn is_default(&self) -> (r: bool) {
        *self == 0u128
    }
}

/// A `i8` is the default when it is zero.
impl IsDefault for i8 {
    open spec fn is_default_spec(&self) -> bool {
        *self == 0
    }

    fn is_default(&self) -> (r: bool) {
        *self == 0i8
    }
}

/// A `i16` is the default when it is zero.
impl IsDefault for i16 {
    open spec fn is_default_spec(&self) -> bool {
        *self == 0
    }

    fn is_default(&self) -> (r: bool) {
        *self == 0i16
    }
}

/// A `i32` is the default when it is zero.
impl IsDefault for i32 {
    open spec fn is_default_spec(&self) -> bool {
        *self == 0
    }

    fn is_default(&self) -> (r: bool) {
        *self == 0i32
    }
}

/// A `i64` is the default when it is zero.
impl IsDefault for i64 {
    open spec fn is_default_spec(&self) -> bool {
        *self == 0
    }

    fn is_default(&self) -> (r: bool) {
        *self == 0i64
    }
}

/// A `i128` is the default when it is zero.
impl IsDefault for i128 {
    open spec fn is_default_spec(&self) -> bool {
        *self == 0
    }

    fn is_default(&self) -> (r: bool) {
        *self == 0i128
    }
}

/// A string slice is the default when it has no characters.
impl IsDefault for &str {
    open spec fn is_default_spec(&self) -> bool {
        self@.len() == 0
    }

    fn is_default(&self) -> (r: bool) {
        str::is_empty(self)
    }
}

/// A string is the default when it has no characters.
impl IsDefault for String {
    open spec fn is_default_spec(&self) -> bool {
        self@.len() == 0
    }

    fn is_default(&self) -> (r: bool) {
        self.as_str().is_empty()
    }
}

/// The unit value is always the default.
impl IsDefault for () {
    open spec fn is_default_spec(&self) -> bool {
        true
    }

    fn is_default(&self) -> (r: bool) {
        true
    }
}

/// A marker without content is always the default.
impl<T> IsDefault for PhantomData<T> {
    open spec fn is_default_spec(&self) -> bool {
        true
    }

    fn is_default(&self) -> (r: bool) {
        true
    }
}

/// An optional value is the default when it is `None`.
impl<T> IsDefault for Option<T> {
    open spec fn is_default_spec(&self) -> bool {
        self is None
    }

    fn is_default(&self) -> (r: bool) {
        self.is_none()
    }
}

/// A vector is the default when it has no elements.
impl<T> IsDefault for Vec<T> {
    open spec fn is_default_spec(&self) -> bool {
        self@.len() == 0
    }

    fn is_default(&self) -> (r: bool) {
        self.len() == 0
    }
}

/// An ordered map is the default when it has no entries.
impl<K, V> IsDefault for BTreeMap<K, V> {
    open spec fn is_default_spec(&self) -> bool {
        self@.is_empty()
    }

    fn is_default(&self) -> (r: bool) {
        BTreeMap::is_empty(self)
    }
}

/// An ordered set is the default when it has no members.
impl<T> IsDefault for BTreeSet<T> {
    open spec fn is_default_spec(&self) -> bool {
        self@.is_empty()
    }

    fn is_default(&self) -> (r: bool) {
        BTreeSet::is_empty(self)
    }
}

/// A hash map is the default when it has no entries.
impl<K, V> IsDefault for HashMap<K, V> {
    open spec fn is_default_spec(&self) -> bool {
        self@.is_empty()
    }

    fn is_default(&self) -> (r: bool) {
        HashMap::is_empty(self)
    }
}

/// A hash set is the default when it has no members.
impl<T> IsDefault for HashSet<T> {
    open spec fn is_default_spec(&self) -> bool {
        self@.is_empty()
    }

    fn is_default(&self) -> (r: bool) {
        HashSet::is_empty(self)
    }
}

} // verus!
