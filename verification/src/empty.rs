//! The "is this value empty?" capability, and its meaning for the built-in
//! holders of values.

use std::collections::{BTreeMap, BTreeSet, HashMap, HashSet};
use vstd::prelude::*;

verus! {

/// A value that can tell whether it is empty.
///
/// A value is empty when it wraps or holds other values and currently holds
/// none. A composite type is empty when every one of its members is.
pub trait IsEmpty {
    /// What it means for a value of this type to be empty.
    spec fn is_empty_spec(&self) -> bool;

    /// Returns `true` exactly when the value is empty.
    fn is_empty(&self) -> (r: bool)
        ensures
            r == self.is_empty_spec(),
    ;
}

/// An optional value is empty when it is `None`.
impl<T> IsEmpty for Option<T> {
    open spec fn is_empty_spec(&self) -> bool {
        self is None
    }

    fn is_empty(&self) -> (r: bool) {
        self.is_none()
    }
}

/// A slice is empty when it has no elements.
impl<T> IsEmpty for [T] {
    open spec fn is_empty_spec(&self) -> bool {
        self@.len() == 0
    }

    fn is_empty(&self) -> (r: bool) {
        self.len() == 0
    }
}

/// An array is empty when its length is zero.
impl<const N: usize, T> IsEmpty for [T; N] {
    open spec fn is_empty_spec(&self) -> bool {
        N == 0
    }

    fn is_empty(&self) -> (r: bool) {
        N == 0
    }
}

/// The unit value is always empty.
impl IsEmpty for () {
    open spec fn is_empty_spec(&self) -> bool {
        true
    }

    fn is_empty(&self) -> (r: bool) {
        true
    }
}

/// A string slice is empty when it has no characters.
impl IsEmpty for &str {
    open spec fn is_empty_spec(&self) -> bool {
        self@.len() == 0
    }

    fn is_empty(&self) -> (r: bool) {
        str::is_empty(self)
    }
}

/// A string is empty when it has no characters.
impl IsEmpty for String {
    open spec fn is_empty_spec(&self) -> bool {
        self@.len() == 0
    }

    fn is_empty(&self) -> (r: bool) {
        self.as_str().is_empty()
    }
}

/// A vector is empty when it has no elements.
impl<T> IsEmpty for Vec<T> {
    open spec fn is_empty_spec(&self) -> bool {
        self@.len() == 0
    }

    fn is_empty(&self) -> (r: bool) {
        self.len() == 0
    }
}

/// An ordered set is empty when it has no members.
impl<T> IsEmpty for BTreeSet<T> {
    open spec fn is_empty_spec(&self) -> bool {
        self@.is_empty()
    }

    fn is_empty(&self) -> (r: bool) {
        BTreeSet::is_empty(self)
    }
}

/// An ordered map is empty when it has no entries.
impl<K, V> IsEmpty for BTreeMap<K, V> {
    open spec fn is_empty_spec(&self) -> bool {
        self@.is_empty()
    }

    fn is_empty(&self) -> (r: bool) {
        BTreeMap::is_empty(self)
    }
}

/// A hash set is empty when it has no members.
impl<T> IsEmpty for HashSet<T> {
    open spec fn is_empty_spec(&self) -> bool {
        self@.is_empty()
    }

    fn is_empty(&self) -> (r: bool) {
        HashSet::is_empty(self)
    }
}

/// A hash map is empty when it has no entries.
impl<K, V> IsEmpty for HashMap<K, V> {
    open spec fn is_empty_spec(&self) -> bool {
        self@.is_empty()
    }

    fn is_empty(&self) -> (r: bool) {
        HashMap::is_empty(self)
    }
}

} // verus!
