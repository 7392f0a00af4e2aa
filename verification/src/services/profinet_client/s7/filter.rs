#![allow(non_snake_case)]
use vstd::prelude::*;

verus! {

/// A filter of a point's values: holds the current value and decides
/// whether a new value changes it.
pub trait Filter: Sized {
    type Item;

    /// The current value.
    spec fn current(&self) -> Self::Item;

    /// The filter after the value `value` was offered to it.
    spec fn after_add(&self, value: Self::Item) -> Self;

    /// Returns the current value.
    fn value(&self) -> (res: Self::Item)
        ensures
            res == self.current();

    /// Offers a new value; the filter decides whether it is taken.
    fn add(&mut self, value: Self::Item)
        ensures
            *final(self) == old(self).after_add(value);

    /// Returns true if the last `add` changed the value.
    fn isChanged(&self) -> bool;
}

/// Passes the input value as is.
#[derive(Debug, Clone)]
pub struct FilterEmpty<T> {
    pub value: T,
    pub isChanged: bool,
}

impl<T> FilterEmpty<T> {
    /// Creates a filter holding `initial`, marked as changed.
    pub fn new(initial: T) -> (res: Self)
        ensures
            res.value == initial,
            res.isChanged,
    {
        Self { value: initial, isChanged: true }
    }
}

impl Filter for FilterEmpty<i64> {
    type Item = i64;

    open spec fn current(&self) -> i64 {
        self.value
    }

    /// A value other than the current one is taken and marks a change; the
    /// current value clears the mark.
    open spec fn after_add(&self, value: i64) -> Self {
        if value != self.value {
            FilterEmpty { value, isChanged: true }
        } else {
            FilterEmpty { value: self.value, isChanged: false }
        }
    }

    fn value(&self) -> (res: i64) {
        self.value
    }

    fn add(&mut self, value: i64) {
        if value != self.value {
            self.isChanged = true;
            self.value = value;
        } else {
            self.isChanged = false;
        }
    }

    fn isChanged(&self) -> (res: bool)
        ensures
            res == self.isChanged,
    {
        self.isChanged
    }
}

} // verus!
