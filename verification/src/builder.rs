//! Building a path from a list of values of mixed kinds.
//!
//! A path literal such as `where`, `items`, 5, `name` is written as a chain:
//! one call of [`PathBuilder::item`] for each value, left to right. Each value
//! is converted on its own, so texts and numbers may be mixed freely.

use crate::item::converts_to;
use crate::item::Item;
use crate::path::appended;
use crate::path::KeyPath;
use vstd::prelude::*;

verus! {

/// A path under construction.
#[derive(Debug)]
pub struct PathBuilder {
    items: Vec<Item>,
}

impl PathBuilder {
    /// The items listed so far, in the order in which they were listed.
    pub closed spec fn items(&self) -> Seq<Item> {
        self.items@
    }

    /// A builder with nothing listed.
    pub fn new() -> (builder: PathBuilder)
        ensures
            builder.items() == Seq::<Item>::empty(),
    {
        PathBuilder { items: Vec::new() }
    }

    /// A builder with nothing listed and room for `capacity` items.
    pub fn with_capacity(capacity: usize) -> (builder: PathBuilder)
        ensures
            builder.items() == Seq::<Item>::empty(),
    {
        PathBuilder { items: Vec::with_capacity(capacity) }
    }

    /// Lists one more value, converted to an item, after those listed so far.
    pub fn item<T: Into<Item>>(self, value: T) -> (builder: PathBuilder)
        ensures
            appended(self.items(), value, builder.items()),
    {
        let mut items = self.items;
        let item: Item = value.into();
        items.push(item);
        assert(converts_to(value, item));
        PathBuilder { items }
    }

    /// The path of the items listed, in the order in which they were listed.
    pub fn build(self) -> (path: KeyPath)
        ensures
            path.items() == self.items(),
    {
        KeyPath::new(self.items)
    }
}

} // verus!
