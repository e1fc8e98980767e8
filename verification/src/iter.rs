//! Iteration over the items of a path, in stored order.

use crate::item::Item;
use crate::path::KeyPath;
use vstd::prelude::*;
use vstd::std_specs::iter::IteratorSpecImpl;

verus! {

/// An iterator over references to the items of a path, first to last.
pub struct KeyPathIter<'a> {
    key_path: &'a KeyPath,
    index: usize,
}

/// The given items as a sequence of references to them.
pub open spec fn borrowed<'a>(items: Seq<Item>) -> Seq<&'a Item> {
    items.map_values(|item: Item| &item)
}

impl<'a> KeyPathIter<'a> {
    #[verifier::type_invariant]
    closed spec fn in_range(self) -> bool {
        self.index <= self.key_path.items().len()
    }

    /// The items that are still to come, in the order in which they come.
    pub closed spec fn pending(self) -> Seq<Item> {
        self.key_path.items().skip(self.index as int)
    }
}

impl<'a> Iterator for KeyPathIter<'a> {
    type Item = &'a Item;

    /// The next item of the path; `None` once the last one has been given.
    fn next(&mut self) -> (r: Option<&'a Item>) {
        proof {
            use_type_invariant(&*self);
        }
        let result = self.key_path.get(self.index);
        if self.index < self.key_path.len() {
            self.index = self.index + 1;
        }
        result
    }
}

impl<'a> IteratorSpecImpl for KeyPathIter<'a> {
    open spec fn obeys_prophetic_iter_laws(&self) -> bool {
        true
    }

    open spec fn remaining(&self) -> Seq<&'a Item> {
        borrowed(self.pending())
    }

    open spec fn will_return_none(&self) -> bool {
        true
    }

    open spec fn decrease(&self) -> Option<nat> {
        Some(self.pending().len())
    }

    open spec fn initial_value_relation(&self, init: &Self) -> bool {
        init.pending() == self.pending()
    }

    open spec fn peek(&self, index: int) -> Option<&'a Item> {
        if 0 <= index < self.pending().len() {
            Some(&self.pending()[index])
        } else {
            None
        }
    }
}

impl KeyPath {
    /// The iterator that `iter` returns.
    pub closed spec fn spec_iter(&self) -> KeyPathIter<'_> {
        KeyPathIter { key_path: self, index: 0 }
    }

    /// A fresh iterator has every item of the path still to come.
    pub proof fn lemma_spec_iter(&self)
        ensures
            self.spec_iter().pending() == self.items(),
    {
    }

    /// An iterator over the items of the path, first to last. Each call
    /// starts anew at the first item, and the path is not changed.
    #[verifier::when_used_as_spec(spec_iter)]
    pub fn iter(&self) -> (it: KeyPathIter<'_>)
        ensures
            it == self.spec_iter(),
            it.pending() == self.items(),
    {
        let it = KeyPathIter { key_path: self, index: 0 };
        it
    }
}

impl<'a> IntoIterator for &'a KeyPath {
    type Item = &'a Item;

    type IntoIter = KeyPathIter<'a>;

    /// The same iterator as `iter` gives.
    fn into_iter(self) -> (it: KeyPathIter<'a>)
        ensures
            it == self.spec_iter(),
            it.pending() == self.items(),
    {
        self.iter()
    }
}

} // verus!
