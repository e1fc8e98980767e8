//! The key path: an ordered sequence of items.

use crate::item::converts_to;
use crate::item::views;
use crate::item::Item;
use crate::item::ItemView;
use crate::render::dotted;
use std::ops::Add;
use std::ops::Index;
use std::ops::Range;
use vstd::prelude::*;
use vstd::std_specs::cmp::PartialEqSpecImpl;
use vstd::std_specs::convert::FromSpecImpl;
use vstd::std_specs::iter::IteratorSpec;
use vstd::std_specs::ops::AddSpecImpl;
use vstd::string::StringExecFns;

verus! {

/// An ordered sequence of items that addresses a location in a nested
/// document. The order is the address: nothing is sorted or deduplicated.
#[derive(Debug)]
pub struct KeyPath {
    items: Vec<Item>,
}

/// Whether `after` is `before` with one more item at its end: an item that
/// converting `value` may give.
pub open spec fn appended<T: Into<Item>>(before: Seq<Item>, value: T, after: Seq<Item>) -> bool {
    exists|item: Item| #[trigger] converts_to(value, item) && after == before.push(item)
}

impl View for KeyPath {
    type V = Seq<ItemView>;

    open spec fn view(&self) -> Seq<ItemView> {
        views(self.items())
    }
}

impl KeyPath {
    /// The items of the path, in order.
    pub closed spec fn items(&self) -> Seq<Item> {
        self.items@
    }

    /// A path of the given items, in the given order.
    pub fn new(items: Vec<Item>) -> (path: KeyPath)
        ensures
            path.items() == items@,
    {
        KeyPath { items }
    }

    /// The number of items.
    pub fn len(&self) -> (n: usize)
        ensures
            n == self.items().len(),
    {
        self.items.len()
    }

    /// The item at `index`, counted from 0; `None` past the end.
    pub fn get(&self, index: usize) -> (r: Option<&Item>)
        ensures
            r == if index < self.items().len() {
                Some(&self.items()[index as int])
            } else {
                None
            },
    {
        if index < self.items.len() {
            Some(&self.items[index])
        } else {
            None
        }
    }

    /// The last item; `None` for the empty path.
    pub fn last(&self) -> (r: Option<&Item>)
        ensures
            r == if self.items().len() > 0 {
                Some(&self.items().last())
            } else {
                None
            },
    {
        self.items.last()
    }

    /// Whether the path has no items.
    pub fn is_empty(&self) -> (r: bool)
        ensures
            r == (self.items().len() == 0),
    {
        self.items.is_empty()
    }

    /// The dotted rendering of the path.
    pub fn to_string(&self) -> (text: String)
        ensures
            text@ == dotted(self@),
    {
        let mut text = String::new();
        let mut i: usize = 0;
        while i < self.items.len()
            invariant
                i <= self.items@.len(),
                text@ == dotted(self@.take(i as int)),
            decreases self.items@.len() - i,
        {
            if i > 0 {
                text.append(".");
            }
            let piece = self.items[i].to_string();
            text.append(piece.as_str());
            proof {
                reveal_strlit(".");
                assert(self@.take(i + 1).drop_last() =~= self@.take(i as int));
            }
            i = i + 1;
        }
        assert(self@.take(i as int) =~= self@);
        text
    }
}

impl Default for KeyPath {
    /// The empty path.
    fn default() -> (path: KeyPath)
        ensures
            path.items() == Seq::<Item>::empty(),
    {
        KeyPath { items: Vec::new() }
    }
}

impl Clone for KeyPath {
    fn clone(&self) -> (path: KeyPath)
        ensures
            path.items() == self.items(),
    {
        let items = self.items.clone();
        KeyPath { items }
    }
}

impl AsRef<KeyPath> for KeyPath {
    /// The path itself, for code that takes a path or a reference to one.
    fn as_ref(&self) -> (path: &KeyPath)
        ensures
            path == self,
    {
        self
    }
}

impl PartialEq for KeyPath {
    fn eq(&self, other: &KeyPath) -> (r: bool) {
        let r = self.items == other.items;
        proof {
            let a = self.items@;
            let b = other.items@;
            if r {
                assert(self@ =~= other@);
            }
            if self@ == other@ {
                assert(views(a).len() == views(b).len());
                assert forall|i: int| 0 <= i < a.len() implies a[i]@ == b[i]@ by {
                    assert(views(a)[i] == views(b)[i]);
                }
            }
        }
        r
    }
}

/// Two paths are equal when they have the same length and equal items at
/// every position.
impl PartialEqSpecImpl for KeyPath {
    open spec fn obeys_eq_spec() -> bool {
        true
    }

    open spec fn eq_spec(&self, other: &KeyPath) -> bool {
        self@ == other@
    }
}

impl Eq for KeyPath {}

impl<'a, T: Into<Item>> Add<T> for &'a KeyPath {
    type Output = KeyPath;

    /// A new path: the items of this one, then `rhs` as an item. This path
    /// is left as it was.
    fn add(self, rhs: T) -> (path: KeyPath)
        ensures
            appended(self.items(), rhs, path.items()),
    {
        let mut items = self.items.clone();
        let item: Item = rhs.into();
        items.push(item);
        assert(converts_to(rhs, item));
        KeyPath { items }
    }
}

/// A path cannot be written down as a value in spec code, so what `+` gives
/// is stated by the `ensures` of `add`, not by `add_spec`.
impl<'a, T: Into<Item>> AddSpecImpl<T> for &'a KeyPath {
    open spec fn obeys_add_spec() -> bool {
        false
    }

    open spec fn add_req(self, rhs: T) -> bool {
        true
    }

    open spec fn add_spec(self, rhs: T) -> KeyPath {
        arbitrary()
    }
}

impl<T: Into<Item>> Add<T> for KeyPath {
    type Output = KeyPath;

    /// The path with `rhs` appended as an item.
    fn add(self, rhs: T) -> (path: KeyPath)
        ensures
            appended(self.items(), rhs, path.items()),
    {
        let mut items = self.items;
        let item: Item = rhs.into();
        items.push(item);
        assert(converts_to(rhs, item));
        KeyPath { items }
    }
}

/// A path cannot be written down as a value in spec code, so what `+` gives
/// is stated by the `ensures` of `add`, not by `add_spec`.
impl<T: Into<Item>> AddSpecImpl<T> for KeyPath {
    open spec fn obeys_add_spec() -> bool {
        false
    }

    open spec fn add_req(self, rhs: T) -> bool {
        true
    }

    open spec fn add_spec(self, rhs: T) -> KeyPath {
        arbitrary()
    }
}

impl IntoIterator for KeyPath {
    type Item = Item;

    type IntoIter = std::vec::IntoIter<Item>;

    /// An iterator that gives the items themselves, first to last, and
    /// uses the path up.
    fn into_iter(self) -> (it: std::vec::IntoIter<Item>)
        ensures
            it.remaining() == self.items(),
            it.decrease() is Some,
            it.initial_value_relation(&it),
    {
        self.items.into_iter()
    }
}

impl vstd::std_specs::core::IndexSpecImpl<usize> for KeyPath {
    /// The position must be inside the path.
    open spec fn index_req(&self, index: &usize) -> bool {
        *index < self.items().len()
    }
}

impl Index<usize> for KeyPath {
    type Output = Item;

    /// The item at `index`, counted from 0.
    fn index(&self, index: usize) -> (item: &Item)
        ensures
            *item == self.items()[index as int],
    {
        &self.items[index]
    }
}

impl vstd::std_specs::core::IndexSpecImpl<Range<usize>> for KeyPath {
    /// The range must be in order and end inside the path.
    open spec fn index_req(&self, index: &Range<usize>) -> bool {
        index.start <= index.end <= self.items().len()
    }
}

impl Index<Range<usize>> for KeyPath {
    type Output = [Item];

    /// The items from `index.start` up to, not including, `index.end`.
    fn index(&self, index: Range<usize>) -> (items: &[Item])
        ensures
            items@ == self.items().subrange(index.start as int, index.end as int),
    {
        &self.items[index]
    }
}

impl<'a> From<&'a [Item]> for KeyPath {
    /// A path of copies of the given items, in the given order.
    fn from(items: &'a [Item]) -> (path: KeyPath)
        ensures
            path.items() == items@,
    {
        let mut copies: Vec<Item> = Vec::with_capacity(items.len());
        let mut i: usize = 0;
        while i < items.len()
            invariant
                i <= items@.len(),
                copies@ == items@.take(i as int),
            decreases items@.len() - i,
        {
            copies.push(items[i].clone());
            i = i + 1;
        }
        KeyPath { items: copies }
    }
}

/// A path cannot be written down as a value in spec code, so what the
/// conversion gives is stated by the `ensures` of `from`, not by `from_spec`.
impl<'a> FromSpecImpl<&'a [Item]> for KeyPath {
    open spec fn obeys_from_spec() -> bool {
        false
    }

    open spec fn from_spec(items: &'a [Item]) -> KeyPath {
        arbitrary()
    }
}

impl From<KeyPath> for String {
    /// The dotted rendering of the path.
    fn from(value: KeyPath) -> (text: String)
        ensures
            text@ == dotted(value@),
    {
        value.to_string()
    }
}

/// A text cannot be written down as a value in spec code, so what the
/// conversion gives is stated by the `ensures` of `from`, not by `from_spec`.
impl FromSpecImpl<KeyPath> for String {
    open spec fn obeys_from_spec() -> bool {
        false
    }

    open spec fn from_spec(value: KeyPath) -> String {
        arbitrary()
    }
}

impl<'a> From<&'a KeyPath> for String {
    /// The dotted rendering of the path.
    fn from(value: &'a KeyPath) -> (text: String)
        ensures
            text@ == dotted(value@),
    {
        value.to_string()
    }
}

/// A text cannot be written down as a value in spec code, so what the
/// conversion gives is stated by the `ensures` of `from`, not by `from_spec`.
impl<'a> FromSpecImpl<&'a KeyPath> for String {
    open spec fn obeys_from_spec() -> bool {
        false
    }

    open spec fn from_spec(value: &'a KeyPath) -> String {
        arbitrary()
    }
}

} // verus!
