//! One element of a key path: a named key or a numeric index.

use crate::render::decimal;
use crate::render::decimal_string;
use vstd::prelude::*;
use vstd::std_specs::cmp::PartialEqSpecImpl;
use vstd::std_specs::convert::FromSpecImpl;

verus! {

/// The mathematical value of an [`Item`].
pub enum ItemView {
    /// A field name, as its sequence of characters.
    Key(Seq<char>),
    /// A position in an array.
    Index(nat),
}

impl ItemView {
    /// The text an item shows as: a key as it is, an index as its decimal
    /// numeral.
    pub open spec fn rendered(self) -> Seq<char> {
        match self {
            ItemView::Key(text) => text,
            ItemView::Index(n) => decimal(n),
        }
    }
}

/// One element of a key path.
#[derive(Debug)]
pub enum Item {
    /// A textual field name. The text is kept as given: it is neither
    /// normalised nor case-folded.
    Key(String),
    /// A position in an array.
    Index(usize),
}

impl View for Item {
    type V = ItemView;

    open spec fn view(&self) -> ItemView {
        match self {
            Item::Key(text) => ItemView::Key(text@),
            Item::Index(n) => ItemView::Index(*n as nat),
        }
    }
}

/// The values of a sequence of items, position by position.
pub open spec fn views(items: Seq<Item>) -> Seq<ItemView> {
    items.map_values(|item: Item| item@)
}

/// Whether `item` is what converting `value` into an item may give.
pub open spec fn converts_to<T: Into<Item>>(value: T, item: Item) -> bool {
    call_ensures(<T as Into<Item>>::into, (value,), item)
}

impl Item {
    /// Whether this item is a key.
    pub fn is_key(&self) -> (r: bool)
        ensures
            r == (self@ is Key),
    {
        match self {
            Item::Key(_) => true,
            Item::Index(_) => false,
        }
    }

    /// Whether this item is an index.
    pub fn is_index(&self) -> (r: bool)
        ensures
            r == (self@ is Index),
    {
        match self {
            Item::Key(_) => false,
            Item::Index(_) => true,
        }
    }

    /// The text of a key; `None` for an index.
    pub fn as_key(&self) -> (r: Option<&str>)
        ensures
            match self@ {
                ItemView::Key(text) => r is Some && r.unwrap()@ == text,
                ItemView::Index(_) => r is None,
            },
    {
        match self {
            Item::Key(text) => Some(text.as_str()),
            Item::Index(_) => None,
        }
    }

    /// The number of an index; `None` for a key.
    pub fn as_index(&self) -> (r: Option<usize>)
        ensures
            match self@ {
                ItemView::Key(_) => r is None,
                ItemView::Index(n) => r == Some(n as usize),
            },
    {
        match self {
            Item::Key(_) => None,
            Item::Index(n) => Some(*n),
        }
    }

    /// The text this item shows as: a key as it is, an index in decimal.
    pub fn to_string(&self) -> (text: String)
        ensures
            text@ == self@.rendered(),
    {
        match self {
            Item::Key(text) => text.clone(),
            Item::Index(n) => decimal_string(*n),
        }
    }
}

impl Clone for Item {
    fn clone(&self) -> (item: Item)
        ensures
            item == *self,
    {
        match self {
            Item::Key(text) => Item::Key(text.clone()),
            Item::Index(n) => Item::Index(*n),
        }
    }
}

impl PartialEq for Item {
    fn eq(&self, other: &Item) -> (r: bool) {
        match (self, other) {
            (Item::Key(a), Item::Key(b)) => *a == *b,
            (Item::Index(a), Item::Index(b)) => *a == *b,
            _ => false,
        }
    }
}

/// Two items are equal when they are of the same kind and hold the same
/// value: a key never equals an index.
impl PartialEqSpecImpl for Item {
    open spec fn obeys_eq_spec() -> bool {
        true
    }

    open spec fn eq_spec(&self, other: &Item) -> bool {
        self@ == other@
    }
}

impl Eq for Item {}

impl From<usize> for Item {
    fn from(index: usize) -> (item: Item)
        ensures
            item@ == ItemView::Index(index as nat),
    {
        Item::Index(index)
    }
}

impl FromSpecImpl<usize> for Item {
    open spec fn obeys_from_spec() -> bool {
        true
    }

    open spec fn from_spec(index: usize) -> Item {
        Item::Index(index)
    }
}

impl From<String> for Item {
    fn from(key: String) -> (item: Item)
        ensures
            item@ == ItemView::Key(key@),
    {
        Item::Key(key)
    }
}

impl FromSpecImpl<String> for Item {
    open spec fn obeys_from_spec() -> bool {
        true
    }

    open spec fn from_spec(key: String) -> Item {
        Item::Key(key)
    }
}

impl<'a> From<&'a String> for Item {
    fn from(key: &'a String) -> (item: Item)
        ensures
            item@ == ItemView::Key(key@),
    {
        Item::Key(key.clone())
    }
}

impl<'a> FromSpecImpl<&'a String> for Item {
    open spec fn obeys_from_spec() -> bool {
        true
    }

    open spec fn from_spec(key: &'a String) -> Item {
        Item::Key(*key)
    }
}

impl<'a> From<&'a str> for Item {
    fn from(key: &'a str) -> (item: Item)
        ensures
            item@ == ItemView::Key(key@),
    {
        Item::Key(key.to_owned())
    }
}

/// An owned text cannot be made of a borrowed one in spec code, so what the
/// conversion gives is stated by the `ensures` of `from`, not by `from_spec`.
impl<'a> FromSpecImpl<&'a str> for Item {
    open spec fn obeys_from_spec() -> bool {
        false
    }

    open spec fn from_spec(key: &'a str) -> Item {
        arbitrary()
    }
}

} // verus!
