//! Laws that relate the operations on paths to one another.
//!
//! Each law is stated over the spec functions that the contracts of the
//! operations use, so it holds of whatever those operations return.

use crate::item::converts_to;
use crate::item::Item;
use crate::item::ItemView;
use crate::iter::borrowed;
use crate::iter::KeyPathIter;
use crate::path::appended;
use crate::path::KeyPath;
use vstd::prelude::*;
use vstd::std_specs::cmp::PartialEqSpec;
use vstd::std_specs::iter::IteratorSpec;

verus! {

/// A path made of a sequence of items has as many items as the sequence,
/// and at every position the value of the item given at that position.
pub proof fn law_construction(path: KeyPath, given: Seq<Item>)
    requires
        path.items() == given,
    ensures
        path@.len() == given.len(),
        forall|i: int| 0 <= i < given.len() ==> path@[i] == (#[trigger] given[i])@,
{
}

/// Converting a number gives an index of that number; converting a text, be
/// it borrowed, owned or a reference to an owned one, gives a key of the same
/// characters.
pub proof fn law_conversion()
    ensures
        forall|index: usize, item: Item| #[trigger]
            converts_to(index, item) ==> item@ == ItemView::Index(index as nat),
        forall|key: &str, item: Item| #[trigger]
            converts_to(key, item) ==> item@ == ItemView::Key(key@),
        forall|key: String, item: Item| #[trigger]
            converts_to(key, item) ==> item@ == ItemView::Key(key@),
        forall|key: &String, item: Item| #[trigger]
            converts_to(key, item) ==> item@ == ItemView::Key(key@),
{
}

/// Appending a value to a path gives a path that is one longer, ends in
/// the value converted to an item, and begins with the items of the path
/// appended to, which are as they were.
pub proof fn law_append<T: Into<Item>>(before: KeyPath, value: T, after: KeyPath)
    requires
        appended(before.items(), value, after.items()),
    ensures
        after@.len() == before@.len() + 1,
        converts_to(value, after.items()[before@.len() as int]),
        after.items().drop_last() == before.items(),
        after@.drop_last() == before@,
{
}

/// Two paths are equal exactly when they have the same length and equal
/// items at every position.
pub proof fn law_equality(p: KeyPath, q: KeyPath)
    ensures
        p.eq_spec(&q) <==> p@.len() == q@.len() && forall|i: int|
            0 <= i < p@.len() ==> (#[trigger] p.items()[i]).eq_spec(&q.items()[i]),
{
    if p@.len() == q@.len() && forall|i: int|
        0 <= i < p@.len() ==> (#[trigger] p.items()[i]).eq_spec(&q.items()[i]) {
        assert(p@ =~= q@);
    }
    if p@ == q@ {
        assert forall|i: int| 0 <= i < p@.len() implies (#[trigger] p.items()[i]).eq_spec(
            &q.items()[i],
        ) by {
            assert(p@[i] == q@[i]);
        }
    }
}

/// Every iteration of a path starts with all the items of the path to
/// come, in stored order: two iterations of one path give the same items in
/// the same order.
pub proof fn law_iteration(path: KeyPath, first: KeyPathIter, second: KeyPathIter)
    requires
        first == path.spec_iter(),
        second == path.spec_iter(),
    ensures
        first.remaining() == borrowed(path.items()),
        second.remaining() == first.remaining(),
{
    path.lemma_spec_iter();
}

} // verus!
