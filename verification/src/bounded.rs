//! The rule by which a collection of bounded size takes in new items: while
//! there is room an item is added at the back, and once the collection is
//! full the oldest item leaves to make room.

use vstd::prelude::*;

verus! {

/// `items` after `item` came in, where at most `capacity` items are held.
pub open spec fn pushed<T>(items: Seq<T>, item: T, capacity: nat) -> Seq<T> {
    if items.len() < capacity {
        items.push(item)
    } else {
        items.drop_first().push(item)
    }
}

/// `items` after each of `more` came in, in order.
pub open spec fn pushed_all<T>(items: Seq<T>, more: Seq<T>, capacity: nat) -> Seq<T>
    decreases more.len(),
{
    if more.len() == 0 {
        items
    } else {
        pushed(pushed_all(items, more.drop_last(), capacity), more.last(), capacity)
    }
}

/// The last `count` of `items`, or all of them if there are fewer.
pub open spec fn newest<T>(items: Seq<T>, count: nat) -> Seq<T> {
    if items.len() <= count {
        items
    } else {
        items.skip(items.len() - count)
    }
}

/// After any number of items came in, the collection holds the newest of all
/// items that it ever held, as many as fit, in the order in which they came.
pub proof fn pushes_keep_the_newest<T>(items: Seq<T>, more: Seq<T>, capacity: nat)
    requires
        1 <= capacity,
        items.len() <= capacity,
    ensures
        pushed_all(items, more, capacity) == newest(items + more, capacity),
        pushed_all(items, more, capacity).len() <= capacity,
    decreases more.len(),
{
    if more.len() > 0 {
        pushes_keep_the_newest(items, more.drop_last(), capacity);
    }
}

/// After more items came in than fit, the collection is full and holds
/// exactly the newest of them, in the order in which they came.
pub proof fn pushes_beyond_capacity<T>(items: Seq<T>, more: Seq<T>, capacity: nat)
    requires
        1 <= capacity,
        items.len() <= capacity,
        more.len() >= capacity,
    ensures
        pushed_all(items, more, capacity).len() == capacity,
        pushed_all(items, more, capacity) == more.skip(more.len() - capacity),
{
    pushes_keep_the_newest(items, more, capacity);
}

/// An item that comes into a full collection drives out the oldest, and
/// nothing else changes.
pub proof fn push_when_full_drops_the_oldest<T>(items: Seq<T>, item: T, capacity: nat)
    requires
        1 <= capacity,
        items.len() == capacity,
    ensures
        pushed(items, item, capacity).len() == capacity,
        pushed(items, item, capacity).last() == item,
        forall|i: int| 0 <= i < capacity - 1 ==> pushed(items, item, capacity)[i] == items[i + 1],
{
}

} // verus!
