//! Durable mapping from order identifier to order record.
//!
//! The store keeps one record per identifier: `insert` unconditionally
//! overwrites whatever was recorded under the same identifier. Its
//! abstract value is a `Map` from identifier to [`OrderView`].

use vstd::prelude::*;

use crate::order::Order;
use crate::order::OrderView;

verus! {

/// Abstract value of a sequence of writes: later writes win.
pub closed spec fn map_of_writes(entries: Seq<Order>) -> Map<Seq<char>, OrderView>
    decreases entries.len(),
{
    if entries.len() == 0 {
        Map::empty()
    } else {
        map_of_writes(entries.drop_last()).insert(entries.last().order_id@, entries.last()@)
    }
}

/// On a suffix free of the key, the abstract map agrees with the one of the
/// prefix: the later writes do not touch that key.
proof fn lemma_map_of_writes_skip_suffix(entries: Seq<Order>, key: Seq<char>, i: int)
    requires
        0 <= i <= entries.len(),
        forall|j: int| i <= j < entries.len() ==> entries[j].order_id@ != key,
    ensures
        map_of_writes(entries).contains_key(key) == map_of_writes(entries.take(i)).contains_key(
            key,
        ),
        map_of_writes(entries).contains_key(key) ==> map_of_writes(entries)[key] == map_of_writes(
            entries.take(i),
        )[key],
    decreases entries.len() - i,
{
    if i == entries.len() {
        assert(entries.take(i) =~= entries);
    } else {
        let shorter = entries.drop_last();
        assert(entries.last().order_id@ != key);
        lemma_map_of_writes_skip_suffix(shorter, key, i);
        assert(shorter.take(i) =~= entries.take(i));
    }
}

/// Key-value store of order records, keyed by `order_id`, with overwrite
/// semantics. The representation is the sequence of writes; the view keeps
/// only the latest record per identifier.
pub struct OrderStore {
    entries: Vec<Order>,
}

impl View for OrderStore {
    type V = Map<Seq<char>, OrderView>;

    closed spec fn view(&self) -> Map<Seq<char>, OrderView> {
        map_of_writes(self.entries@)
    }
}

impl OrderStore {
    /// An empty store: no record under any identifier.
    pub fn new() -> (s: Self)
        ensures
            s@ == Map::<Seq<char>, OrderView>::empty(),
    {
        OrderStore { entries: Vec::new() }
    }

    /// Writes `order` under its own `order_id`, overwriting any record
    /// already kept under that identifier.
    pub fn insert(&mut self, order: Order)
        ensures
            final(self)@ == old(self)@.insert(order.order_id@, order@),
    {
        let ghost pre = self.entries@;
        let ghost key = order.order_id@;
        let ghost value = order@;
        self.entries.push(order);
        proof {
            assert(self.entries@.drop_last() =~= pre);
            assert(self.entries@.last() == self.entries@[pre.len() as int]);
            assert(map_of_writes(self.entries@) == map_of_writes(pre).insert(key, value));
        }
    }

    /// Returns the record kept under `order_id`, or `None` when there is
    /// none.
    pub fn get(&self, order_id: &String) -> (r: Option<&Order>)
        ensures
            match r {
                Some(order) => self@.contains_key(order_id@) && order@ == self@[order_id@],
                None => !self@.contains_key(order_id@),
            },
    {
        let ghost all = self.entries@;
        let mut i: usize = self.entries.len();
        while i > 0
            invariant
                i <= all.len(),
                all == self.entries@,
                forall|j: int| i <= j < all.len() ==> all[j].order_id@ != order_id@,
            decreases i,
        {
            i = i - 1;
            if self.entries[i].order_id == *order_id {
                proof {
                    lemma_map_of_writes_skip_suffix(all, order_id@, i + 1);
                    let found = all.take(i + 1);
                    assert(found.last() == all[i as int]);
                    assert(map_of_writes(found) == map_of_writes(found.drop_last()).insert(
                        order_id@,
                        all[i as int]@,
                    ));
                }
                return Some(&self.entries[i]);
            }
        }
        proof {
            lemma_map_of_writes_skip_suffix(all, order_id@, 0);
            assert(all.take(0) =~= Seq::<Order>::empty());
        }
        None
    }

    /// Whether some record is kept under `order_id`.
    pub fn contains(&self, order_id: &String) -> (r: bool)
        ensures
            r == self@.contains_key(order_id@),
    {
        self.get(order_id).is_some()
    }
}

} // verus!
