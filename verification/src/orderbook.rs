//! One instrument's resting price levels, bids and asks, from which the
//! best level of each side is read.

use crate::binary64::{is_zero, order_rank, rank, zero, Binary64};
use std::collections::BTreeMap;
use vstd::prelude::*;

verus! {

/// One side of a book: its levels by the rank of their price. A level is
/// the price as it was first given and the size that rests there.
pub type Side = Map<u64, (Binary64, Binary64)>;

/// One update of a side: the price, or `None` where the price text could not
/// be read as a number, and the new size.
pub type LevelUpdate = (Option<Binary64>, Binary64);

/// Every level sits at the rank of its own price, and none has size zero.
pub open spec fn side_wf(side: Side) -> bool {
    forall|key: u64| #[trigger]
        side.contains_key(key) ==> rank(side[key].0) == key && !zero(side[key].1)
}

/// The side after one update. An update without a price changes nothing. A
/// size of zero removes the level at that price. Any other size is written
/// at that price: over the old size, if the level exists, else as a new
/// level.
pub open spec fn apply_level(side: Side, update: LevelUpdate) -> Side {
    match update.0 {
        None => side,
        Some(price) => {
            let key = rank(price);
            if zero(update.1) {
                side.remove(key)
            } else if side.contains_key(key) {
                side.insert(key, (side[key].0, update.1))
            } else {
                side.insert(key, (price, update.1))
            }
        },
    }
}

/// The side after a batch of updates, applied first to last.
pub open spec fn apply_levels(side: Side, updates: Seq<LevelUpdate>) -> Side
    decreases updates.len(),
{
    if updates.len() == 0 {
        side
    } else {
        apply_level(apply_levels(side, updates.drop_last()), updates.last())
    }
}

/// `key` is the rank of a level of the side, and no level ranks above it.
pub open spec fn is_highest(side: Side, key: u64) -> bool {
    side.contains_key(key) && forall|other: u64| #[trigger]
        side.contains_key(other) ==> other <= key
}

/// `key` is the rank of a level of the side, and no level ranks below it.
pub open spec fn is_lowest(side: Side, key: u64) -> bool {
    side.contains_key(key) && forall|other: u64| #[trigger]
        side.contains_key(other) ==> other >= key
}

/// The level with the highest price, if the side has a level.
pub open spec fn highest(side: Side) -> Option<(Binary64, Binary64)> {
    if exists|key: u64| is_highest(side, key) {
        Some(side[choose|key: u64| is_highest(side, key)])
    } else {
        None
    }
}

/// The level with the lowest price, if the side has a level.
pub open spec fn lowest(side: Side) -> Option<(Binary64, Binary64)> {
    if exists|key: u64| is_lowest(side, key) {
        Some(side[choose|key: u64| is_lowest(side, key)])
    } else {
        None
    }
}

/// `BTreeMap::last_key_value`: the entry with the greatest key, or `None`
/// where the map is empty.
#[verifier::external_body]
fn last_level(side: &BTreeMap<u64, (Binary64, Binary64)>) -> (r: Option<
    (u64, (Binary64, Binary64)),
>)
    ensures
        match r {
            Some((key, level)) => is_highest(side@, key) && side@[key] == level,
            None => forall|key: u64| !side@.contains_key(key),
        },
{
    side.last_key_value().map(|(key, level)| (*key, *level))
}

/// `BTreeMap::first_key_value`: the entry with the least key, or `None`
/// where the map is empty.
#[verifier::external_body]
fn first_level(side: &BTreeMap<u64, (Binary64, Binary64)>) -> (r: Option<
    (u64, (Binary64, Binary64)),
>)
    ensures
        match r {
            Some((key, level)) => is_lowest(side@, key) && side@[key] == level,
            None => forall|key: u64| !side@.contains_key(key),
        },
{
    side.first_key_value().map(|(key, level)| (*key, *level))
}

/// Applies one update to one side.
fn update_side(side: &mut BTreeMap<u64, (Binary64, Binary64)>, update: LevelUpdate)
    requires
        side_wf(old(side)@),
    ensures
        final(side)@ == apply_level(old(side)@, update),
        side_wf(final(side)@),
{
    broadcast use vstd::std_specs::btree::group_btree_axioms;
    broadcast use vstd::laws_cmp::group_laws_cmp;

    let (price, size) = update;
    if let Some(price) = price {
        let key: u64 = order_rank(price);
        if is_zero(size) {
            side.remove(&key);
        } else {
            let first_given: Binary64 = match side.get(&key) {
                Some(level) => level.0,
                None => price,
            };
            side.insert(key, (first_given, size));
        }
    }
}

/// Applies a batch of updates to one side, first to last.
fn update_levels(
    side: BTreeMap<u64, (Binary64, Binary64)>,
    updates: &Vec<LevelUpdate>,
) -> (after: BTreeMap<u64, (Binary64, Binary64)>)
    requires
        side_wf(side@),
    ensures
        after@ == apply_levels(side@, updates@),
        side_wf(after@),
{
    let mut side = side;
    let ghost before = side@;
    let mut i: usize = 0;
    while i < updates.len()
        invariant
            i <= updates.len(),
            side@ == apply_levels(before, updates@.take(i as int)),
            side_wf(side@),
        decreases updates.len() - i,
    {
        update_side(&mut side, updates[i]);
        proof {
            assert(updates@.take(i + 1).drop_last() == updates@.take(i as int));
        }
        i += 1;
    }
    assert(updates@.take(i as int) == updates@);
    side
}

pub struct OrderBook {
    bids: BTreeMap<u64, (Binary64, Binary64)>,
    asks: BTreeMap<u64, (Binary64, Binary64)>,
}

impl OrderBook {
    #[verifier::type_invariant]
    spec fn sides_wf(self) -> bool {
        side_wf(self.bids@) && side_wf(self.asks@)
    }

    /// The resting bids.
    pub closed spec fn bid_levels(&self) -> Side {
        self.bids@
    }

    /// The resting asks.
    pub closed spec fn ask_levels(&self) -> Side {
        self.asks@
    }

    /// A book without a level on either side.
    pub fn new() -> (book: OrderBook)
        ensures
            book.bid_levels() == Side::empty(),
            book.ask_levels() == Side::empty(),
    {
        OrderBook { bids: BTreeMap::new(), asks: BTreeMap::new() }
    }

    /// Applies a batch of updates to the bids, first to last.
    pub fn update_bids(&mut self, updates: Vec<LevelUpdate>)
        ensures
            final(self).bid_levels() == apply_levels(old(self).bid_levels(), updates@),
            final(self).ask_levels() == old(self).ask_levels(),
            side_wf(final(self).bid_levels()),
    {
        proof {
            use_type_invariant(&*self);
        }
        let mut taken: BTreeMap<u64, (Binary64, Binary64)> = BTreeMap::new();
        core::mem::swap(&mut self.bids, &mut taken);
        self.bids = update_levels(taken, &updates);
    }

    /// Applies a batch of updates to the asks, first to last.
    pub fn update_asks(&mut self, updates: Vec<LevelUpdate>)
        ensures
            final(self).ask_levels() == apply_levels(old(self).ask_levels(), updates@),
            final(self).bid_levels() == old(self).bid_levels(),
            side_wf(final(self).ask_levels()),
    {
        proof {
            use_type_invariant(&*self);
        }
        let mut taken: BTreeMap<u64, (Binary64, Binary64)> = BTreeMap::new();
        core::mem::swap(&mut self.asks, &mut taken);
        self.asks = update_levels(taken, &updates);
    }

    /// The bid with the highest price and its size.
    pub fn best_bid(&self) -> (r: Option<(Binary64, Binary64)>)
        ensures
            r == highest(self.bid_levels()),
            side_wf(self.bid_levels()),
    {
        proof {
            use_type_invariant(self);
        }
        match last_level(&self.bids) {
            Some((key, level)) => {
                proof {
                    lemma_highest_is_unique(self.bids@, key);
                }
                Some(level)
            },
            None => None,
        }
    }

    /// The ask with the lowest price and its size.
    pub fn best_ask(&self) -> (r: Option<(Binary64, Binary64)>)
        ensures
            r == lowest(self.ask_levels()),
            side_wf(self.ask_levels()),
    {
        proof {
            use_type_invariant(self);
        }
        match first_level(&self.asks) {
            Some((key, level)) => {
                proof {
                    lemma_lowest_is_unique(self.asks@, key);
                }
                Some(level)
            },
            None => None,
        }
    }
}

/// A side has at most one highest level.
pub proof fn lemma_highest_is_unique(side: Side, key: u64)
    requires
        is_highest(side, key),
    ensures
        highest(side) == Some(side[key]),
{
    let chosen = choose|k: u64| is_highest(side, k);
    assert(side.contains_key(chosen));
    assert(chosen <= key && key <= chosen);
}

/// A side has at most one lowest level.
pub proof fn lemma_lowest_is_unique(side: Side, key: u64)
    requires
        is_lowest(side, key),
    ensures
        lowest(side) == Some(side[key]),
{
    let chosen = choose|k: u64| is_lowest(side, k);
    assert(side.contains_key(chosen));
    assert(chosen <= key && key <= chosen);
}

/// An update keeps a side well formed: no level of size zero is ever stored.
pub proof fn lemma_update_keeps_wf(side: Side, update: LevelUpdate)
    requires
        side_wf(side),
    ensures
        side_wf(apply_level(side, update)),
{
}

/// Applying one update twice leaves the side as applying it once does, so
/// the best levels are the same.
pub proof fn lemma_update_is_idempotent(side: Side, update: LevelUpdate)
    ensures
        apply_level(apply_level(side, update), update) == apply_level(side, update),
        highest(apply_level(apply_level(side, update), update)) == highest(
            apply_level(side, update),
        ),
        lowest(apply_level(apply_level(side, update), update)) == lowest(
            apply_level(side, update),
        ),
{
    assert(apply_level(apply_level(side, update), update) =~= apply_level(side, update));
}

/// A size of zero at a price removes the level that an earlier update wrote
/// there: the side has no level at that price, and neither best level is at
/// that price.
pub proof fn lemma_zero_size_removes(side: Side, price: Binary64, size: Binary64, gone: Binary64)
    requires
        zero(gone),
    ensures
        ({
            let after = apply_level(apply_level(side, (Some(price), size)), (Some(price), gone));
            &&& !after.contains_key(rank(price))
            &&& after == side.remove(rank(price))
            &&& side_wf(side) ==> (highest(after) matches Some(level) ==> rank(level.0) != rank(
                price,
            ))
            &&& side_wf(side) ==> (lowest(after) matches Some(level) ==> rank(level.0) != rank(
                price,
            ))
        }),
{
    let after = apply_level(apply_level(side, (Some(price), size)), (Some(price), gone));
    assert(after =~= side.remove(rank(price)));
    if side_wf(side) {
        if highest(after) is Some {
            let k = choose|k: u64| is_highest(after, k);
            assert(after.contains_key(k));
        }
        if lowest(after) is Some {
            let k = choose|k: u64| is_lowest(after, k);
            assert(after.contains_key(k));
        }
    }
}

} // verus!
