//! The order books that an adapter keeps, one per instrument, for exchanges
//! that publish depth: the quote is read off the book after each update.

use crate::binary64::Binary64;
use crate::exchanges::quote::unless_crossed;
use crate::market_data::MarketData;
use crate::orderbook::{apply_levels, highest, lowest, side_wf, LevelUpdate, OrderBook, Side};
use crate::text::text_eq;
use crate::time::Timestamp;
use vstd::prelude::*;

verus! {

/// The book of one instrument, under the instrument's native symbol and the
/// number by which the exchange knows it, where it has one.
pub struct BookEntry {
    symbol: String,
    tag: u32,
    book: OrderBook,
}

/// What an entry holds.
pub struct EntryModel {
    pub symbol: Seq<char>,
    pub tag: u32,
    pub bids: Side,
    pub asks: Side,
}

impl BookEntry {
    /// What the entry holds.
    pub closed spec fn view(&self) -> EntryModel {
        EntryModel {
            symbol: self.symbol@,
            tag: self.tag,
            bids: self.book.bid_levels(),
            asks: self.book.ask_levels(),
        }
    }
}

/// The first place, from `from` on, of an entry for the symbol.
pub open spec fn first_named(shelf: Seq<EntryModel>, symbol: Seq<char>, from: int) -> Option<int>
    decreases shelf.len() - from,
{
    if from < 0 || from >= shelf.len() {
        None
    } else if shelf[from].symbol == symbol {
        Some(from)
    } else {
        first_named(shelf, symbol, from + 1)
    }
}

/// The last place, below `below`, of an entry with the tag.
pub open spec fn last_tagged(shelf: Seq<EntryModel>, tag: u32, below: int) -> Option<int>
    decreases below,
{
    if below <= 0 || below > shelf.len() {
        None
    } else if shelf[below - 1].tag == tag {
        Some(below - 1)
    } else {
        last_tagged(shelf, tag, below - 1)
    }
}

/// No two entries are for the same symbol.
pub open spec fn distinct(shelf: Seq<EntryModel>) -> bool {
    forall|i: int, j: int|
        0 <= i < j < shelf.len() ==> (#[trigger] shelf[i]).symbol != (#[trigger] shelf[j]).symbol
}

/// The shelf after an empty book is put on it for the symbol: at the end,
/// in place of the book that the symbol had, if it had one.
pub open spec fn put_on(shelf: Seq<EntryModel>, symbol: Seq<char>, tag: u32) -> Seq<EntryModel> {
    let kept = match first_named(shelf, symbol, 0) {
        Some(at) => shelf.remove(at),
        None => shelf,
    };
    kept.push(EntryModel { symbol, tag, bids: Map::empty(), asks: Map::empty() })
}

/// The entry after a batch of updates to each side of its book.
pub open spec fn updated(
    entry: EntryModel,
    bids: Seq<LevelUpdate>,
    asks: Seq<LevelUpdate>,
) -> EntryModel {
    EntryModel {
        bids: apply_levels(entry.bids, bids),
        asks: apply_levels(entry.asks, asks),
        ..entry
    }
}

/// The quote read off a book: its best bid and best ask with their sizes.
/// There is none while a side is empty, nor where the best bid is not below
/// the best ask.
pub open spec fn derived_quote(
    bids: Side,
    asks: Side,
    exchange_ts: Option<Timestamp>,
    received_ts: Timestamp,
) -> Option<MarketData> {
    match (highest(bids), lowest(asks)) {
        (Some(bid), Some(ask)) => unless_crossed(
            MarketData {
                bid: Some(bid.0),
                ask: Some(ask.0),
                bid_qty: Some(bid.1),
                ask_qty: Some(ask.1),
                exchange_ts,
                received_ts: Some(received_ts),
            },
        ),
        _ => None,
    }
}

/// The quote read off a book.
pub fn quote_from_book(book: &OrderBook, exchange_ts: Option<Timestamp>, received_ts: Timestamp) -> (r:
    Option<MarketData>)
    ensures
        r == derived_quote(book.bid_levels(), book.ask_levels(), exchange_ts, received_ts),
{
    let (bid, bid_qty): (Binary64, Binary64) = match book.best_bid() {
        Some(level) => level,
        None => {
            return None;
        },
    };
    let (ask, ask_qty): (Binary64, Binary64) = match book.best_ask() {
        Some(level) => level,
        None => {
            return None;
        },
    };
    let quote = MarketData {
        bid: Some(bid),
        ask: Some(ask),
        bid_qty: Some(bid_qty),
        ask_qty: Some(ask_qty),
        exchange_ts,
        received_ts: Some(received_ts),
    };
    if quote.is_crossed() {
        None
    } else {
        Some(quote)
    }
}

/// The books of an adapter.
pub struct Books {
    entries: Vec<BookEntry>,
}

/// What the entries hold.
pub open spec fn models(entries: Seq<BookEntry>) -> Seq<EntryModel> {
    Seq::new(entries.len(), |i: int| entries[i]@)
}

impl Books {
    #[verifier::type_invariant]
    spec fn one_book_per_symbol(self) -> bool {
        distinct(models(self.entries@))
    }

    /// What the books hold, in the order in which they were put.
    pub closed spec fn view(&self) -> Seq<EntryModel> {
        models(self.entries@)
    }

    /// No books.
    pub fn new() -> (books: Books)
        ensures
            books@ == Seq::<EntryModel>::empty(),
    {
        let books = Books { entries: Vec::new() };
        assert(books@ =~= Seq::<EntryModel>::empty());
        books
    }

    /// How many books there are.
    pub fn len(&self) -> (n: usize)
        ensures
            n == self@.len(),
            distinct(self@),
    {
        proof {
            use_type_invariant(self);
        }
        self.entries.len()
    }

    /// The place of the book of a symbol.
    pub fn position(&self, symbol: &str) -> (at: Option<usize>)
        ensures
            match at {
                Some(found) => first_named(self@, symbol@, 0) == Some(found as int) && found
                    < self@.len(),
                None => first_named(self@, symbol@, 0) is None,
            },
    {
        let mut i: usize = 0;
        while i < self.entries.len()
            invariant
                i <= self.entries.len(),
                first_named(self@, symbol@, 0) == first_named(self@, symbol@, i as int),
            decreases self.entries.len() - i,
        {
            if text_eq(self.entries[i].symbol.as_str(), symbol) {
                return Some(i);
            }
            i += 1;
        }
        None
    }

    /// The place of the last book that was put with a tag.
    pub fn position_tagged(&self, tag: u32) -> (at: Option<usize>)
        ensures
            match at {
                Some(found) => last_tagged(self@, tag, self@.len() as int) == Some(found as int)
                    && found < self@.len(),
                None => last_tagged(self@, tag, self@.len() as int) is None,
            },
    {
        let mut i: usize = self.entries.len();
        while i > 0
            invariant
                i <= self.entries.len(),
                last_tagged(self@, tag, self@.len() as int) == last_tagged(self@, tag, i as int),
            decreases i,
        {
            if self.entries[i - 1].tag == tag {
                return Some(i - 1);
            }
            i -= 1;
        }
        None
    }

    /// The symbol of the book at a place.
    pub fn symbol_at(&self, at: usize) -> (symbol: &str)
        requires
            at < self@.len(),
        ensures
            symbol@ == self@[at as int].symbol,
    {
        self.entries[at].symbol.as_str()
    }

    /// The tag of the book at a place.
    pub fn tag_at(&self, at: usize) -> (tag: u32)
        requires
            at < self@.len(),
        ensures
            tag == self@[at as int].tag,
    {
        self.entries[at].tag
    }

    /// Puts an empty book for the symbol, in place of the one that the
    /// symbol had, if it had one.
    pub fn put(&mut self, symbol: String, tag: u32)
        ensures
            final(self)@ == put_on(old(self)@, symbol@, tag),
            distinct(final(self)@),
    {
        proof {
            use_type_invariant(&*self);
        }
        let found = self.position(symbol.as_str());
        let mut entries: Vec<BookEntry> = Vec::new();
        core::mem::swap(&mut self.entries, &mut entries);
        let ghost before = models(entries@);
        assert(models(self.entries@) =~= Seq::<EntryModel>::empty());
        if let Some(at) = found {
            let _ = entries.remove(at);
            proof {
                assert(models(entries@) =~= before.remove(at as int));
            }
        }
        let ghost kept = models(entries@);
        proof {
            assert forall|i: int| 0 <= i < kept.len() implies (#[trigger] kept[i]).symbol
                != symbol@ by {
                lemma_first_named(before, symbol@, 0);
                match found {
                    Some(at) => {
                        if i < at {
                            assert(kept[i] == before[i]);
                        } else {
                            assert(kept[i] == before[i + 1]);
                        }
                    },
                    None => {},
                }
            }
            assert(distinct(kept)) by {
                assert forall|i: int, j: int| 0 <= i < j < kept.len() implies (
                #[trigger] kept[i]).symbol != (#[trigger] kept[j]).symbol by {
                    match found {
                        Some(at) => {
                            let a = if i < at { i } else { i + 1 };
                            let b = if j < at { j } else { j + 1 };
                            assert(kept[i] == before[a]);
                            assert(kept[j] == before[b]);
                        },
                        None => {},
                    }
                }
            }
        }
        let entry = BookEntry { symbol, tag, book: OrderBook::new() };
        entries.push(entry);
        proof {
            assert(models(entries@) =~= kept.push(entry@));
            assert(models(entries@) =~= put_on(before, symbol@, tag));
        }
        self.entries = entries;
    }

    /// Applies a batch of updates to each side of the book at a place, bids
    /// first, and reads the quote off the book.
    pub fn apply(
        &mut self,
        at: usize,
        bids: Vec<LevelUpdate>,
        asks: Vec<LevelUpdate>,
        exchange_ts: Option<Timestamp>,
        received_ts: Timestamp,
    ) -> (quote: Option<MarketData>)
        requires
            at < old(self)@.len(),
        ensures
            final(self)@ == old(self)@.update(
                at as int,
                updated(old(self)@[at as int], bids@, asks@),
            ),
            quote == derived_quote(
                final(self)@[at as int].bids,
                final(self)@[at as int].asks,
                exchange_ts,
                received_ts,
            ),
    {
        proof {
            use_type_invariant(&*self);
        }
        let mut entries: Vec<BookEntry> = Vec::new();
        core::mem::swap(&mut self.entries, &mut entries);
        let ghost before = models(entries@);
        assert(models(self.entries@) =~= Seq::<EntryModel>::empty());
        let mut entry = entries.remove(at);
        let ghost rest = models(entries@);
        entry.book.update_bids(bids);
        entry.book.update_asks(asks);
        let quote = quote_from_book(&entry.book, exchange_ts, received_ts);
        entries.insert(at, entry);
        proof {
            assert(rest =~= before.remove(at as int));
            assert(models(entries@) =~= before.update(
                at as int,
                updated(before[at as int], bids@, asks@),
            ));
        }
        self.entries = entries;
        quote
    }
}

/// Where the search for a symbol finds nothing, no entry from there on is
/// for the symbol; where it finds a place, the entry there is, and none
/// before it.
pub proof fn lemma_first_named(shelf: Seq<EntryModel>, symbol: Seq<char>, from: int)
    requires
        0 <= from,
    ensures
        match first_named(shelf, symbol, from) {
            Some(at) => from <= at < shelf.len() && shelf[at].symbol == symbol && forall|i: int|
                from <= i < at ==> (#[trigger] shelf[i]).symbol != symbol,
            None => forall|i: int| from <= i < shelf.len() ==> (#[trigger] shelf[i]).symbol
                != symbol,
        },
    decreases shelf.len() - from,
{
    if from < shelf.len() && shelf[from].symbol != symbol {
        lemma_first_named(shelf, symbol, from + 1);
    }
}

} // verus!
