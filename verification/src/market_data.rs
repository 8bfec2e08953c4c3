//! The latest quote of each instrument, one table per exchange.

use crate::binary64::{at_least, is_at_least, Binary64};
use crate::symbol_registry::{SymbolId, MAX_SYMBOLS};
use crate::text::{lowercase, text_eq, to_lower};
use crate::time::Timestamp;
use vstd::prelude::*;

verus! {

/// The class of an instrument. The same native spelling may name one
/// instrument as spot and another as perpetual.
#[derive(Clone, Copy, Debug, PartialEq, Eq, Structural)]
pub enum InstrumentType {
    Spot,
    Perp,
    Option,
    Futures,
}

impl InstrumentType {
    /// The tag that opens a canonical symbol.
    pub open spec fn tag(self) -> Seq<char> {
        match self {
            InstrumentType::Spot => "SPOT"@,
            InstrumentType::Perp => "PERP"@,
            InstrumentType::Option => "OPTION"@,
            InstrumentType::Futures => "FUT"@,
        }
    }

    pub fn as_str(&self) -> (s: &'static str)
        ensures
            s@ == self.tag(),
    {
        match self {
            InstrumentType::Spot => "SPOT",
            InstrumentType::Perp => "PERP",
            InstrumentType::Option => "OPTION",
            InstrumentType::Futures => "FUT",
        }
    }
}

/// The exchanges that are served.
#[derive(Clone, Copy, Debug, PartialEq, Eq, Structural)]
pub enum Exchange {
    Binance,
    Coinbase,
    Bybit,
    Kraken,
    Lighter,
    Mexc,
}

impl Exchange {
    /// The name of the exchange, in lower case.
    pub open spec fn name_of(self) -> Seq<char> {
        match self {
            Exchange::Binance => "binance"@,
            Exchange::Coinbase => "coinbase"@,
            Exchange::Bybit => "bybit"@,
            Exchange::Kraken => "kraken"@,
            Exchange::Lighter => "lighter"@,
            Exchange::Mexc => "mexc"@,
        }
    }

    /// The exchange of a name in lower case.
    pub open spec fn named(name: Seq<char>) -> Option<Exchange> {
        if name == "binance"@ {
            Some(Exchange::Binance)
        } else if name == "coinbase"@ {
            Some(Exchange::Coinbase)
        } else if name == "bybit"@ {
            Some(Exchange::Bybit)
        } else if name == "kraken"@ {
            Some(Exchange::Kraken)
        } else if name == "lighter"@ {
            Some(Exchange::Lighter)
        } else if name == "mexc"@ {
            Some(Exchange::Mexc)
        } else {
            None
        }
    }

    /// The exchanges, in the order in which the tables are gone through.
    pub open spec fn every() -> Seq<Exchange> {
        seq![
            Exchange::Binance,
            Exchange::Coinbase,
            Exchange::Bybit,
            Exchange::Kraken,
            Exchange::Lighter,
            Exchange::Mexc,
        ]
    }

    /// The name of the exchange, in lower case.
    pub fn name(&self) -> (name: &'static str)
        ensures
            name@ == self.name_of(),
    {
        match self {
            Exchange::Binance => "binance",
            Exchange::Coinbase => "coinbase",
            Exchange::Bybit => "bybit",
            Exchange::Kraken => "kraken",
            Exchange::Lighter => "lighter",
            Exchange::Mexc => "mexc",
        }
    }

    /// The exchange of a name that is in lower case.
    pub fn from_lower(name: &str) -> (exchange: Option<Exchange>)
        ensures
            exchange == Exchange::named(name@),
    {
        if text_eq(name, "binance") {
            Some(Exchange::Binance)
        } else if text_eq(name, "coinbase") {
            Some(Exchange::Coinbase)
        } else if text_eq(name, "bybit") {
            Some(Exchange::Bybit)
        } else if text_eq(name, "kraken") {
            Some(Exchange::Kraken)
        } else if text_eq(name, "lighter") {
            Some(Exchange::Lighter)
        } else if text_eq(name, "mexc") {
            Some(Exchange::Mexc)
        } else {
            None
        }
    }

    /// The exchange of a name in any case.
    pub fn from_name(name: &str) -> (exchange: Option<Exchange>)
        ensures
            exchange == Exchange::named(lowercase(name@)),
    {
        let lower = to_lower(name);
        Exchange::from_lower(lower.as_str())
    }

    /// The exchanges, in the order in which the tables are gone through.
    pub fn all() -> (list: Vec<Exchange>)
        ensures
            list@ == Exchange::every(),
    {
        let mut list: Vec<Exchange> = Vec::new();
        list.push(Exchange::Binance);
        list.push(Exchange::Coinbase);
        list.push(Exchange::Bybit);
        list.push(Exchange::Kraken);
        list.push(Exchange::Lighter);
        list.push(Exchange::Mexc);
        assert(list@ =~= Exchange::every());
        list
    }
}

/// One top-of-book quote. Prices and sizes are binary64 patterns; each field
/// may be missing.
#[derive(Clone, Copy, Debug, PartialEq, Eq, Structural)]
pub struct MarketData {
    pub bid: Option<Binary64>,
    pub ask: Option<Binary64>,
    pub bid_qty: Option<Binary64>,
    pub ask_qty: Option<Binary64>,
    /// When the exchange says it made the quote.
    pub exchange_ts: Option<Timestamp>,
    /// When the quote was received.
    pub received_ts: Option<Timestamp>,
}

impl MarketData {
    /// Both prices are present and the bid is not below the ask. Such a
    /// quote is never published.
    pub open spec fn crossed(self) -> bool {
        self.bid is Some && self.ask is Some && at_least(self.bid->0, self.ask->0)
    }

    /// The bid and the ask, where both are present.
    pub open spec fn sides(self) -> Option<(Binary64, Binary64)> {
        if self.bid is Some && self.ask is Some {
            Some((self.bid->0, self.ask->0))
        } else {
            None
        }
    }

    pub fn is_crossed(&self) -> (r: bool)
        ensures
            r == self.crossed(),
    {
        match (self.bid, self.ask) {
            (Some(bid), Some(ask)) => is_at_least(bid, ask),
            _ => false,
        }
    }

    /// The two terms of the mid-quote `(bid + ask) / 2`, which is defined
    /// only when both sides are present. The caller forms the mean in
    /// floating point.
    pub fn midquote(&self) -> (r: Option<(Binary64, Binary64)>)
        ensures
            r == self.sides(),
    {
        match (self.bid, self.ask) {
            (Some(bid), Some(ask)) => Some((bid, ask)),
            _ => None,
        }
    }
}

/// The table of one exchange: for each instrument the last quote that was
/// written, if any.
pub struct MarketDataCollection {
    data: Vec<Option<MarketData>>,
}

/// The table after `quote` is written for `id`: that slot holds `quote`
/// whole, every other slot is as before.
pub open spec fn written(
    table: Map<SymbolId, MarketData>,
    id: SymbolId,
    quote: MarketData,
) -> Map<SymbolId, MarketData> {
    table.insert(id, quote)
}

/// What a read of `id` gives.
pub open spec fn read(table: Map<SymbolId, MarketData>, id: SymbolId) -> Option<MarketData> {
    if table.contains_key(id) {
        Some(table[id])
    } else {
        None
    }
}

impl MarketDataCollection {
    #[verifier::type_invariant]
    spec fn one_slot_per_symbol(self) -> bool {
        self.data.len() == MAX_SYMBOLS
    }

    /// The quotes that the table holds, by instrument.
    pub closed spec fn view(&self) -> Map<SymbolId, MarketData> {
        Map::new(
            |id: SymbolId| id < MAX_SYMBOLS && id < self.data.len() && self.data[id as int] is Some,
            |id: SymbolId| self.data[id as int]->0,
        )
    }

    /// A table in which no instrument has a quote.
    pub fn new() -> (table: MarketDataCollection)
        ensures
            table@ == Map::<SymbolId, MarketData>::empty(),
    {
        let mut data: Vec<Option<MarketData>> = Vec::new();
        let mut i: usize = 0;
        while i < MAX_SYMBOLS
            invariant
                i <= MAX_SYMBOLS,
                data.len() == i,
                forall|k: int| 0 <= k < i ==> data[k] is None,
            decreases MAX_SYMBOLS - i,
        {
            data.push(None);
            i += 1;
        }
        let table = MarketDataCollection { data };
        assert(table@ =~= Map::<SymbolId, MarketData>::empty());
        table
    }

    /// Writes `market_data` as the quote of `id`, whatever was there.
    pub fn insert(&mut self, id: SymbolId, market_data: MarketData)
        requires
            id < MAX_SYMBOLS,
        ensures
            final(self)@ == written(old(self)@, id, market_data),
    {
        proof {
            use_type_invariant(&*self);
        }
        self.data[id] = Some(market_data);
        assert(self@ =~= written(old(self)@, id, market_data));
    }

    /// The quote of `id`, if one was written.
    pub fn get(&self, id: SymbolId) -> (r: Option<&MarketData>)
        ensures
            match r {
                Some(quote) => read(self@, id) == Some(*quote),
                None => read(self@, id) is None,
            },
    {
        proof {
            use_type_invariant(self);
        }
        if id < self.data.len() {
            self.data[id].as_ref()
        } else {
            None
        }
    }

    /// The two terms of the mid-quote of `id`: present when a quote was
    /// written for it that has both sides.
    pub fn get_midquote(&self, id: SymbolId) -> (r: Option<(Binary64, Binary64)>)
        ensures
            r == match read(self@, id) {
                Some(quote) => quote.sides(),
                None => None,
            },
    {
        match self.get(id) {
            Some(quote) => quote.midquote(),
            None => None,
        }
    }

    /// The two terms of the mid-quote of `id` and the time at which that
    /// quote was received: present when the quote has both sides and that
    /// time.
    pub fn get_midquote_w_timestamp(&self, id: SymbolId) -> (r: Option<
        ((Binary64, Binary64), Timestamp),
    >)
        ensures
            r == match read(self@, id) {
                Some(quote) => if quote.sides() is Some && quote.received_ts is Some {
                    Some((quote.sides()->0, quote.received_ts->0))
                } else {
                    None
                },
                None => None,
            },
    {
        match self.get(id) {
            Some(quote) => match (quote.midquote(), quote.received_ts) {
                (Some(sides), Some(ts)) => Some((sides, ts)),
                _ => None,
            },
            None => None,
        }
    }

    /// Only ids below the capacity ever hold a quote.
    pub proof fn lemma_ids_in_range(&self)
        ensures
            forall|id: SymbolId| #[trigger] self@.contains_key(id) ==> id < MAX_SYMBOLS,
    {
    }
}

/// Last write wins: after `first` and then `second` are written for one
/// id, a read of that id gives `second` whole, and the table is what it
/// would be had `first` never been written.
pub proof fn lemma_last_write_wins(
    table: Map<SymbolId, MarketData>,
    id: SymbolId,
    first: MarketData,
    second: MarketData,
)
    ensures
        read(written(written(table, id, first), id, second), id) == Some(second),
        written(written(table, id, first), id, second) == written(table, id, second),
{
    assert(written(written(table, id, first), id, second) =~= written(table, id, second));
}

/// A write for one id leaves the reads of every other id as they were.
pub proof fn lemma_write_is_local(
    table: Map<SymbolId, MarketData>,
    id: SymbolId,
    quote: MarketData,
    other: SymbolId,
)
    requires
        other != id,
    ensures
        read(written(table, id, quote), other) == read(table, other),
{
}

/// One table per exchange. `C` is what holds a table: the table itself, or
/// the table behind the lock that its writer and its readers share.
pub struct AllMarketData<C> {
    pub binance: C,
    pub coinbase: C,
    pub bybit: C,
    pub kraken: C,
    pub lighter: C,
    pub mexc: C,
}

impl<C> AllMarketData<C> {
    /// The table of an exchange.
    pub open spec fn of(self, exchange: Exchange) -> C {
        match exchange {
            Exchange::Binance => self.binance,
            Exchange::Coinbase => self.coinbase,
            Exchange::Bybit => self.bybit,
            Exchange::Kraken => self.kraken,
            Exchange::Lighter => self.lighter,
            Exchange::Mexc => self.mexc,
        }
    }

    /// The table of an exchange.
    pub fn get(&self, exchange: Exchange) -> (table: &C)
        ensures
            *table == self.of(exchange),
    {
        match exchange {
            Exchange::Binance => &self.binance,
            Exchange::Coinbase => &self.coinbase,
            Exchange::Bybit => &self.bybit,
            Exchange::Kraken => &self.kraken,
            Exchange::Lighter => &self.lighter,
            Exchange::Mexc => &self.mexc,
        }
    }

    /// Every exchange with its table, in the order of `Exchange::every`.
    pub fn iter(&self) -> (tables: Vec<(Exchange, &C)>)
        ensures
            tables.len() == Exchange::every().len(),
            forall|i: int|
                0 <= i < tables.len() ==> (#[trigger] tables[i]).0 == Exchange::every()[i]
                    && *tables[i].1 == self.of(Exchange::every()[i]),
    {
        let mut tables: Vec<(Exchange, &C)> = Vec::new();
        tables.push((Exchange::Binance, &self.binance));
        tables.push((Exchange::Coinbase, &self.coinbase));
        tables.push((Exchange::Bybit, &self.bybit));
        tables.push((Exchange::Kraken, &self.kraken));
        tables.push((Exchange::Lighter, &self.lighter));
        tables.push((Exchange::Mexc, &self.mexc));
        tables
    }
}

impl AllMarketData<MarketDataCollection> {
    /// An empty table for every exchange.
    pub fn new() -> (all: AllMarketData<MarketDataCollection>)
        ensures
            forall|exchange: Exchange| #[trigger]
                all.of(exchange)@ == Map::<SymbolId, MarketData>::empty(),
    {
        AllMarketData {
            binance: MarketDataCollection::new(),
            coinbase: MarketDataCollection::new(),
            bybit: MarketDataCollection::new(),
            kraken: MarketDataCollection::new(),
            lighter: MarketDataCollection::new(),
            mexc: MarketDataCollection::new(),
        }
    }
}

} // verus!
