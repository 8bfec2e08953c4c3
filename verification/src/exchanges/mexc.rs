//! MEXC: the spot market publishes the best bid and ask as such; the futures
//! publish depth, and the quote is read off the book kept here.

use crate::exchanges::books::{derived_quote, first_named, put_on, updated, Books, EntryModel};
use crate::exchanges::connection::FeedError;
use crate::exchanges::quote::{assemble, quote_of, TopOfBook};
use crate::exchanges::subscription::{list_of, native_symbols, natives, prefixed, with_prefix};
use crate::mappers::mexc::MexcMapper;
use crate::mappers::symbol_mapper::SymbolMapper;
use crate::market_data::{InstrumentType, MarketData};
use crate::orderbook::LevelUpdate;
use crate::text::{str_texts, text_eq};
use crate::time::Timestamp;
use crate::exchange_fees::{BPS_0, BPS_2, BPS_5, ExchangeFees, FeeSchedule};
use vstd::prelude::*;

verus! {

/// The MEXC feed of one market, with a book for each configured instrument.
pub struct MexcFeed {
    books: Books,
    market: InstrumentType,
    mapper: MexcMapper,
}

/// A book ticker of the spot market as decoded from a frame.
pub struct AggreBookTicker {
    pub symbol: String,
    pub top: TopOfBook,
}

/// A depth message of the futures as decoded from a frame.
pub struct Depth {
    pub channel: String,
    pub symbol: String,
    pub bids: Vec<LevelUpdate>,
    pub asks: Vec<LevelUpdate>,
}

/// What a frame is to be read as.
#[derive(Clone, Copy, Debug, PartialEq, Eq, Structural)]
pub enum Reading {
    /// A book ticker in the binary encoding of the spot market.
    BookTicker,
    /// A depth message in the text encoding of the futures.
    Depth,
    /// Nothing: the frame is passed by.
    Nothing,
}

/// The books for the symbols: one for each that the mapper can map, under
/// its native symbol. The others are left out.
pub open spec fn books_for(symbols: Seq<Seq<char>>, market: InstrumentType) -> Seq<EntryModel>
    decreases symbols.len(),
{
    if symbols.len() == 0 {
        Seq::empty()
    } else {
        let before = books_for(symbols.drop_last(), market);
        match MexcMapper.denormalized(symbols.last(), market) {
            Ok(native) => put_on(before, native, 0),
            Err(_) => before,
        }
    }
}

/// What a subscription names: for the spot market the book ticker stream of
/// each instrument, for the futures each instrument itself.
pub open spec fn subscription_of(symbols: Seq<Seq<char>>, market: InstrumentType) -> Result<
    Seq<Seq<char>>,
    FeedError,
> {
    match market {
        InstrumentType::Spot => match natives(MexcMapper, symbols, market) {
            Ok(list) => Ok(prefixed("spot@public.aggre.bookTicker.v3.api.pb@100ms@"@, list)),
            Err(error) => Err(error),
        },
        InstrumentType::Perp => natives(MexcMapper, symbols, market),
        _ => Err(FeedError::UnsupportedInstrument),
    }
}

/// What a frame is read as: binary frames of the spot market as book
/// tickers, text frames of the futures as depth, the other frames of those
/// two markets as nothing. Other markets are not served.
pub open spec fn reading_of(market: InstrumentType, binary: bool) -> Result<Reading, FeedError> {
    match market {
        InstrumentType::Spot => Ok(
            if binary {
                Reading::BookTicker
            } else {
                Reading::Nothing
            },
        ),
        InstrumentType::Perp => Ok(
            if binary {
                Reading::Nothing
            } else {
                Reading::Depth
            },
        ),
        _ => Err(FeedError::UnsupportedInstrument),
    }
}

/// A channel that carries depth.
pub open spec fn carries_depth(channel: Seq<char>) -> bool {
    channel == "push.depth"@ || channel == "push.depth.step"@
}

/// The place of the book that a depth message is for.
pub open spec fn depth_place(shelf: Seq<EntryModel>, channel: Seq<char>, symbol: Seq<char>) -> Option<
    int,
> {
    if carries_depth(channel) {
        first_named(shelf, symbol, 0)
    } else {
        None
    }
}

/// The books for the symbols.
fn shelve(symbols: &[&str], market: InstrumentType) -> (books: Books)
    ensures
        books@ == books_for(str_texts(symbols@), market),
{
    let mapper = MexcMapper;
    let ghost wanted = str_texts(symbols@);
    let mut books = Books::new();
    let mut i: usize = 0;
    proof {
        assert(wanted.take(0) =~= Seq::empty());
    }
    while i < symbols.len()
        invariant
            i <= symbols.len(),
            wanted == str_texts(symbols@),
            books@ == books_for(wanted.take(i as int), market),
        decreases symbols.len() - i,
    {
        proof {
            assert(wanted.take(i + 1).drop_last() =~= wanted.take(i as int));
            assert(wanted.take(i + 1).last() == symbols@[i as int]@);
        }
        match mapper.denormalize(symbols[i], market) {
            Ok(native) => {
                books.put(native, 0);
            },
            Err(_) => {},
        }
        i += 1;
    }
    proof {
        assert(wanted.take(i as int) == wanted);
    }
    books
}

impl MexcFeed {
    /// The books that the feed keeps.
    pub closed spec fn shelf(&self) -> Seq<EntryModel> {
        self.books@
    }

    /// The market that the feed serves.
    pub closed spec fn served(&self) -> InstrumentType {
        self.market
    }

    /// The feed of the spot market for the symbols.
    pub fn new_spot(symbols: &[&str]) -> (feed: MexcFeed)
        ensures
            feed.served() == InstrumentType::Spot,
            feed.shelf() == books_for(str_texts(symbols@), InstrumentType::Spot),
    {
        MexcFeed {
            books: shelve(symbols, InstrumentType::Spot),
            market: InstrumentType::Spot,
            mapper: MexcMapper,
        }
    }

    /// The feed of the futures for the symbols.
    pub fn new_perp(symbols: &[&str]) -> (feed: MexcFeed)
        ensures
            feed.served() == InstrumentType::Perp,
            feed.shelf() == books_for(str_texts(symbols@), InstrumentType::Perp),
    {
        MexcFeed {
            books: shelve(symbols, InstrumentType::Perp),
            market: InstrumentType::Perp,
            mapper: MexcMapper,
        }
    }

    pub fn get_itype(&self) -> (itype: InstrumentType)
        ensures
            itype == self.served(),
    {
        self.market
    }

    /// The URL of the market, whatever the instruments.
    pub fn build_url(&self, _symbols: &[&str]) -> (url: Result<String, FeedError>)
        ensures
            match url {
                Ok(text) => match self.served() {
                    InstrumentType::Spot => text@ == "wss://wbs-api.mexc.com/ws"@,
                    InstrumentType::Perp => text@ == "wss://contract.mexc.com/edge"@,
                    _ => false,
                },
                Err(error) => !(self.served() is Spot || self.served() is Perp) && error
                    == FeedError::UnsupportedInstrument,
            },
    {
        match self.market {
            InstrumentType::Spot => Ok(String::from_str("wss://wbs-api.mexc.com/ws")),
            InstrumentType::Perp => Ok(String::from_str("wss://contract.mexc.com/edge")),
            _ => Err(FeedError::UnsupportedInstrument),
        }
    }

    /// The text to send at each heartbeat: the futures want a ping of their
    /// own, the spot market none.
    pub fn heartbeat_message(&self) -> (message: Option<String>)
        ensures
            match message {
                Some(text) => self.served() is Perp && text@ == "{\"method\":\"ping\"}"@,
                None => !(self.served() is Perp),
            },
    {
        match self.market {
            InstrumentType::Perp => Some(String::from_str("{\"method\":\"ping\"}")),
            _ => None,
        }
    }

    /// What the subscription names.
    pub fn subscription_params(&self, symbols: &[&str]) -> (params: Result<Vec<String>, FeedError>)
        ensures
            list_of(params) == subscription_of(str_texts(symbols@), self.served()),
    {
        match self.market {
            InstrumentType::Spot => match native_symbols(&self.mapper, symbols, self.market) {
                Ok(list) => Ok(
                    with_prefix("spot@public.aggre.bookTicker.v3.api.pb@100ms@", &list),
                ),
                Err(error) => Err(error),
            },
            InstrumentType::Perp => native_symbols(&self.mapper, symbols, self.market),
            _ => Err(FeedError::UnsupportedInstrument),
        }
    }

    /// What a frame is to be read as.
    pub fn reading(&self, binary: bool) -> (r: Result<Reading, FeedError>)
        ensures
            r == reading_of(self.served(), binary),
    {
        match self.market {
            InstrumentType::Spot => Ok(
                if binary {
                    Reading::BookTicker
                } else {
                    Reading::Nothing
                },
            ),
            InstrumentType::Perp => Ok(
                if binary {
                    Reading::Nothing
                } else {
                    Reading::Depth
                },
            ),
            _ => Err(FeedError::UnsupportedInstrument),
        }
    }

    /// The quote of a book ticker: there is one where all four numbers were
    /// read.
    pub fn ticker_quote(&self, ticker: AggreBookTicker, received_ts: Timestamp) -> (r: Option<
        (String, MarketData),
    >)
        ensures
            match r {
                Some(found) => ticker.top.bid is Some && ticker.top.ask is Some
                    && ticker.top.bid_qty is Some && ticker.top.ask_qty is Some && found.0
                    == ticker.symbol && found.1 == quote_of(ticker.top, None, received_ts),
                None => !(ticker.top.bid is Some && ticker.top.ask is Some
                    && ticker.top.bid_qty is Some && ticker.top.ask_qty is Some),
            },
    {
        match (ticker.top.bid, ticker.top.ask, ticker.top.bid_qty, ticker.top.ask_qty) {
            (Some(_), Some(_), Some(_), Some(_)) => Some(
                (ticker.symbol, assemble(ticker.top, None, received_ts)),
            ),
            _ => None,
        }
    }

    /// Whether a channel carries depth.
    pub fn is_depth_channel(&self, channel: &str) -> (depth: bool)
        ensures
            depth == carries_depth(channel@),
    {
        text_eq(channel, "push.depth") || text_eq(channel, "push.depth.step")
    }

    /// Takes a depth message into the book of its instrument and reads the
    /// quote off that book. A message of another channel, or for an
    /// instrument without a book, changes nothing and gives nothing.
    pub fn depth_quote(&mut self, depth: Depth, received_ts: Timestamp) -> (r: Option<
        (String, MarketData),
    >)
        ensures
            match depth_place(old(self).shelf(), depth.channel@, depth.symbol@) {
                None => r is None && final(self).shelf() == old(self).shelf(),
                Some(at) => 0 <= at < old(self).shelf().len() && final(self).shelf() == old(
                    self,
                ).shelf().update(at, updated(old(self).shelf()[at], depth.bids@, depth.asks@))
                    && match derived_quote(
                    final(self).shelf()[at].bids,
                    final(self).shelf()[at].asks,
                    None,
                    received_ts,
                ) {
                    Some(quote) => r matches Some(found) && found.0 == depth.symbol && found.1
                        == quote,
                    None => r is None,
                },
            },
            final(self).served() == old(self).served(),
    {
        if !self.is_depth_channel(depth.channel.as_str()) {
            return None;
        }
        let at = match self.books.position(depth.symbol.as_str()) {
            Some(at) => at,
            None => {
                return None;
            },
        };
        match self.books.apply(at, depth.bids, depth.asks, None, received_ts) {
            Some(quote) => Some((depth.symbol, quote)),
            None => None,
        }
    }
}

/// The fees of the exchange: taker and maker, for spot and for perpetuals.
pub fn get_fees() -> (fees: ExchangeFees)
    ensures
        fees.spot_default() == (FeeSchedule { taker_fees_bps: BPS_5, maker_fees_bps: BPS_0 }),
        fees.perp_default() == (FeeSchedule { taker_fees_bps: BPS_2, maker_fees_bps: BPS_0 }),
        fees.spot_overrides() == Map::<Seq<char>, FeeSchedule>::empty(),
        fees.perp_overrides() == Map::<Seq<char>, FeeSchedule>::empty(),
{
    ExchangeFees::new(FeeSchedule::new(BPS_5, BPS_0), FeeSchedule::new(BPS_2, BPS_0))
}

} // verus!
