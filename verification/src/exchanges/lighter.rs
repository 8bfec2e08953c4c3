//! Lighter: perpetuals only. The exchange numbers its markets, publishes the
//! depth of each, and the quote is read off the book kept here.

use crate::exchanges::books::{
    derived_quote, last_tagged, put_on, updated, Books, EntryModel,
};
use crate::exchanges::connection::FeedError;
use crate::exchanges::quote::{instant_of_millis, timestamp_of_millis};
use crate::exchanges::subscription::{native_symbols, natives};
use crate::mappers::lighter::LighterMapper;
use crate::market_data::{InstrumentType, MarketData};
use crate::orderbook::LevelUpdate;
use crate::text::{
    concat2, contains, decimal, decimal_text, decimal_u32, has_pattern, parse_u32, starts_with,
    str_texts, strip_prefix, text_eq, texts,
};
use crate::time::Timestamp;
use crate::exchange_fees::{BPS_0, ExchangeFees, FeeSchedule};
use vstd::prelude::*;

verus! {

/// One market as the exchange lists it.
pub struct MarketIndexRow {
    pub symbol: String,
    pub market_index: u32,
}

/// An order book message as decoded from a frame.
pub struct BookUpdate {
    /// The channel: `order_book:` and the number of the market.
    pub channel: String,
    pub msg_type: String,
    pub bids: Vec<LevelUpdate>,
    pub asks: Vec<LevelUpdate>,
    /// The exchange's time in milliseconds, where it gives one.
    pub timestamp: Option<u64>,
}

/// The Lighter feed: a book for each configured market.
pub struct LighterFeed {
    books: Books,
    itype: InstrumentType,
    mapper: LighterMapper,
}

/// The symbol and the number of each row.
pub open spec fn listed(rows: Seq<MarketIndexRow>) -> Seq<(Seq<char>, u32)> {
    Seq::new(rows.len(), |i: int| (rows[i].symbol@, rows[i].market_index))
}

/// The number that the exchange lists for a symbol: that of the last row,
/// below `below`, that names it.
pub open spec fn index_of(rows: Seq<(Seq<char>, u32)>, symbol: Seq<char>, below: int) -> Option<
    u32,
>
    decreases below,
{
    if below <= 0 || below > rows.len() {
        None
    } else if rows[below - 1].0 == symbol {
        Some(rows[below - 1].1)
    } else {
        index_of(rows, symbol, below - 1)
    }
}

/// The books for the native symbols, each under the number that the exchange
/// lists for it. A symbol that the exchange does not list fails the whole.
pub open spec fn shelved(symbols: Seq<Seq<char>>, rows: Seq<(Seq<char>, u32)>) -> Result<
    Seq<EntryModel>,
    FeedError,
>
    decreases symbols.len(),
{
    if symbols.len() == 0 {
        Ok(Seq::empty())
    } else {
        match shelved(symbols.drop_last(), rows) {
            Err(error) => Err(error),
            Ok(shelf) => match index_of(rows, symbols.last(), rows.len() as int) {
                None => Err(FeedError::UnknownMarket),
                Some(index) => Ok(put_on(shelf, symbols.last(), index)),
            },
        }
    }
}

/// The books of a feed for the configured symbols: the symbols are mapped
/// first, then looked up in the exchange's list.
pub open spec fn configured(symbols: Seq<Seq<char>>, rows: Seq<(Seq<char>, u32)>) -> Result<
    Seq<EntryModel>,
    FeedError,
> {
    match natives(LighterMapper, symbols, InstrumentType::Perp) {
        Err(error) => Err(error),
        Ok(list) => shelved(list, rows),
    }
}

/// The number of the market that a channel names.
pub open spec fn market_index_of(channel: Seq<char>) -> Option<u32> {
    if starts_with(channel, "order_book:"@) {
        decimal_u32(channel.subrange("order_book:"@.len() as int, channel.len() as int))
    } else {
        None
    }
}

/// A message type that carries a book: an update or the snapshot that
/// follows a subscription.
pub open spec fn carries_book(msg_type: Seq<char>) -> bool {
    msg_type == "update/order_book"@ || msg_type == "subscribed/order_book"@
}

/// The place of the book that a message is for: that of the last book put
/// under the number of the message's market.
pub open spec fn place_of(shelf: Seq<EntryModel>, channel: Seq<char>, msg_type: Seq<char>) -> Option<
    int,
> {
    if !carries_book(msg_type) {
        None
    } else {
        match market_index_of(channel) {
            None => None,
            Some(index) => last_tagged(shelf, index, shelf.len() as int),
        }
    }
}

/// The channels to subscribe to, one for each symbol that has a book: those
/// of the symbols that have none are left out.
pub open spec fn channels_of(shelf: Seq<EntryModel>, symbols: Seq<Seq<char>>) -> Seq<Seq<char>>
    decreases symbols.len(),
{
    if symbols.len() == 0 {
        Seq::empty()
    } else {
        let before = channels_of(shelf, symbols.drop_last());
        match crate::exchanges::books::first_named(shelf, symbols.last(), 0) {
            Some(at) => before.push("order_book/"@ + decimal_text(shelf[at].tag as nat)),
            None => before,
        }
    }
}

/// The number of the market that a channel names.
pub fn parse_market_index(channel: &str) -> (index: Option<u32>)
    ensures
        index == market_index_of(channel@),
{
    match strip_prefix(channel, "order_book:") {
        Some(rest) => parse_u32(rest.as_str()),
        None => None,
    }
}

/// The number that the exchange lists for a symbol.
fn index_in(rows: &Vec<MarketIndexRow>, symbol: &str) -> (index: Option<u32>)
    ensures
        index == index_of(listed(rows@), symbol@, rows.len() as int),
{
    let mut i: usize = rows.len();
    while i > 0
        invariant
            i <= rows.len(),
            index_of(listed(rows@), symbol@, rows.len() as int) == index_of(
                listed(rows@),
                symbol@,
                i as int,
            ),
        decreases i,
    {
        if text_eq(rows[i - 1].symbol.as_str(), symbol) {
            return Some(rows[i - 1].market_index);
        }
        i -= 1;
    }
    None
}

/// Once a prefix of the symbols fails, every longer list of them fails with
/// the same error.
proof fn lemma_shelved_fails(symbols: Seq<Seq<char>>, failing: int, rows: Seq<(Seq<char>, u32)>)
    requires
        0 <= failing <= symbols.len(),
        shelved(symbols.take(failing), rows) is Err,
    ensures
        shelved(symbols, rows) == shelved(symbols.take(failing), rows),
    decreases symbols.len() - failing,
{
    if failing < symbols.len() {
        assert(symbols.take(failing + 1).drop_last() =~= symbols.take(failing));
        lemma_shelved_fails(symbols, failing + 1, rows);
    } else {
        assert(symbols.take(failing) == symbols);
    }
}

impl LighterFeed {
    /// The books that the feed keeps.
    pub closed spec fn shelf(&self) -> Seq<EntryModel> {
        self.books@
    }

    /// The instrument type that the feed serves.
    pub closed spec fn instrument(&self) -> InstrumentType {
        self.itype
    }

    /// The feed for the configured symbols, given what the exchange lists.
    /// It fails where a symbol cannot be mapped, and where the exchange
    /// lists no market for one.
    pub fn new_perp(normalized_symbols: &[&str], rows: &Vec<MarketIndexRow>) -> (r: Result<
        LighterFeed,
        FeedError,
    >)
        ensures
            match r {
                Ok(feed) => configured(str_texts(normalized_symbols@), listed(rows@)) == Ok::<
                    Seq<EntryModel>,
                    FeedError,
                >(feed.shelf()) && feed.instrument() == InstrumentType::Perp,
                Err(error) => configured(str_texts(normalized_symbols@), listed(rows@)) == Err::<
                    Seq<EntryModel>,
                    FeedError,
                >(error),
            },
    {
        let mapper = LighterMapper;
        let native = match native_symbols(&mapper, normalized_symbols, InstrumentType::Perp) {
            Ok(list) => list,
            Err(error) => {
                return Err(error);
            },
        };
        let ghost wanted = texts(native@);
        let mut books = Books::new();
        let mut i: usize = 0;
        proof {
            assert(wanted.take(0) =~= Seq::empty());
        }
        while i < native.len()
            invariant
                i <= native.len(),
                wanted == texts(native@),
                natives(LighterMapper, str_texts(normalized_symbols@), InstrumentType::Perp)
                    == Ok::<Seq<Seq<char>>, FeedError>(wanted),
                shelved(wanted.take(i as int), listed(rows@)) == Ok::<Seq<EntryModel>, FeedError>(
                    books@,
                ),
            decreases native.len() - i,
        {
            proof {
                assert(wanted.take(i + 1).drop_last() =~= wanted.take(i as int));
                assert(wanted.take(i + 1).last() == native@[i as int]@);
            }
            match index_in(rows, native[i].as_str()) {
                Some(index) => {
                    books.put(native[i].clone(), index);
                },
                None => {
                    proof {
                        lemma_shelved_fails(wanted, i + 1, listed(rows@));
                    }
                    return Err(FeedError::UnknownMarket);
                },
            }
            i += 1;
        }
        proof {
            assert(wanted.take(i as int) == wanted);
        }
        Ok(LighterFeed { books, itype: InstrumentType::Perp, mapper })
    }

    pub fn get_itype(&self) -> (itype: InstrumentType)
        ensures
            itype == self.instrument(),
    {
        self.itype
    }

    /// The URL of the stream, whatever the instruments.
    pub fn build_url(&self, _symbols: &[&str]) -> (url: Result<String, FeedError>)
        ensures
            url matches Ok(text) && text@ == "wss://mainnet.zklighter.elliot.ai/stream"@,
    {
        Ok(String::from_str("wss://mainnet.zklighter.elliot.ai/stream"))
    }

    /// The channels to subscribe to: that of each symbol's market, the
    /// symbols that have no book left out. A symbol that cannot be mapped
    /// fails the whole.
    pub fn subscription_channels(&self, symbols: &[&str]) -> (r: Result<Vec<String>, FeedError>)
        ensures
            match natives(LighterMapper, str_texts(symbols@), self.instrument()) {
                Err(error) => r == Err::<Vec<String>, FeedError>(error),
                Ok(list) => r matches Ok(channels) && texts(channels@) == channels_of(
                    self.shelf(),
                    list,
                ),
            },
    {
        let native = match native_symbols(&self.mapper, symbols, self.itype) {
            Ok(list) => list,
            Err(error) => {
                return Err(error);
            },
        };
        let ghost wanted = texts(native@);
        let mut channels: Vec<String> = Vec::new();
        let mut i: usize = 0;
        proof {
            assert(wanted.take(0) =~= Seq::empty());
            assert(texts(channels@) =~= Seq::empty());
        }
        while i < native.len()
            invariant
                i <= native.len(),
                wanted == texts(native@),
                texts(channels@) == channels_of(self.books@, wanted.take(i as int)),
            decreases native.len() - i,
        {
            proof {
                assert(wanted.take(i + 1).drop_last() =~= wanted.take(i as int));
                assert(wanted.take(i + 1).last() == native@[i as int]@);
            }
            let ghost before = texts(channels@);
            match self.books.position(native[i].as_str()) {
                Some(at) => {
                    let number = decimal(self.books.tag_at(at));
                    let channel = concat2("order_book/", number.as_str());
                    channels.push(channel);
                    proof {
                        assert(texts(channels@) =~= before.push(channel@));
                    }
                },
                None => {},
            }
            i += 1;
        }
        proof {
            assert(wanted.take(i as int) == wanted);
        }
        Ok(channels)
    }

    /// Whether a text frame may carry a book at all, before it is decoded.
    pub fn may_carry_book(&self, text: &str) -> (may: bool)
        ensures
            may == has_pattern(text@, "order_book"@),
    {
        contains(text, "order_book")
    }

    /// Whether a message of this type is the exchange's ping, which is
    /// answered with a pong.
    pub fn is_ping(&self, msg_type: &str) -> (ping: bool)
        ensures
            ping == (msg_type@ == "ping"@),
    {
        text_eq(msg_type, "ping")
    }

    /// Takes an order book message into the book of its market and reads the
    /// quote off that book. A message of another type, for a channel that
    /// names no market, or for a market without a book, changes nothing and
    /// gives nothing.
    pub fn quote(&mut self, update: BookUpdate, received_ts: Timestamp) -> (r: Option<
        (String, MarketData),
    >)
        ensures
            match place_of(old(self).shelf(), update.channel@, update.msg_type@) {
                None => r is None && final(self).shelf() == old(self).shelf(),
                Some(at) => 0 <= at < old(self).shelf().len() && final(self).shelf() == old(
                    self,
                ).shelf().update(at, updated(old(self).shelf()[at], update.bids@, update.asks@))
                    && match derived_quote(
                    final(self).shelf()[at].bids,
                    final(self).shelf()[at].asks,
                    match update.timestamp {
                        Some(millis) => instant_of_millis(millis),
                        None => None,
                    },
                    received_ts,
                ) {
                    Some(quote) => r matches Some(found) && found.0@ == old(self).shelf()[at].symbol
                        && found.1 == quote,
                    None => r is None,
                },
            },
            final(self).instrument() == old(self).instrument(),
    {
        if !text_eq(update.msg_type.as_str(), "update/order_book") && !text_eq(
            update.msg_type.as_str(),
            "subscribed/order_book",
        ) {
            return None;
        }
        let index = match parse_market_index(update.channel.as_str()) {
            Some(index) => index,
            None => {
                return None;
            },
        };
        let at = match self.books.position_tagged(index) {
            Some(at) => at,
            None => {
                return None;
            },
        };
        let exchange_ts = match update.timestamp {
            Some(millis) => timestamp_of_millis(millis),
            None => None,
        };
        let symbol = String::from_str(self.books.symbol_at(at));
        match self.books.apply(at, update.bids, update.asks, exchange_ts, received_ts) {
            Some(quote) => Some((symbol, quote)),
            None => None,
        }
    }
}

/// The fees of the exchange: taker and maker, for spot and for perpetuals.
pub fn get_fees() -> (fees: ExchangeFees)
    ensures
        fees.spot_default() == (FeeSchedule { taker_fees_bps: BPS_0, maker_fees_bps: BPS_0 }),
        fees.perp_default() == (FeeSchedule { taker_fees_bps: BPS_0, maker_fees_bps: BPS_0 }),
        fees.spot_overrides() == Map::<Seq<char>, FeeSchedule>::empty(),
        fees.perp_overrides() == Map::<Seq<char>, FeeSchedule>::empty(),
{
    ExchangeFees::new(FeeSchedule::new(BPS_0, BPS_0), FeeSchedule::new(BPS_0, BPS_0))
}

} // verus!
