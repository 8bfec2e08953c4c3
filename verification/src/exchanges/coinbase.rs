//! Coinbase: the exchange feed for spot, whose ticker channel carries the
//! best bid and ask, and the Advanced Trade feed for perpetuals.

use crate::exchanges::connection::{feed_error, feed_error_of, FeedError};
use crate::exchanges::quote::{
    assemble_checked, instant_of_rfc3339, quote_of, timestamp_of_rfc3339, unless_crossed,
    TopOfBook,
};
use crate::exchanges::subscription::{list_of, native_symbols, natives};
use crate::mappers::coinbase::CoinbaseMapper;
use crate::mappers::symbol_mapper::SymbolMapper;
use crate::market_data::{InstrumentType, MarketData};
use crate::text::{concat2, str_texts, text_eq};
use crate::time::Timestamp;
use crate::exchange_fees::{BPS_40, BPS_60, ExchangeFees, FeeSchedule};
use vstd::prelude::*;

verus! {

/// The Coinbase exchange feed.
#[derive(Clone, Copy, Debug)]
pub struct CoinbaseFeed {
    pub url: &'static str,
    pub itype: InstrumentType,
    pub mapper: CoinbaseMapper,
}

/// A ticker as decoded from a frame of the exchange feed.
pub struct Ticker {
    pub product_id: String,
    pub top: TopOfBook,
    /// The exchange's time, in the format of RFC 3339.
    pub time: String,
}

impl CoinbaseFeed {
    pub fn new_spot() -> (feed: CoinbaseFeed)
        ensures
            feed.url@ == "wss://ws-feed.exchange.coinbase.com"@,
            feed.itype == InstrumentType::Spot,
    {
        CoinbaseFeed {
            url: "wss://ws-feed.exchange.coinbase.com",
            itype: InstrumentType::Spot,
            mapper: CoinbaseMapper,
        }
    }

    pub fn get_itype(&self) -> (itype: InstrumentType)
        ensures
            itype == self.itype,
    {
        self.itype
    }

    /// The URL of the feed, whatever the instruments.
    pub fn build_url(&self, _symbols: &[&str]) -> (url: Result<String, FeedError>)
        ensures
            url matches Ok(text) && text@ == self.url@,
    {
        Ok(String::from_str(self.url))
    }

    /// The products that the subscription names.
    pub fn product_ids(&self, symbols: &[&str]) -> (ids: Result<Vec<String>, FeedError>)
        ensures
            list_of(ids) == natives(self.mapper, str_texts(symbols@), self.itype),
    {
        native_symbols(&self.mapper, symbols, self.itype)
    }

    /// The quote of a ticker: given up where it is crossed, else handed on
    /// under the ticker's product.
    pub fn quote(&self, ticker: Ticker, received_ts: Timestamp) -> (r: Option<
        (String, MarketData),
    >)
        ensures
            match r {
                Some(found) => found.0 == ticker.product_id && Some(found.1) == unless_crossed(
                    quote_of(ticker.top, instant_of_rfc3339(ticker.time@), received_ts),
                ),
                None => unless_crossed(
                    quote_of(ticker.top, instant_of_rfc3339(ticker.time@), received_ts),
                ) is None,
            },
    {
        let exchange_ts = timestamp_of_rfc3339(ticker.time.as_str());
        match assemble_checked(ticker.top, exchange_ts, received_ts) {
            Some(quote) => Some((ticker.product_id, quote)),
            None => None,
        }
    }
}

/// The Coinbase Advanced Trade feed.
#[derive(Clone, Copy, Debug)]
pub struct CoinbaseAdvancedFeed {
    pub itype: InstrumentType,
    pub mapper: CoinbaseMapper,
}

/// A ticker as decoded from a frame of the Advanced Trade feed.
pub struct AdvancedTicker {
    pub product_id: String,
    pub top: TopOfBook,
}

/// The tops of the tickers.
pub open spec fn tops_of(tickers: Seq<AdvancedTicker>) -> Seq<TopOfBook> {
    Seq::new(tickers.len(), |i: int| tickers[i].top)
}

/// The place of the first ticker, from `from` on, whose quote is not
/// crossed.
pub open spec fn first_sound(
    tops: Seq<TopOfBook>,
    exchange_ts: Option<Timestamp>,
    received_ts: Timestamp,
    from: int,
) -> Option<int>
    decreases tops.len() - from,
{
    if from < 0 || from >= tops.len() {
        None
    } else if !quote_of(tops[from], exchange_ts, received_ts).crossed() {
        Some(from)
    } else {
        first_sound(tops, exchange_ts, received_ts, from + 1)
    }
}

/// The symbol under which a product's quote is handed on: base and quote
/// joined, as the mapper parses them.
pub open spec fn joined_symbol(
    mapper: CoinbaseMapper,
    product_id: Seq<char>,
    itype: InstrumentType,
) -> Result<Seq<char>, FeedError> {
    match mapper.parsed(product_id, itype) {
        Ok(pair) => Ok(pair.0 + pair.1),
        Err(error) => Err(feed_error(error)),
    }
}

impl CoinbaseAdvancedFeed {
    pub fn new_perp() -> (feed: CoinbaseAdvancedFeed)
        ensures
            feed.itype == InstrumentType::Perp,
    {
        CoinbaseAdvancedFeed { itype: InstrumentType::Perp, mapper: CoinbaseMapper }
    }

    pub fn get_itype(&self) -> (itype: InstrumentType)
        ensures
            itype == self.itype,
    {
        self.itype
    }

    /// The URL of the feed, whatever the instruments.
    pub fn build_url(&self, _symbols: &[&str]) -> (url: Result<String, FeedError>)
        ensures
            url matches Ok(text) && text@ == "wss://advanced-trade-ws.coinbase.com"@,
    {
        Ok(String::from_str("wss://advanced-trade-ws.coinbase.com"))
    }

    /// The products that the subscription names.
    pub fn product_ids(&self, symbols: &[&str]) -> (ids: Result<Vec<String>, FeedError>)
        ensures
            list_of(ids) == natives(self.mapper, str_texts(symbols@), self.itype),
    {
        native_symbols(&self.mapper, symbols, self.itype)
    }

    /// Whether a message is of the channel that carries the tickers.
    pub fn is_ticker_channel(&self, channel: &str) -> (ticker: bool)
        ensures
            ticker == (channel@ == "ticker"@),
    {
        text_eq(channel, "ticker")
    }

    /// The quote of a message: that of its first ticker that is not crossed,
    /// under the joined symbol of that ticker's product. The tickers are
    /// taken in the order of the message, event by event. A message all of
    /// whose tickers are crossed gives nothing. A product that the mapper
    /// cannot parse is an error.
    pub fn quote(&self, tickers: &Vec<AdvancedTicker>, timestamp: &str, received_ts: Timestamp) -> (r:
        Result<Option<(String, MarketData)>, FeedError>)
        ensures
            match first_sound(
                tops_of(tickers@),
                instant_of_rfc3339(timestamp@),
                received_ts,
                0,
            ) {
                None => r == Ok::<Option<(String, MarketData)>, FeedError>(None),
                Some(at) => 0 <= at < tickers.len() && match joined_symbol(
                    self.mapper,
                    tickers[at].product_id@,
                    self.itype,
                ) {
                    Err(error) => r == Err::<Option<(String, MarketData)>, FeedError>(error),
                    Ok(symbol) => r matches Ok(Some(found)) && found.0@ == symbol && found.1
                        == quote_of(tickers[at].top, instant_of_rfc3339(timestamp@), received_ts),
                },
            },
    {
        let exchange_ts = timestamp_of_rfc3339(timestamp);
        let ghost tops = tops_of(tickers@);
        let mut i: usize = 0;
        while i < tickers.len()
            invariant
                i <= tickers.len(),
                tops == tops_of(tickers@),
                exchange_ts == instant_of_rfc3339(timestamp@),
                first_sound(tops, exchange_ts, received_ts, 0) == first_sound(
                    tops,
                    exchange_ts,
                    received_ts,
                    i as int,
                ),
            decreases tickers.len() - i,
        {
            match assemble_checked(tickers[i].top, exchange_ts, received_ts) {
                Some(quote) => {
                    return match self.mapper.parse(tickers[i].product_id.as_str(), self.itype) {
                        Ok((base, quote_currency)) => Ok(
                            Some((concat2(base.as_str(), quote_currency.as_str()), quote)),
                        ),
                        Err(error) => Err(feed_error_of(error)),
                    };
                },
                None => {},
            }
            i += 1;
        }
        Ok(None)
    }
}

/// The fees of the exchange: taker and maker, for spot and for perpetuals.
pub fn get_fees() -> (fees: ExchangeFees)
    ensures
        fees.spot_default() == (FeeSchedule { taker_fees_bps: BPS_60, maker_fees_bps: BPS_40 }),
        fees.perp_default() == (FeeSchedule { taker_fees_bps: BPS_60, maker_fees_bps: BPS_40 }),
        fees.spot_overrides() == Map::<Seq<char>, FeeSchedule>::empty(),
        fees.perp_overrides() == Map::<Seq<char>, FeeSchedule>::empty(),
{
    ExchangeFees::new(FeeSchedule::new(BPS_60, BPS_40), FeeSchedule::new(BPS_60, BPS_40))
}

} // verus!
