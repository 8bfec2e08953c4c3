//! Bybit: one URL per market; the instruments are named in the
//! subscription, and quotes come as the first level of the order book.

use crate::exchanges::connection::FeedError;
use crate::exchanges::quote::{assemble, quote_of, TopOfBook};
use crate::exchanges::subscription::{list_of, native_symbols, natives, prefixed, with_prefix};
use crate::mappers::bybit::BybitMapper;
use crate::market_data::{InstrumentType, MarketData};
use crate::text::{contains, has_pattern, has_prefix, starts_with, str_texts};
use crate::time::Timestamp;
use crate::exchange_fees::{BPS_10, BPS_2, BPS_5_5, ExchangeFees, FeeSchedule};
use vstd::prelude::*;

verus! {

/// The Bybit feed of one market.
#[derive(Clone, Copy, Debug)]
pub struct BybitFeed {
    pub url: &'static str,
    pub market: InstrumentType,
    pub mapper: BybitMapper,
}

/// An order book message as decoded from a frame: its topic, its symbol and
/// the first level of each side.
pub struct OrderbookTop {
    pub topic: String,
    pub symbol: String,
    pub top: TopOfBook,
}

/// The topics to subscribe to: the first level of each instrument's book.
pub open spec fn orderbook_topics(symbols: Seq<Seq<char>>, market: InstrumentType) -> Result<
    Seq<Seq<char>>,
    FeedError,
> {
    match natives(BybitMapper, symbols, market) {
        Ok(list) => Ok(prefixed("orderbook.1."@, list)),
        Err(error) => Err(error),
    }
}

impl BybitFeed {
    pub fn new_spot() -> (feed: BybitFeed)
        ensures
            feed.url@ == "wss://stream.bybit.com/v5/public/spot"@,
            feed.market == InstrumentType::Spot,
    {
        BybitFeed {
            url: "wss://stream.bybit.com/v5/public/spot",
            market: InstrumentType::Spot,
            mapper: BybitMapper,
        }
    }

    pub fn new_perp() -> (feed: BybitFeed)
        ensures
            feed.url@ == "wss://stream.bybit.com/v5/public/linear"@,
            feed.market == InstrumentType::Perp,
    {
        BybitFeed {
            url: "wss://stream.bybit.com/v5/public/linear",
            market: InstrumentType::Perp,
            mapper: BybitMapper,
        }
    }

    pub fn get_itype(&self) -> (itype: InstrumentType)
        ensures
            itype == self.market,
    {
        self.market
    }

    /// The URL of the market, whatever the instruments.
    pub fn build_url(&self, _symbols: &[&str]) -> (url: Result<String, FeedError>)
        ensures
            url matches Ok(text) && text@ == self.url@,
    {
        Ok(String::from_str(self.url))
    }

    /// The topics that the subscription names.
    pub fn subscription_args(&self, symbols: &[&str]) -> (args: Result<Vec<String>, FeedError>)
        ensures
            list_of(args) == orderbook_topics(str_texts(symbols@), self.market),
    {
        match native_symbols(&self.mapper, symbols, self.market) {
            Ok(list) => Ok(with_prefix("orderbook.1.", &list)),
            Err(error) => Err(error),
        }
    }

    /// Whether a text frame confirms a subscription.
    pub fn is_subscription_ack(&self, text: &str) -> (ack: bool)
        ensures
            ack == has_pattern(text@, "\"success\":true"@),
    {
        contains(text, "\"success\":true")
    }

    /// The quote of an order book message: read where the topic is an order
    /// book's, under the message's symbol.
    pub fn quote(&self, message: OrderbookTop, received_ts: Timestamp) -> (r: Option<
        (String, MarketData),
    >)
        ensures
            match r {
                Some(found) => starts_with(message.topic@, "orderbook."@) && found.0
                    == message.symbol && found.1 == quote_of(message.top, None, received_ts),
                None => !starts_with(message.topic@, "orderbook."@),
            },
    {
        if has_prefix(message.topic.as_str(), "orderbook.") {
            Some((message.symbol, assemble(message.top, None, received_ts)))
        } else {
            None
        }
    }
}

/// The fees of the exchange: taker and maker, for spot and for perpetuals.
pub fn get_fees() -> (fees: ExchangeFees)
    ensures
        fees.spot_default() == (FeeSchedule { taker_fees_bps: BPS_10, maker_fees_bps: BPS_10 }),
        fees.perp_default() == (FeeSchedule { taker_fees_bps: BPS_5_5, maker_fees_bps: BPS_2 }),
        fees.spot_overrides() == Map::<Seq<char>, FeeSchedule>::empty(),
        fees.perp_overrides() == Map::<Seq<char>, FeeSchedule>::empty(),
{
    ExchangeFees::new(FeeSchedule::new(BPS_10, BPS_10), FeeSchedule::new(BPS_5_5, BPS_2))
}

} // verus!
