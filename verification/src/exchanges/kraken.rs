//! Kraken: one URL; the pairs are named in the subscription to the spread
//! channel, which carries the best bid and ask.

use crate::exchanges::connection::FeedError;
use crate::exchanges::quote::{assemble, quote_of, TopOfBook};
use crate::exchanges::subscription::{list_of, native_symbols, natives};
use crate::mappers::kraken::KrakenMapper;
use crate::market_data::{InstrumentType, MarketData};
use crate::text::{contains, has_pattern, str_texts, text_eq};
use crate::time::Timestamp;
use crate::exchange_fees::{BPS_25, BPS_40, ExchangeFees, FeeSchedule};
use vstd::prelude::*;

verus! {

/// The Kraken feed of one instrument type.
#[derive(Clone, Copy, Debug)]
pub struct KrakenFeed {
    pub itype: InstrumentType,
    pub mapper: KrakenMapper,
}

/// A spread message as decoded from a frame.
pub struct Spread {
    /// The pair; empty where the frame names none.
    pub symbol: String,
    pub top: TopOfBook,
}

/// What the subscription names: the pairs for spot, nothing for perpetuals;
/// other types are not served.
pub open spec fn spread_pairs(symbols: Seq<Seq<char>>, itype: InstrumentType) -> Result<
    Option<Seq<Seq<char>>>,
    FeedError,
> {
    match itype {
        InstrumentType::Spot => match natives(KrakenMapper, symbols, itype) {
            Ok(list) => Ok(Some(list)),
            Err(error) => Err(error),
        },
        InstrumentType::Perp => Ok(None),
        _ => Err(FeedError::UnsupportedInstrument),
    }
}

/// A text frame tells of the status of a subscription or is a heartbeat.
pub open spec fn status_or_heartbeat(text: Seq<char>) -> bool {
    has_pattern(text, "\"event\":\"subscriptionStatus\""@) || has_pattern(
        text,
        "\"event\":\"heartbeat\""@,
    )
}

impl KrakenFeed {
    pub fn new_spot() -> (feed: KrakenFeed)
        ensures
            feed.itype == InstrumentType::Spot,
    {
        KrakenFeed { itype: InstrumentType::Spot, mapper: KrakenMapper }
    }

    pub fn get_itype(&self) -> (itype: InstrumentType)
        ensures
            itype == self.itype,
    {
        self.itype
    }

    /// The URL, for spot and perpetual instruments alike.
    pub fn build_url(&self, _symbols: &[&str]) -> (url: Result<String, FeedError>)
        ensures
            match url {
                Ok(text) => (self.itype is Spot || self.itype is Perp) && text@
                    == "wss://ws.kraken.com"@,
                Err(error) => !(self.itype is Spot || self.itype is Perp) && error
                    == FeedError::UnsupportedInstrument,
            },
    {
        match self.itype {
            InstrumentType::Spot | InstrumentType::Perp => Ok(
                String::from_str("wss://ws.kraken.com"),
            ),
            _ => Err(FeedError::UnsupportedInstrument),
        }
    }

    /// The pairs that the subscription names, or `None` where there is
    /// nothing to subscribe to.
    pub fn subscription_pairs(&self, symbols: &[&str]) -> (pairs: Result<
        Option<Vec<String>>,
        FeedError,
    >)
        ensures
            match pairs {
                Ok(Some(list)) => spread_pairs(str_texts(symbols@), self.itype) == Ok::<
                    Option<Seq<Seq<char>>>,
                    FeedError,
                >(Some(crate::text::texts(list@))),
                Ok(None) => spread_pairs(str_texts(symbols@), self.itype) == Ok::<
                    Option<Seq<Seq<char>>>,
                    FeedError,
                >(None),
                Err(error) => spread_pairs(str_texts(symbols@), self.itype) == Err::<
                    Option<Seq<Seq<char>>>,
                    FeedError,
                >(error),
            },
    {
        match self.itype {
            InstrumentType::Spot => match native_symbols(&self.mapper, symbols, self.itype) {
                Ok(list) => Ok(Some(list)),
                Err(error) => Err(error),
            },
            InstrumentType::Perp => Ok(None),
            _ => Err(FeedError::UnsupportedInstrument),
        }
    }

    /// Whether frames are read at all: only for spot.
    pub fn reads_frames(&self) -> (reads: bool)
        ensures
            reads == (self.itype is Spot),
    {
        matches!(self.itype, InstrumentType::Spot)
    }

    /// Whether a text frame is one to pass by before it is decoded.
    pub fn is_status_or_heartbeat(&self, text: &str) -> (passed: bool)
        ensures
            passed == status_or_heartbeat(text@),
    {
        contains(text, "\"event\":\"subscriptionStatus\"") || contains(
            text,
            "\"event\":\"heartbeat\"",
        )
    }

    /// Whether a channel is the one that carries the best bid and ask.
    pub fn is_spread_channel(&self, channel: &str) -> (spread: bool)
        ensures
            spread == (channel@ == "spread"@),
    {
        text_eq(channel, "spread")
    }

    /// The quote of a spread message, under the message's pair.
    pub fn quote(&self, message: Spread, received_ts: Timestamp) -> (r: (String, MarketData))
        ensures
            r.0 == message.symbol,
            r.1 == quote_of(message.top, None, received_ts),
    {
        (message.symbol, assemble(message.top, None, received_ts))
    }
}

/// The fees of the exchange: taker and maker, for spot and for perpetuals.
pub fn get_fees() -> (fees: ExchangeFees)
    ensures
        fees.spot_default() == (FeeSchedule { taker_fees_bps: BPS_40, maker_fees_bps: BPS_25 }),
        fees.perp_default() == (FeeSchedule { taker_fees_bps: BPS_25, maker_fees_bps: BPS_25 }),
        fees.spot_overrides() == Map::<Seq<char>, FeeSchedule>::empty(),
        fees.perp_overrides() == Map::<Seq<char>, FeeSchedule>::empty(),
{
    ExchangeFees::new(FeeSchedule::new(BPS_40, BPS_25), FeeSchedule::new(BPS_25, BPS_25))
}

} // verus!
