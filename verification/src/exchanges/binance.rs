//! Binance: one combined stream of book tickers, with the instruments named
//! in the URL.

use crate::exchanges::connection::{feed_error, feed_error_of, FeedError};
use crate::exchanges::quote::{
    assemble_checked, instant_of_millis, quote_of, timestamp_of_millis, unless_crossed, TopOfBook,
};
use crate::mappers::binance::BinanceMapper;
use crate::mappers::bybit::joined_native;
use crate::mappers::symbol_mapper::SymbolMapper;
use crate::market_data::{InstrumentType, MarketData};
use crate::text::{concat2, concat3, lowercase, str_texts, to_lower};
use crate::time::Timestamp;
use crate::exchange_fees::{BPS_10, BPS_2, BPS_5, ExchangeFees, FeeSchedule};
use vstd::prelude::*;

verus! {

/// The Binance feed of one instrument type.
#[derive(Clone, Copy, Debug)]
pub struct BinanceFeed {
    /// The combined-stream endpoint: of the spot market or of the futures.
    pub base_url: &'static str,
    pub itype: InstrumentType,
    pub mapper: BinanceMapper,
}

/// A book ticker as decoded from a frame.
pub struct BookTicker {
    pub symbol: String,
    pub top: TopOfBook,
    /// The event time in milliseconds; the spot market gives none.
    pub event_time: Option<u64>,
}

/// The stream of one instrument: its native symbol in lower case, then
/// `@bookTicker`.
pub open spec fn stream_name(symbol: Seq<char>, itype: InstrumentType) -> Result<
    Seq<char>,
    FeedError,
> {
    match joined_native(symbol, itype) {
        Ok(native) => Ok(lowercase(native) + "@bookTicker"@),
        Err(error) => Err(feed_error(error)),
    }
}

/// The streams of the instruments, divided by slashes. The first symbol
/// that cannot be mapped fails the whole.
pub open spec fn stream_list(symbols: Seq<Seq<char>>, itype: InstrumentType) -> Result<
    Seq<char>,
    FeedError,
>
    decreases symbols.len(),
{
    if symbols.len() == 0 {
        Ok(Seq::empty())
    } else {
        match stream_list(symbols.drop_last(), itype) {
            Err(error) => Err(error),
            Ok(before) => match stream_name(symbols.last(), itype) {
                Err(error) => Err(error),
                Ok(stream) => if symbols.len() == 1 {
                    Ok(stream)
                } else {
                    Ok(before + "/"@ + stream)
                },
            },
        }
    }
}

/// The URL of the combined stream of the instruments.
pub open spec fn stream_url(
    base_url: Seq<char>,
    symbols: Seq<Seq<char>>,
    itype: InstrumentType,
) -> Result<Seq<char>, FeedError> {
    match stream_list(symbols, itype) {
        Ok(streams) => Ok(base_url + "?streams="@ + streams),
        Err(error) => Err(error),
    }
}

/// The time of the event, where the ticker has one that `chrono` can date.
pub open spec fn event_instant(event_time: Option<u64>) -> Option<Timestamp> {
    match event_time {
        Some(millis) => instant_of_millis(millis),
        None => None,
    }
}

impl BinanceFeed {
    pub fn new_spot() -> (feed: BinanceFeed)
        ensures
            feed.base_url@ == "wss://stream.binance.com:9443/stream"@,
            feed.itype == InstrumentType::Spot,
    {
        BinanceFeed {
            base_url: "wss://stream.binance.com:9443/stream",
            itype: InstrumentType::Spot,
            mapper: BinanceMapper,
        }
    }

    pub fn new_perp() -> (feed: BinanceFeed)
        ensures
            feed.base_url@ == "wss://fstream.binance.com/stream"@,
            feed.itype == InstrumentType::Perp,
    {
        BinanceFeed {
            base_url: "wss://fstream.binance.com/stream",
            itype: InstrumentType::Perp,
            mapper: BinanceMapper,
        }
    }

    pub fn get_itype(&self) -> (itype: InstrumentType)
        ensures
            itype == self.itype,
    {
        self.itype
    }

    /// The URL of the combined stream of the instruments, which are given
    /// by their normalized symbols.
    pub fn build_url(&self, symbols: &[&str]) -> (url: Result<String, FeedError>)
        ensures
            crate::exchanges::connection::feed_text_of(url) == stream_url(
                self.base_url@,
                str_texts(symbols@),
                self.itype,
            ),
    {
        let ghost texts = str_texts(symbols@);
        let mut streams = String::new();
        let mut i: usize = 0;
        proof {
            assert(texts.take(0) =~= Seq::empty());
        }
        while i < symbols.len()
            invariant
                i <= symbols.len(),
                texts == str_texts(symbols@),
                stream_list(texts.take(i as int), self.itype) == Ok::<Seq<char>, FeedError>(
                    streams@,
                ),
            decreases symbols.len() - i,
        {
            proof {
                assert(texts.take(i + 1).drop_last() =~= texts.take(i as int));
                assert(texts.take(i + 1).last() == symbols@[i as int]@);
            }
            let native = match self.mapper.denormalize(symbols[i], self.itype) {
                Ok(native) => native,
                Err(error) => {
                    proof {
                        lemma_stream_list_fails(texts, i + 1, self.itype);
                        assert(texts.take(symbols@.len() as int) == texts);
                    }
                    return Err(feed_error_of(error));
                },
            };
            let stream = concat2(to_lower(native.as_str()).as_str(), "@bookTicker");
            if i > 0 {
                streams.append("/");
            }
            streams.append(stream.as_str());
            i += 1;
        }
        proof {
            assert(texts.take(i as int) == texts);
        }
        Ok(concat3(self.base_url, "?streams=", streams.as_str()))
    }

    /// The quote of a book ticker: given up where it is crossed, else handed
    /// on under the ticker's symbol.
    pub fn quote(&self, ticker: BookTicker, received_ts: Timestamp) -> (r: Option<
        (String, MarketData),
    >)
        ensures
            match r {
                Some(found) => found.0 == ticker.symbol && Some(found.1) == unless_crossed(
                    quote_of(ticker.top, event_instant(ticker.event_time), received_ts),
                ),
                None => unless_crossed(
                    quote_of(ticker.top, event_instant(ticker.event_time), received_ts),
                ) is None,
            },
    {
        let exchange_ts = match ticker.event_time {
            Some(millis) => timestamp_of_millis(millis),
            None => None,
        };
        match assemble_checked(ticker.top, exchange_ts, received_ts) {
            Some(quote) => Some((ticker.symbol, quote)),
            None => None,
        }
    }
}

/// Once a prefix of the symbols fails, every longer list of them fails with
/// the same error.
pub proof fn lemma_stream_list_fails(symbols: Seq<Seq<char>>, failing: int, itype: InstrumentType)
    requires
        0 <= failing <= symbols.len(),
        stream_list(symbols.take(failing), itype) is Err,
    ensures
        stream_list(symbols, itype) == stream_list(symbols.take(failing), itype),
    decreases symbols.len() - failing,
{
    if failing < symbols.len() {
        assert(symbols.take(failing + 1).drop_last() =~= symbols.take(failing));
        lemma_stream_list_fails(symbols, failing + 1, itype);
    } else {
        assert(symbols.take(failing) == symbols);
    }
}

/// The fees of the exchange: taker and maker, for spot and for perpetuals.
pub fn get_fees() -> (fees: ExchangeFees)
    ensures
        fees.spot_default() == (FeeSchedule { taker_fees_bps: BPS_10, maker_fees_bps: BPS_10 }),
        fees.perp_default() == (FeeSchedule { taker_fees_bps: BPS_5, maker_fees_bps: BPS_2 }),
        fees.spot_overrides() == Map::<Seq<char>, FeeSchedule>::empty(),
        fees.perp_overrides() == Map::<Seq<char>, FeeSchedule>::empty(),
{
    ExchangeFees::new(FeeSchedule::new(BPS_10, BPS_10), FeeSchedule::new(BPS_5, BPS_2))
}

} // verus!
