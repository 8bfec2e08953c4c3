//! What the adapters share: how a quote is put together from the numbers
//! read off a frame, and how an exchange's timestamp is read.

use crate::binary64::Binary64;
use crate::market_data::MarketData;
use crate::time::{
    chrono_dates_millis, chrono_from_millis, chrono_from_rfc3339, rfc3339_instant, Timestamp,
};
use vstd::prelude::*;

verus! {

/// The best bid and the best ask as read off a frame. A number that could
/// not be read is `None`.
#[derive(Clone, Copy, Debug, PartialEq, Eq, Structural)]
pub struct TopOfBook {
    pub bid: Option<Binary64>,
    pub ask: Option<Binary64>,
    pub bid_qty: Option<Binary64>,
    pub ask_qty: Option<Binary64>,
}

/// The quote made of a top of book, the exchange's timestamp, if it gave
/// one, and the time of receipt.
pub open spec fn quote_of(
    top: TopOfBook,
    exchange_ts: Option<Timestamp>,
    received_ts: Timestamp,
) -> MarketData {
    MarketData {
        bid: top.bid,
        ask: top.ask,
        bid_qty: top.bid_qty,
        ask_qty: top.ask_qty,
        exchange_ts,
        received_ts: Some(received_ts),
    }
}

/// The quote, unless it is crossed.
pub open spec fn unless_crossed(quote: MarketData) -> Option<MarketData> {
    if quote.crossed() {
        None
    } else {
        Some(quote)
    }
}

/// Milliseconds as a signed number of the same 64 bits.
pub open spec fn signed_millis(millis: u64) -> i64 {
    if millis <= i64::MAX {
        millis as i64
    } else {
        (millis - 0x1_0000_0000_0000_0000) as i64
    }
}

/// The instant that an exchange names in milliseconds since the epoch, where
/// `chrono` has a date for it.
pub open spec fn instant_of_millis(millis: u64) -> Option<Timestamp> {
    if chrono_dates_millis(signed_millis(millis)) {
        Some(Timestamp::of_millis(signed_millis(millis)))
    } else {
        None
    }
}

/// The instant that an exchange names in the format of RFC 3339.
pub open spec fn instant_of_rfc3339(text: Seq<char>) -> Option<Timestamp> {
    match rfc3339_instant(text) {
        Some(parts) => Some(Timestamp { secs: parts.0, nanos: parts.1 }),
        None => None,
    }
}

/// Puts a quote together.
pub fn assemble(top: TopOfBook, exchange_ts: Option<Timestamp>, received_ts: Timestamp) -> (quote:
    MarketData)
    ensures
        quote == quote_of(top, exchange_ts, received_ts),
{
    MarketData {
        bid: top.bid,
        ask: top.ask,
        bid_qty: top.bid_qty,
        ask_qty: top.ask_qty,
        exchange_ts,
        received_ts: Some(received_ts),
    }
}

/// Puts a quote together and gives it up where it is crossed.
pub fn assemble_checked(
    top: TopOfBook,
    exchange_ts: Option<Timestamp>,
    received_ts: Timestamp,
) -> (quote: Option<MarketData>)
    ensures
        quote == unless_crossed(quote_of(top, exchange_ts, received_ts)),
{
    let quote = assemble(top, exchange_ts, received_ts);
    if quote.is_crossed() {
        None
    } else {
        Some(quote)
    }
}

/// The instant that an exchange names in milliseconds since the epoch.
pub fn timestamp_of_millis(millis: u64) -> (t: Option<Timestamp>)
    ensures
        t == instant_of_millis(millis),
{
    let signed: i64 = if millis <= 0x7fff_ffff_ffff_ffff {
        millis as i64
    } else {
        let below: u64 = millis - 0x8000_0000_0000_0000;
        (below as i64) + i64::MIN
    };
    chrono_from_millis(signed)
}

/// The instant that an exchange names in the format of RFC 3339.
pub fn timestamp_of_rfc3339(text: &str) -> (t: Option<Timestamp>)
    ensures
        t == instant_of_rfc3339(text@),
{
    chrono_from_rfc3339(text)
}

} // verus!
