use crypto_feeds::market_data::{Exchange, InstrumentType, MarketData, MarketDataCollection};
use crypto_feeds::symbol_registry::MAX_SYMBOLS;
use crypto_feeds::time::Timestamp;

fn quote(bid: f64, ask: f64) -> MarketData {
    MarketData {
        bid: Some(bid.to_bits()),
        ask: Some(ask.to_bits()),
        bid_qty: Some(1.0f64.to_bits()),
        ask_qty: Some(2.0f64.to_bits()),
        exchange_ts: None,
        received_ts: Some(Timestamp::from_millis(1_700_000_000_123)),
    }
}

#[test]
fn a_new_table_holds_nothing() {
    let table = MarketDataCollection::new();
    assert_eq!(table.get(0), None);
    assert_eq!(table.get(MAX_SYMBOLS - 1), None);
    assert_eq!(table.get(MAX_SYMBOLS), None);
    assert_eq!(table.get(usize::MAX), None);
    assert_eq!(table.get_midquote(0), None);
    assert_eq!(table.get_midquote_w_timestamp(0), None);
}

#[test]
fn the_last_write_wins_whole() {
    let mut table = MarketDataCollection::new();
    let first = quote(100.0, 101.0);
    let second = MarketData {
        bid: None,
        ask: Some(55.0f64.to_bits()),
        bid_qty: None,
        ask_qty: None,
        exchange_ts: Some(Timestamp::from_secs(5)),
        received_ts: None,
    };
    table.insert(7, first);
    assert_eq!(table.get(7), Some(&first));
    table.insert(7, second);
    assert_eq!(table.get(7), Some(&second));
    assert_eq!(table.get(6), None);
    assert_eq!(table.get(8), None);
}

#[test]
fn a_write_leaves_the_other_ids_alone() {
    let mut table = MarketDataCollection::new();
    table.insert(0, quote(1.0, 2.0));
    table.insert(MAX_SYMBOLS - 1, quote(3.0, 4.0));
    assert_eq!(table.get(0), Some(&quote(1.0, 2.0)));
    assert_eq!(table.get(MAX_SYMBOLS - 1), Some(&quote(3.0, 4.0)));
    assert_eq!(table.get(1), None);
}

#[test]
fn the_terms_of_the_midquote_need_both_sides() {
    let mut table = MarketDataCollection::new();
    table.insert(1, quote(100.0, 102.0));
    let (bid, ask) = table.get_midquote(1).unwrap();
    assert_eq!((f64::from_bits(bid) + f64::from_bits(ask)) / 2.0, 101.0);
    assert_eq!(
        table.get_midquote_w_timestamp(1),
        Some(((100.0f64.to_bits(), 102.0f64.to_bits()), Timestamp::from_millis(1_700_000_000_123)))
    );
    let mut one_sided = quote(100.0, 102.0);
    one_sided.ask = None;
    table.insert(2, one_sided);
    assert_eq!(table.get_midquote(2), None);
    assert_eq!(one_sided.midquote(), None);
    assert_eq!(table.get_midquote_w_timestamp(2), None);
    let mut undated = quote(100.0, 102.0);
    undated.received_ts = None;
    table.insert(3, undated);
    assert!(table.get_midquote(3).is_some());
    assert_eq!(table.get_midquote_w_timestamp(3), None);
}

#[test]
fn a_quote_is_crossed_when_the_bid_is_not_below_the_ask() {
    assert!(quote(100.0, 99.0).is_crossed());
    assert!(quote(100.0, 100.0).is_crossed());
    assert!(!quote(99.0, 100.0).is_crossed());
    assert!(!quote(f64::NAN, 1.0).is_crossed());
    assert!(!quote(1.0, f64::NAN).is_crossed());
    assert!(quote(0.0, -0.0).is_crossed());
    let mut one_sided = quote(100.0, 99.0);
    one_sided.bid = None;
    assert!(!one_sided.is_crossed());
}

#[test]
fn instrument_types_have_their_tags() {
    assert_eq!(InstrumentType::Spot.as_str(), "SPOT");
    assert_eq!(InstrumentType::Perp.as_str(), "PERP");
    assert_eq!(InstrumentType::Option.as_str(), "OPTION");
    assert_eq!(InstrumentType::Futures.as_str(), "FUT");
    assert_ne!(Exchange::Binance, Exchange::Mexc);
}
