use crypto_feeds::exchanges::books::{quote_from_book, Books};
use crypto_feeds::market_data::{InstrumentType, MarketData, MarketDataCollection};
use crypto_feeds::query::{
    get_by_symbol, get_midquote_by_symbol, get_midquote_w_timestamp_by_symbol,
};
use crypto_feeds::symbol_registry::SymbolRegistry;
use crypto_feeds::time::Timestamp;
use crypto_feeds::OrderBook;

fn level(price: f64, size: f64) -> (Option<u64>, u64) {
    (Some(price.to_bits()), size.to_bits())
}

#[test]
fn a_table_is_read_by_native_symbol() {
    let registry = SymbolRegistry::from_config(&vec!["BTC".to_string()]).unwrap();
    let mut table = MarketDataCollection::new();
    let quote = MarketData {
        bid: Some(10.0f64.to_bits()),
        ask: Some(11.0f64.to_bits()),
        bid_qty: None,
        ask_qty: None,
        exchange_ts: None,
        received_ts: Some(Timestamp::from_secs(3)),
    };
    table.insert(1, quote);
    let perp = InstrumentType::Perp;
    let spot = InstrumentType::Spot;
    assert_eq!(get_by_symbol(&table, &registry, "btc-usdt", &perp), Some(&quote));
    assert_eq!(get_by_symbol(&table, &registry, "BTCUSDT", &spot), None);
    assert_eq!(get_by_symbol(&table, &registry, "ETHUSDT", &perp), None);
    assert_eq!(
        get_midquote_by_symbol(&table, &registry, "BTC/USDT", &perp),
        Some((10.0f64.to_bits(), 11.0f64.to_bits()))
    );
    assert_eq!(get_midquote_by_symbol(&table, &registry, "BTC/USDC", &perp), None);
    assert_eq!(
        get_midquote_w_timestamp_by_symbol(&table, &registry, "BTC_USDT", &perp),
        Some(((10.0f64.to_bits(), 11.0f64.to_bits()), Timestamp::from_secs(3)))
    );
    assert_eq!(get_midquote_w_timestamp_by_symbol(&table, &registry, "BTC_USDT", &spot), None);
}

#[test]
fn books_are_kept_one_per_symbol() {
    let mut books = Books::new();
    assert_eq!(books.len(), 0);
    assert_eq!(books.position("A"), None);
    assert_eq!(books.position_tagged(0), None);
    books.put("A".to_string(), 5);
    books.put("B".to_string(), 5);
    books.put("C".to_string(), 6);
    assert_eq!(books.len(), 3);
    assert_eq!(books.position("A"), Some(0));
    assert_eq!(books.position("C"), Some(2));
    assert_eq!(books.position_tagged(5), Some(1));
    assert_eq!(books.position_tagged(6), Some(2));
    assert_eq!(books.position_tagged(7), None);
    let received = Timestamp::from_secs(1);
    let quote = books.apply(0, vec![level(1.0, 1.0)], vec![level(2.0, 1.0)], None, received);
    assert!(quote.is_some());
    books.put("A".to_string(), 9);
    assert_eq!(books.len(), 3);
    assert_eq!(books.position("A"), Some(2));
    assert_eq!(books.position("B"), Some(0));
    assert_eq!(books.symbol_at(2), "A");
    assert_eq!(books.tag_at(2), 9);
    assert_eq!(books.position_tagged(5), Some(0));
    assert_eq!(books.apply(2, vec![], vec![], None, received), None);
}

#[test]
fn the_quote_of_a_book_needs_both_sides_and_no_cross() {
    let mut book = OrderBook::new();
    let received = Timestamp::from_secs(1);
    assert_eq!(quote_from_book(&book, None, received), None);
    book.update_bids(vec![level(10.0, 3.0)]);
    assert_eq!(quote_from_book(&book, None, received), None);
    book.update_asks(vec![level(11.0, 4.0)]);
    let exchange_ts = Some(Timestamp::from_secs(0));
    assert_eq!(
        quote_from_book(&book, exchange_ts, received),
        Some(MarketData {
            bid: Some(10.0f64.to_bits()),
            ask: Some(11.0f64.to_bits()),
            bid_qty: Some(3.0f64.to_bits()),
            ask_qty: Some(4.0f64.to_bits()),
            exchange_ts,
            received_ts: Some(received),
        })
    );
    book.update_asks(vec![level(10.0, 1.0)]);
    assert_eq!(quote_from_book(&book, None, received), None);
}
