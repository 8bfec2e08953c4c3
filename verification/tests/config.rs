use crypto_feeds::app_config::AppConfig;
use crypto_feeds::exchange_fees::{ExchangeFees, FeeSchedule};
use crypto_feeds::exchanges::{binance, bybit, coinbase, kraken, lighter, mexc};
use crypto_feeds::market_data::{
    AllMarketData, Exchange, InstrumentType, MarketData, MarketDataCollection,
};
use crypto_feeds::text::{decimal, parse_u32};

fn fees(taker: f64, maker: f64) -> FeeSchedule {
    FeeSchedule::new(taker.to_bits(), maker.to_bits())
}

#[test]
fn each_exchange_has_its_fees() {
    let expected = [
        (binance::get_fees(), fees(10.0, 10.0), fees(5.0, 2.0)),
        (bybit::get_fees(), fees(10.0, 10.0), fees(5.5, 2.0)),
        (coinbase::get_fees(), fees(60.0, 40.0), fees(60.0, 40.0)),
        (kraken::get_fees(), fees(40.0, 25.0), fees(25.0, 25.0)),
        (lighter::get_fees(), fees(0.0, 0.0), fees(0.0, 0.0)),
        (mexc::get_fees(), fees(5.0, 0.0), fees(2.0, 0.0)),
    ];
    for (schedule, spot, perp) in expected {
        assert_eq!(schedule.get_spot_fees("BTCUSDT"), &spot);
        assert_eq!(schedule.get_perp_fees("BTCUSDT"), &perp);
    }
}

#[test]
fn an_instrument_may_have_fees_of_its_own() {
    let schedule = ExchangeFees::new(fees(10.0, 10.0), fees(5.0, 2.0))
        .set_spot_override("BTCUSDT", fees(1.0, 0.5))
        .set_perp_override("ETHUSDT", fees(3.0, 1.0))
        .set_spot_override("BTCUSDT", fees(0.0, 0.0));
    assert_eq!(schedule.get_spot_fees("BTCUSDT"), &fees(0.0, 0.0));
    assert_eq!(schedule.get_spot_fees("ETHUSDT"), &fees(10.0, 10.0));
    assert_eq!(schedule.get_perp_fees("ETHUSDT"), &fees(3.0, 1.0));
    assert_eq!(schedule.get_perp_fees("BTCUSDT"), &fees(5.0, 2.0));
    assert_eq!(schedule.get_spot_fees("btcusdt"), &fees(10.0, 10.0));
    assert_eq!(fees(1.0, 2.0).taker_fees_bps, 1.0f64.to_bits());
    assert_eq!(fees(1.0, 2.0).maker_fees_bps, 2.0f64.to_bits());
}

fn entry(name: &str, symbols: &[&str]) -> (String, Vec<String>) {
    (name.to_string(), symbols.iter().map(|symbol| symbol.to_string()).collect())
}

#[test]
fn the_configured_exchanges_are_started_in_a_fixed_order() {
    let config = AppConfig {
        spot: vec![
            entry("kraken", &["SPOT_XBT_USD"]),
            entry("lighter", &["x"]),
            entry("binance", &["SPOT_BTC_USDT", "SPOT_ETH_USDT"]),
            entry("Bybit", &["y"]),
            entry("mexc", &[]),
        ],
        perp: vec![
            entry("lighter", &["PERP_ETH_USD"]),
            entry("kraken", &["z"]),
            entry("coinbase", &["PERP_BTC_USD"]),
            entry("coinbase", &["PERP_SOL_USD"]),
        ],
    };
    let spot: Vec<(Exchange, InstrumentType, Vec<String>)> = config
        .spot_feeds()
        .into_iter()
        .map(|plan| (plan.exchange, plan.itype, plan.symbols))
        .collect();
    assert_eq!(
        spot,
        vec![
            (
                Exchange::Binance,
                InstrumentType::Spot,
                vec!["SPOT_BTC_USDT".to_string(), "SPOT_ETH_USDT".to_string()]
            ),
            (Exchange::Mexc, InstrumentType::Spot, vec![]),
            (Exchange::Kraken, InstrumentType::Spot, vec!["SPOT_XBT_USD".to_string()]),
        ]
    );
    let perp: Vec<(Exchange, InstrumentType, Vec<String>)> = config
        .perp_feeds()
        .into_iter()
        .map(|plan| (plan.exchange, plan.itype, plan.symbols))
        .collect();
    assert_eq!(
        perp,
        vec![
            (Exchange::Coinbase, InstrumentType::Perp, vec!["PERP_SOL_USD".to_string()]),
            (Exchange::Lighter, InstrumentType::Perp, vec!["PERP_ETH_USD".to_string()]),
        ]
    );
    let empty = AppConfig { spot: vec![], perp: vec![] };
    assert!(empty.spot_feeds().is_empty());
    assert!(empty.perp_feeds().is_empty());
}

#[test]
fn exchanges_are_known_by_their_names() {
    for exchange in Exchange::all() {
        assert_eq!(Exchange::from_name(exchange.name()), Some(exchange));
        assert_eq!(Exchange::from_name(&exchange.name().to_uppercase()), Some(exchange));
        assert_eq!(Exchange::from_lower(exchange.name()), Some(exchange));
    }
    assert_eq!(Exchange::from_lower("Binance"), None);
    assert_eq!(Exchange::from_name("okx"), None);
    assert_eq!(
        Exchange::all(),
        vec![
            Exchange::Binance,
            Exchange::Coinbase,
            Exchange::Bybit,
            Exchange::Kraken,
            Exchange::Lighter,
            Exchange::Mexc
        ]
    );
}

#[test]
fn every_exchange_has_its_own_table() {
    let mut all: AllMarketData<MarketDataCollection> = AllMarketData::new();
    let quote = MarketData {
        bid: Some(1.0f64.to_bits()),
        ask: Some(2.0f64.to_bits()),
        bid_qty: None,
        ask_qty: None,
        exchange_ts: None,
        received_ts: None,
    };
    all.kraken.insert(3, quote);
    assert_eq!(all.get(Exchange::Kraken).get(3), Some(&quote));
    for exchange in [
        Exchange::Binance,
        Exchange::Coinbase,
        Exchange::Bybit,
        Exchange::Lighter,
        Exchange::Mexc,
    ] {
        assert_eq!(all.get(exchange).get(3), None);
    }
    let order: Vec<Exchange> = all.iter().into_iter().map(|(exchange, _)| exchange).collect();
    assert_eq!(order, Exchange::all());
    let tagged = AllMarketData { binance: 0, coinbase: 1, bybit: 2, kraken: 3, lighter: 4, mexc: 5 };
    let values: Vec<i32> = tagged.iter().into_iter().map(|(_, value)| *value).collect();
    assert_eq!(values, vec![0, 1, 2, 3, 4, 5]);
    assert_eq!(*tagged.get(Exchange::Lighter), 4);
}

#[test]
fn numbers_are_read_and_written_as_the_standard_library_does() {
    for text in [
        "", "+", "-", "0", "+0", "-0", "007", "12", "+12", "++12", "1+2", "4294967295",
        "4294967296", "99999999999999999999999", "12a", "a12", " 12", "12 ", "1_000", "٣",
        "+4294967295", "0000000000000000000000001",
    ] {
        assert_eq!(parse_u32(text), text.parse::<u32>().ok(), "{:?}", text);
    }
    for n in [0u32, 1, 9, 10, 11, 99, 100, 101, 12345, 4294967295, 1000000000, 4000000000] {
        assert_eq!(decimal(n), n.to_string());
        assert_eq!(parse_u32(&decimal(n)), Some(n));
    }
}
