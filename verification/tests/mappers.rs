use crypto_feeds::mappers::{
    get_mapper, parse_normalized, BinanceMapper, BybitMapper, CoinbaseMapper, KrakenMapper,
    LighterMapper, MapperError, MexcMapper, SymbolMapper,
};
use crypto_feeds::market_data::InstrumentType;

#[test]
fn test_get_mapper() {
    assert!(get_mapper("mexc").is_ok());
    assert!(get_mapper("binance").is_ok());
    assert!(get_mapper("invalid").is_err());
}

#[test]
fn get_mapper_ignores_case_and_knows_every_exchange() {
    for name in ["MEXC", "Binance", "coinbase", "ByBit", "kraken", "LIGHTER"] {
        assert!(get_mapper(name).is_ok(), "{}", name);
    }
    assert_eq!(get_mapper("").err(), Some(MapperError::UnsupportedExchange));
    assert_eq!(get_mapper("kraken").unwrap().exchange(), "kraken");
}

#[test]
fn parse_normalized_takes_two_or_three_parts() {
    assert_eq!(
        parse_normalized("SPOT_BTC_USDT"),
        Ok(("BTC".to_string(), "USDT".to_string()))
    );
    assert_eq!(parse_normalized("BTC_USDT"), Ok(("BTC".to_string(), "USDT".to_string())));
    assert_eq!(parse_normalized("BTCUSDT"), Err(MapperError::InvalidSymbol));
    assert_eq!(parse_normalized("A_B_C_D"), Err(MapperError::InvalidSymbol));
    assert_eq!(parse_normalized("_"), Ok(("".to_string(), "".to_string())));
}

#[test]
fn bybit_maps_joined_symbols() {
    let mapper = BybitMapper;
    assert_eq!(
        mapper.parse("btcusdt", InstrumentType::Spot),
        Ok(("BTC".to_string(), "USDT".to_string()))
    );
    assert_eq!(
        mapper.parse("ETHBTC", InstrumentType::Perp),
        Ok(("ETH".to_string(), "BTC".to_string()))
    );
    assert_eq!(mapper.parse("USDT", InstrumentType::Spot), Err(MapperError::InvalidSymbol));
    assert_eq!(mapper.parse("XYZ", InstrumentType::Spot), Err(MapperError::InvalidSymbol));
    assert_eq!(
        mapper.parse("BTCUSDT", InstrumentType::Option),
        Err(MapperError::UnsupportedInstrument)
    );
    assert_eq!(
        mapper.normalize("BTCUSDT", InstrumentType::Spot),
        Ok("SPOT_BTC_USDT".to_string())
    );
    assert_eq!(
        mapper.denormalize("SPOT_btc_usdt", InstrumentType::Perp),
        Ok("BTCUSDT".to_string())
    );
    assert_eq!(mapper.denormalize("BTC_USDT", InstrumentType::Spot), Ok("BTCUSDT".to_string()));
    assert_eq!(
        mapper.denormalize("BTCUSDT", InstrumentType::Spot),
        Err(MapperError::InvalidSymbol)
    );
    assert_eq!(
        mapper.denormalize("BTC_USDT", InstrumentType::Futures),
        Err(MapperError::UnsupportedInstrument)
    );
    assert_eq!(mapper.exchange(), "binance");
}

#[test]
fn a_usd_quote_is_found_after_the_longer_quotes() {
    let mapper = BinanceMapper;
    assert_eq!(
        mapper.parse("BTCUSD", InstrumentType::Spot),
        Ok(("BTC".to_string(), "USD".to_string()))
    );
    assert_eq!(
        mapper.parse("BTCBUSD", InstrumentType::Spot),
        Ok(("BTC".to_string(), "BUSD".to_string()))
    );
    assert_eq!(mapper.exchange(), "binance");
}

#[test]
fn coinbase_maps_dashed_symbols() {
    let mapper = CoinbaseMapper;
    assert_eq!(
        mapper.parse("ETH-USDT", InstrumentType::Spot),
        Ok(("ETH".to_string(), "USDT".to_string()))
    );
    assert_eq!(mapper.parse("ETHUSDT", InstrumentType::Spot), Err(MapperError::InvalidSymbol));
    assert_eq!(
        mapper.parse("BTC-PERP-INTX", InstrumentType::Perp),
        Err(MapperError::UnsupportedInstrument)
    );
    assert_eq!(
        mapper.normalize("ETH-USD", InstrumentType::Spot),
        Ok("SPOT_ETH_USD".to_string())
    );
    assert_eq!(
        mapper.denormalize("SPOT_eth_usd", InstrumentType::Spot),
        Ok("ETH-USD".to_string())
    );
    assert_eq!(
        mapper.denormalize("PERP_BTC_USD", InstrumentType::Perp),
        Ok("BTC-PERP-INTX".to_string())
    );
    assert_eq!(mapper.exchange(), "mexc");
}

#[test]
fn kraken_maps_slashed_symbols() {
    let mapper = KrakenMapper;
    assert_eq!(
        mapper.parse("XBT/USD", InstrumentType::Spot),
        Ok(("XBT".to_string(), "USD".to_string()))
    );
    assert_eq!(mapper.parse("XBTUSD", InstrumentType::Spot), Err(MapperError::InvalidSymbol));
    assert_eq!(
        mapper.parse("XBT/USD", InstrumentType::Perp),
        Err(MapperError::UnsupportedInstrument)
    );
    assert_eq!(
        mapper.denormalize("SPOT_XBT_USD", InstrumentType::Spot),
        Ok("XBT/USD".to_string())
    );
    assert_eq!(
        mapper.denormalize("xbt_usd", InstrumentType::Perp),
        Ok("PI_XBTUSD".to_string())
    );
    assert_eq!(mapper.exchange(), "kraken");
}

#[test]
fn mexc_and_lighter_map_their_symbols() {
    let mexc = MexcMapper;
    assert_eq!(mexc.denormalize("SPOT_BTC_USDT", InstrumentType::Spot), Ok("BTCUSDT".to_string()));
    assert_eq!(mexc.denormalize("PERP_BTC_USDT", InstrumentType::Perp), Ok("BTC_USDT".to_string()));
    assert_eq!(
        mexc.parse("BTC_USDT", InstrumentType::Perp),
        Ok(("BTC".to_string(), "USDT".to_string()))
    );
    assert_eq!(mexc.normalize("BTCUSDT", InstrumentType::Spot), Ok("SPOT_BTC_USDT".to_string()));
    let lighter = LighterMapper;
    assert_eq!(lighter.denormalize("PERP_ETH_USD", InstrumentType::Perp), Ok("ETH".to_string()));
    assert_eq!(
        lighter.denormalize("PERP_ETH_USD", InstrumentType::Spot),
        Err(MapperError::UnsupportedInstrument)
    );
    assert_eq!(lighter.normalize("ETH", InstrumentType::Perp), Ok("PERP_ETH_USD".to_string()));
    assert_eq!(lighter.parse("", InstrumentType::Perp), Err(MapperError::InvalidSymbol));
}
