use crypto_feeds::market_data::InstrumentType;
use crypto_feeds::symbol_registry::{generate_aliases, SymbolRegistry, MAX_SYMBOLS};

fn bases(names: &[&str]) -> Vec<String> {
    names.iter().map(|name| name.to_string()).collect()
}

#[test]
fn every_spelling_resolves_to_one_id() {
    let registry = SymbolRegistry::from_config(&bases(&["BTC"])).unwrap();
    let id = registry.lookup("BTCUSDT", &InstrumentType::Spot);
    assert_eq!(id, Some(0));
    assert_eq!(registry.lookup("BTC-USDT", &InstrumentType::Spot), id);
    assert_eq!(registry.lookup("BTC/USDT", &InstrumentType::Spot), id);
    assert_eq!(registry.lookup("BTC_USDT", &InstrumentType::Spot), id);
    assert_eq!(registry.get_symbol(0), Some("SPOT-BTC-USDT"));
    let perp = registry.lookup("BTCUSDT", &InstrumentType::Perp);
    assert_eq!(perp, Some(1));
    assert_ne!(perp, id);
    assert_eq!(registry.get_symbol(1), Some("PERP-BTC-USDT"));
}

#[test]
fn ids_follow_the_order_of_registration() {
    let registry = SymbolRegistry::from_config(&bases(&["BTC", "ETH"])).unwrap();
    assert_eq!(registry.get_symbol(0), Some("SPOT-BTC-USDT"));
    assert_eq!(registry.get_symbol(1), Some("PERP-BTC-USDT"));
    assert_eq!(registry.get_symbol(2), Some("SPOT-BTC-USDC"));
    assert_eq!(registry.get_symbol(3), Some("PERP-BTC-USDC"));
    assert_eq!(registry.get_symbol(4), Some("SPOT-BTC-USD"));
    assert_eq!(registry.get_symbol(5), Some("PERP-BTC-USD"));
    assert_eq!(registry.get_symbol(6), Some("SPOT-ETH-USDT"));
    assert_eq!(registry.get_symbol(11), Some("PERP-ETH-USD"));
    assert_eq!(registry.get_symbol(12), None);
    assert_eq!(registry.get_symbol(MAX_SYMBOLS), None);
    assert_eq!(registry.get_symbol(usize::MAX), None);
    assert_eq!(registry.lookup("ETH/USD", &InstrumentType::Perp), Some(11));
    assert_eq!(registry.lookup("ETH-USDC", &InstrumentType::Spot), Some(8));
}

#[test]
fn the_canonical_symbol_resolves_too() {
    let registry = SymbolRegistry::from_config(&bases(&["SOL"])).unwrap();
    assert_eq!(registry.lookup("SPOT-SOL-USDC", &InstrumentType::Spot), Some(2));
    assert_eq!(registry.lookup("PERP-SOL-USDC", &InstrumentType::Perp), Some(3));
    assert_eq!(registry.lookup("PERP-SOL-USDC", &InstrumentType::Spot), None);
}

#[test]
fn lookups_compare_in_upper_case() {
    let registry = SymbolRegistry::from_config(&bases(&["btc"])).unwrap();
    assert_eq!(registry.lookup("btcusdt", &InstrumentType::Spot), Some(0));
    assert_eq!(registry.lookup("BTCUSDT", &InstrumentType::Spot), Some(0));
    assert_eq!(registry.lookup("Btc-Usdt", &InstrumentType::Spot), Some(0));
    assert_eq!(registry.get_symbol(0), Some("SPOT-btc-USDT"));
}

#[test]
fn unknown_spellings_and_other_types_resolve_to_nothing() {
    let registry = SymbolRegistry::from_config(&bases(&["BTC"])).unwrap();
    assert_eq!(registry.lookup("ETHUSDT", &InstrumentType::Spot), None);
    assert_eq!(registry.lookup("BTC USDT", &InstrumentType::Spot), None);
    assert_eq!(registry.lookup("", &InstrumentType::Spot), None);
    assert_eq!(registry.lookup("BTCUSDT", &InstrumentType::Option), None);
    assert_eq!(registry.lookup("BTCUSDT", &InstrumentType::Futures), None);
    let empty = SymbolRegistry::from_config(&Vec::new()).unwrap();
    assert_eq!(empty.lookup("BTCUSDT", &InstrumentType::Spot), None);
    assert_eq!(empty.get_symbol(0), None);
}

#[test]
fn a_base_configured_again_takes_the_spellings() {
    let registry = SymbolRegistry::from_config(&bases(&["BTC", "BTC"])).unwrap();
    assert_eq!(registry.lookup("BTCUSDT", &InstrumentType::Spot), Some(6));
    assert_eq!(registry.lookup("BTC_USDT", &InstrumentType::Spot), Some(6));
    assert_eq!(registry.get_symbol(6), Some("SPOT-BTC-USDT"));
}

#[test]
fn a_later_base_may_write_over_one_spelling() {
    let registry = SymbolRegistry::from_config(&bases(&["X", "X-"])).unwrap();
    assert_eq!(registry.lookup("XUSDT", &InstrumentType::Spot), Some(0));
    assert_eq!(registry.lookup("X-USDT", &InstrumentType::Spot), Some(6));
}

#[test]
fn the_registry_is_full_at_a_thousand_symbols() {
    let names: Vec<String> = (0..166).map(|n| format!("A{}", n)).collect();
    let registry = SymbolRegistry::from_config(&names).unwrap();
    assert_eq!(registry.get_symbol(995), Some("PERP-A165-USD"));
    assert_eq!(registry.get_symbol(996), None);
    let names: Vec<String> = (0..167).map(|n| format!("A{}", n)).collect();
    assert_eq!(
        SymbolRegistry::from_config(&names).err(),
        Some("Symbol registry full".to_string())
    );
}

#[test]
fn aliases_are_the_four_spellings() {
    assert_eq!(
        generate_aliases("BTC", "USDT", &InstrumentType::Spot),
        vec!["BTCUSDT", "BTC-USDT", "BTC/USDT", "BTC_USDT"]
    );
    assert_eq!(
        generate_aliases("eth", "USD", &InstrumentType::Perp),
        vec!["ethUSD", "eth-USD", "eth/USD", "eth_USD"]
    );
    assert!(generate_aliases("BTC", "USDT", &InstrumentType::Option).is_empty());
    assert!(generate_aliases("BTC", "USDT", &InstrumentType::Futures).is_empty());
}

#[test]
fn only_ascii_letters_change_case_in_a_lookup() {
    let registry = SymbolRegistry::from_config(&bases(&["straße", "É"])).unwrap();
    assert_eq!(registry.lookup("STRAßEUSDT", &InstrumentType::Spot), Some(0));
    assert_eq!(registry.lookup("straßeusdt", &InstrumentType::Spot), Some(0));
    assert_eq!(registry.lookup("STRASSEUSDT", &InstrumentType::Spot), None);
    assert_eq!(registry.lookup("É/usd", &InstrumentType::Perp), Some(11));
    assert_eq!(registry.lookup("é/usd", &InstrumentType::Perp), None);
}
