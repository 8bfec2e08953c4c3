//! Streaming ingestion of top-of-book quotes from several exchanges:
//! the symbol registry, the order book, the market data store and the
//! connection lifecycle, each with a verified contract.

pub mod app_config;
pub mod binary64;
pub mod exchange_fees;
pub mod exchanges;
pub mod mappers;
pub mod market_data;
pub mod orderbook;
pub mod query;
pub mod registry_laws;
pub mod symbol_registry;
pub mod text;
pub mod time;

pub use exchange_fees::{ExchangeFees, FeeSchedule};
pub use market_data::{AllMarketData, MarketData, MarketDataCollection};
pub use orderbook::OrderBook;
