//! The mappers between the native symbols of each exchange and normalized
//! symbols.

pub mod binance;
pub mod bybit;
pub mod coinbase;
pub mod kraken;
pub mod lighter;
pub mod mexc;
pub mod registry;
pub mod symbol_mapper;

pub use binance::BinanceMapper;
pub use bybit::BybitMapper;
pub use coinbase::CoinbaseMapper;
pub use kraken::KrakenMapper;
pub use lighter::LighterMapper;
pub use mexc::MexcMapper;
pub use registry::{get_mapper, mapper_for, Mapper};
pub use symbol_mapper::{parse_normalized, MapperError, SymbolMapper};
