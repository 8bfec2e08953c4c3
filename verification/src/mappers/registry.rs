//! The mapper of each exchange, chosen by the exchange's name.

use crate::mappers::binance::BinanceMapper;
use crate::mappers::bybit::BybitMapper;
use crate::mappers::coinbase::CoinbaseMapper;
use crate::mappers::kraken::KrakenMapper;
use crate::mappers::lighter::LighterMapper;
use crate::mappers::mexc::MexcMapper;
use crate::mappers::symbol_mapper::{MapperError, Pair, SymbolMapper};
use crate::market_data::InstrumentType;
use crate::text::{lowercase, text_eq, to_lower};
use vstd::prelude::*;

verus! {

/// The mapper of one of the exchanges that are served.
#[derive(Clone, Copy, Debug)]
pub enum Mapper {
    Mexc(MexcMapper),
    Binance(BinanceMapper),
    Coinbase(CoinbaseMapper),
    Bybit(BybitMapper),
    Kraken(KrakenMapper),
    Lighter(LighterMapper),
}

impl SymbolMapper for Mapper {
    open spec fn parsed(&self, native: Seq<char>, itype: InstrumentType) -> Result<
        Pair,
        MapperError,
    > {
        match self {
            Mapper::Mexc(mapper) => mapper.parsed(native, itype),
            Mapper::Binance(mapper) => mapper.parsed(native, itype),
            Mapper::Coinbase(mapper) => mapper.parsed(native, itype),
            Mapper::Bybit(mapper) => mapper.parsed(native, itype),
            Mapper::Kraken(mapper) => mapper.parsed(native, itype),
            Mapper::Lighter(mapper) => mapper.parsed(native, itype),
        }
    }

    open spec fn denormalized(&self, normalized: Seq<char>, itype: InstrumentType) -> Result<
        Seq<char>,
        MapperError,
    > {
        match self {
            Mapper::Mexc(mapper) => mapper.denormalized(normalized, itype),
            Mapper::Binance(mapper) => mapper.denormalized(normalized, itype),
            Mapper::Coinbase(mapper) => mapper.denormalized(normalized, itype),
            Mapper::Bybit(mapper) => mapper.denormalized(normalized, itype),
            Mapper::Kraken(mapper) => mapper.denormalized(normalized, itype),
            Mapper::Lighter(mapper) => mapper.denormalized(normalized, itype),
        }
    }

    open spec fn exchange_name(&self) -> Seq<char> {
        match self {
            Mapper::Mexc(mapper) => mapper.exchange_name(),
            Mapper::Binance(mapper) => mapper.exchange_name(),
            Mapper::Coinbase(mapper) => mapper.exchange_name(),
            Mapper::Bybit(mapper) => mapper.exchange_name(),
            Mapper::Kraken(mapper) => mapper.exchange_name(),
            Mapper::Lighter(mapper) => mapper.exchange_name(),
        }
    }

    fn normalize(&self, native: &str, itype: InstrumentType) -> (r: Result<String, MapperError>) {
        match self {
            Mapper::Mexc(mapper) => mapper.normalize(native, itype),
            Mapper::Binance(mapper) => mapper.normalize(native, itype),
            Mapper::Coinbase(mapper) => mapper.normalize(native, itype),
            Mapper::Bybit(mapper) => mapper.normalize(native, itype),
            Mapper::Kraken(mapper) => mapper.normalize(native, itype),
            Mapper::Lighter(mapper) => mapper.normalize(native, itype),
        }
    }

    fn denormalize(&self, normalized: &str, itype: InstrumentType) -> (r: Result<
        String,
        MapperError,
    >) {
        match self {
            Mapper::Mexc(mapper) => mapper.denormalize(normalized, itype),
            Mapper::Binance(mapper) => mapper.denormalize(normalized, itype),
            Mapper::Coinbase(mapper) => mapper.denormalize(normalized, itype),
            Mapper::Bybit(mapper) => mapper.denormalize(normalized, itype),
            Mapper::Kraken(mapper) => mapper.denormalize(normalized, itype),
            Mapper::Lighter(mapper) => mapper.denormalize(normalized, itype),
        }
    }

    fn parse(&self, native: &str, itype: InstrumentType) -> (r: Result<
        (String, String),
        MapperError,
    >) {
        match self {
            Mapper::Mexc(mapper) => mapper.parse(native, itype),
            Mapper::Binance(mapper) => mapper.parse(native, itype),
            Mapper::Coinbase(mapper) => mapper.parse(native, itype),
            Mapper::Bybit(mapper) => mapper.parse(native, itype),
            Mapper::Kraken(mapper) => mapper.parse(native, itype),
            Mapper::Lighter(mapper) => mapper.parse(native, itype),
        }
    }

    fn exchange(&self) -> (name: &str) {
        match self {
            Mapper::Mexc(mapper) => mapper.exchange(),
            Mapper::Binance(mapper) => mapper.exchange(),
            Mapper::Coinbase(mapper) => mapper.exchange(),
            Mapper::Bybit(mapper) => mapper.exchange(),
            Mapper::Kraken(mapper) => mapper.exchange(),
            Mapper::Lighter(mapper) => mapper.exchange(),
        }
    }
}

/// The mapper that serves the exchange of the name given, in lower case.
pub open spec fn mapper_named(name: Seq<char>) -> Option<Mapper> {
    if name == "mexc"@ {
        Some(Mapper::Mexc(MexcMapper))
    } else if name == "binance"@ {
        Some(Mapper::Binance(BinanceMapper))
    } else if name == "coinbase"@ {
        Some(Mapper::Coinbase(CoinbaseMapper))
    } else if name == "bybit"@ {
        Some(Mapper::Bybit(BybitMapper))
    } else if name == "kraken"@ {
        Some(Mapper::Kraken(KrakenMapper))
    } else if name == "lighter"@ {
        Some(Mapper::Lighter(LighterMapper))
    } else {
        None
    }
}

/// What `get_mapper` gives for the name of an exchange, once in lower case.
pub fn mapper_for(name: &str) -> (r: Result<Mapper, MapperError>)
    ensures
        match r {
            Ok(mapper) => mapper_named(name@) == Some(mapper),
            Err(error) => mapper_named(name@) is None && error == MapperError::UnsupportedExchange,
        },
{
    if text_eq(name, "mexc") {
        Ok(Mapper::Mexc(MexcMapper))
    } else if text_eq(name, "binance") {
        Ok(Mapper::Binance(BinanceMapper))
    } else if text_eq(name, "coinbase") {
        Ok(Mapper::Coinbase(CoinbaseMapper))
    } else if text_eq(name, "bybit") {
        Ok(Mapper::Bybit(BybitMapper))
    } else if text_eq(name, "kraken") {
        Ok(Mapper::Kraken(KrakenMapper))
    } else if text_eq(name, "lighter") {
        Ok(Mapper::Lighter(LighterMapper))
    } else {
        Err(MapperError::UnsupportedExchange)
    }
}

/// The mapper of an exchange, by the exchange's name in any case.
pub fn get_mapper(exchange: &str) -> (r: Result<Mapper, MapperError>)
    ensures
        match r {
            Ok(mapper) => mapper_named(lowercase(exchange@)) == Some(mapper),
            Err(error) => mapper_named(lowercase(exchange@)) is None && error
                == MapperError::UnsupportedExchange,
        },
{
    let name = to_lower(exchange);
    mapper_for(name.as_str())
}

} // verus!
