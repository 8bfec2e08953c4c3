//! MEXC writes a spot pair joined, `BTCUSDT`, and a perpetual with an
//! underscore, `BTC_USDT`.

use crate::mappers::symbol_mapper::{
    normalized_name, pair_by_separator, pair_by_suffix, pair_of, parse_by_separator,
    parse_by_suffix, split_pair, MapperError, Pair, SymbolMapper,
};
use crate::market_data::InstrumentType;
use crate::text::{concat2, concat3, to_upper, uppercase};
use vstd::prelude::*;

verus! {

#[derive(Clone, Copy, Debug)]
pub struct MexcMapper;

impl SymbolMapper for MexcMapper {
    /// A spot symbol is divided before the known quote that it ends with, a
    /// perpetual at its first underscore.
    open spec fn parsed(&self, native: Seq<char>, itype: InstrumentType) -> Result<
        Pair,
        MapperError,
    > {
        match itype {
            InstrumentType::Spot => match pair_by_suffix(native) {
                Some(pair) => Ok(pair),
                None => Err(MapperError::InvalidSymbol),
            },
            InstrumentType::Perp => match pair_by_separator(native, '_') {
                Some(pair) => Ok(pair),
                None => Err(MapperError::InvalidSymbol),
            },
            _ => Err(MapperError::UnsupportedInstrument),
        }
    }

    open spec fn denormalized(&self, normalized: Seq<char>, itype: InstrumentType) -> Result<
        Seq<char>,
        MapperError,
    > {
        match pair_of(normalized) {
            None => Err(MapperError::InvalidSymbol),
            Some(pair) => match itype {
                InstrumentType::Spot => Ok(uppercase(pair.0 + pair.1)),
                InstrumentType::Perp => Ok(uppercase(pair.0 + "_"@ + pair.1)),
                _ => Err(MapperError::UnsupportedInstrument),
            },
        }
    }

    open spec fn exchange_name(&self) -> Seq<char> {
        "mexc"@
    }

    fn normalize(&self, native: &str, itype: InstrumentType) -> (r: Result<String, MapperError>) {
        match self.parse(native, itype) {
            Ok((base, quote)) => Ok(normalized_name(itype, base.as_str(), quote.as_str())),
            Err(error) => Err(error),
        }
    }

    fn denormalize(&self, normalized: &str, itype: InstrumentType) -> (r: Result<
        String,
        MapperError,
    >) {
        let (base, quote) = match split_pair(normalized) {
            Some(pair) => pair,
            None => {
                return Err(MapperError::InvalidSymbol);
            },
        };
        match itype {
            InstrumentType::Spot => {
                let native = concat2(base.as_str(), quote.as_str());
                Ok(to_upper(native.as_str()))
            },
            InstrumentType::Perp => {
                let native = concat3(base.as_str(), "_", quote.as_str());
                Ok(to_upper(native.as_str()))
            },
            _ => Err(MapperError::UnsupportedInstrument),
        }
    }

    fn parse(&self, native: &str, itype: InstrumentType) -> (r: Result<
        (String, String),
        MapperError,
    >) {
        match itype {
            InstrumentType::Spot => match parse_by_suffix(native) {
                Some(pair) => Ok(pair),
                None => Err(MapperError::InvalidSymbol),
            },
            InstrumentType::Perp => match parse_by_separator(native, '_') {
                Some(pair) => Ok(pair),
                None => Err(MapperError::InvalidSymbol),
            },
            _ => Err(MapperError::UnsupportedInstrument),
        }
    }

    fn exchange(&self) -> (name: &str) {
        "mexc"
    }
}

} // verus!
