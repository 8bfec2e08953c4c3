//! Coinbase writes a spot pair with a dash, `BTC-USD`, and a perpetual as
//! `BTC-PERP-INTX`.

use crate::mappers::symbol_mapper::{
    normalized_name, pair_by_separator, pair_of, parse_by_separator, split_pair, MapperError,
    Pair, SymbolMapper,
};
use crate::market_data::InstrumentType;
use crate::text::{concat2, concat3, to_upper, uppercase};
use vstd::prelude::*;

verus! {

#[derive(Clone, Copy, Debug)]
pub struct CoinbaseMapper;

impl SymbolMapper for CoinbaseMapper {
    /// Only spot symbols are parsed: the two parts about the first dash.
    open spec fn parsed(&self, native: Seq<char>, itype: InstrumentType) -> Result<
        Pair,
        MapperError,
    > {
        match itype {
            InstrumentType::Spot => match pair_by_separator(native, '-') {
                Some(pair) => Ok(pair),
                None => Err(MapperError::InvalidSymbol),
            },
            _ => Err(MapperError::UnsupportedInstrument),
        }
    }

    open spec fn denormalized(&self, normalized: Seq<char>, itype: InstrumentType) -> Result<
        Seq<char>,
        MapperError,
    > {
        match pair_of(normalized) {
            None => Err(MapperError::InvalidSymbol),
            Some(pair) => match itype {
                InstrumentType::Spot => Ok(uppercase(pair.0 + "-"@ + pair.1)),
                InstrumentType::Perp => Ok(uppercase(pair.0 + "-PERP-INTX"@)),
                _ => Err(MapperError::UnsupportedInstrument),
            },
        }
    }

    open spec fn exchange_name(&self) -> Seq<char> {
        "mexc"@
    }

    fn normalize(&self, native: &str, itype: InstrumentType) -> (r: Result<String, MapperError>) {
        match self.parse(native, itype) {
            Ok((base, quote)) => Ok(normalized_name(itype, base.as_str(), quote.as_str())),
            Err(error) => Err(error),
        }
    }

    fn denormalize(&self, normalized: &str, itype: InstrumentType) -> (r: Result<
        String,
        MapperError,
    >) {
        let (base, quote) = match split_pair(normalized) {
            Some(pair) => pair,
            None => {
                return Err(MapperError::InvalidSymbol);
            },
        };
        match itype {
            InstrumentType::Spot => {
                let native = concat3(base.as_str(), "-", quote.as_str());
                Ok(to_upper(native.as_str()))
            },
            InstrumentType::Perp => {
                let native = concat2(base.as_str(), "-PERP-INTX");
                Ok(to_upper(native.as_str()))
            },
            _ => Err(MapperError::UnsupportedInstrument),
        }
    }

    fn parse(&self, native: &str, itype: InstrumentType) -> (r: Result<
        (String, String),
        MapperError,
    >) {
        match itype {
            InstrumentType::Spot => match parse_by_separator(native, '-') {
                Some(pair) => Ok(pair),
                None => Err(MapperError::InvalidSymbol),
            },
            _ => Err(MapperError::UnsupportedInstrument),
        }
    }

    fn exchange(&self) -> (name: &str) {
        "mexc"
    }
}

} // verus!
