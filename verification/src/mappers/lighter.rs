//! Lighter lists perpetuals only and names each by its base asset alone:
//! `ETH`. Every market is quoted in `USD`.

use crate::mappers::symbol_mapper::{
    normalized_name, pair_of, split_pair, MapperError, Pair, SymbolMapper,
};
use crate::market_data::InstrumentType;
use crate::text::{to_upper, uppercase};
use vstd::prelude::*;

verus! {

#[derive(Clone, Copy, Debug)]
pub struct LighterMapper;

impl SymbolMapper for LighterMapper {
    /// A perpetual's symbol is its base; the quote is `USD`.
    open spec fn parsed(&self, native: Seq<char>, itype: InstrumentType) -> Result<
        Pair,
        MapperError,
    > {
        match itype {
            InstrumentType::Perp => if native.len() > 0 {
                Ok((native, "USD"@))
            } else {
                Err(MapperError::InvalidSymbol)
            },
            _ => Err(MapperError::UnsupportedInstrument),
        }
    }

    open spec fn denormalized(&self, normalized: Seq<char>, itype: InstrumentType) -> Result<
        Seq<char>,
        MapperError,
    > {
        match pair_of(normalized) {
            None => Err(MapperError::InvalidSymbol),
            Some(pair) => match itype {
                InstrumentType::Perp => Ok(uppercase(pair.0)),
                _ => Err(MapperError::UnsupportedInstrument),
            },
        }
    }

    open spec fn exchange_name(&self) -> Seq<char> {
        "lighter"@
    }

    fn normalize(&self, native: &str, itype: InstrumentType) -> (r: Result<String, MapperError>) {
        match self.parse(native, itype) {
            Ok((base, quote)) => Ok(normalized_name(itype, base.as_str(), quote.as_str())),
            Err(error) => Err(error),
        }
    }

    fn denormalize(&self, normalized: &str, itype: InstrumentType) -> (r: Result<
        String,
        MapperError,
    >) {
        let (base, _quote) = match split_pair(normalized) {
            Some(pair) => pair,
            None => {
                return Err(MapperError::InvalidSymbol);
            },
        };
        match itype {
            InstrumentType::Perp => Ok(to_upper(base.as_str())),
            _ => Err(MapperError::UnsupportedInstrument),
        }
    }

    fn parse(&self, native: &str, itype: InstrumentType) -> (r: Result<
        (String, String),
        MapperError,
    >) {
        match itype {
            InstrumentType::Perp => if native.unicode_len() > 0 {
                Ok((String::from_str(native), String::from_str("USD")))
            } else {
                Err(MapperError::InvalidSymbol)
            },
            _ => Err(MapperError::UnsupportedInstrument),
        }
    }

    fn exchange(&self) -> (name: &str) {
        "lighter"
    }
}

} // verus!
