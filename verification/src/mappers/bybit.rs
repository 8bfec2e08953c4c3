//! Bybit writes a pair joined, without a separator: `BTCUSDT`.

use crate::mappers::symbol_mapper::{
    normalized_name, pair_by_suffix, pair_of, parse_by_suffix, split_pair, MapperError, Pair,
    SymbolMapper,
};
use crate::market_data::InstrumentType;
use crate::text::{concat2, to_upper, uppercase};
use vstd::prelude::*;

verus! {

#[derive(Clone, Copy, Debug)]
pub struct BybitMapper;

/// The native symbol of a normalized one where pairs are written joined:
/// base and quote end to end, in upper case, for spot and perpetual alike.
pub open spec fn joined_native(normalized: Seq<char>, itype: InstrumentType) -> Result<
    Seq<char>,
    MapperError,
> {
    match pair_of(normalized) {
        None => Err(MapperError::InvalidSymbol),
        Some(pair) => match itype {
            InstrumentType::Spot | InstrumentType::Perp => Ok(uppercase(pair.0 + pair.1)),
            _ => Err(MapperError::UnsupportedInstrument),
        },
    }
}

/// The pair of a joined native symbol, for spot and perpetual alike.
pub open spec fn joined_pair(native: Seq<char>, itype: InstrumentType) -> Result<
    Pair,
    MapperError,
> {
    match itype {
        InstrumentType::Spot | InstrumentType::Perp => match pair_by_suffix(native) {
            Some(pair) => Ok(pair),
            None => Err(MapperError::InvalidSymbol),
        },
        _ => Err(MapperError::UnsupportedInstrument),
    }
}

/// The native symbol of a normalized one where pairs are written joined.
pub fn denormalize_joined(normalized: &str, itype: InstrumentType) -> (r: Result<
    String,
    MapperError,
>)
    ensures
        crate::mappers::symbol_mapper::text_of(r) == joined_native(normalized@, itype),
{
    let (base, quote) = match split_pair(normalized) {
        Some(pair) => pair,
        None => {
            return Err(MapperError::InvalidSymbol);
        },
    };
    match itype {
        InstrumentType::Spot | InstrumentType::Perp => {
            let joined = concat2(base.as_str(), quote.as_str());
            Ok(to_upper(joined.as_str()))
        },
        _ => Err(MapperError::UnsupportedInstrument),
    }
}

/// The pair of a joined native symbol.
pub fn parse_joined(native: &str, itype: InstrumentType) -> (r: Result<
    (String, String),
    MapperError,
>)
    ensures
        crate::mappers::symbol_mapper::pair_text_of(r) == joined_pair(native@, itype),
{
    match itype {
        InstrumentType::Spot | InstrumentType::Perp => match parse_by_suffix(native) {
            Some(pair) => Ok(pair),
            None => Err(MapperError::InvalidSymbol),
        },
        _ => Err(MapperError::UnsupportedInstrument),
    }
}

impl SymbolMapper for BybitMapper {
    open spec fn parsed(&self, native: Seq<char>, itype: InstrumentType) -> Result<
        Pair,
        MapperError,
    > {
        joined_pair(native, itype)
    }

    open spec fn denormalized(&self, normalized: Seq<char>, itype: InstrumentType) -> Result<
        Seq<char>,
        MapperError,
    > {
        joined_native(normalized, itype)
    }

    open spec fn exchange_name(&self) -> Seq<char> {
        "binance"@
    }

    fn normalize(&self, native: &str, itype: InstrumentType) -> (r: Result<String, MapperError>) {
        match self.parse(native, itype) {
            Ok((base, quote)) => Ok(normalized_name(itype, base.as_str(), quote.as_str())),
            Err(error) => Err(error),
        }
    }

    fn denormalize(&self, normalized: &str, itype: InstrumentType) -> (r: Result<
        String,
        MapperError,
    >) {
        denormalize_joined(normalized, itype)
    }

    fn parse(&self, native: &str, itype: InstrumentType) -> (r: Result<
        (String, String),
        MapperError,
    >) {
        parse_joined(native, itype)
    }

    fn exchange(&self) -> (name: &str) {
        "binance"
    }
}

} // verus!
